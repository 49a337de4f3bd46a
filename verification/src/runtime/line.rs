//! Lines that are put together without allocation.

use vstd::prelude::*;

pub mod laws;
use vstd::string::StringSliceAdditionalSpecFns;

verus! {

/// The most bytes that a line holds; what does not fit is cut off.
pub const LINE_SIZE: usize = 192;

/// A line with more bytes behind it, cut off at the size of a line.
pub open spec fn pushed(line: Seq<u8>, more: Seq<u8>) -> Seq<u8> {
    if line.len() + more.len() <= LINE_SIZE {
        line + more
    } else {
        (line + more).take(LINE_SIZE as int)
    }
}

/// The ASCII digit below sixteen.
pub open spec fn ascii_digit(value: nat) -> u8 {
    if value < 10 {
        (48 + value) as u8
    } else {
        (87 + value) as u8
    }
}

/// The decimal spelling of a number, without leading zeros.
pub open spec fn decimal_ascii(value: nat) -> Seq<u8>
    decreases value,
{
    if value < 10 {
        seq![ascii_digit(value)]
    } else {
        decimal_ascii(value / 10).push(ascii_digit(value % 10))
    }
}

/// The lower-case hexadecimal spelling of a number, without leading zeros.
pub open spec fn hexadecimal_ascii(value: nat) -> Seq<u8>
    decreases value,
{
    if value < 16 {
        seq![ascii_digit(value)]
    } else {
        hexadecimal_ascii(value / 16).push(ascii_digit(value % 16))
    }
}

/// The decimal spelling of a number with its sign.
pub open spec fn signed_ascii(value: int) -> Seq<u8> {
    if value < 0 {
        seq![45u8] + decimal_ascii((-value) as nat)
    } else {
        decimal_ascii(value as nat)
    }
}

/// Both hexadecimal digits of a byte.
pub open spec fn hex_byte_ascii(value: u8) -> Seq<u8> {
    seq![ascii_digit((value / 16) as nat), ascii_digit((value % 16) as nat)]
}

/// Bytes in hexadecimal, from `index` on, with dashes before all but the first.
pub open spec fn dashed_ascii(bytes: Seq<u8>, index: int) -> Seq<u8>
    decreases bytes.len() - index,
{
    if index >= bytes.len() {
        Seq::empty()
    } else if index == 0 {
        hex_byte_ascii(bytes[0]) + dashed_ascii(bytes, 1)
    } else {
        seq![45u8] + hex_byte_ascii(bytes[index]) + dashed_ascii(bytes, index + 1)
    }
}

#[derive(Debug)]
pub struct StackLine {
    bytes: [u8; 192],
    len: usize,
}

impl View for StackLine {
    type V = Seq<u8>;

    closed spec fn view(&self) -> Seq<u8> {
        self.bytes@.take(self.len as int)
    }
}

proof fn pushed_twice(line: Seq<u8>, first: Seq<u8>, second: Seq<u8>)
    requires
        line.len() <= LINE_SIZE,
    ensures
        pushed(pushed(line, first), second) == pushed(line, first + second),
{
    assert(pushed(pushed(line, first), second) =~= pushed(line, first + second));
}

impl StackLine {
    #[verifier::type_invariant]
    spec fn fits(self) -> bool {
        self.len <= 192
    }

    pub fn new() -> (line: Self)
        ensures
            line@ == Seq::<u8>::empty(),
    {
        let line = StackLine { bytes: [0;192], len: 0 };
        assert(line@ =~= Seq::empty());
        line
    }

    /// The bytes of the line.
    pub fn as_slice(&self) -> (bytes: &[u8])
        ensures
            bytes@ == self@,
            bytes.len() <= LINE_SIZE,
    {
        proof {
            use_type_invariant(self);
        }
        let bytes: &[u8] = &self.bytes[0..self.len];
        assert(bytes@ =~= self@);
        bytes
    }

    pub fn push_bytes(&mut self, bytes: &[u8])
        ensures
            final(self)@ == pushed(old(self)@, bytes@),
            old(self)@.len() <= LINE_SIZE,
    {
        proof {
            use_type_invariant(&*self);
        }
        let start: usize = self.len;
        let mut content: [u8; 192] = self.bytes;
        let available: usize = LINE_SIZE - start;
        let count: usize = if available < bytes.len() {
            available
        } else {
            bytes.len()
        };
        let mut index: usize = 0;
        while index < count
            invariant
                index <= count,
                count <= bytes.len(),
                start + count <= 192,
                forall|i: int| 0 <= i < start ==> #[trigger] content@[i] == old(self).bytes@[i],
                forall|i: int|
                    start <= i < start + index ==> #[trigger] content@[i] == bytes@[i - start],
            decreases count - index,
        {
            content[start + index] = bytes[index];
            index = index + 1;
        }
        self.bytes = content;
        self.len = start + count;
        assert(self@ =~= pushed(old(self)@, bytes@));
    }

    pub fn push_text(&mut self, text: &str)
        ensures
            final(self)@ == pushed(old(self)@, text.spec_bytes()),
            old(self)@.len() <= LINE_SIZE,
    {
        self.push_bytes(text.as_bytes());
    }

    pub fn push_unsigned(&mut self, value: u64)
        ensures
            final(self)@ == pushed(old(self)@, decimal_ascii(value as nat)),
            old(self)@.len() <= LINE_SIZE,
        decreases value,
    {
        let last: [u8; 1] = [48 + (value % 10) as u8];
        assert(last@ =~= seq![ascii_digit((value % 10) as nat)]);
        if value >= 10 {
            self.push_unsigned(value / 10);
            self.push_bytes(&last);
            proof {
                pushed_twice(old(self)@, decimal_ascii((value / 10) as nat), last@);
                assert(decimal_ascii(value as nat) =~= decimal_ascii((value / 10) as nat) + last@);
            }
        } else {
            self.push_bytes(&last);
        }
    }

    pub fn push_signed(&mut self, value: i64)
        ensures
            final(self)@ == pushed(old(self)@, signed_ascii(value as int)),
            old(self)@.len() <= LINE_SIZE,
    {
        if value < 0 {
            let minus: [u8; 1] = [45];
            assert(minus@ =~= seq![45u8]);
            self.push_bytes(&minus);
            let magnitude: u64 = (-(value + 1)) as u64 + 1;
            self.push_unsigned(magnitude);
            proof {
                pushed_twice(old(self)@, minus@, decimal_ascii(magnitude as nat));
            }
        } else {
            self.push_unsigned(value as u64);
        }
    }

    pub fn push_hex(&mut self, value: u64)
        ensures
            final(self)@ == pushed(old(self)@, hexadecimal_ascii(value as nat)),
            old(self)@.len() <= LINE_SIZE,
        decreases value,
    {
        let last: [u8; 1] = [hex_digit((value % 16) as u8)];
        assert(last@ =~= seq![ascii_digit((value % 16) as nat)]);
        if value >= 16 {
            self.push_hex(value / 16);
            self.push_bytes(&last);
            proof {
                pushed_twice(old(self)@, hexadecimal_ascii((value / 16) as nat), last@);
                assert(hexadecimal_ascii(value as nat) =~= hexadecimal_ascii((value / 16) as nat)
                    + last@);
            }
        } else {
            self.push_bytes(&last);
        }
    }

    pub fn push_hex_byte(&mut self, value: u8)
        ensures
            final(self)@ == pushed(old(self)@, hex_byte_ascii(value)),
            old(self)@.len() <= LINE_SIZE,
    {
        let digits: [u8; 2] = [hex_digit(value / 16), hex_digit(value % 16)];
        assert(digits@ =~= hex_byte_ascii(value));
        self.push_bytes(&digits);
    }

    fn push_hex_field(&mut self, label: &str, value: u64)
        ensures
            final(self)@ == pushed(
                old(self)@,
                label.spec_bytes() + hexadecimal_ascii(value as nat),
            ),
            old(self)@.len() <= LINE_SIZE,
    {
        self.push_text(label);
        self.push_hex(value);
        proof {
            pushed_twice(old(self)@, label.spec_bytes(), hexadecimal_ascii(value as nat));
        }
    }

    fn push_dashed(&mut self, bytes: &[u8])
        ensures
            final(self)@ == pushed(old(self)@, dashed_ascii(bytes@, 0)),
            old(self)@.len() <= LINE_SIZE,
    {
        proof {
            use_type_invariant(&*self);
            assert(old(self)@ =~= pushed(old(self)@, Seq::empty()));
        }
        let ghost mut before: Seq<u8> = Seq::empty();
        assert(before + dashed_ascii(bytes@, 0) =~= dashed_ascii(bytes@, 0));
        let mut index: usize = 0;
        while index < bytes.len()
            invariant
                index <= bytes.len(),
                old(self)@.len() <= LINE_SIZE,
                self@ == pushed(old(self)@, before),
                before + dashed_ascii(bytes@, index as int) == dashed_ascii(bytes@, 0),
            decreases bytes.len() - index,
        {
            let ghost rest = dashed_ascii(bytes@, index + 1);
            let ghost byte = hex_byte_ascii(bytes@[index as int]);
            if index != 0 {
                let dash: [u8; 1] = [45];
                assert(dash@ =~= seq![45u8]);
                self.push_bytes(&dash);
                proof {
                    pushed_twice(old(self)@, before, dash@);
                    assert(before + (dash@ + byte + rest) =~= (before + dash@) + (byte + rest));
                    before = before + dash@;
                }
            }
            self.push_hex_byte(bytes[index]);
            proof {
                pushed_twice(old(self)@, before, byte);
                assert(before + (byte + rest) =~= (before + byte) + rest);
                before = before + byte;
            }
            index = index + 1;
        }
        assert(before =~= dashed_ascii(bytes@, 0));
    }
}

fn hex_digit(value: u8) -> (digit: u8)
    requires
        value < 16,
    ensures
        digit == ascii_digit(value as nat),
{
    if value < 10 {
        48 + value
    } else {
        87 + value
    }
}

// ---------------------------------------------------------------------------
// The lines of the runtime
// ---------------------------------------------------------------------------

/// One end of a line.
pub open spec fn line_end() -> Seq<u8> {
    "\n".spec_bytes()
}

/// The trace of one system call. A channel with a cookie also names the process.
pub open spec fn trace_ascii(cookie: u64, pid: i64, number: i64) -> Seq<u8> {
    let head = "reverie-liteinst: tool=compat".spec_bytes();
    let identity = if cookie != 0 {
        " cookie=".spec_bytes() + decimal_ascii(cookie as nat) + " pid=".spec_bytes()
            + signed_ascii(pid as int)
    } else {
        Seq::empty()
    };
    head + identity + " syscall=".spec_bytes() + signed_ascii(number as int) + line_end()
}

/// What every stage marker starts with.
pub open spec fn stage_head_ascii(pid: i64, tid: i64, stage: Seq<u8>) -> Seq<u8> {
    "INFO reverie_liteinst::tool_host: [in-guest pid=".spec_bytes() + signed_ascii(pid as int)
        + " tid=".spec_bytes() + signed_ascii(tid as int) + "] stage=".spec_bytes() + stage
}

/// Where an instruction was refused.
pub struct Refusal<'a> {
    pub rip_offset: u64,
    pub fault_address: u64,
    pub stack_pointer: u64,
    pub mapping_name: &'a [u8],
    pub mapping_len: u64,
    pub bytes: &'a [u8],
}

pub open spec fn refusal_place_ascii(refusal: Refusal<'_>) -> Seq<u8> {
    (" rip-offset=0x".spec_bytes() + hexadecimal_ascii(refusal.rip_offset as nat)) + (
    " fault=0x".spec_bytes() + hexadecimal_ascii(refusal.fault_address as nat)) + (
    " rsp=0x".spec_bytes() + hexadecimal_ascii(refusal.stack_pointer as nat))
}

pub open spec fn refusal_mapping_ascii(refusal: Refusal<'_>) -> Seq<u8> {
    " map=".spec_bytes() + refusal.mapping_name@ + (" map-len=0x".spec_bytes() + hexadecimal_ascii(
        refusal.mapping_len as nat,
    )) + " bytes=".spec_bytes() + dashed_ascii(refusal.bytes@, 0)
}

pub open spec fn refusal_ascii(refusal: Refusal<'_>) -> Seq<u8> {
    refusal_place_ascii(refusal) + refusal_mapping_ascii(refusal)
}

proof fn extended(line: Seq<u8>, before: Seq<u8>, more: Seq<u8>)
    requires
        line == pushed(Seq::empty(), before),
    ensures
        pushed(line, more) == pushed(Seq::empty(), before + more),
{
    pushed_twice(Seq::empty(), before, more);
}

pub fn trace_line(cookie: u64, pid: i64, number: i64) -> (line: StackLine)
    ensures
        line@ == pushed(Seq::empty(), trace_ascii(cookie, pid, number)),
{
    let mut line = StackLine::new();
    let ghost mut text = "reverie-liteinst: tool=compat".spec_bytes();
    line.push_text("reverie-liteinst: tool=compat");
    if cookie != 0 {
        proof {
            extended(line@, text, " cookie=".spec_bytes());
            text = text + " cookie=".spec_bytes();
        }
        line.push_text(" cookie=");
        proof {
            extended(line@, text, decimal_ascii(cookie as nat));
            text = text + decimal_ascii(cookie as nat);
        }
        line.push_unsigned(cookie);
        proof {
            extended(line@, text, " pid=".spec_bytes());
            text = text + " pid=".spec_bytes();
        }
        line.push_text(" pid=");
        proof {
            extended(line@, text, signed_ascii(pid as int));
            text = text + signed_ascii(pid as int);
        }
        line.push_signed(pid);
    }
    proof {
        extended(line@, text, " syscall=".spec_bytes());
        text = text + " syscall=".spec_bytes();
    }
    line.push_text(" syscall=");
    proof {
        extended(line@, text, signed_ascii(number as int));
        text = text + signed_ascii(number as int);
    }
    line.push_signed(number);
    proof {
        extended(line@, text, line_end());
        text = text + line_end();
        assert(text =~= trace_ascii(cookie, pid, number));
    }
    line.push_text("\n");
    line
}

fn stage_head(pid: i64, tid: i64, stage: &[u8]) -> (line: StackLine)
    ensures
        line@ == pushed(Seq::empty(), stage_head_ascii(pid, tid, stage@)),
{
    let mut line = StackLine::new();
    let ghost mut text = "INFO reverie_liteinst::tool_host: [in-guest pid=".spec_bytes();
    line.push_text("INFO reverie_liteinst::tool_host: [in-guest pid=");
    proof {
        extended(line@, text, signed_ascii(pid as int));
        text = text + signed_ascii(pid as int);
    }
    line.push_signed(pid);
    proof {
        extended(line@, text, " tid=".spec_bytes());
        text = text + " tid=".spec_bytes();
    }
    line.push_text(" tid=");
    proof {
        extended(line@, text, signed_ascii(tid as int));
        text = text + signed_ascii(tid as int);
    }
    line.push_signed(tid);
    proof {
        extended(line@, text, "] stage=".spec_bytes());
        text = text + "] stage=".spec_bytes();
    }
    line.push_text("] stage=");
    proof {
        extended(line@, text, stage@);
    }
    line.push_bytes(stage);
    line
}

/// The marker of one stage.
fn stage_line(pid: i64, tid: i64, stage: &[u8]) -> (line: StackLine)
    ensures
        line@ == pushed(Seq::empty(), stage_head_ascii(pid, tid, stage@) + line_end()),
{
    let mut line = stage_head(pid, tid, stage);
    proof {
        extended(line@, stage_head_ascii(pid, tid, stage@), line_end());
    }
    line.push_text("\n");
    line
}

/// The marker of a refused instruction.
fn refusal_line(pid: i64, tid: i64, stage: &[u8], refusal: &Refusal<'_>) -> (line: StackLine)
    ensures
        line@ == pushed(
            Seq::empty(),
            stage_head_ascii(pid, tid, stage@) + refusal_ascii(*refusal) + line_end(),
        ),
{
    let mut line = stage_head(pid, tid, stage);
    push_refusal(&mut line, refusal);
    proof {
        let head = stage_head_ascii(pid, tid, stage@);
        extended(pushed(Seq::empty(), head), head, refusal_ascii(*refusal));
        extended(line@, head + refusal_ascii(*refusal), line_end());
    }
    line.push_text("\n");
    line
}

/// The stage marker that is written, if the stream of markers is on.
pub fn emit_in_guest_stage(stream: bool, pid: i64, tid: i64, stage: &[u8]) -> (marker: Option<
    StackLine,
>)
    ensures
        marker is Some <==> stream,
        marker matches Some(line) ==> line@ == pushed(
            Seq::empty(),
            stage_head_ascii(pid, tid, stage@) + line_end(),
        ),
{
    if stream {
        Some(stage_line(pid, tid, stage))
    } else {
        None
    }
}

/// The marker of a refused instruction that is written, if the stream of markers is on.
pub fn emit_instruction_refusal_stage(
    stream: bool,
    pid: i64,
    tid: i64,
    stage: &[u8],
    refusal: &Refusal<'_>,
) -> (marker: Option<StackLine>)
    ensures
        marker is Some <==> stream,
        marker matches Some(line) ==> line@ == pushed(
            Seq::empty(),
            stage_head_ascii(pid, tid, stage@) + refusal_ascii(*refusal) + line_end(),
        ),
{
    if stream {
        Some(refusal_line(pid, tid, stage, refusal))
    } else {
        None
    }
}

fn push_refusal(line: &mut StackLine, refusal: &Refusal<'_>)
    ensures
        final(line)@ == pushed(old(line)@, refusal_ascii(*refusal)),
        old(line)@.len() <= LINE_SIZE,
{
    push_refusal_place(line, refusal);
    push_refusal_mapping(line, refusal);
    proof {
        pushed_twice(old(line)@, refusal_place_ascii(*refusal), refusal_mapping_ascii(*refusal));
    }
}

fn push_refusal_place(line: &mut StackLine, refusal: &Refusal<'_>)
    ensures
        final(line)@ == pushed(old(line)@, refusal_place_ascii(*refusal)),
        old(line)@.len() <= LINE_SIZE,
{
    let ghost offset = " rip-offset=0x".spec_bytes() + hexadecimal_ascii(refusal.rip_offset as nat);
    let ghost fault = " fault=0x".spec_bytes() + hexadecimal_ascii(refusal.fault_address as nat);
    let ghost stack = " rsp=0x".spec_bytes() + hexadecimal_ascii(refusal.stack_pointer as nat);
    line.push_hex_field(" rip-offset=0x", refusal.rip_offset);
    line.push_hex_field(" fault=0x", refusal.fault_address);
    line.push_hex_field(" rsp=0x", refusal.stack_pointer);
    proof {
        pushed_twice(old(line)@, offset, fault);
        pushed_twice(old(line)@, offset + fault, stack);
    }
}

fn push_refusal_mapping(line: &mut StackLine, refusal: &Refusal<'_>)
    ensures
        final(line)@ == pushed(old(line)@, refusal_mapping_ascii(*refusal)),
        old(line)@.len() <= LINE_SIZE,
{
    let ghost map = " map=".spec_bytes();
    let ghost length = " map-len=0x".spec_bytes() + hexadecimal_ascii(refusal.mapping_len as nat);
    let ghost name = refusal.mapping_name@;
    let ghost label = " bytes=".spec_bytes();
    line.push_text(" map=");
    line.push_bytes(refusal.mapping_name);
    line.push_hex_field(" map-len=0x", refusal.mapping_len);
    line.push_text(" bytes=");
    line.push_dashed(refusal.bytes);
    proof {
        pushed_twice(old(line)@, map, name);
        pushed_twice(old(line)@, map + name, length);
        pushed_twice(old(line)@, map + name + length, label);
        pushed_twice(old(line)@, map + name + length + label, dashed_ascii(refusal.bytes@, 0));
    }
}

/// A line keeps the first bytes that were pushed, whatever follows, and never grows
/// beyond its size.
pub proof fn lines_keep_their_beginning(line: Seq<u8>, more: Seq<u8>)
    requires
        line.len() <= LINE_SIZE,
    ensures
        pushed(line, more).len() <= LINE_SIZE,
        line.is_prefix_of(pushed(line, more)),
        line.len() + more.len() <= LINE_SIZE ==> pushed(line, more) == line + more,
{
    assert(line =~= pushed(line, more).subrange(0, line.len() as int));
}

} // verus!
