//! Starting-state binding for an owned CPU step, without predicting its results.

use iced_x86::Decoder;
use iced_x86::DecoderOptions;
use iced_x86::InstructionInfoFactory;

use vstd::prelude::*;

pub mod laws;

use crate::registers::general;
use crate::registers::general_of;
use crate::registers::same_words;
use crate::registers::HookContext;
use crate::registers::REG_EFL;
use crate::registers::REG_ERR;
use crate::registers::REG_RIP;
use crate::registers::REG_TRAPNO;
use crate::registers::RESUME_FLAG;
use crate::registers::TRAP_FLAG;
use crate::startup::USER_END;

verus! {

// ---------------------------------------------------------------------------
// What the instruction decoder reports
// ---------------------------------------------------------------------------

/// How an instruction passes control on.
#[derive(Clone, Copy, Debug, PartialEq, Eq, Structural)]
pub enum Flow {
    Next,
    UnconditionalBranch,
    IndirectBranch,
    ConditionalBranch,
    Return,
    Call,
    IndirectCall,
    Interrupt,
    XbeginXabortXend,
    Exception,
}

/// One register of an instruction.
#[derive(Clone, Copy, Debug, PartialEq, Eq, Structural)]
pub struct UsedRegister {
    pub segment: bool,
    pub access: u32,
}

// Numbers of the decoder's kinds of access.

pub const ACCESS_WRITE: u32 = 3;

pub const ACCESS_COND_WRITE: u32 = 4;

pub const ACCESS_READ_WRITE: u32 = 5;

pub const ACCESS_READ_COND_WRITE: u32 = 6;

// Numbers of the decoder's mnemonics.

pub const MNEMONIC_RET: u32 = 662;

pub const MNEMONIC_PUSHF: u32 = 642;

pub const MNEMONIC_PUSHFD: u32 = 1614;

pub const MNEMONIC_PUSHFQ: u32 = 1615;

pub const MNEMONIC_POPF: u32 = 593;

pub const MNEMONIC_POPFD: u32 = 1616;

pub const MNEMONIC_POPFQ: u32 = 1617;

pub const MNEMONIC_IRET: u32 = 296;

pub const MNEMONIC_IRETD: u32 = 1618;

pub const MNEMONIC_IRETQ: u32 = 1619;

pub const MNEMONIC_LSS: u32 = 394;

pub const MNEMONIC_CPUID: u32 = 106;

pub const MNEMONIC_RDTSC: u32 = 659;

pub const MNEMONIC_RDTSCP: u32 = 660;

pub const MNEMONIC_RDRAND: u32 = 655;

pub const MNEMONIC_RDSEED: u32 = 656;

pub const MNEMONIC_RDPMC: u32 = 653;

pub const MNEMONIC_RDPID: u32 = 651;

pub const MNEMONIC_RDPRU: u32 = 654;

pub const MNEMONIC_RDFSBASE: u32 = 648;

pub const MNEMONIC_RDGSBASE: u32 = 649;

pub const MNEMONIC_WRFSBASE: u32 = 1497;

pub const MNEMONIC_WRGSBASE: u32 = 1498;

pub const MNEMONIC_RDPKRU: u32 = 652;

pub const MNEMONIC_WRPKRU: u32 = 1500;

pub const MNEMONIC_XGETBV: u32 = 1516;

pub const MNEMONIC_XSETBV: u32 = 1533;

pub const MNEMONIC_XSAVE: u32 = 1525;

pub const MNEMONIC_XSAVE64: u32 = 1526;

pub const MNEMONIC_XSAVEC: u32 = 1527;

pub const MNEMONIC_XSAVEC64: u32 = 1528;

pub const MNEMONIC_XSAVEOPT: u32 = 1529;

pub const MNEMONIC_XSAVEOPT64: u32 = 1530;

pub const MNEMONIC_XSAVES: u32 = 1531;

pub const MNEMONIC_XSAVES64: u32 = 1532;

pub const MNEMONIC_XRSTOR: u32 = 1521;

pub const MNEMONIC_XRSTOR64: u32 = 1522;

pub const MNEMONIC_XRSTORS: u32 = 1523;

pub const MNEMONIC_XRSTORS64: u32 = 1524;

pub const MNEMONIC_XBEGIN: u32 = 1507;

pub const MNEMONIC_XEND: u32 = 1515;

pub const MNEMONIC_XABORT: u32 = 1505;

pub const MNEMONIC_XTEST: u32 = 1537;

pub const MNEMONIC_MONITOR: u32 = 411;

pub const MNEMONIC_MONITORX: u32 = 412;

pub const MNEMONIC_MWAIT: u32 = 462;

pub const MNEMONIC_MWAITX: u32 = 463;

pub const MNEMONIC_UMONITOR: u32 = 760;

pub const MNEMONIC_UMWAIT: u32 = 762;

pub const MNEMONIC_TPAUSE: u32 = 752;

pub const MNEMONIC_SGDT: u32 = 704;

pub const MNEMONIC_SIDT: u32 = 720;

pub const MNEMONIC_SLDT: u32 = 722;

pub const MNEMONIC_SMSW: u32 = 724;

pub const MNEMONIC_STR: u32 = 739;

pub const MNEMONIC_LAR: u32 = 370;

pub const MNEMONIC_LSL: u32 = 393;

pub const MNEMONIC_VERR: u32 = 869;

pub const MNEMONIC_VERW: u32 = 870;

pub const MNEMONIC_ENQCMD: u32 = 153;

pub const MNEMONIC_ENQCMDS: u32 = 154;

pub const MNEMONIC_XSTORE: u32 = 1536;

pub const MNEMONIC_XSTORE_ALT: u32 = 1835;

pub const MNEMONIC_RSTORSSP: u32 = 674;

pub const MNEMONIC_SAVEPREVSSP: u32 = 680;

pub const MNEMONIC_SETSSBSY: u32 = 702;

pub const MNEMONIC_CLRSSBSY: u32 = 72;

pub const MNEMONIC_INCSSPD: u32 = 280;

pub const MNEMONIC_INCSSPQ: u32 = 281;

pub const MNEMONIC_WRSSD: u32 = 1501;

pub const MNEMONIC_WRSSQ: u32 = 1502;

pub const MNEMONIC_WRUSSD: u32 = 1503;

pub const MNEMONIC_WRUSSQ: u32 = 1504;

/// Whether the bytes at `pc` are no instruction.
pub uninterp spec fn decodes_invalid(bytes: Seq<u8>, pc: u64) -> bool;

/// Decodes with `iced_x86::Decoder` in 64-bit mode at `pc` and asks
/// `Instruction::is_invalid`. The reply depends on the bytes and the address alone.
#[verifier::external_body]
fn is_invalid(bytes: &[u8], pc: u64) -> (result: bool)
    ensures
        result == decodes_invalid(bytes@, pc),
{
    Decoder::with_ip(64, bytes, pc, DecoderOptions::NONE).decode().is_invalid()
}

/// Whether the instruction needs a privileged CPU state.
pub uninterp spec fn decodes_privileged(bytes: Seq<u8>, pc: u64) -> bool;

/// Decodes with `iced_x86::Decoder` in 64-bit mode at `pc` and asks
/// `Instruction::is_privileged`. The reply depends on the bytes and the address alone.
#[verifier::external_body]
fn is_privileged(bytes: &[u8], pc: u64) -> (result: bool)
    ensures
        result == decodes_privileged(bytes@, pc),
{
    Decoder::with_ip(64, bytes, pc, DecoderOptions::NONE).decode().is_privileged()
}

/// Whether the instruction is a near call.
pub uninterp spec fn decodes_call_near(bytes: Seq<u8>, pc: u64) -> bool;

/// Decodes with `iced_x86::Decoder` in 64-bit mode at `pc` and asks
/// `Instruction::is_call_near`. The reply depends on the bytes and the address alone.
#[verifier::external_body]
fn is_call_near(bytes: &[u8], pc: u64) -> (result: bool)
    ensures
        result == decodes_call_near(bytes@, pc),
{
    Decoder::with_ip(64, bytes, pc, DecoderOptions::NONE).decode().is_call_near()
}

/// Whether the instruction is a near indirect call.
pub uninterp spec fn decodes_call_near_indirect(bytes: Seq<u8>, pc: u64) -> bool;

/// Decodes with `iced_x86::Decoder` in 64-bit mode at `pc` and asks
/// `Instruction::is_call_near_indirect`. The reply depends on the bytes and the address alone.
#[verifier::external_body]
fn is_call_near_indirect(bytes: &[u8], pc: u64) -> (result: bool)
    ensures
        result == decodes_call_near_indirect(bytes@, pc),
{
    Decoder::with_ip(64, bytes, pc, DecoderOptions::NONE).decode().is_call_near_indirect()
}

/// Whether the instruction is a far jump.
pub uninterp spec fn decodes_jmp_far(bytes: Seq<u8>, pc: u64) -> bool;

/// Decodes with `iced_x86::Decoder` in 64-bit mode at `pc` and asks
/// `Instruction::is_jmp_far`. The reply depends on the bytes and the address alone.
#[verifier::external_body]
fn is_jmp_far(bytes: &[u8], pc: u64) -> (result: bool)
    ensures
        result == decodes_jmp_far(bytes@, pc),
{
    Decoder::with_ip(64, bytes, pc, DecoderOptions::NONE).decode().is_jmp_far()
}

/// Whether the instruction is a far indirect jump.
pub uninterp spec fn decodes_jmp_far_indirect(bytes: Seq<u8>, pc: u64) -> bool;

/// Decodes with `iced_x86::Decoder` in 64-bit mode at `pc` and asks
/// `Instruction::is_jmp_far_indirect`. The reply depends on the bytes and the address alone.
#[verifier::external_body]
fn is_jmp_far_indirect(bytes: &[u8], pc: u64) -> (result: bool)
    ensures
        result == decodes_jmp_far_indirect(bytes@, pc),
{
    Decoder::with_ip(64, bytes, pc, DecoderOptions::NONE).decode().is_jmp_far_indirect()
}

/// Whether the instruction has the XACQUIRE prefix.
pub uninterp spec fn decodes_xacquire(bytes: Seq<u8>, pc: u64) -> bool;

/// Decodes with `iced_x86::Decoder` in 64-bit mode at `pc` and asks
/// `Instruction::has_xacquire_prefix`. The reply depends on the bytes and the address alone.
#[verifier::external_body]
fn has_xacquire_prefix(bytes: &[u8], pc: u64) -> (result: bool)
    ensures
        result == decodes_xacquire(bytes@, pc),
{
    Decoder::with_ip(64, bytes, pc, DecoderOptions::NONE).decode().has_xacquire_prefix()
}

/// Whether the instruction has the XRELEASE prefix.
pub uninterp spec fn decodes_xrelease(bytes: Seq<u8>, pc: u64) -> bool;

/// Decodes with `iced_x86::Decoder` in 64-bit mode at `pc` and asks
/// `Instruction::has_xrelease_prefix`. The reply depends on the bytes and the address alone.
#[verifier::external_body]
fn has_xrelease_prefix(bytes: &[u8], pc: u64) -> (result: bool)
    ensures
        result == decodes_xrelease(bytes@, pc),
{
    Decoder::with_ip(64, bytes, pc, DecoderOptions::NONE).decode().has_xrelease_prefix()
}

/// How long the instruction is.
pub uninterp spec fn decoded_length(bytes: Seq<u8>, pc: u64) -> usize;

/// Decodes with `iced_x86::Decoder` in 64-bit mode at `pc` and asks
/// `Instruction::len`. The decoder reads at most fifteen bytes and never past the
/// end of its input, and the length is the number of bytes that it read.
#[verifier::external_body]
fn length(bytes: &[u8], pc: u64) -> (result: usize)
    ensures
        result == decoded_length(bytes@, pc),
        result <= 15,
        result <= bytes@.len(),
{
    Decoder::with_ip(64, bytes, pc, DecoderOptions::NONE).decode().len()
}

/// The number of the instruction's mnemonic.
pub uninterp spec fn decoded_mnemonic(bytes: Seq<u8>, pc: u64) -> u32;

/// Decodes with `iced_x86::Decoder` in 64-bit mode at `pc` and gives the number of
/// `Instruction::mnemonic`.
#[verifier::external_body]
fn mnemonic(bytes: &[u8], pc: u64) -> (result: u32)
    ensures
        result == decoded_mnemonic(bytes@, pc),
{
    Decoder::with_ip(64, bytes, pc, DecoderOptions::NONE).decode().mnemonic() as u32
}

/// How the instruction passes control on.
pub uninterp spec fn decoded_flow(bytes: Seq<u8>, pc: u64) -> Flow;

/// Decodes with `iced_x86::Decoder` in 64-bit mode at `pc` and gives
/// `Instruction::flow_control`, each variant as the variant of that name.
#[verifier::external_body]
fn flow_control(bytes: &[u8], pc: u64) -> (result: Flow)
    ensures
        result == decoded_flow(bytes@, pc),
{
    match Decoder::with_ip(64, bytes, pc, DecoderOptions::NONE).decode().flow_control() {
        iced_x86::FlowControl::Next => Flow::Next,
        iced_x86::FlowControl::UnconditionalBranch => Flow::UnconditionalBranch,
        iced_x86::FlowControl::IndirectBranch => Flow::IndirectBranch,
        iced_x86::FlowControl::ConditionalBranch => Flow::ConditionalBranch,
        iced_x86::FlowControl::Return => Flow::Return,
        iced_x86::FlowControl::Call => Flow::Call,
        iced_x86::FlowControl::IndirectCall => Flow::IndirectCall,
        iced_x86::FlowControl::Interrupt => Flow::Interrupt,
        iced_x86::FlowControl::XbeginXabortXend => Flow::XbeginXabortXend,
        iced_x86::FlowControl::Exception => Flow::Exception,
    }
}

/// The registers that the instruction uses.
pub uninterp spec fn decoded_registers(bytes: Seq<u8>, pc: u64) -> Seq<UsedRegister>;

/// Decodes with `iced_x86::Decoder` in 64-bit mode at `pc` and hands out
/// `InstructionInfo::used_registers`, in its order: whether each is a segment
/// register, and the number of its access.
#[verifier::external_body]
fn used_registers(bytes: &[u8], pc: u64) -> (result: Vec<UsedRegister>)
    ensures
        result@ == decoded_registers(bytes@, pc),
{
    let decoded = Decoder::with_ip(64, bytes, pc, DecoderOptions::NONE).decode();
    let mut factory = InstructionInfoFactory::new();
    let convert = |used: &iced_x86::UsedRegister| UsedRegister {
        segment: used.register().is_segment_register(),
        access: used.access() as u32,
    };
    factory.info(&decoded).used_registers().iter().map(convert).collect()
}

/// What the decoder says of one instruction.
#[derive(Debug)]
pub struct Facts {
    pub invalid: bool,
    pub privileged: bool,
    pub length: usize,
    pub flow: Flow,
    pub call_near: bool,
    pub call_near_indirect: bool,
    pub mnemonic: u32,
    pub jmp_far: bool,
    pub jmp_far_indirect: bool,
    pub xacquire: bool,
    pub xrelease: bool,
    pub registers: Vec<UsedRegister>,
}

/// `Facts` with the registers as a sequence.
pub struct FactsModel {
    pub invalid: bool,
    pub privileged: bool,
    pub length: usize,
    pub flow: Flow,
    pub call_near: bool,
    pub call_near_indirect: bool,
    pub mnemonic: u32,
    pub jmp_far: bool,
    pub jmp_far_indirect: bool,
    pub xacquire: bool,
    pub xrelease: bool,
    pub registers: Seq<UsedRegister>,
}

impl View for Facts {
    type V = FactsModel;

    open spec fn view(&self) -> FactsModel {
        FactsModel {
            invalid: self.invalid,
            privileged: self.privileged,
            length: self.length,
            flow: self.flow,
            call_near: self.call_near,
            call_near_indirect: self.call_near_indirect,
            mnemonic: self.mnemonic,
            jmp_far: self.jmp_far,
            jmp_far_indirect: self.jmp_far_indirect,
            xacquire: self.xacquire,
            xrelease: self.xrelease,
            registers: self.registers@,
        }
    }
}

/// What the decoder says of the bytes at `pc`.
pub open spec fn decoded(bytes: Seq<u8>, pc: u64) -> FactsModel {
    FactsModel {
        invalid: decodes_invalid(bytes, pc),
        privileged: decodes_privileged(bytes, pc),
        length: decoded_length(bytes, pc),
        flow: decoded_flow(bytes, pc),
        call_near: decodes_call_near(bytes, pc),
        call_near_indirect: decodes_call_near_indirect(bytes, pc),
        mnemonic: decoded_mnemonic(bytes, pc),
        jmp_far: decodes_jmp_far(bytes, pc),
        jmp_far_indirect: decodes_jmp_far_indirect(bytes, pc),
        xacquire: decodes_xacquire(bytes, pc),
        xrelease: decodes_xrelease(bytes, pc),
        registers: decoded_registers(bytes, pc),
    }
}

/// Asks the decoder about the bytes at `pc`.
pub fn inspect(pc: u64, bytes: &[u8]) -> (facts: Facts)
    ensures
        facts@ == decoded(bytes@, pc),
        facts.length <= 15,
        facts.length <= bytes@.len(),
{
    Facts {
        invalid: is_invalid(bytes, pc),
        privileged: is_privileged(bytes, pc),
        length: length(bytes, pc),
        flow: flow_control(bytes, pc),
        call_near: is_call_near(bytes, pc),
        call_near_indirect: is_call_near_indirect(bytes, pc),
        mnemonic: mnemonic(bytes, pc),
        jmp_far: is_jmp_far(bytes, pc),
        jmp_far_indirect: is_jmp_far_indirect(bytes, pc),
        xacquire: has_xacquire_prefix(bytes, pc),
        xrelease: has_xrelease_prefix(bytes, pc),
        registers: used_registers(bytes, pc),
    }
}

// ---------------------------------------------------------------------------
// Which instructions may be stepped
// ---------------------------------------------------------------------------

#[derive(Clone, Copy, Debug, PartialEq, Eq)]
pub struct Refusal {
    pub stage: &'static str,
    pub operand: Option<(u64, usize, bool)>,
}

/// A refusal without an operand.
pub open spec fn refusal_at(stage: &'static str) -> Refusal {
    Refusal { stage, operand: None }
}

impl Refusal {
    pub fn new(stage: &'static str) -> (refusal: Self)
        ensures
            refusal == refusal_at(stage),
    {
        Refusal { stage, operand: None }
    }
}

pub open spec fn access_writes(access: u32) -> bool {
    ||| access == ACCESS_WRITE
    ||| access == ACCESS_COND_WRITE
    ||| access == ACCESS_READ_WRITE
    ||| access == ACCESS_READ_COND_WRITE
}

fn writes(access: u32) -> (result: bool)
    ensures
        result == access_writes(access),
{
    access == ACCESS_WRITE || access == ACCESS_COND_WRITE || access == ACCESS_READ_WRITE || access
        == ACCESS_READ_COND_WRITE
}

/// Instructions that read or write the debug flags, or that load a stack segment.
pub open spec fn is_debug_control(mnemonic: u32) -> bool {
    ||| mnemonic == MNEMONIC_PUSHF
    ||| mnemonic == MNEMONIC_PUSHFD
    ||| mnemonic == MNEMONIC_PUSHFQ
    ||| mnemonic == MNEMONIC_POPF
    ||| mnemonic == MNEMONIC_POPFD
    ||| mnemonic == MNEMONIC_POPFQ
    ||| mnemonic == MNEMONIC_IRET
    ||| mnemonic == MNEMONIC_IRETD
    ||| mnemonic == MNEMONIC_IRETQ
    ||| mnemonic == MNEMONIC_LSS
}

/// Instructions whose results or effects are not those of the guest's own state.
pub open spec fn is_system_state(mnemonic: u32) -> bool {
    ||| mnemonic == MNEMONIC_CPUID
    ||| mnemonic == MNEMONIC_RDTSC
    ||| mnemonic == MNEMONIC_RDTSCP
    ||| mnemonic == MNEMONIC_RDRAND
    ||| mnemonic == MNEMONIC_RDSEED
    ||| mnemonic == MNEMONIC_RDPMC
    ||| mnemonic == MNEMONIC_RDPID
    ||| mnemonic == MNEMONIC_RDPRU
    ||| mnemonic == MNEMONIC_RDFSBASE
    ||| mnemonic == MNEMONIC_RDGSBASE
    ||| mnemonic == MNEMONIC_WRFSBASE
    ||| mnemonic == MNEMONIC_WRGSBASE
    ||| mnemonic == MNEMONIC_RDPKRU
    ||| mnemonic == MNEMONIC_WRPKRU
    ||| mnemonic == MNEMONIC_XGETBV
    ||| mnemonic == MNEMONIC_XSETBV
    ||| mnemonic == MNEMONIC_XSAVE
    ||| mnemonic == MNEMONIC_XSAVE64
    ||| mnemonic == MNEMONIC_XSAVEC
    ||| mnemonic == MNEMONIC_XSAVEC64
    ||| mnemonic == MNEMONIC_XSAVEOPT
    ||| mnemonic == MNEMONIC_XSAVEOPT64
    ||| mnemonic == MNEMONIC_XSAVES
    ||| mnemonic == MNEMONIC_XSAVES64
    ||| mnemonic == MNEMONIC_XRSTOR
    ||| mnemonic == MNEMONIC_XRSTOR64
    ||| mnemonic == MNEMONIC_XRSTORS
    ||| mnemonic == MNEMONIC_XRSTORS64
    ||| mnemonic == MNEMONIC_XBEGIN
    ||| mnemonic == MNEMONIC_XEND
    ||| mnemonic == MNEMONIC_XABORT
    ||| mnemonic == MNEMONIC_XTEST
    ||| mnemonic == MNEMONIC_MONITOR
    ||| mnemonic == MNEMONIC_MONITORX
    ||| mnemonic == MNEMONIC_MWAIT
    ||| mnemonic == MNEMONIC_MWAITX
    ||| mnemonic == MNEMONIC_UMONITOR
    ||| mnemonic == MNEMONIC_UMWAIT
    ||| mnemonic == MNEMONIC_TPAUSE
    ||| mnemonic == MNEMONIC_SGDT
    ||| mnemonic == MNEMONIC_SIDT
    ||| mnemonic == MNEMONIC_SLDT
    ||| mnemonic == MNEMONIC_SMSW
    ||| mnemonic == MNEMONIC_STR
    ||| mnemonic == MNEMONIC_LAR
    ||| mnemonic == MNEMONIC_LSL
    ||| mnemonic == MNEMONIC_VERR
    ||| mnemonic == MNEMONIC_VERW
    ||| mnemonic == MNEMONIC_ENQCMD
    ||| mnemonic == MNEMONIC_ENQCMDS
    ||| mnemonic == MNEMONIC_XSTORE
    ||| mnemonic == MNEMONIC_XSTORE_ALT
    ||| mnemonic == MNEMONIC_RSTORSSP
    ||| mnemonic == MNEMONIC_SAVEPREVSSP
    ||| mnemonic == MNEMONIC_SETSSBSY
    ||| mnemonic == MNEMONIC_CLRSSBSY
    ||| mnemonic == MNEMONIC_INCSSPD
    ||| mnemonic == MNEMONIC_INCSSPQ
    ||| mnemonic == MNEMONIC_WRSSD
    ||| mnemonic == MNEMONIC_WRSSQ
    ||| mnemonic == MNEMONIC_WRUSSD
    ||| mnemonic == MNEMONIC_WRUSSQ
}

fn debug_control(mnemonic: u32) -> (result: bool)
    ensures
        result == is_debug_control(mnemonic),
{
    mnemonic == MNEMONIC_PUSHF || mnemonic == MNEMONIC_PUSHFD || mnemonic == MNEMONIC_PUSHFQ
        || mnemonic == MNEMONIC_POPF || mnemonic == MNEMONIC_POPFD || mnemonic == MNEMONIC_POPFQ
        || mnemonic == MNEMONIC_IRET || mnemonic == MNEMONIC_IRETD || mnemonic == MNEMONIC_IRETQ
        || mnemonic == MNEMONIC_LSS
}

fn system_state(mnemonic: u32) -> (result: bool)
    ensures
        result == is_system_state(mnemonic),
{
    mnemonic == MNEMONIC_CPUID || mnemonic == MNEMONIC_RDTSC || mnemonic == MNEMONIC_RDTSCP
        || mnemonic == MNEMONIC_RDRAND || mnemonic == MNEMONIC_RDSEED
        || mnemonic == MNEMONIC_RDPMC || mnemonic == MNEMONIC_RDPID || mnemonic == MNEMONIC_RDPRU
        || mnemonic == MNEMONIC_RDFSBASE || mnemonic == MNEMONIC_RDGSBASE
        || mnemonic == MNEMONIC_WRFSBASE || mnemonic == MNEMONIC_WRGSBASE
        || mnemonic == MNEMONIC_RDPKRU || mnemonic == MNEMONIC_WRPKRU
        || mnemonic == MNEMONIC_XGETBV || mnemonic == MNEMONIC_XSETBV
        || mnemonic == MNEMONIC_XSAVE || mnemonic == MNEMONIC_XSAVE64
        || mnemonic == MNEMONIC_XSAVEC || mnemonic == MNEMONIC_XSAVEC64
        || mnemonic == MNEMONIC_XSAVEOPT || mnemonic == MNEMONIC_XSAVEOPT64
        || mnemonic == MNEMONIC_XSAVES || mnemonic == MNEMONIC_XSAVES64
        || mnemonic == MNEMONIC_XRSTOR || mnemonic == MNEMONIC_XRSTOR64
        || mnemonic == MNEMONIC_XRSTORS || mnemonic == MNEMONIC_XRSTORS64
        || mnemonic == MNEMONIC_XBEGIN || mnemonic == MNEMONIC_XEND || mnemonic == MNEMONIC_XABORT
        || mnemonic == MNEMONIC_XTEST || mnemonic == MNEMONIC_MONITOR
        || mnemonic == MNEMONIC_MONITORX || mnemonic == MNEMONIC_MWAIT
        || mnemonic == MNEMONIC_MWAITX || mnemonic == MNEMONIC_UMONITOR
        || mnemonic == MNEMONIC_UMWAIT || mnemonic == MNEMONIC_TPAUSE || mnemonic == MNEMONIC_SGDT
        || mnemonic == MNEMONIC_SIDT || mnemonic == MNEMONIC_SLDT || mnemonic == MNEMONIC_SMSW
        || mnemonic == MNEMONIC_STR || mnemonic == MNEMONIC_LAR || mnemonic == MNEMONIC_LSL
        || mnemonic == MNEMONIC_VERR || mnemonic == MNEMONIC_VERW || mnemonic == MNEMONIC_ENQCMD
        || mnemonic == MNEMONIC_ENQCMDS || mnemonic == MNEMONIC_XSTORE
        || mnemonic == MNEMONIC_XSTORE_ALT || mnemonic == MNEMONIC_RSTORSSP
        || mnemonic == MNEMONIC_SAVEPREVSSP || mnemonic == MNEMONIC_SETSSBSY
        || mnemonic == MNEMONIC_CLRSSBSY || mnemonic == MNEMONIC_INCSSPD
        || mnemonic == MNEMONIC_INCSSPQ || mnemonic == MNEMONIC_WRSSD
        || mnemonic == MNEMONIC_WRSSQ || mnemonic == MNEMONIC_WRUSSD
        || mnemonic == MNEMONIC_WRUSSQ
}

/// Control stays in the guest's own near code.
pub open spec fn ordinary_flow(facts: FactsModel) -> bool {
    &&& match facts.flow {
        Flow::Next => true,
        Flow::UnconditionalBranch => true,
        Flow::IndirectBranch => true,
        Flow::ConditionalBranch => true,
        Flow::Call => facts.call_near,
        Flow::IndirectCall => facts.call_near_indirect,
        Flow::Return => facts.mnemonic == MNEMONIC_RET,
        Flow::Interrupt => false,
        Flow::XbeginXabortXend => false,
        Flow::Exception => false,
    }
    &&& !facts.jmp_far
    &&& !facts.jmp_far_indirect
}

/// A segment register is written.
pub open spec fn writes_segment(registers: Seq<UsedRegister>) -> bool {
    exists|i: int|
        0 <= i < registers.len() && (#[trigger] registers[i]).segment && access_writes(
            registers[i].access,
        )
}

/// The stage at which an instruction at `pc` with these facts is refused.
pub open spec fn form_refusal(pc: u64, facts: FactsModel) -> Option<&'static str> {
    if pc == 0 || pc >= USER_END || facts.invalid || facts.privileged || pc + facts.length
        >= USER_END {
        Some("native/form")
    } else if !ordinary_flow(facts) {
        Some("native/control-transition")
    } else if is_debug_control(facts.mnemonic) {
        Some("native/debug-control")
    } else if is_system_state(facts.mnemonic) || facts.xacquire || facts.xrelease {
        Some("native/nondeterministic-or-system-state")
    } else if writes_segment(facts.registers) {
        Some("native/segment-state")
    } else {
        None
    }
}

/// The stage that a form check reaches: the refusing one, else the last.
pub open spec fn form_stage(pc: u64, facts: FactsModel) -> &'static str {
    match form_refusal(pc, facts) {
        Some(stage) => stage,
        None => "native/segment-state",
    }
}

fn any_segment_write(registers: &Vec<UsedRegister>) -> (result: bool)
    ensures
        result == writes_segment(registers@),
{
    let mut index: usize = 0;
    while index < registers.len()
        invariant
            index <= registers.len(),
            forall|i: int|
                0 <= i < index ==> !((#[trigger] registers@[i]).segment && access_writes(
                    registers@[i].access,
                )),
        decreases registers.len() - index,
    {
        if registers[index].segment && writes(registers[index].access) {
            return true;
        }
        index = index + 1;
    }
    false
}

/// Decides from the decoder's report whether the instruction at `pc` may be stepped.
/// The refusal is left at the stage that was reached.
pub fn form(pc: u64, facts: &Facts, refusal: &mut Refusal) -> (eligible: bool)
    ensures
        eligible == (form_refusal(pc, facts@) is None),
        *final(refusal) == refusal_at(form_stage(pc, facts@)),
{
    *refusal = Refusal::new("native/form");
    if pc == 0 || pc >= USER_END || facts.invalid || facts.privileged {
        return false;
    }
    match pc.checked_add(facts.length as u64) {
        Some(end) => if end >= USER_END {
            return false;
        },
        None => return false,
    }
    *refusal = Refusal::new("native/control-transition");
    let ordinary: bool = match facts.flow {
        Flow::Next => true,
        Flow::UnconditionalBranch => true,
        Flow::IndirectBranch => true,
        Flow::ConditionalBranch => true,
        Flow::Call => facts.call_near,
        Flow::IndirectCall => facts.call_near_indirect,
        Flow::Return => facts.mnemonic == MNEMONIC_RET,
        Flow::Interrupt => false,
        Flow::XbeginXabortXend => false,
        Flow::Exception => false,
    };
    if !ordinary || facts.jmp_far || facts.jmp_far_indirect {
        return false;
    }
    *refusal = Refusal::new("native/debug-control");
    if debug_control(facts.mnemonic) {
        return false;
    }
    *refusal = Refusal::new("native/nondeterministic-or-system-state");
    if system_state(facts.mnemonic) || facts.xacquire || facts.xrelease {
        return false;
    }
    *refusal = Refusal::new("native/segment-state");
    !any_segment_write(&facts.registers)
}

// ---------------------------------------------------------------------------
// Requests
// ---------------------------------------------------------------------------

/// One instruction with the registers and flags that it starts from.
#[derive(Clone, Copy, Debug, PartialEq, Eq)]
pub struct CpuStepRequest {
    pub pc: u64,
    pub bytes: [u8; 15],
    pub length: usize,
    pub general: [u64; 16],
    pub flags: u64,
}

pub struct RequestModel {
    pub pc: u64,
    pub bytes: Seq<u8>,
    pub length: usize,
    pub general: Seq<u64>,
    pub flags: u64,
}

impl View for CpuStepRequest {
    type V = RequestModel;

    open spec fn view(&self) -> RequestModel {
        RequestModel {
            pc: self.pc,
            bytes: self.bytes@,
            length: self.length,
            general: self.general@,
            flags: self.flags,
        }
    }
}

/// The leading bytes of an instruction, padded with zeros to fifteen.
pub open spec fn padded(bytes: Seq<u8>, length: int) -> Seq<u8> {
    Seq::new(
        15,
        |i: int|
            if i < length {
                bytes[i]
            } else {
                0u8
            },
    )
}

/// A guest may not be stepped while it traces itself, nor with a pending
/// fault-resume that is not its own.
pub open spec fn flags_refused(flags: u64, fault_resume: bool) -> bool {
    flags & TRAP_FLAG != 0 || (flags & RESUME_FLAG != 0 && !fault_resume)
}

/// The stage at which a request is refused.
pub open spec fn request_refusal(
    pc: u64,
    facts: FactsModel,
    context: HookContext,
    fault_resume: bool,
) -> Option<&'static str> {
    if form_refusal(pc, facts) is Some {
        form_refusal(pc, facts)
    } else if flags_refused(context.rflags, fault_resume) {
        Some("native/flags")
    } else if context.instruction_pointer != pc {
        Some("native/start-state")
    } else {
        None
    }
}

pub open spec fn request_model(
    pc: u64,
    bytes: Seq<u8>,
    length: usize,
    context: HookContext,
) -> RequestModel {
    RequestModel {
        pc,
        bytes: padded(bytes, length as int),
        length,
        general: general_of(context),
        flags: context.rflags,
    }
}

/// The request starts from exactly this context.
pub open spec fn request_starts_at(request: RequestModel, context: HookContext) -> bool {
    &&& request.pc == context.instruction_pointer
    &&& request.flags == context.rflags
    &&& request.general == general_of(context)
}

/// A single-step trap after one instruction.
pub open spec fn is_trace_control(registers: Seq<i64>) -> bool {
    let pc = registers[REG_RIP as int] as u64;
    let flags = registers[REG_EFL as int] as u64;
    &&& 0 < pc < USER_END
    &&& flags & (RESUME_FLAG | TRAP_FLAG) == TRAP_FLAG
    &&& registers[REG_TRAPNO as int] == 1
    &&& registers[REG_ERR as int] == 0
}

impl CpuStepRequest {
    pub fn retained_instruction(&self) -> (instruction: (&[u8; 15], usize))
        ensures
            instruction.0@ == self@.bytes,
            instruction.1 == self@.length,
    {
        (&self.bytes, self.length)
    }

    pub fn input_registers(&self) -> (words: &[u64; 16])
        ensures
            words@ == self@.general,
    {
        &self.general
    }

    pub fn input_flags(&self) -> (flags: u64)
        ensures
            flags == self@.flags,
    {
        self.flags
    }

    /// Whether the instruction that `bytes` hold at `pc` may be stepped.
    pub fn eligible(pc: u64, bytes: &[u8]) -> (result: bool)
        ensures
            result == (form_refusal(pc, decoded(bytes@, pc)) is None),
    {
        let facts = inspect(pc, bytes);
        let mut refusal = Refusal::new("native/form");
        form(pc, &facts, &mut refusal)
    }

    /// Binds the instruction that `facts` describe to the context it starts from.
    pub fn from_facts(
        pc: u64,
        bytes: &[u8],
        facts: &Facts,
        context: &HookContext,
        fault_resume: bool,
        refusal: &mut Refusal,
    ) -> (request: Option<Self>)
        requires
            facts.length <= 15,
            facts.length <= bytes@.len(),
        ensures
            match request_refusal(pc, facts@, *context, fault_resume) {
                Some(stage) => request is None && *final(refusal) == refusal_at(stage),
                None => request matches Some(made) && made@ == request_model(
                    pc,
                    bytes@,
                    facts.length,
                    *context,
                ) && *final(refusal) == refusal_at("native/start-state"),
            },
    {
        if !form(pc, facts, refusal) {
            return None;
        }
        *refusal = Refusal::new("native/flags");
        if context.rflags & TRAP_FLAG != 0 || (context.rflags & RESUME_FLAG != 0 && !fault_resume) {
            return None;
        }
        *refusal = Refusal::new("native/start-state");
        if context.instruction_pointer != pc {
            return None;
        }
        let mut fetched: [u8; 15] = [0; 15];
        let mut index: usize = 0;
        while index < facts.length
            invariant
                index <= facts.length,
                facts.length <= 15,
                facts.length <= bytes@.len(),
                fetched@ == padded(bytes@, index as int),
            decreases facts.length - index,
        {
            fetched[index] = bytes[index];
            index = index + 1;
            assert(fetched@ =~= padded(bytes@, index as int));
        }
        Some(
            CpuStepRequest {
                pc,
                bytes: fetched,
                length: facts.length,
                general: general(context),
                flags: context.rflags,
            },
        )
    }

    /// Decodes the instruction at `pc` and binds it to the context it starts from.
    pub fn decode_recorded(
        pc: u64,
        bytes: &[u8],
        context: &HookContext,
        fault_resume: bool,
        refusal: &mut Refusal,
    ) -> (request: Option<Self>)
        ensures
            match request_refusal(pc, decoded(bytes@, pc), *context, fault_resume) {
                Some(stage) => request is None && *final(refusal) == refusal_at(stage),
                None => request matches Some(made) && made@ == request_model(
                    pc,
                    bytes@,
                    decoded_length(bytes@, pc),
                    *context,
                ) && *final(refusal) == refusal_at("native/start-state"),
            },
    {
        let facts = inspect(pc, bytes);
        Self::from_facts(pc, bytes, &facts, context, fault_resume, refusal)
    }

    pub fn starts_at(&self, context: &HookContext) -> (result: bool)
        ensures
            result == request_starts_at(self@, *context),
    {
        self.pc == context.instruction_pointer && self.flags == context.rflags && same_words(
            &self.general,
            &general(context),
        )
    }

    pub fn trace_control(registers: &[i64; 23]) -> (result: bool)
        ensures
            result == is_trace_control(registers@),
    {
        let pc: u64 = registers[REG_RIP] as u64;
        let flags: u64 = registers[REG_EFL] as u64;
        pc != 0 && pc < USER_END && flags & (RESUME_FLAG | TRAP_FLAG) == TRAP_FLAG
            && registers[REG_TRAPNO] == 1 && registers[REG_ERR] == 0
    }
}

/// A request that was made starts at the very context that it was made from, and at
/// no context that differs in the program counter, the flags or a general register.
pub proof fn request_binds_its_context(
    pc: u64,
    bytes: Seq<u8>,
    facts: FactsModel,
    context: HookContext,
    fault_resume: bool,
    other: HookContext,
)
    requires
        request_refusal(pc, facts, context, fault_resume) is None,
    ensures
        request_starts_at(request_model(pc, bytes, facts.length, context), context),
        request_starts_at(request_model(pc, bytes, facts.length, context), other) ==> {
            &&& other.instruction_pointer == context.instruction_pointer
            &&& other.rflags == context.rflags
            &&& general_of(other) == general_of(context)
        },
        context.rflags & TRAP_FLAG == 0,
{
}

} // verus!
