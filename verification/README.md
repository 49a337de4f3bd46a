# liteinst_runtime

The decisions of an in-guest instrumentation runtime for x86-64 Linux, as a Verus
library: executable Rust whose behaviour is stated in `requires` and `ensures` and
proved.

A runtime of this kind lives inside the process that it observes. It patches system
calls and time-stamp instructions, steps single instructions under a precise timer,
keeps its own descriptors out of the guest's reach, maps the guest's interpreter, and
speaks to a coordinator outside. What it decides on the way is in `src/`. What it does
to the process (system calls, signals, memory, sockets, clocks) is in `app/`, which
asks the library for the next step and tells it what came of the last one.

## Layout

- `src/startup` parses an auxiliary vector and an ELF interpreter and plans where the
  interpreter's segments go; `startup/original_interpreter` admits its sealed file.
- `src/private_startup` compares the first stop of a guest with what was captured
  before it, and `private_startup/provider` reserves stacks with a private provider.
- `src/owned_step` is the one-use stepper of owned CPU steps: `instruction` predicts a
  small vocabulary of instructions, `native` binds any other to its starting state, and
  `diagnostics` says why a capture was refused.
- `src/timer` is the precise timer that the stepper serves.
- `src/owned_context` holds the frames, stacks, segment bases and exits of an owned
  thread.
- `src/protected_fd` finds descriptors of the runtime in the memory that a call hands
  to the kernel.
- `src/rpc` keeps the connection to the coordinator through forks, with the resources
  that it uses in `rpc/resources` and its socket in `rpc/stream`.
- `src/syscall_event` and `src/instruction_event` decode trapped calls and
  instructions.
- `src/runtime` routes everything else: `dispatch`, `descriptors`, `sites`, `install`,
  `instructions`, `signals`, `maps`, `clock`, `environment`, `fallback` and `line`.
- `src/runtime_domain`, `src/syscall_mode`, `src/registers`, `src/sys`, `src/bytes` and
  `src/text` are shared by the others.

Laws that relate several operations stand beside them, as public proof functions.

## What is trusted

Instructions are decoded by `iced-x86`. Its replies enter through the wrappers in
`src/owned_step/native.rs`, each of which names one function of that crate; nothing is
said of a reply but that it depends on the bytes and the address alone, and how long an
instruction can be. The numbers of the kernel's interface in `src/sys.rs` and of the
decoder in `src/owned_step/native.rs` are compared with the crates `libc` and
`iced-x86` in `tests/constants.rs`.
