//! Decision logic of an in-guest instrumentation runtime.

pub mod bytes;
pub mod instruction_event;
pub mod owned_context;
pub mod owned_step;
pub mod private_startup;
pub mod protected_fd;
pub mod registers;
pub mod rpc;
pub mod runtime;
pub mod runtime_domain;
pub mod startup;
pub mod sys;
pub mod syscall_event;
pub mod syscall_mode;
pub mod text;
pub mod timer;
