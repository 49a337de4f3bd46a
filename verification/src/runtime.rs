//! Decisions of the in-guest runtime: what it does with a system call, an
//! instruction or a signal, and the records that it keeps.

pub mod clock;
pub mod descriptors;
pub mod dispatch;
pub mod environment;
pub mod fallback;
pub mod install;
pub mod instructions;
pub mod line;
pub mod maps;
pub mod signals;
pub mod sites;
