//! Decode-and-dispatch layer for capability invocations.
//!
//! A capability read from a caller's slot is classified by kind, its rights
//! are tested, and the requested action is either carried out on the
//! invoking thread and handed back as an operation for the object concerned,
//! or passed on to the decoder of that kind. A failure is a structured
//! [`error::SyscallError`], which [`syscall_reply`] marshals into the thread's
//! reply registers.

pub mod capability;
pub mod decode;
pub mod error;
pub mod invoke_irq;
pub mod syscall_reply;
pub mod thread;
