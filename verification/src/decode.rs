//! The invocation dispatcher.
//!
//! [`decode_invocation`] classifies a capability and decides what its
//! invocation amounts to. Endpoint, notification and reply capabilities are
//! handled here: the dispatcher tests the right to invoke, readies the
//! invoking thread, and hands back the operation on the object. Every other
//! kind is handed to its own decoder, with the inputs that decoder takes.

use vstd::prelude::*;
use crate::capability::{Capability, SlotId};
use crate::error::{ExceptionResult, SyscallError};
use crate::thread::{Thread, ThreadState};

verus! {

/// Why the dispatcher refused a capability. It is meant for the kernel's
/// debug output and never reaches the caller.
#[derive(Clone, Copy, Debug, PartialEq, Eq, Structural)]
pub enum Diagnostic {
    NullOrZombie { cap_index: usize, cap: Capability },
    ReadOnlyEndpoint { cap_index: usize },
    ReadOnlyNotification { cap_index: usize },
    InvalidReply { cap_index: usize },
}

/// An operation on an IPC object, to be carried out for the invoking thread.
#[derive(Clone, Copy, Debug, PartialEq, Eq, Structural)]
pub enum IpcOperation {
    /// Send from the invoking thread on the endpoint at `endpoint`.
    Send {
        endpoint: usize,
        block: bool,
        call: bool,
        can_grant: bool,
        badge: usize,
        can_grant_reply: bool,
    },
    /// Signal the notification at `notification` with `badge`.
    Signal { notification: usize, badge: usize },
    /// Deliver the invoking thread's reply to the thread at `receiver`,
    /// through the reply capability in `slot`.
    Reply { receiver: usize, slot: SlotId, can_grant: bool },
}

/// A decoder that the dispatcher hands an invocation to, with the inputs
/// that it is given.
#[derive(Clone, Copy, Debug, PartialEq, Eq, Structural)]
pub enum Delegation {
    Thread { label: usize, length: usize, cap: Capability, slot: SlotId, call: bool, buffer: usize },
    Domain { label: usize, length: usize, buffer: usize },
    CNode { label: usize, length: usize, cap: Capability, buffer: usize },
    Untyped { label: usize, length: usize, slot: SlotId, cap: Capability, buffer: usize },
    IrqControl { label: usize, length: usize, slot: SlotId, buffer: usize },
    IrqHandler { label: usize, irq: usize },
    Architecture { label: usize, length: usize, slot: SlotId, call: bool, buffer: usize },
}

/// What the dispatcher decided.
#[derive(Clone, Copy, Debug, PartialEq, Eq, Structural)]
pub enum Invocation {
    /// The capability must not be invoked. Nothing is to be done.
    Reject { error: SyscallError, diagnostic: Diagnostic },
    /// The invoking thread has been readied; the operation is to be
    /// carried out.
    Perform(IpcOperation),
    /// The decoder named decides.
    Delegate(Delegation),
}

impl Invocation {
    /// The refusal of a capability that cannot be invoked.
    pub open spec fn invalid_capability(diagnostic: Diagnostic) -> Invocation {
        Invocation::Reject { error: SyscallError::InvalidCapability { number: 0 }, diagnostic }
    }

    /// The result of the decode step, where the dispatcher itself decided.
    pub open spec fn spec_result(self) -> Option<ExceptionResult> {
        match self {
            Invocation::Reject { error, .. } => Some(ExceptionResult::SyscallError(error)),
            Invocation::Perform(_) => Some(ExceptionResult::NoException),
            Invocation::Delegate(_) => None,
        }
    }

    /// The result of the decode step, where the dispatcher itself decided:
    /// the error of a refusal, no exception for an operation. Where a
    /// decoder decides, the result is that decoder's.
    #[verifier::when_used_as_spec(spec_result)]
    pub fn result(self) -> (result: Option<ExceptionResult>)
        ensures
            result == self.spec_result(),
    {
        match self {
            Invocation::Reject { error, .. } => Some(ExceptionResult::SyscallError(error)),
            Invocation::Perform(_) => Some(ExceptionResult::NoException),
            Invocation::Delegate(_) => None,
        }
    }
}

/// `thread`, set to restart.
pub open spec fn restarted(thread: Thread) -> Thread {
    Thread { state: ThreadState::Restart, ..thread }
}

fn reject(diagnostic: Diagnostic) -> (decision: Invocation)
    ensures
        decision == Invocation::invalid_capability(diagnostic),
{
    Invocation::Reject { error: SyscallError::InvalidCapability { number: 0 }, diagnostic }
}

/// Decides the invocation of `cap`, which was read from `slot`, for the
/// invoking thread `thread`.
///
/// `label` is the operation asked for, `length` the number of words in the
/// caller's message, and `buffer` the address of the caller's argument
/// words. `cap_index` is where the caller named the capability; it shows in
/// the diagnostic only.
///
/// A null or zombie capability, an endpoint or notification without the
/// right to send, and a master reply capability are refused with an invalid
/// capability error of number 0, and the thread is left as it was. An
/// endpoint, notification or reply capability that may be invoked sets the
/// thread to restart, so that it resumes properly should the operation block
/// it, and hands back the operation with the rights and badge of the
/// capability. The thread is restarted when the function returns, that is
/// before the operation is carried out. Every other kind is handed to its
/// decoder and leaves the thread as it was.
pub fn decode_invocation(
    thread: &mut Thread,
    label: usize,
    length: usize,
    slot: SlotId,
    cap: &Capability,
    cap_index: usize,
    block: bool,
    call: bool,
    buffer: usize,
) -> (decision: Invocation)
    ensures
        (*cap is Null || *cap is Zombie) ==> {
            &&& decision == Invocation::invalid_capability(
                Diagnostic::NullOrZombie { cap_index, cap: *cap },
            )
            &&& *final(thread) == *old(thread)
        },
        *cap matches Capability::Endpoint { can_send: false, .. } ==> {
            &&& decision == Invocation::invalid_capability(
                Diagnostic::ReadOnlyEndpoint { cap_index },
            )
            &&& *final(thread) == *old(thread)
        },
        *cap matches Capability::Endpoint {
            pointer,
            can_send: true,
            can_grant,
            can_grant_reply,
            badge,
            ..
        } ==> {
            &&& decision == Invocation::Perform(
                IpcOperation::Send {
                    endpoint: pointer,
                    block,
                    call,
                    can_grant,
                    badge,
                    can_grant_reply,
                },
            )
            &&& *final(thread) == restarted(*old(thread))
        },
        *cap matches Capability::Notification { can_send: false, .. } ==> {
            &&& decision == Invocation::invalid_capability(
                Diagnostic::ReadOnlyNotification { cap_index },
            )
            &&& *final(thread) == *old(thread)
        },
        *cap matches Capability::Notification { pointer, can_send: true, badge } ==> {
            &&& decision == Invocation::Perform(
                IpcOperation::Signal { notification: pointer, badge },
            )
            &&& *final(thread) == restarted(*old(thread))
        },
        *cap matches Capability::Reply { is_master: true, .. } ==> {
            &&& decision == Invocation::invalid_capability(Diagnostic::InvalidReply { cap_index })
            &&& *final(thread) == *old(thread)
        },
        *cap matches Capability::Reply { thread: receiver, is_master: false, can_grant } ==> {
            &&& decision == Invocation::Perform(
                IpcOperation::Reply { receiver, slot, can_grant },
            )
            &&& *final(thread) == restarted(*old(thread))
        },
        *cap is Thread ==> decision == Invocation::Delegate(
            Delegation::Thread { label, length, cap: *cap, slot, call, buffer },
        ),
        *cap is Domain ==> decision == Invocation::Delegate(
            Delegation::Domain { label, length, buffer },
        ),
        *cap is CNode ==> decision == Invocation::Delegate(
            Delegation::CNode { label, length, cap: *cap, buffer },
        ),
        *cap is Untyped ==> decision == Invocation::Delegate(
            Delegation::Untyped { label, length, slot, cap: *cap, buffer },
        ),
        *cap is IrqControl ==> decision == Invocation::Delegate(
            Delegation::IrqControl { label, length, slot, buffer },
        ),
        *cap matches Capability::IrqHandler { irq } ==> decision == Invocation::Delegate(
            Delegation::IrqHandler { label, irq },
        ),
        *cap is Architecture ==> decision == Invocation::Delegate(
            Delegation::Architecture { label, length, slot, call, buffer },
        ),
        decision is Delegate ==> *final(thread) == *old(thread),
        decision is Reject ==> decision.result() == Some(
            ExceptionResult::SyscallError(SyscallError::InvalidCapability { number: 0 }),
        ),
        decision is Perform ==> decision.result() == Some(ExceptionResult::NoException)
            && final(thread).state == ThreadState::Restart,
{
    match *cap {
        Capability::Null | Capability::Zombie => reject(
            Diagnostic::NullOrZombie { cap_index, cap: *cap },
        ),
        Capability::Endpoint { pointer, can_send, can_grant, can_grant_reply, badge, .. } => {
            if !can_send {
                return reject(Diagnostic::ReadOnlyEndpoint { cap_index });
            }
            thread.state = ThreadState::Restart;
            Invocation::Perform(
                IpcOperation::Send {
                    endpoint: pointer,
                    block,
                    call,
                    can_grant,
                    badge,
                    can_grant_reply,
                },
            )
        },
        Capability::Notification { pointer, can_send, badge } => {
            if !can_send {
                return reject(Diagnostic::ReadOnlyNotification { cap_index });
            }
            thread.state = ThreadState::Restart;
            Invocation::Perform(IpcOperation::Signal { notification: pointer, badge })
        },
        Capability::Reply { thread: receiver, is_master, can_grant } => {
            if is_master {
                return reject(Diagnostic::InvalidReply { cap_index });
            }
            thread.state = ThreadState::Restart;
            Invocation::Perform(IpcOperation::Reply { receiver, slot, can_grant })
        },
        Capability::Thread => Invocation::Delegate(
            Delegation::Thread { label, length, cap: *cap, slot, call, buffer },
        ),
        Capability::Domain => Invocation::Delegate(Delegation::Domain { label, length, buffer }),
        Capability::CNode => Invocation::Delegate(
            Delegation::CNode { label, length, cap: *cap, buffer },
        ),
        Capability::Untyped => Invocation::Delegate(
            Delegation::Untyped { label, length, slot, cap: *cap, buffer },
        ),
        Capability::IrqControl => Invocation::Delegate(
            Delegation::IrqControl { label, length, slot, buffer },
        ),
        Capability::IrqHandler { irq } => Invocation::Delegate(
            Delegation::IrqHandler { label, irq },
        ),
        Capability::Architecture => Invocation::Delegate(
            Delegation::Architecture { label, length, slot, call, buffer },
        ),
    }
}

} // verus!
