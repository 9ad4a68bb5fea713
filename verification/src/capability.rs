//! Capabilities and the slots that hold them.

use vstd::prelude::*;

verus! {

/// A capability: a token for the right to act on one kernel object.
///
/// The variant is the kind of the object; a variant carries the fields that
/// an invocation of that kind reads.
#[derive(Clone, Copy, Debug, PartialEq, Eq, Structural)]
pub enum Capability {
    /// No object.
    Null,
    /// An object that is being reclaimed.
    Zombie,
    Endpoint {
        pointer: usize,
        can_send: bool,
        can_receive: bool,
        can_grant: bool,
        can_grant_reply: bool,
        badge: usize,
    },
    Notification { pointer: usize, can_send: bool, badge: usize },
    /// The right to reply to the thread at `thread`. A master reply
    /// capability is the template that replies are made from.
    Reply { thread: usize, is_master: bool, can_grant: bool },
    Thread,
    Domain,
    CNode,
    Untyped,
    IrqControl,
    IrqHandler { irq: usize },
    /// Any kind that belongs to the architecture.
    Architecture,
}

/// Names a slot of a capability table. A slot holds at most one capability.
#[derive(Clone, Copy, Debug, PartialEq, Eq, Structural)]
pub enum SlotId {
    /// A slot of a capability space, by its address.
    At(usize),
    /// The fixed handler slot of interrupt line `irq`.
    IrqHandler { irq: usize },
}

} // verus!
