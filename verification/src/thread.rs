//! The invoking thread as this layer sees it: a scheduling state, the badge
//! and message-info registers, and the message registers.

use vstd::prelude::*;

verus! {

/// Number of message registers of a thread: the words that one message can
/// hold.
pub const MESSAGE_REGISTERS: usize = 120;

/// Scheduling state of a thread.
#[derive(Clone, Copy, Debug, PartialEq, Eq, Structural)]
pub enum ThreadState {
    Inactive,
    Running,
    Restart,
    BlockedOnReceive,
    BlockedOnSend,
    BlockedOnReply,
    BlockedOnNotification,
    Idle,
    Exited,
}

/// The fields of a message-info register.
#[derive(Clone, Copy, Debug, PartialEq, Eq, Structural)]
pub struct MessageInfo {
    pub label: usize,
    pub caps_unwrapped: usize,
    pub extra_caps: usize,
    pub length: usize,
}

/// A thread's state and the registers a reply is written to.
#[derive(Clone, Copy, Debug, PartialEq, Eq)]
pub struct Thread {
    pub state: ThreadState,
    pub badge: usize,
    pub message_info: MessageInfo,
    pub message_registers: [usize; MESSAGE_REGISTERS],
}

impl Thread {
    /// An inactive thread with every register zero.
    pub fn new() -> (thread: Thread)
        ensures
            thread.state == ThreadState::Inactive,
            thread.badge == 0,
            thread.message_info == (MessageInfo { label: 0, caps_unwrapped: 0, extra_caps: 0, length: 0 }),
            forall|i: int| 0 <= i < MESSAGE_REGISTERS ==> thread.message_registers[i] == 0,
    {
        Thread {
            state: ThreadState::Inactive,
            badge: 0,
            message_info: MessageInfo { label: 0, caps_unwrapped: 0, extra_caps: 0, length: 0 },
            message_registers: [0; MESSAGE_REGISTERS],
        }
    }

    /// Writes `word` to message register `index` and returns the index after it.
    pub fn set_mr(&mut self, index: usize, word: usize) -> (next: usize)
        requires
            index < MESSAGE_REGISTERS,
        ensures
            next == index + 1,
            final(self).message_registers@ == old(self).message_registers@.update(index as int, word),
            final(self).state == old(self).state,
            final(self).badge == old(self).badge,
            final(self).message_info == old(self).message_info,
    {
        self.message_registers[index] = word;
        index + 1
    }
}

} // verus!
