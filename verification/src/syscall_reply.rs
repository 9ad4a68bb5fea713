//! The reply encoder: writes the outcome of a system call to the registers
//! of the thread that made it.

use vstd::prelude::*;
use crate::error::{LookupFault, SyscallError};
use crate::thread::{MessageInfo, Thread, MESSAGE_REGISTERS};

verus! {

/// The message registers after `words` have been written from register 0 on.
pub open spec fn registers_with(registers: Seq<usize>, words: Seq<usize>) -> Seq<usize> {
    words + registers.subrange(words.len() as int, registers.len() as int)
}

/// Writes the reply to a system call that failed with `error`.
///
/// The badge is cleared, the words of the error go to the message registers
/// as [`set_mrs_for_syscall_error`] writes them, and the message info gets
/// the wire code of the error as its label and the number of those words as
/// its length. `lookup_fault` is read for a failed lookup only.
pub fn reply_error_from_kernel(
    thread: &mut Thread,
    error: &SyscallError,
    lookup_fault: &LookupFault,
)
    ensures
        final(thread).badge == 0,
        final(thread).message_info == (MessageInfo {
            label: error.wire_code(),
            caps_unwrapped: 0,
            extra_caps: 0,
            length: error.message_words(lookup_fault@).len() as usize,
        }),
        final(thread).message_registers@ == registers_with(
            old(thread).message_registers@,
            error.message_words(lookup_fault@),
        ),
        final(thread).state == old(thread).state,
{
    thread.badge = 0;
    let len = set_mrs_for_syscall_error(thread, error, lookup_fault);
    thread.message_info = MessageInfo {
        label: error.wire_code(),
        caps_unwrapped: 0,
        extra_caps: 0,
        length: len,
    };
}

/// Writes the reply to a system call that succeeded.
///
/// Whatever the registers held, the badge is cleared and the message info
/// is that of an empty message with label 0. Nothing else changes.
pub fn reply_success_from_kernel(thread: &mut Thread)
    ensures
        *final(thread) == (Thread {
            badge: 0,
            message_info: MessageInfo { label: 0, caps_unwrapped: 0, extra_caps: 0, length: 0 },
            ..*old(thread)
        }),
{
    thread.badge = 0;
    thread.message_info = MessageInfo { label: 0, caps_unwrapped: 0, extra_caps: 0, length: 0 };
}

/// Writes the words of `error` to the message registers, from register 0
/// on, and returns how many there are.
///
/// An invalid argument or capability writes its number, a range error its
/// bounds, lower first, and a lack of memory what is left. A failed lookup
/// writes 1 if the source was looked up and 0 if not, and after it the words
/// of `lookup_fault`. The other kinds write nothing. Registers past the
/// words, the badge, the message info and the thread's state stay as they
/// were.
pub fn set_mrs_for_syscall_error(
    thread: &mut Thread,
    error: &SyscallError,
    lookup_fault: &LookupFault,
) -> (count: usize)
    ensures
        count == error.message_words(lookup_fault@).len(),
        final(thread).message_registers@ == registers_with(
            old(thread).message_registers@,
            error.message_words(lookup_fault@),
        ),
        final(thread).state == old(thread).state,
        final(thread).badge == old(thread).badge,
        final(thread).message_info == old(thread).message_info,
        *error matches SyscallError::InvalidArgument { number } ==> count == 1
            && final(thread).message_registers[0] == number,
        *error matches SyscallError::InvalidCapability { number } ==> count == 1
            && final(thread).message_registers[0] == number,
        *error matches SyscallError::RangeError { min, max } ==> count == 2
            && final(thread).message_registers[0] == min && final(thread).message_registers[1]
            == max,
        *error matches SyscallError::FailedLookup { was_source } ==> {
            &&& count == 1 + lookup_fault@.len()
            &&& final(thread).message_registers[0] == (if was_source {
                1usize
            } else {
                0usize
            })
            &&& forall|i: int|
                0 <= i < lookup_fault@.len() ==> final(thread).message_registers[1 + i]
                    == lookup_fault@[i]
        },
        *error matches SyscallError::NotEnoughMemory { memory_left } ==> count == 1
            && final(thread).message_registers[0] == memory_left,
        (*error is IllegalOperation || *error is AlignmentError || *error is TruncatedMessage
            || *error is DeleteFirst || *error is RevokeFirst) ==> count == 0
            && final(thread).message_registers == old(thread).message_registers,
{
    let ghost before = thread.message_registers@;
    let ghost words = error.message_words(lookup_fault@);
    let count = match *error {
        SyscallError::InvalidArgument { number } => thread.set_mr(0, number),
        SyscallError::InvalidCapability { number } => thread.set_mr(0, number),
        SyscallError::RangeError { min, max } => {
            thread.set_mr(0, min);
            thread.set_mr(1, max)
        },
        SyscallError::FailedLookup { was_source } => {
            let flag: usize = if was_source {
                1
            } else {
                0
            };
            let n = lookup_fault.len();
            let mut next = thread.set_mr(0, flag);
            let mut i: usize = 0;
            while i < n
                invariant
                    n == lookup_fault@.len(),
                    n < MESSAGE_REGISTERS,
                    i <= n,
                    next == 1 + i,
                    words == seq![flag] + lookup_fault@,
                    thread.message_registers@ == registers_with(
                        before,
                        words.subrange(0, next as int),
                    ),
                    before.len() == MESSAGE_REGISTERS,
                    thread.state == old(thread).state,
                    thread.badge == old(thread).badge,
                    thread.message_info == old(thread).message_info,
                decreases n - i,
            {
                next = thread.set_mr(next, lookup_fault.word(i));
                i = i + 1;
            }
            assert(words.subrange(0, next as int) == words);
            next
        },
        SyscallError::IllegalOperation
        | SyscallError::AlignmentError
        | SyscallError::TruncatedMessage
        | SyscallError::DeleteFirst
        | SyscallError::RevokeFirst => 0,
        SyscallError::NotEnoughMemory { memory_left } => thread.set_mr(0, memory_left),
    };
    assert(thread.message_registers@ == registers_with(before, words));
    count
}

} // verus!
