use invocation::error::{LookupFault, SyscallError};
use invocation::syscall_reply::{
    reply_error_from_kernel, reply_success_from_kernel, set_mrs_for_syscall_error,
};
use invocation::thread::{MessageInfo, Thread, ThreadState, MESSAGE_REGISTERS};

fn no_fault() -> LookupFault {
    LookupFault::new(Vec::new()).unwrap()
}

fn used_thread() -> Thread {
    let mut thread = Thread::new();
    thread.state = ThreadState::Running;
    thread.badge = 0xabcd;
    thread.message_info = MessageInfo { label: 9, caps_unwrapped: 1, extra_caps: 1, length: 17 };
    for i in 0..MESSAGE_REGISTERS {
        thread.message_registers[i] = 1000 + i;
    }
    thread
}

fn all_errors() -> Vec<(SyscallError, usize)> {
    vec![
        (SyscallError::InvalidArgument { number: 3 }, 1),
        (SyscallError::InvalidCapability { number: 4 }, 2),
        (SyscallError::IllegalOperation, 3),
        (SyscallError::RangeError { min: 1, max: 2 }, 4),
        (SyscallError::AlignmentError, 5),
        (SyscallError::FailedLookup { was_source: true }, 6),
        (SyscallError::TruncatedMessage, 7),
        (SyscallError::DeleteFirst, 8),
        (SyscallError::RevokeFirst, 9),
        (SyscallError::NotEnoughMemory { memory_left: 64 }, 10),
    ]
}

#[test]
fn invalid_argument_writes_its_number_to_register_zero() {
    let mut thread = used_thread();
    let count = set_mrs_for_syscall_error(
        &mut thread,
        &SyscallError::InvalidArgument { number: 42 },
        &no_fault(),
    );
    assert_eq!(count, 1);
    assert_eq!(thread.message_registers[0], 42);
    let mut expected = used_thread();
    expected.message_registers[0] = 42;
    assert_eq!(thread, expected);
}

#[test]
fn invalid_capability_writes_its_number_to_register_zero() {
    let mut thread = used_thread();
    let count = set_mrs_for_syscall_error(
        &mut thread,
        &SyscallError::InvalidCapability { number: 0 },
        &no_fault(),
    );
    assert_eq!(count, 1);
    let mut expected = used_thread();
    expected.message_registers[0] = 0;
    assert_eq!(thread, expected);
}

#[test]
fn range_error_writes_lower_bound_then_upper_bound() {
    let mut thread = used_thread();
    let count = set_mrs_for_syscall_error(
        &mut thread,
        &SyscallError::RangeError { min: 16, max: 4096 },
        &no_fault(),
    );
    assert_eq!(count, 2);
    assert_eq!(&thread.message_registers[..2], &[16, 4096]);
    let mut expected = used_thread();
    expected.message_registers[0] = 16;
    expected.message_registers[1] = 4096;
    assert_eq!(thread, expected);
}

#[test]
fn not_enough_memory_writes_what_is_left() {
    let mut thread = used_thread();
    let count = set_mrs_for_syscall_error(
        &mut thread,
        &SyscallError::NotEnoughMemory { memory_left: 512 },
        &no_fault(),
    );
    assert_eq!(count, 1);
    let mut expected = used_thread();
    expected.message_registers[0] = 512;
    assert_eq!(thread, expected);
}

#[test]
fn kinds_without_payload_write_nothing() {
    for error in [
        SyscallError::IllegalOperation,
        SyscallError::AlignmentError,
        SyscallError::TruncatedMessage,
        SyscallError::DeleteFirst,
        SyscallError::RevokeFirst,
    ] {
        let mut thread = used_thread();
        let fault = LookupFault::new(vec![7, 8, 9]).unwrap();
        let count = set_mrs_for_syscall_error(&mut thread, &error, &fault);
        assert_eq!(count, 0);
        assert_eq!(thread, used_thread());
    }
}

#[test]
fn failed_lookup_for_source_writes_one_then_the_fault_words() {
    let mut thread = used_thread();
    let fault = LookupFault::new(vec![3, 60, 4]).unwrap();
    let count = set_mrs_for_syscall_error(
        &mut thread,
        &SyscallError::FailedLookup { was_source: true },
        &fault,
    );
    assert_eq!(count, 4);
    assert_eq!(&thread.message_registers[..4], &[1, 3, 60, 4]);
    let mut expected = used_thread();
    expected.message_registers[..4].copy_from_slice(&[1, 3, 60, 4]);
    assert_eq!(thread, expected);
}

#[test]
fn failed_lookup_for_destination_writes_zero_first() {
    let mut thread = used_thread();
    let fault = LookupFault::new(vec![1]).unwrap();
    let count = set_mrs_for_syscall_error(
        &mut thread,
        &SyscallError::FailedLookup { was_source: false },
        &fault,
    );
    assert_eq!(count, 2);
    assert_eq!(&thread.message_registers[..3], &[0, 1, 1002]);
}

#[test]
fn failed_lookup_without_fault_words_writes_the_flag_alone() {
    let mut thread = used_thread();
    let count = set_mrs_for_syscall_error(
        &mut thread,
        &SyscallError::FailedLookup { was_source: true },
        &no_fault(),
    );
    assert_eq!(count, 1);
    assert_eq!(&thread.message_registers[..2], &[1, 1001]);
}

#[test]
fn failed_lookup_may_fill_every_register() {
    let words: Vec<usize> = (0..MESSAGE_REGISTERS - 1).map(|i| 5000 + i).collect();
    let fault = LookupFault::new(words.clone()).unwrap();
    let mut thread = used_thread();
    let count = set_mrs_for_syscall_error(
        &mut thread,
        &SyscallError::FailedLookup { was_source: true },
        &fault,
    );
    assert_eq!(count, MESSAGE_REGISTERS);
    assert_eq!(thread.message_registers[0], 1);
    assert_eq!(&thread.message_registers[1..], &words[..]);
}

#[test]
fn marshalling_leaves_state_badge_and_message_info() {
    for (error, _) in all_errors() {
        let mut thread = used_thread();
        let fault = LookupFault::new(vec![2, 2]).unwrap();
        set_mrs_for_syscall_error(&mut thread, &error, &fault);
        assert_eq!(thread.state, ThreadState::Running);
        assert_eq!(thread.badge, 0xabcd);
        assert_eq!(
            thread.message_info,
            MessageInfo { label: 9, caps_unwrapped: 1, extra_caps: 1, length: 17 }
        );
    }
}

#[test]
fn success_reply_clears_badge_and_message_info() {
    let mut thread = used_thread();
    reply_success_from_kernel(&mut thread);
    assert_eq!(thread.badge, 0);
    assert_eq!(
        thread.message_info,
        MessageInfo { label: 0, caps_unwrapped: 0, extra_caps: 0, length: 0 }
    );
    let mut expected = used_thread();
    expected.badge = 0;
    expected.message_info = MessageInfo { label: 0, caps_unwrapped: 0, extra_caps: 0, length: 0 };
    assert_eq!(thread, expected);
}

#[test]
fn success_reply_does_not_depend_on_prior_registers() {
    let mut fresh = Thread::new();
    reply_success_from_kernel(&mut fresh);
    assert_eq!(fresh, Thread::new());

    let mut full = Thread::new();
    full.badge = usize::MAX;
    full.message_info = MessageInfo {
        label: usize::MAX,
        caps_unwrapped: 7,
        extra_caps: 3,
        length: 120,
    };
    reply_success_from_kernel(&mut full);
    assert_eq!(full, Thread::new());
}

#[test]
fn error_reply_label_is_the_wire_code_and_length_the_word_count() {
    for (error, code) in all_errors() {
        let fault = LookupFault::new(vec![11, 12]).unwrap();
        let mut marshalled = used_thread();
        let count = set_mrs_for_syscall_error(&mut marshalled, &error, &fault);

        let mut thread = used_thread();
        reply_error_from_kernel(&mut thread, &error, &fault);
        assert_eq!(thread.badge, 0);
        assert_eq!(
            thread.message_info,
            MessageInfo { label: code, caps_unwrapped: 0, extra_caps: 0, length: count }
        );
        assert_eq!(thread.message_registers, marshalled.message_registers);
        assert_eq!(thread.state, ThreadState::Running);
    }
}

#[test]
fn error_reply_for_range_error() {
    let mut thread = used_thread();
    reply_error_from_kernel(
        &mut thread,
        &SyscallError::RangeError { min: 8, max: 24 },
        &no_fault(),
    );
    let mut expected = used_thread();
    expected.badge = 0;
    expected.message_info = MessageInfo { label: 4, caps_unwrapped: 0, extra_caps: 0, length: 2 };
    expected.message_registers[0] = 8;
    expected.message_registers[1] = 24;
    assert_eq!(thread, expected);
}

#[test]
fn error_reply_for_failed_lookup_counts_flag_and_fault_words() {
    let mut thread = used_thread();
    let fault = LookupFault::new(vec![2, 30]).unwrap();
    reply_error_from_kernel(&mut thread, &SyscallError::FailedLookup { was_source: true }, &fault);
    assert_eq!(
        thread.message_info,
        MessageInfo { label: 6, caps_unwrapped: 0, extra_caps: 0, length: 3 }
    );
    assert_eq!(&thread.message_registers[..4], &[1, 2, 30, 1003]);
}
