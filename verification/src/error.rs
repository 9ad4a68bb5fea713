//! Structured system-call errors and the result of a decode step.

use vstd::prelude::*;
use crate::thread::MESSAGE_REGISTERS;

verus! {

/// Why a system call was refused. Each kind holds its own payload.
#[derive(Clone, Copy, Debug, PartialEq, Eq, Structural)]
pub enum SyscallError {
    InvalidArgument { number: usize },
    InvalidCapability { number: usize },
    IllegalOperation,
    RangeError { min: usize, max: usize },
    AlignmentError,
    FailedLookup { was_source: bool },
    TruncatedMessage,
    DeleteFirst,
    RevokeFirst,
    NotEnoughMemory { memory_left: usize },
}

impl SyscallError {
    /// The code that stands for the error's kind in a reply.
    pub open spec fn spec_wire_code(self) -> usize {
        match self {
            SyscallError::InvalidArgument { .. } => 1,
            SyscallError::InvalidCapability { .. } => 2,
            SyscallError::IllegalOperation => 3,
            SyscallError::RangeError { .. } => 4,
            SyscallError::AlignmentError => 5,
            SyscallError::FailedLookup { .. } => 6,
            SyscallError::TruncatedMessage => 7,
            SyscallError::DeleteFirst => 8,
            SyscallError::RevokeFirst => 9,
            SyscallError::NotEnoughMemory { .. } => 10,
        }
    }

    /// The words that describe the error in a reply, in the order of the
    /// message registers they are written to. `lookup_fault` holds the words
    /// of the lookup fault that goes with a failed lookup; the other kinds
    /// do not read it.
    pub open spec fn message_words(self, lookup_fault: Seq<usize>) -> Seq<usize> {
        match self {
            SyscallError::InvalidArgument { number } => seq![number],
            SyscallError::InvalidCapability { number } => seq![number],
            SyscallError::RangeError { min, max } => seq![min, max],
            SyscallError::FailedLookup { was_source } => seq![
                if was_source {
                    1usize
                } else {
                    0usize
                },
            ] + lookup_fault,
            SyscallError::IllegalOperation
            | SyscallError::AlignmentError
            | SyscallError::TruncatedMessage
            | SyscallError::DeleteFirst
            | SyscallError::RevokeFirst => Seq::empty(),
            SyscallError::NotEnoughMemory { memory_left } => seq![memory_left],
        }
    }

    /// The code that stands for the error's kind in a reply.
    #[verifier::when_used_as_spec(spec_wire_code)]
    pub fn wire_code(self) -> (code: usize)
        ensures
            code == self.spec_wire_code(),
            1 <= code <= 10,
    {
        match self {
            SyscallError::InvalidArgument { .. } => 1,
            SyscallError::InvalidCapability { .. } => 2,
            SyscallError::IllegalOperation => 3,
            SyscallError::RangeError { .. } => 4,
            SyscallError::AlignmentError => 5,
            SyscallError::FailedLookup { .. } => 6,
            SyscallError::TruncatedMessage => 7,
            SyscallError::DeleteFirst => 8,
            SyscallError::RevokeFirst => 9,
            SyscallError::NotEnoughMemory { .. } => 10,
        }
    }
}

/// The error scratch area in raw form: the wire code of the kind, and one
/// field for each payload. Only the fields of the kind that `kind` names
/// mean anything.
#[derive(Clone, Copy, Debug, PartialEq, Eq, Structural)]
pub struct ErrorScratch {
    pub kind: usize,
    pub invalid_argument_number: usize,
    pub invalid_cap_number: usize,
    pub range_error_min: usize,
    pub range_error_max: usize,
    pub memory_left: usize,
    pub failed_lookup_was_source: usize,
}

impl ErrorScratch {
    /// A scratch area of the given kind with every payload zero.
    pub open spec fn spec_cleared(kind: usize) -> ErrorScratch {
        ErrorScratch {
            kind,
            invalid_argument_number: 0,
            invalid_cap_number: 0,
            range_error_min: 0,
            range_error_max: 0,
            memory_left: 0,
            failed_lookup_was_source: 0,
        }
    }

    /// A scratch area of the given kind with every payload zero.
    #[verifier::when_used_as_spec(spec_cleared)]
    pub fn cleared(kind: usize) -> (scratch: ErrorScratch)
        ensures
            scratch == ErrorScratch::spec_cleared(kind),
    {
        ErrorScratch {
            kind,
            invalid_argument_number: 0,
            invalid_cap_number: 0,
            range_error_min: 0,
            range_error_max: 0,
            memory_left: 0,
            failed_lookup_was_source: 0,
        }
    }

    /// The error that the scratch area holds, if `kind` is the wire code of
    /// a kind of error. A failed lookup was for the source where the flag
    /// is 1.
    pub open spec fn spec_error(self) -> Option<SyscallError> {
        if self.kind == 1 {
            Some(SyscallError::InvalidArgument { number: self.invalid_argument_number })
        } else if self.kind == 2 {
            Some(SyscallError::InvalidCapability { number: self.invalid_cap_number })
        } else if self.kind == 3 {
            Some(SyscallError::IllegalOperation)
        } else if self.kind == 4 {
            Some(SyscallError::RangeError { min: self.range_error_min, max: self.range_error_max })
        } else if self.kind == 5 {
            Some(SyscallError::AlignmentError)
        } else if self.kind == 6 {
            Some(SyscallError::FailedLookup { was_source: self.failed_lookup_was_source == 1 })
        } else if self.kind == 7 {
            Some(SyscallError::TruncatedMessage)
        } else if self.kind == 8 {
            Some(SyscallError::DeleteFirst)
        } else if self.kind == 9 {
            Some(SyscallError::RevokeFirst)
        } else if self.kind == 10 {
            Some(SyscallError::NotEnoughMemory { memory_left: self.memory_left })
        } else {
            None
        }
    }

    /// The error that the scratch area holds. There is none exactly where
    /// `kind` is not the wire code of a kind of error.
    #[verifier::when_used_as_spec(spec_error)]
    pub fn error(self) -> (error: Option<SyscallError>)
        ensures
            error == self.spec_error(),
            error is Some <==> 1 <= self.kind <= 10,
            error matches Some(e) ==> e.wire_code() == self.kind,
    {
        match self.kind {
            1 => Some(SyscallError::InvalidArgument { number: self.invalid_argument_number }),
            2 => Some(SyscallError::InvalidCapability { number: self.invalid_cap_number }),
            3 => Some(SyscallError::IllegalOperation),
            4 => Some(
                SyscallError::RangeError { min: self.range_error_min, max: self.range_error_max },
            ),
            5 => Some(SyscallError::AlignmentError),
            6 => Some(
                SyscallError::FailedLookup { was_source: self.failed_lookup_was_source == 1 },
            ),
            7 => Some(SyscallError::TruncatedMessage),
            8 => Some(SyscallError::DeleteFirst),
            9 => Some(SyscallError::RevokeFirst),
            10 => Some(SyscallError::NotEnoughMemory { memory_left: self.memory_left }),
            _ => None,
        }
    }
}

impl SyscallError {
    /// The scratch area that holds this error and nothing else: the wire
    /// code, the payload of the kind, and zero in every other field. Read
    /// back, it gives the error again.
    pub fn to_scratch(self) -> (scratch: ErrorScratch)
        ensures
            scratch.kind == self.wire_code(),
            scratch.error() == Some(self),
            scratch == match self {
                SyscallError::InvalidArgument { number } => ErrorScratch {
                    invalid_argument_number: number,
                    ..ErrorScratch::spec_cleared(1)
                },
                SyscallError::InvalidCapability { number } => ErrorScratch {
                    invalid_cap_number: number,
                    ..ErrorScratch::spec_cleared(2)
                },
                SyscallError::RangeError { min, max } => ErrorScratch {
                    range_error_min: min,
                    range_error_max: max,
                    ..ErrorScratch::spec_cleared(4)
                },
                SyscallError::FailedLookup { was_source } => ErrorScratch {
                    failed_lookup_was_source: if was_source {
                        1
                    } else {
                        0
                    },
                    ..ErrorScratch::spec_cleared(6)
                },
                SyscallError::NotEnoughMemory { memory_left } => ErrorScratch {
                    memory_left,
                    ..ErrorScratch::spec_cleared(10)
                },
                _ => ErrorScratch::spec_cleared(self.wire_code()),
            },
    {
        let cleared = ErrorScratch::cleared(self.wire_code());
        match self {
            SyscallError::InvalidArgument { number } => ErrorScratch {
                invalid_argument_number: number,
                ..cleared
            },
            SyscallError::InvalidCapability { number } => ErrorScratch {
                invalid_cap_number: number,
                ..cleared
            },
            SyscallError::RangeError { min, max } => ErrorScratch {
                range_error_min: min,
                range_error_max: max,
                ..cleared
            },
            SyscallError::FailedLookup { was_source } => ErrorScratch {
                failed_lookup_was_source: if was_source {
                    1
                } else {
                    0
                },
                ..cleared
            },
            SyscallError::NotEnoughMemory { memory_left } => ErrorScratch { memory_left, ..cleared },
            _ => cleared,
        }
    }
}

/// What a decode or invoke step returns.
#[derive(Clone, Copy, Debug, PartialEq, Eq, Structural)]
pub enum ExceptionResult {
    /// The step went through.
    NoException,
    /// The step was refused, for the reason given.
    SyscallError(SyscallError),
}

/// A lookup fault in marshalled form: the words that say why a lookup
/// failed, in the order in which they follow the source flag in a reply.
///
/// The words leave room for the flag: there are fewer of them than a thread
/// has message registers.
#[derive(Debug, PartialEq, Eq)]
pub struct LookupFault {
    words: Vec<usize>,
}

impl View for LookupFault {
    type V = Seq<usize>;

    closed spec fn view(&self) -> Seq<usize> {
        self.words@
    }
}

impl LookupFault {
    #[verifier::type_invariant]
    spec fn leaves_room(self) -> bool {
        self.words@.len() < MESSAGE_REGISTERS
    }

    /// A fault of the given words, if they leave room for the flag.
    pub fn new(words: Vec<usize>) -> (fault: Option<LookupFault>)
        ensures
            fault is Some <==> words@.len() < MESSAGE_REGISTERS,
            fault matches Some(f) ==> f@ == words@,
    {
        if words.len() < MESSAGE_REGISTERS {
            Some(LookupFault { words })
        } else {
            None
        }
    }

    /// The number of words.
    pub fn len(&self) -> (n: usize)
        ensures
            n == self@.len(),
            n < MESSAGE_REGISTERS,
    {
        proof {
            use_type_invariant(self);
        }
        self.words.len()
    }

    /// The word at `index`.
    pub fn word(&self, index: usize) -> (w: usize)
        requires
            index < self@.len(),
        ensures
            w == self@[index as int],
    {
        self.words[index]
    }
}

} // verus!
