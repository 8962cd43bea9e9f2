//! Exceptions as the host engine reports them.
use vstd::prelude::*;

verus! {

/// Status code of an access violation (`0xC0000005` read as a signed value).
pub const EXCEPTION_ACCESS_VIOLATION: i32 = -0x3FFF_FFFB;

/// The fields of an exception record that the engine delivers.
#[derive(Clone, Copy, Debug)]
pub struct ExceptionRecord {
    /// The exception's status code.
    pub exception_code: i32,
    /// Exception flags.
    pub exception_flag: u32,
    /// Address of an associated exception record.
    pub exception_record: u64,
    /// Address where the exception occurred.
    pub exception_address: u64,
    /// Number of meaningful entries in `exception_information`.
    pub number_parameters: u32,
    /// Additional arguments of the exception.
    pub exception_information: [u64; 15],
}

/// An exception record and whether this is its first-chance notification.
#[derive(Clone, Copy, Debug)]
pub struct ExceptionInfo {
    /// The exception record.
    pub record: ExceptionRecord,
    /// Non-zero for a first-chance notification.
    pub first_chance: u32,
}

impl ExceptionInfo {
    /// Whether this is a first-chance access violation, the only kind of
    /// fault that a monitor answers.
    pub open spec fn is_first_chance_access_violation(&self) -> bool {
        self.record.exception_code == EXCEPTION_ACCESS_VIOLATION && self.first_chance != 0
    }

    /// Whether this is a first-chance access violation.
    pub fn first_chance_access_violation(&self) -> (r: bool)
        ensures
            r == self.is_first_chance_access_violation(),
    {
        self.record.exception_code == EXCEPTION_ACCESS_VIOLATION && self.first_chance != 0
    }
}

} // verus!
