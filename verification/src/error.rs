//! Outcome codes reported by routines of the external front-end.

use vstd::prelude::*;

verus! {

/// An outcome code returned by a routine of the external front-end.
///
/// `Success` is the only code indicating success. Every other code,
/// including numeric codes that have not yet been assigned a meaning of
/// their own, indicates an error; unknown codes are folded into the
/// generic `Failure`.
#[derive(Clone, Copy, PartialEq, Eq, Structural, Debug)]
pub enum ErrorCode {
    /// No error.
    Success,
    /// A generic error; no further details are available.
    Failure,
    /// The front-end crashed while performing the requested operation.
    Crashed,
    /// The arguments violate the routine's contract.
    InvalidArguments,
    /// An AST deserialization error occurred.
    ASTReadError,
}

/// The numeric code that `e` stands for in the front-end's encoding.
pub open spec fn spec_error_code(e: ErrorCode) -> nat {
    match e {
        ErrorCode::Success => 0,
        ErrorCode::Failure => 1,
        ErrorCode::Crashed => 2,
        ErrorCode::InvalidArguments => 3,
        ErrorCode::ASTReadError => 4,
    }
}

/// The classification of a raw numeric code: assigned codes map to their
/// own variant, every other code to the generic `Failure`.
pub open spec fn spec_error_from_code(c: usize) -> ErrorCode {
    if c == 0 {
        ErrorCode::Success
    } else if c == 1 {
        ErrorCode::Failure
    } else if c == 2 {
        ErrorCode::Crashed
    } else if c == 3 {
        ErrorCode::InvalidArguments
    } else if c == 4 {
        ErrorCode::ASTReadError
    } else {
        ErrorCode::Failure
    }
}

impl ErrorCode {
    /// Classify a raw numeric code from the front-end.
    ///
    /// `Success` comes back exactly for the code 0; every non-zero code,
    /// assigned or not, yields an error variant.
    pub fn from_code(c: usize) -> (e: ErrorCode)
        ensures
            e == spec_error_from_code(c),
            e == ErrorCode::Success <==> c == 0,
    {
        if c == 0 {
            ErrorCode::Success
        } else if c == 1 {
            ErrorCode::Failure
        } else if c == 2 {
            ErrorCode::Crashed
        } else if c == 3 {
            ErrorCode::InvalidArguments
        } else if c == 4 {
            ErrorCode::ASTReadError
        } else {
            ErrorCode::Failure
        }
    }

    /// The numeric code this variant stands for.
    pub fn code(&self) -> (c: usize)
        ensures
            c == spec_error_code(*self),
            spec_error_from_code(c) == *self,
    {
        match *self {
            ErrorCode::Success => 0,
            ErrorCode::Failure => 1,
            ErrorCode::Crashed => 2,
            ErrorCode::InvalidArguments => 3,
            ErrorCode::ASTReadError => 4,
        }
    }

    /// Whether this outcome is the (only) success outcome.
    pub fn is_success(&self) -> (r: bool)
        ensures
            r == (*self == ErrorCode::Success),
    {
        *self == ErrorCode::Success
    }
}

} // verus!
