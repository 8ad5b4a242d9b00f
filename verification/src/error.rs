//! Error classification: the closed taxonomy the native status codes
//! translate to.
//!
//! The mapping is total.  Every defined native code maps to exactly one
//! variant, and a code outside the defined range maps to an internal
//! error carrying a descriptive fallback message.

use vstd::prelude::*;
use vstd::string::StringExecFns;

use crate::text::decimal_digits;
use crate::text::u32_to_decimal;

verus! {

/// Native status code for a call that succeeded.
pub const ERROR_CODE_SUCCESS: u32 = 0;
/// Native status code for an invalid parameter.
pub const ERROR_CODE_INVALID_PARAMETER: u32 = 1;
/// Native status code for an invalid device handle.
pub const ERROR_CODE_INVALID_DEVICE: u32 = 2;
/// Native status code for an internal backend error.
pub const ERROR_CODE_INTERNAL_ERROR: u32 = 3;
/// Native status code for a memory allocation failure.
pub const ERROR_CODE_MEMORY: u32 = 4;
/// Native status code that signals the end of an enumeration.
pub const ERROR_CODE_NO_MORE_DEVICES: u32 = 5;
/// Native status code for "no error to report".
pub const ERROR_CODE_NONE: u32 = 6;
/// Native end-of-range marker for status codes.
pub const ERROR_CODE_MAX_VALUE: u32 = 7;

/// The closed error taxonomy of the engine.
#[derive(Debug)]
pub enum FreeWiliError {
    /// Invalid parameter passed to a function
    InvalidParameter,
    /// Invalid device handle (device may have been disconnected)
    InvalidDevice,
    /// Internal error in the native backend, with optional diagnostic text
    InternalError(Option<String>),
    /// Memory allocation error
    MemoryError,
    /// No more devices found during enumeration
    NoMoreDevices,
    /// Success or no error (used internally)
    Success,
}

/// Whether a status code is one the native protocol defines.
pub open spec fn is_known_error_code(code: u32) -> bool {
    code == ERROR_CODE_SUCCESS || code == ERROR_CODE_INVALID_PARAMETER
        || code == ERROR_CODE_INVALID_DEVICE || code == ERROR_CODE_INTERNAL_ERROR
        || code == ERROR_CODE_MEMORY || code == ERROR_CODE_NO_MORE_DEVICES
        || code == ERROR_CODE_NONE || code == ERROR_CODE_MAX_VALUE
}

/// The fallback message carried for a status code outside the defined
/// range.
pub open spec fn unknown_code_message(code: u32) -> Seq<char> {
    "Unknown error code: "@ + decimal_digits(code as nat)
}

/// The one error value (up to the text of its message) that a native
/// status code maps to.
pub open spec fn error_matches_code(code: u32, e: FreeWiliError) -> bool {
    if code == ERROR_CODE_SUCCESS || code == ERROR_CODE_NONE {
        e is Success
    } else if code == ERROR_CODE_INVALID_PARAMETER {
        e is InvalidParameter
    } else if code == ERROR_CODE_INVALID_DEVICE {
        e is InvalidDevice
    } else if code == ERROR_CODE_INTERNAL_ERROR || code == ERROR_CODE_MAX_VALUE {
        e matches FreeWiliError::InternalError(m) && m is None
    } else if code == ERROR_CODE_MEMORY {
        e is MemoryError
    } else if code == ERROR_CODE_NO_MORE_DEVICES {
        e is NoMoreDevices
    } else {
        e matches FreeWiliError::InternalError(m) && m matches Some(s) && s@
            == unknown_code_message(code)
    }
}

impl FreeWiliError {
    /// Translates a native status code.  Total: a code outside the
    /// defined range maps to `InternalError` with a descriptive fallback
    /// message.
    pub fn from_code(code: u32) -> (r: FreeWiliError)
        ensures
            error_matches_code(code, r),
    {
        if code == ERROR_CODE_SUCCESS || code == ERROR_CODE_NONE {
            FreeWiliError::Success
        } else if code == ERROR_CODE_INVALID_PARAMETER {
            FreeWiliError::InvalidParameter
        } else if code == ERROR_CODE_INVALID_DEVICE {
            FreeWiliError::InvalidDevice
        } else if code == ERROR_CODE_INTERNAL_ERROR || code == ERROR_CODE_MAX_VALUE {
            FreeWiliError::InternalError(None)
        } else if code == ERROR_CODE_MEMORY {
            FreeWiliError::MemoryError
        } else if code == ERROR_CODE_NO_MORE_DEVICES {
            FreeWiliError::NoMoreDevices
        } else {
            let mut message = "Unknown error code: ".to_owned();
            message.append(u32_to_decimal(code).as_str());
            FreeWiliError::InternalError(Some(message))
        }
    }

    /// The display text of this error, as the taxonomy documents it.
    pub fn message(&self) -> (r: String)
        ensures
            r@ == error_message_spec(self),
    {
        match self {
            FreeWiliError::InvalidParameter => "Invalid Parameter".to_owned(),
            FreeWiliError::InvalidDevice => "Invalid device handle".to_owned(),
            FreeWiliError::InternalError(None) => "Internal error".to_owned(),
            FreeWiliError::InternalError(Some(text)) => {
                let mut message = "Internal error: ".to_owned();
                message.append(text.as_str());
                message
            },
            FreeWiliError::MemoryError => "Memory error".to_owned(),
            FreeWiliError::NoMoreDevices => "No more devices found".to_owned(),
            FreeWiliError::Success => "None".to_owned(),
        }
    }
}

/// The display text of an error value.
pub open spec fn error_message_spec(e: &FreeWiliError) -> Seq<char> {
    match e {
        FreeWiliError::InvalidParameter => "Invalid Parameter"@,
        FreeWiliError::InvalidDevice => "Invalid device handle"@,
        FreeWiliError::InternalError(None) => "Internal error"@,
        FreeWiliError::InternalError(Some(text)) => "Internal error: "@ + text@,
        FreeWiliError::MemoryError => "Memory error"@,
        FreeWiliError::NoMoreDevices => "No more devices found"@,
        FreeWiliError::Success => "None"@,
    }
}

/// Law: the error mapping is deterministic.  Two error values that both
/// match one status code agree on the variant and on the text of any
/// carried message.
pub proof fn lemma_error_mapping_unique(code: u32, e1: FreeWiliError, e2: FreeWiliError)
    requires
        error_matches_code(code, e1),
        error_matches_code(code, e2),
    ensures
        e1 is Success <==> e2 is Success,
        e1 is InvalidParameter <==> e2 is InvalidParameter,
        e1 is InvalidDevice <==> e2 is InvalidDevice,
        e1 is InternalError <==> e2 is InternalError,
        e1 is MemoryError <==> e2 is MemoryError,
        e1 is NoMoreDevices <==> e2 is NoMoreDevices,
        e1 matches FreeWiliError::InternalError(Some(m1)) ==> (e2 matches FreeWiliError::InternalError(Some(m2))
            && m1@ == m2@),
{
}

/// Law: a status code outside the defined range always maps to an
/// internal error that carries the descriptive fallback message.
pub proof fn lemma_unknown_code_is_internal(code: u32, e: FreeWiliError)
    requires
        !is_known_error_code(code),
        error_matches_code(code, e),
    ensures
        e matches FreeWiliError::InternalError(m) && m matches Some(s) && s@
            == unknown_code_message(code),
{
}

} // verus!
