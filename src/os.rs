//! The platform services that the categories consult, through the standard library.
use vstd::prelude::*;

verus! {

/// The standard library's I/O error, carried through as an opaque value.
#[verifier::external_type_specification]
#[verifier::external_body]
pub struct ExIoError(std::io::Error);

/// The platform error number that an I/O error carries, if any.
pub uninterp spec fn raw_os_error_of(e: std::io::Error) -> Option<i32>;

/// Relies on `std::io::Error::raw_os_error`: a getter, so its result depends on the error
/// alone. Nothing is assumed of the value.
pub assume_specification[ std::io::Error::raw_os_error ](e: &std::io::Error) -> (r: Option<i32>)
    ensures
        r == raw_os_error_of(*e),
;

/// Relies on `std::io::Error::last_os_error`: the calling thread's last platform error. As
/// `raw_os_error` documents, an error made this way carries a platform error number; which
/// one is not assumed.
pub assume_specification[ std::io::Error::last_os_error ]() -> (r: std::io::Error)
    ensures
        raw_os_error_of(r).is_some(),
;

/// Relies on `std::io::Error::from_raw_os_error`: an error that carries the platform error
/// number `code`, whose `Display` gives the platform's description of it.
pub assume_specification[ std::io::Error::from_raw_os_error ](code: i32) -> (r: std::io::Error)
    ensures
        raw_os_error_of(r) == Some(code),
;

/// The error code for the platform error number `raw`, or 0 when there is none.
pub open spec fn spec_os_code(raw: Option<i32>) -> i32 {
    match raw {
        Some(code) => code,
        None => 0i32,
    }
}

/// The error code for the platform error number `raw`, or 0 when there is none.
pub fn os_code(raw: Option<i32>) -> (r: i32)
    ensures
        r == spec_os_code(raw),
{
    match raw {
        Some(code) => code,
        None => 0,
    }
}

/// `code` is the error code of an error that the platform reported.
pub open spec fn is_reported(code: i32) -> bool {
    exists|e: std::io::Error| code == spec_os_code(#[trigger] raw_os_error_of(e))
}

} // verus!
