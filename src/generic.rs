//! The generic error category, usable in every environment.
//!
//! Where an operating system is present, it identifies POSIX error codes.
use vstd::prelude::*;

use crate::os::is_reported;
use crate::posix::{self, is_message, platform_message};
use crate::MessageBuf;

verus! {

/// Generic error category; describes codes as POSIX error numbers.
#[derive(Clone, Copy, Debug)]
pub struct GenericCategory;

/// The calling thread's last platform error, or 0 where the platform keeps none.
pub fn get_last_error() -> (r: i32)
    ensures
        is_reported(r),
{
    posix::get_last_error()
}

impl GenericCategory {
    /// The category.
    pub fn new() -> (r: Self) {
        GenericCategory
    }

    /// The category's name.
    pub fn name(&self) -> (r: &'static str)
        ensures
            r@ == "Generic"@,
    {
        "Generic"
    }

    /// Writes into `out` the description of `code`.
    pub fn message(&self, code: i32, out: &mut MessageBuf)
        requires
            old(out).wf(),
        ensures
            final(out).wf(),
            platform_message(code, final(out)@),
            is_message(final(out)@),
    {
        posix::message(code, out)
    }
}

} // verus!
