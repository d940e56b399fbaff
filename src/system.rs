//! The system error category: the operating system's native error codes.
//!
//! On Unix-like systems these are `errno` values, so the category shares the POSIX
//! formatter and retrieval; it additionally treats the Windows socket code for an operation
//! that would block as retryable.
use vstd::prelude::*;
use vstd::utf8::*;
use vstd::string::*;

use crate::buf::appended;
use crate::defs::{EAGAIN, EWOULDBLOCK, WSAEWOULDBLOCK};
use crate::os::is_reported;
use crate::posix::{self, is_message, lemma_appended_is_message, platform_message};
use crate::text::utf8_text;
use crate::utils::write_message_buf;
use crate::{Category, ErrorCode, MessageBuf, FAIL_ERROR_FORMAT, MESSAGE_BUF_SIZE, UNKNOWN_ERROR};

verus! {

broadcast use vstd::utf8::encode_utf8_valid_utf8;

/// Whether system error `code` and `other` denote the same error.
pub fn equivalent(code: i32, other: &ErrorCode) -> (r: bool)
    ensures
        r == (*other.category() == Category::System && code == other.raw_code()),
{
    *other.category() == Category::System && code == other.raw_code()
}

/// Whether `code` asks for the operation to be retried later.
pub fn is_would_block(code: i32) -> (r: bool)
    ensures
        r == (code == WSAEWOULDBLOCK || code == EAGAIN || code == EWOULDBLOCK),
{
    code == WSAEWOULDBLOCK || posix::is_would_block(code)
}

/// Writes into `out` the platform's message for system error `code`; the codes are `errno`
/// values here, described as the POSIX category describes them.
pub fn message(code: i32, out: &mut MessageBuf)
    requires
        old(out).wf(),
    ensures
        final(out).wf(),
        platform_message(code, final(out)@),
        is_message(final(out)@),
{
    posix::message(code, out)
}

/// The calling thread's last system error, or 0 where the platform keeps none.
pub fn get_last_error() -> (r: i32)
    ensures
        is_reported(r),
{
    posix::get_last_error()
}

/// What a native message formatter (such as Windows' `FormatMessage` followed by the
/// transcoding to UTF-8) produced for a code.
pub enum FormatOutcome<'a> {
    /// The description, as UTF-8 bytes; it may have been cut short when the formatter's own
    /// buffer filled up.
    Text(&'a [u8]),
    /// The formatter's message table does not know the code.
    UnknownCode,
    /// Any other failure, of the formatter or of the transcoding.
    Failed,
}

/// Index of the first NUL or carriage return in `t` at or after `i`, or the length of `t`.
pub open spec fn terminator_from(t: Seq<u8>, i: int) -> int
    decreases t.len() - i,
{
    if i < 0 || i >= t.len() {
        t.len() as int
    } else if t[i] == 0 || t[i] == 13 {
        i
    } else {
        terminator_from(t, i + 1)
    }
}

/// The text of a native description: everything before its first NUL or carriage return,
/// or a fixed text when that is empty or not UTF-8.
pub open spec fn native_text(t: Seq<u8>) -> Seq<u8> {
    let line = t.subrange(0, terminator_from(t, 0));
    if !valid_utf8(line) {
        FAIL_ERROR_FORMAT.spec_bytes()
    } else if line.len() == 0 {
        UNKNOWN_ERROR.spec_bytes()
    } else {
        line
    }
}

/// The message for the outcome of the native formatter, apart from an unknown code.
pub open spec fn outcome_text(o: FormatOutcome) -> Seq<u8> {
    match o {
        FormatOutcome::Text(t) => native_text(t@),
        _ => FAIL_ERROR_FORMAT.spec_bytes(),
    }
}

/// Position of the first NUL or carriage return in `t`, or its length.
fn line_end(t: &[u8]) -> (r: usize)
    ensures
        r == terminator_from(t@, 0),
        r <= t@.len(),
{
    let mut i: usize = 0;
    while i < t.len()
        invariant
            i <= t@.len(),
            terminator_from(t@, i as int) == terminator_from(t@, 0),
        decreases t@.len() - i,
    {
        if t[i] == 0 || t[i] == 13 {
            return i;
        }
        i += 1;
    }
    i
}

/// Writes into `out` the system message for `code`, given what the native formatter
/// produced: its text up to the line's end, the POSIX description when the formatter does
/// not know the code, or a fixed text on failure.
pub fn format_message(code: i32, outcome: FormatOutcome, out: &mut MessageBuf)
    requires
        old(out).wf(),
    ensures
        final(out).wf(),
        is_message(final(out)@),
        outcome is UnknownCode ==> platform_message(code, final(out)@),
        !(outcome is UnknownCode) ==> final(out)@ == appended(
            Seq::<u8>::empty(),
            MESSAGE_BUF_SIZE as int,
            outcome_text(outcome),
        ),
{
    proof {
        reveal_strlit("Unknown error");
        reveal_strlit("Failed to format error into utf-8");
    }
    match outcome {
        FormatOutcome::Text(t) => {
            let end = line_end(t);
            let line = vstd::slice::slice_subrange(t, 0, end);
            match utf8_text(line) {
                None => write_message_buf(out, FAIL_ERROR_FORMAT),
                Some(text) => {
                    if text.len() == 0 {
                        write_message_buf(out, UNKNOWN_ERROR);
                    } else {
                        write_message_buf(out, text);
                    }
                },
            }
            proof {
                lemma_appended_is_message(native_text(t@));
            }
        },
        FormatOutcome::UnknownCode => posix::message(code, out),
        FormatOutcome::Failed => {
            write_message_buf(out, FAIL_ERROR_FORMAT);
            proof {
                lemma_appended_is_message(FAIL_ERROR_FORMAT.spec_bytes());
            }
        },
    }
}

} // verus!
