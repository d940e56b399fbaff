//! The POSIX error category: `errno` values described by the platform's error strings.
use vstd::prelude::*;
use vstd::utf8::*;
use vstd::string::*;

use crate::buf::appended;
use crate::defs::{EAGAIN, EWOULDBLOCK};
use crate::text::{floor_boundary, lemma_floor_boundary, utf8_text};
use crate::utils::{decimal, push_all, push_decimal, write_message_buf};
use crate::os::{is_reported, os_code, raw_os_error_of, spec_os_code};
use crate::{Category, ErrorCode, MessageBuf, FAIL_ERROR_FORMAT, MESSAGE_BUF_SIZE, UNKNOWN_ERROR};

verus! {

broadcast use vstd::utf8::encode_utf8_valid_utf8;

/// The note that the standard library appends to a platform description of `code`.
pub open spec fn os_note(code: int) -> Seq<u8> {
    " (os error ".spec_bytes() + decimal(code) + ")".spec_bytes()
}

/// `text` without the trailing note on `code`, if it has one.
pub open spec fn strip_note(code: int, text: Seq<u8>) -> Seq<u8> {
    let note = os_note(code);
    if note.len() <= text.len() && text.subrange(text.len() - note.len(), text.len() as int)
        == note {
        text.subrange(0, text.len() - note.len())
    } else {
        text
    }
}

/// The text that describes `code`, given the platform's rendering `native` of it:
/// the platform text without the note, or a fixed text when that is empty or not UTF-8.
pub open spec fn description(code: int, native: Seq<u8>) -> Seq<u8> {
    let d = strip_note(code, native);
    if !valid_utf8(d) {
        FAIL_ERROR_FORMAT.spec_bytes()
    } else if d.len() == 0 {
        UNKNOWN_ERROR.spec_bytes()
    } else {
        d
    }
}

/// The message written for `code`: its description, cut to the message buffer's capacity
/// at a character boundary.
pub open spec fn formatted(code: int, native: Seq<u8>) -> Seq<u8> {
    appended(Seq::<u8>::empty(), MESSAGE_BUF_SIZE as int, description(code, native))
}

/// `m` is the message formatted from the platform's description of `code`, as the
/// standard library renders an error carrying that number.
pub open spec fn platform_message(code: i32, m: Seq<u8>) -> bool {
    exists|e: std::io::Error, s: String|
        #![trigger to_string_from_display_ensures::<std::io::Error>(&e, s)]
        raw_os_error_of(e) == Some(code) && to_string_from_display_ensures::<std::io::Error>(
            &e,
            s,
        ) && m == formatted(code as int, encode_utf8(s@))
}

/// What every message satisfies: valid UTF-8, not empty, within the buffer's capacity.
pub open spec fn is_message(m: Seq<u8>) -> bool {
    &&& valid_utf8(m)
    &&& 0 < m.len() <= MESSAGE_BUF_SIZE
}

/// A non-empty valid text has a character boundary after its first character.
proof fn lemma_first_boundary(bytes: Seq<u8>, n: int)
    requires
        valid_utf8(bytes),
        0 < bytes.len(),
        n == bytes.len() || 4 <= n <= bytes.len(),
    ensures
        floor_boundary(bytes, n) > 0,
{
    let k = length_of_first_scalar(bytes);
    is_char_boundary_start_end_of_seq(pop_first_scalar(bytes));
    assert(is_char_boundary(bytes, k));
    lemma_floor_at_least(bytes, n, k);
}

/// `floor_boundary` never passes over a character boundary.
proof fn lemma_floor_at_least(bytes: Seq<u8>, n: int, k: int)
    requires
        valid_utf8(bytes),
        0 <= k <= n,
        is_char_boundary(bytes, k),
    ensures
        floor_boundary(bytes, n) >= k,
    decreases n,
{
    if n > k && !is_char_boundary(bytes, n) {
        lemma_floor_at_least(bytes, n - 1, k);
    }
}

/// A non-empty valid text, cut to the message buffer, is a message.
pub proof fn lemma_appended_is_message(d: Seq<u8>)
    requires
        valid_utf8(d),
        d.len() > 0,
    ensures
        is_message(appended(Seq::<u8>::empty(), MESSAGE_BUF_SIZE as int, d)),
{
    let cap = MESSAGE_BUF_SIZE as int;
    let room = if d.len() <= cap { d.len() as int } else { cap };
    lemma_floor_boundary(d, room);
    lemma_first_boundary(d, room);
    valid_utf8_split(d, floor_boundary(d, room));
    assert(appended(Seq::<u8>::empty(), cap, d) =~= d.subrange(0, floor_boundary(d, room)));
}

/// Every formatted message is valid UTF-8, non-empty and fits the buffer.
pub proof fn lemma_formatted_is_message(code: int, native: Seq<u8>)
    ensures
        is_message(formatted(code, native)),
{
    reveal_strlit("Unknown error");
    reveal_strlit("Failed to format error into utf-8");
    lemma_appended_is_message(description(code, native));
}

/// Length of `text` once the trailing note on `code` is removed.
fn stripped_len(code: i32, text: &[u8]) -> (r: usize)
    ensures
        strip_note(code as int, text@) == text@.subrange(0, r as int),
        r <= text@.len(),
{
    let mut note: Vec<u8> = Vec::new();
    push_all(&mut note, " (os error ".as_bytes());
    push_decimal(&mut note, code);
    push_all(&mut note, ")".as_bytes());
    assert(note@ =~= os_note(code as int));
    if note.len() > text.len() {
        assert(text@.subrange(0, text@.len() as int) =~= text@);
        return text.len();
    }
    let start = text.len() - note.len();
    let mut i: usize = 0;
    while i < note.len()
        invariant
            start + note@.len() == text@.len(),
            text@.len() <= usize::MAX,
            note@ == os_note(code as int),
            i <= note@.len(),
            forall|k: int| 0 <= k < i ==> text@[start + k] == note@[k],
        decreases note@.len() - i,
    {
        if text[start + i] != note[i] {
            assert(text@.subrange(start as int, text@.len() as int)[i as int] != note@[i as int]);
            assert(text@.subrange(0, text@.len() as int) =~= text@);
            return text.len();
        }
        i += 1;
    }
    assert(text@.subrange(start as int, text@.len() as int) =~= note@);
    start
}

/// Writes into `out` the message for `code`, given the platform's rendering `native` of it.
pub fn describe_into(code: i32, native: &[u8], out: &mut MessageBuf)
    requires
        old(out).wf(),
    ensures
        final(out).wf(),
        final(out)@ == formatted(code as int, native@),
{
    let len = stripped_len(code, native);
    let stripped = vstd::slice::slice_subrange(native, 0, len);
    match utf8_text(stripped) {
        None => write_message_buf(out, FAIL_ERROR_FORMAT),
        Some(text) => {
            if text.len() == 0 {
                write_message_buf(out, UNKNOWN_ERROR);
            } else {
                write_message_buf(out, text);
            }
        },
    }
}

/// Writes into `out` the platform's message for `code`.
///
/// The platform's description comes through the standard library's rendering of an I/O
/// error, which already replaces bytes that are not UTF-8; so on this path the fixed text
/// for invalid UTF-8 is never written.
pub fn message(code: i32, out: &mut MessageBuf)
    requires
        old(out).wf(),
    ensures
        final(out).wf(),
        platform_message(code, final(out)@),
        is_message(final(out)@),
{
    let err = std::io::Error::from_raw_os_error(code);
    let text = err.to_string();
    describe_into(code, text.as_str().as_bytes(), out);
    proof {
        lemma_formatted_is_message(code as int, encode_utf8(text@));
    }
}

/// Whether POSIX error `code` and `other` denote the same error.
pub fn equivalent(code: i32, other: &ErrorCode) -> (r: bool)
    ensures
        r == (*other.category() == Category::Posix && code == other.raw_code()),
{
    *other.category() == Category::Posix && code == other.raw_code()
}

/// Whether `code` asks for the operation to be retried later.
pub fn is_would_block(code: i32) -> (r: bool)
    ensures
        r == (code == EAGAIN || code == EWOULDBLOCK),
{
    code == EAGAIN || code == EWOULDBLOCK
}

/// The calling thread's last platform error, or 0 where the platform keeps none.
pub fn get_last_error() -> (r: i32)
    ensures
        is_reported(r),
{
    let err = std::io::Error::last_os_error();
    let r = os_code(err.raw_os_error());
    assert(r == spec_os_code(raw_os_error_of(err)));
    r
}

} // verus!
