//! UTF-8 helpers shared by the buffers and the message formatters.
use vstd::prelude::*;
use vstd::utf8::*;
use vstd::string::*;

verus! {

/// The largest character boundary of `bytes` at or before `n`.
pub open spec fn floor_boundary(bytes: Seq<u8>, n: int) -> int
    decreases n,
{
    if n <= 0 {
        0
    } else if is_char_boundary(bytes, n) {
        n
    } else {
        floor_boundary(bytes, n - 1)
    }
}

/// `floor_boundary` is a character boundary no later than `n`.
pub proof fn lemma_floor_boundary(bytes: Seq<u8>, n: int)
    requires
        valid_utf8(bytes),
        0 <= n <= bytes.len(),
    ensures
        0 <= floor_boundary(bytes, n) <= n,
        is_char_boundary(bytes, floor_boundary(bytes, n)),
    decreases n,
{
    is_char_boundary_start_end_of_seq(bytes);
    if n > 0 && !is_char_boundary(bytes, n) {
        lemma_floor_boundary(bytes, n - 1);
    }
}

/// Relies on `core::str::from_utf8`: it accepts exactly the valid UTF-8 byte strings and
/// hands back the same bytes as text.
#[verifier::external_body]
pub(crate) fn utf8_text(b: &[u8]) -> (r: Option<&str>)
    ensures
        r.is_some() == valid_utf8(b@),
        r.is_some() ==> r.unwrap().spec_bytes() == b@,
{
    core::str::from_utf8(b).ok()
}

/// Views bytes already known to be valid UTF-8 as text.
pub fn str_from_utf8(b: &[u8]) -> (r: &str)
    requires
        valid_utf8(b@),
    ensures
        r.spec_bytes() == b@,
{
    match utf8_text(b) {
        Some(s) => s,
        None => "",
    }
}

/// The largest character boundary of `s` at or before byte `n`.
pub fn floor_char_boundary(s: &str, n: usize) -> (r: usize)
    requires
        n <= s.spec_bytes().len(),
    ensures
        r == floor_boundary(s.spec_bytes(), n as int),
        r <= n,
        is_char_boundary(s.spec_bytes(), r as int),
{
    proof {
        encode_utf8_valid_utf8(s@);
        is_char_boundary_start_end_of_seq(s.spec_bytes());
    }
    let mut i: usize = n;
    while !s.is_char_boundary(i)
        invariant
            i <= n,
            n <= s.spec_bytes().len(),
            valid_utf8(s.spec_bytes()),
            is_char_boundary(s.spec_bytes(), 0),
            floor_boundary(s.spec_bytes(), i as int) == floor_boundary(s.spec_bytes(), n as int),
        decreases i,
    {
        i = i - 1;
    }
    i
}

} // verus!
