//! Byte-level building blocks for rendering error codes.
use vstd::prelude::*;
use vstd::utf8::*;
use vstd::string::*;

use crate::buf::{appended, law_append_bounded};
use crate::{MessageBuf, MESSAGE_BUF_SIZE};

verus! {

/// ASCII code of the decimal digit `d`.
pub open spec fn digit_byte(d: nat) -> u8 {
    (48 + d) as u8
}

/// Decimal digits of `n`, most significant first, without leading zeros.
pub open spec fn digits(n: nat) -> Seq<u8>
    decreases n,
{
    if n < 10 {
        seq![digit_byte(n)]
    } else {
        digits(n / 10).push(digit_byte(n % 10))
    }
}

/// Decimal rendering of `x`, with a leading `-` when it is negative.
pub open spec fn decimal(x: int) -> Seq<u8> {
    if x < 0 {
        seq![45u8] + digits((-x) as nat)
    } else {
        digits(x as nat)
    }
}

/// Bytes below 0x80 form valid UTF-8.
pub proof fn lemma_ascii_valid_utf8(b: Seq<u8>)
    requires
        forall|i: int| 0 <= i < b.len() ==> b[i] < 0x80,
    ensures
        valid_utf8(b),
{
    assert(b.subrange(0, 0) =~= Seq::<u8>::empty());
    assert(partial_valid_utf8(b, 0));
    partial_valid_utf8_extend_ascii_block(b, 0, b.len() as int);
    assert(b.subrange(0, b.len() as int) =~= b);
}

/// Decimal digits are ASCII.
pub proof fn lemma_digits_ascii(n: nat)
    ensures
        forall|i: int| 0 <= i < digits(n).len() ==> digits(n)[i] < 0x80,
        digits(n).len() >= 1,
    decreases n,
{
    if n >= 10 {
        lemma_digits_ascii(n / 10);
    }
}

/// A decimal rendering is valid UTF-8.
pub proof fn lemma_decimal_valid_utf8(x: int)
    ensures
        valid_utf8(decimal(x)),
{
    lemma_digits_ascii(if x < 0 { (-x) as nat } else { x as nat });
    lemma_ascii_valid_utf8(decimal(x));
}

/// Appends the digits of `n` to `out`.
fn push_digits(out: &mut Vec<u8>, n: u64)
    ensures
        final(out)@ == old(out)@ + digits(n as nat),
    decreases n,
{
    if n >= 10 {
        push_digits(out, n / 10);
    }
    out.push(48u8 + (n % 10) as u8);
    proof {
        assert(final(out)@ =~= old(out)@ + digits(n as nat));
    }
}

/// Appends the decimal rendering of `x` to `out`.
pub fn push_decimal(out: &mut Vec<u8>, x: i32)
    ensures
        final(out)@ == old(out)@ + decimal(x as int),
{
    if x < 0 {
        out.push(45u8);
        let magnitude: u64 = (-(x as i64)) as u64;
        push_digits(out, magnitude);
        assert(final(out)@ =~= old(out)@ + decimal(x as int));
    } else {
        push_digits(out, x as u64);
    }
}

/// Appends all of `bytes` to `out`.
pub fn push_all(out: &mut Vec<u8>, bytes: &[u8])
    ensures
        final(out)@ == old(out)@ + bytes@,
{
    let ghost start = out@;
    let mut i: usize = 0;
    while i < bytes.len()
        invariant
            i <= bytes@.len(),
            out@ == start + bytes@.subrange(0, i as int),
        decreases bytes@.len() - i,
    {
        out.push(bytes[i]);
        i += 1;
        assert(out@ =~= start + bytes@.subrange(0, i as int));
    }
    assert(bytes@.subrange(0, bytes@.len() as int) =~= bytes@);
}

/// Replaces the contents of `out` by `text`, cut to the buffer's capacity at a character
/// boundary.
pub fn write_message_buf(out: &mut MessageBuf, text: &str)
    requires
        old(out).wf(),
    ensures
        final(out).wf(),
        final(out)@ == appended(Seq::<u8>::empty(), MESSAGE_BUF_SIZE as int, text.spec_bytes()),
        text.spec_bytes().len() <= MESSAGE_BUF_SIZE ==> final(out)@ == text.spec_bytes(),
{
    out.truncate(0);
    assert(out@ =~= Seq::<u8>::empty());
    out.push_str(text);
    proof {
        encode_utf8_valid_utf8(text@);
        law_append_bounded(Seq::<u8>::empty(), MESSAGE_BUF_SIZE as int, text.spec_bytes());
        assert(Seq::<u8>::empty() + text.spec_bytes() =~= text.spec_bytes());
    }
}

} // verus!
