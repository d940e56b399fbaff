//! Fixed-capacity text buffer that lives on the stack.
use vstd::prelude::*;
use vstd::utf8::*;
use vstd::string::*;

use crate::text::{floor_boundary, floor_char_boundary, lemma_floor_boundary, str_from_utf8};

verus! {

broadcast use {vstd::utf8::is_char_boundary_start_end_of_seq, vstd::utf8::valid_utf8_split, vstd::utf8::valid_utf8_concat};

/// The bytes kept when `text` is appended to `buf` in a buffer of `cap` bytes:
/// the longest prefix of `text` that fits and ends on a character boundary.
pub open spec fn appended(buf: Seq<u8>, cap: int, text: Seq<u8>) -> Seq<u8> {
    let room = if text.len() <= cap - buf.len() { text.len() as int } else { cap - buf.len() };
    buf + text.subrange(0, floor_boundary(text, room))
}

/// Appending more text than fits into an empty buffer keeps exactly the first `cap` bytes
/// when they end on a character boundary; after that the buffer is full and a further
/// append leaves it unchanged.
pub proof fn law_truncation(cap: int, text: Seq<u8>, more: Seq<u8>)
    requires
        0 <= cap < text.len(),
        valid_utf8(text),
        is_char_boundary(text, cap),
    ensures
        appended(Seq::<u8>::empty(), cap, text) == text.subrange(0, cap),
        appended(appended(Seq::<u8>::empty(), cap, text), cap, more) == appended(
            Seq::<u8>::empty(),
            cap,
            text,
        ),
{
    assert(Seq::<u8>::empty() + text.subrange(0, cap) =~= text.subrange(0, cap));
    let full = text.subrange(0, cap);
    assert(full + more.subrange(0, 0) =~= full);
}

/// Whatever is appended, the buffer keeps a valid UTF-8 prefix of at most `cap` bytes made of
/// the old contents followed by a prefix of the text.
pub proof fn law_append_bounded(buf: Seq<u8>, cap: int, text: Seq<u8>)
    requires
        buf.len() <= cap,
        valid_utf8(buf),
        valid_utf8(text),
    ensures
        valid_utf8(appended(buf, cap, text)),
        appended(buf, cap, text).len() <= cap,
        appended(buf, cap, text).subrange(0, buf.len() as int) == buf,
        text.len() <= cap - buf.len() ==> appended(buf, cap, text) == buf + text,
{
    let room = if text.len() <= cap - buf.len() { text.len() as int } else { cap - buf.len() };
    lemma_floor_boundary(text, room);
    valid_utf8_split(text, floor_boundary(text, room));
    let kept = text.subrange(0, floor_boundary(text, room));
    assert(valid_utf8(buf + kept));
    assert((buf + kept).subrange(0, buf.len() as int) =~= buf);
    if text.len() <= cap - buf.len() {
        assert(kept =~= text);
    }
}

/// Stack based string of at most `N` bytes.
///
/// The written prefix is always valid UTF-8; appending text that does not fit keeps the
/// longest prefix of it that fits and ends on a character boundary.
pub struct StrBuf<const N: usize> {
    inner: [u8; N],
    cursor: usize,
}

impl<const N: usize> View for StrBuf<N> {
    type V = Seq<u8>;

    /// The bytes written so far.
    closed spec fn view(&self) -> Seq<u8> {
        self.inner@.subrange(0, self.cursor as int)
    }
}

impl<const N: usize> StrBuf<N> {
    /// The written prefix fits in the storage and is valid UTF-8.
    pub closed spec fn wf(&self) -> bool {
        &&& self.cursor <= N
        &&& valid_utf8(self@)
    }

    /// Creates an empty buffer.
    pub fn new() -> (r: Self)
        ensures
            r.wf(),
            r@ == Seq::<u8>::empty(),
    {
        let r = StrBuf { inner: [0u8; N], cursor: 0 };
        assert(r@ =~= Seq::<u8>::empty());
        r
    }

    /// Number of bytes left (not written yet).
    pub fn remaining(&self) -> (r: usize)
        requires
            self.wf(),
        ensures
            r == N - self@.len(),
    {
        N - self.cursor
    }

    /// Shortens the buffer to at most `cursor` bytes, moving back to the previous character
    /// boundary when `cursor` falls inside a character.
    ///
    /// Does nothing if `cursor` is not before the current position.
    pub fn truncate(&mut self, cursor: u8)
        requires
            old(self).wf(),
        ensures
            final(self).wf(),
            cursor as int >= old(self)@.len() ==> final(self)@ == old(self)@,
            (cursor as int) < old(self)@.len() ==> final(self)@ == old(self)@.subrange(
                0,
                floor_boundary(old(self)@, cursor as int),
            ),
    {
        if (cursor as usize) < self.cursor {
            let ghost before = self@;
            let new_len = floor_char_boundary(self.as_str(), cursor as usize);
            self.cursor = new_len;
            assert(self@ =~= before.subrange(0, new_len as int));
        }
    }

    /// Overall capacity.
    pub fn capacity() -> (r: usize)
        ensures
            r == N,
    {
        N
    }

    /// Number of bytes written.
    pub fn len(&self) -> (r: usize)
        requires
            self.wf(),
        ensures
            r == self@.len(),
    {
        self.cursor
    }

    /// The bytes written so far.
    pub fn as_slice(&self) -> (r: &[u8])
        requires
            self.wf(),
        ensures
            r@ == self@,
    {
        vstd::slice::slice_subrange(self.inner.as_slice(), 0, self.cursor)
    }

    /// The text written so far; empty if nothing has been written yet.
    pub fn as_str(&self) -> (r: &str)
        requires
            self.wf(),
        ensures
            r.spec_bytes() == self@,
    {
        str_from_utf8(self.as_slice())
    }

    /// Appends `text`, keeping only the longest prefix of it that fits and ends on a
    /// character boundary.
    pub fn push_str(&mut self, text: &str)
        requires
            old(self).wf(),
        ensures
            final(self).wf(),
            final(self)@ == appended(old(self)@, N as int, text.spec_bytes()),
    {
        let ghost before = self@;
        let bytes = text.as_bytes();
        let room = N - self.cursor;
        let want = if bytes.len() <= room { bytes.len() } else { room };
        let size = floor_char_boundary(text, want);
        let start = self.cursor;
        let mut j: usize = 0;
        while j < size
            invariant
                start == self.cursor,
                start + size <= N,
                size <= bytes@.len(),
                j <= size,
                bytes@ == text.spec_bytes(),
                self.inner@.subrange(0, start as int) == before,
                forall|k: int| 0 <= k < j ==> self.inner@[start + k] == bytes@[k],
            decreases size - j,
        {
            self.inner[start + j] = bytes[j];
            j += 1;
        }
        self.cursor = start + size;
        proof {
            let added = text.spec_bytes().subrange(0, size as int);
            assert(self@ =~= before + added);
            encode_utf8_valid_utf8(text@);
            valid_utf8_split(text.spec_bytes(), size as int);
        }
    }
}

} // verus!
