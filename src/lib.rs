//! Uniform representation of platform error codes, with their names, messages and
//! would-block classification.
//!
//! Error codes themselves are plain values and message buffers live on the stack; the
//! platform's description of a code and the rendered texts (`to_string`, `debug_string`,
//! `display_with`) are built on the heap, since the standard library hands the description
//! out as a `String`.
use vstd::prelude::*;

pub mod buf;
pub mod defs;
pub mod generic;
pub mod os;
pub mod posix;
pub mod system;
pub mod text;
pub mod utils;

use buf::StrBuf;
use posix::{is_message, platform_message};
use text::str_from_utf8;
use utils::{decimal, lemma_decimal_valid_utf8, push_all, push_decimal};
use defs::{EAGAIN, EWOULDBLOCK, WSAEWOULDBLOCK};
use os::{is_reported, raw_os_error_of};
use vstd::string::*;
use vstd::utf8::*;
use vstd::std_specs::cmp::PartialEqSpec;

verus! {

broadcast use {vstd::utf8::encode_utf8_valid_utf8, vstd::utf8::valid_utf8_concat};

/// Text used when no description of a code can be had.
pub const UNKNOWN_ERROR: &'static str = "Unknown error";

/// Text used when a description of a code is not valid UTF-8.
pub const FAIL_ERROR_FORMAT: &'static str = "Failed to format error into utf-8";

/// Capacity of a message buffer, in bytes.
pub const MESSAGE_BUF_SIZE: usize = 256;

/// Buffer that holds the description of an error code.
pub type MessageBuf = StrBuf<MESSAGE_BUF_SIZE>;

/// The category of an error code: how it is named, described, compared and classified.
///
/// The set of categories is closed: the POSIX and the system category, each told apart from
/// the other by value.
#[derive(Clone, Copy, Debug, PartialEq, Eq, Structural, Hash)]
pub enum Category {
    /// POSIX `errno` values.
    Posix,
    /// The operating system's native error codes.
    System,
}

/// The POSIX error category.
pub const POSIX_CATEGORY: Category = Category::Posix;

/// The system error category.
pub const SYSTEM_CATEGORY: Category = Category::System;

impl Category {
    /// The category's name.
    pub open spec fn spec_name(self) -> Seq<char> {
        match self {
            Category::Posix => "PosixError"@,
            Category::System => "OSError"@,
        }
    }

    /// Whether the category classifies `code` as one to retry later.
    pub open spec fn spec_would_block(self, code: i32) -> bool {
        match self {
            Category::Posix => code == EAGAIN || code == EWOULDBLOCK,
            Category::System => code == WSAEWOULDBLOCK || code == EAGAIN || code == EWOULDBLOCK,
        }
    }

    /// The category's name.
    pub fn name(&self) -> (r: &'static str)
        ensures
            r@ == self.spec_name(),
    {
        match self {
            Category::Posix => "PosixError",
            Category::System => "OSError",
        }
    }

    /// Writes into `out` the description of `code`.
    pub fn message(&self, code: i32, out: &mut MessageBuf)
        requires
            old(out).wf(),
        ensures
            final(out).wf(),
            platform_message(code, final(out)@),
            is_message(final(out)@),
    {
        match self {
            Category::Posix => posix::message(code, out),
            Category::System => system::message(code, out),
        }
    }

    /// Whether `code` of this category and `other` denote the same error: the same category
    /// and the same raw code.
    pub fn equivalent(&self, code: i32, other: &ErrorCode) -> (r: bool)
        ensures
            r == (*self == *other.category() && code == other.raw_code()),
    {
        match self {
            Category::Posix => posix::equivalent(code, other),
            Category::System => system::equivalent(code, other),
        }
    }

    /// Whether `code` indicates that the operation can be retried later.
    pub fn is_would_block(&self, code: i32) -> (r: bool)
        ensures
            r == self.spec_would_block(code),
    {
        match self {
            Category::Posix => posix::is_would_block(code),
            Category::System => system::is_would_block(code),
        }
    }
}

/// An error code together with its category.
///
/// Two error codes are equal when they have the same category and the same raw code; the
/// derived hash covers both, so equal codes hash alike and codes of different categories
/// are told apart by hash-based containers.
#[derive(Clone, Copy, Debug, Hash)]
pub struct ErrorCode {
    code: i32,
    category: &'static Category,
}

/// `name(code)`: how an error code is shown when only its identity is wanted.
pub open spec fn debug_bytes(e: ErrorCode) -> Seq<u8> {
    encode_utf8(e.category().spec_name()) + "(".spec_bytes() + decimal(e.raw_code() as int)
        + ")".spec_bytes()
}

/// `name(code): message`: how an error code is shown with its message `m`.
pub open spec fn display_bytes(e: ErrorCode, m: Seq<u8>) -> Seq<u8> {
    debug_bytes(e) + ": ".spec_bytes() + m
}

/// Both renderings are valid UTF-8 when the message is.
pub proof fn lemma_display_valid_utf8(e: ErrorCode, m: Seq<u8>)
    requires
        valid_utf8(m),
    ensures
        valid_utf8(debug_bytes(e)),
        valid_utf8(display_bytes(e, m)),
{
    let name = encode_utf8(e.category().spec_name());
    let open = "(".spec_bytes();
    let num = decimal(e.raw_code() as int);
    let close = ")".spec_bytes();
    lemma_decimal_valid_utf8(e.raw_code() as int);
    assert(valid_utf8(name));
    assert(valid_utf8(open));
    assert(valid_utf8(close));
    assert(valid_utf8(name + open));
    assert(valid_utf8(name + open + num));
    assert(valid_utf8(name + open + num + close));
    assert(valid_utf8(": ".spec_bytes()));
    assert(valid_utf8(debug_bytes(e) + ": ".spec_bytes()));
    assert(valid_utf8(display_bytes(e, m)));
}

impl ErrorCode {
    /// The POSIX error code `code`, as a value.
    pub closed spec fn spec_posix(code: i32) -> ErrorCode {
        ErrorCode { code, category: &Category::Posix }
    }

    /// The raw code.
    pub closed spec fn spec_raw_code(&self) -> i32 {
        self.code
    }

    /// The category.
    pub closed spec fn spec_category(&self) -> &'static Category {
        self.category
    }

    /// Error code `code` of `category`.
    pub fn new(code: i32, category: &'static Category) -> (r: Self)
        ensures
            r.raw_code() == code,
            *r.category() == *category,
    {
        ErrorCode { code, category }
    }

    /// POSIX error code `code`.
    pub fn new_posix(code: i32) -> (r: Self)
        ensures
            r.raw_code() == code,
            *r.category() == Category::Posix,
    {
        Self::new(code, &POSIX_CATEGORY)
    }

    /// System error code `code`.
    pub fn new_system(code: i32) -> (r: Self)
        ensures
            r.raw_code() == code,
            *r.category() == Category::System,
    {
        Self::new(code, &SYSTEM_CATEGORY)
    }

    /// The calling thread's last POSIX error.
    pub fn last_posix() -> (r: Self)
        ensures
            *r.category() == Category::Posix,
            is_reported(r.raw_code()),
    {
        Self::new_posix(posix::get_last_error())
    }

    /// The calling thread's last system error.
    pub fn last_system() -> (r: Self)
        ensures
            *r.category() == Category::System,
            is_reported(r.raw_code()),
    {
        Self::new_system(system::get_last_error())
    }

    /// POSIX error code for the platform error number `raw`, or -1 when there is none.
    pub fn from_os_error(raw: Option<i32>) -> (r: Self)
        ensures
            r.raw_code() == match raw {
                Some(code) => code,
                None => -1i32,
            },
            *r.category() == Category::Posix,
    {
        match raw {
            Some(code) => Self::new_posix(code),
            None => Self::new_posix(-1),
        }
    }

    /// The raw code.
    #[verifier::when_used_as_spec(spec_raw_code)]
    pub fn raw_code(&self) -> (r: i32)
        ensures
            r == self.spec_raw_code(),
    {
        self.code
    }

    /// The category.
    #[verifier::when_used_as_spec(spec_category)]
    pub fn category(&self) -> (r: &'static Category)
        ensures
            r == self.spec_category(),
    {
        self.category
    }

    /// Whether the error indicates that the operation can be retried later.
    pub fn is_would_block(&self) -> (r: bool)
        ensures
            r == self.category().spec_would_block(self.raw_code()),
    {
        self.category.is_would_block(self.code)
    }

    /// Appends `name(code)` to `out`.
    fn push_identity(&self, out: &mut Vec<u8>)
        ensures
            final(out)@ == old(out)@ + debug_bytes(*self),
    {
        push_all(out, self.category.name().as_bytes());
        push_all(out, "(".as_bytes());
        push_decimal(out, self.code);
        push_all(out, ")".as_bytes());
        assert(final(out)@ =~= old(out)@ + debug_bytes(*self));
    }

    /// `name(code)`, the rendering that skips the message.
    pub fn debug_string(&self) -> (r: String)
        ensures
            encode_utf8(r@) == debug_bytes(*self),
    {
        let mut out: Vec<u8> = Vec::new();
        self.push_identity(&mut out);
        proof {
            lemma_display_valid_utf8(*self, Seq::<u8>::empty());
        }
        str_from_utf8(out.as_slice()).to_owned()
    }

    /// `name(code): message`, with the given message.
    pub fn display_with(&self, message: &str) -> (r: String)
        ensures
            encode_utf8(r@) == display_bytes(*self, message.spec_bytes()),
    {
        let mut out: Vec<u8> = Vec::new();
        self.push_identity(&mut out);
        push_all(&mut out, ": ".as_bytes());
        push_all(&mut out, message.as_bytes());
        proof {
            lemma_display_valid_utf8(*self, message.spec_bytes());
            assert(out@ =~= display_bytes(*self, message.spec_bytes()));
        }
        str_from_utf8(out.as_slice()).to_owned()
    }

    /// `name(code): message`, with the category's message for the code.
    pub fn to_string(&self) -> (r: String)
        ensures
            exists|m: Seq<u8>|
                #![trigger is_message(m)]
                platform_message(self.raw_code(), m) && is_message(m) && encode_utf8(r@)
                    == display_bytes(*self, m),
    {
        let mut buf = MessageBuf::new();
        self.category.message(self.code, &mut buf);
        let r = self.display_with(buf.as_str());
        assert(is_message(buf@));
        r
    }
}

/// Equality of error codes is reflexive; codes of one category are equal exactly when their
/// raw codes are, and codes of different categories are never equal.
pub proof fn law_equality(a: ErrorCode, b: ErrorCode)
    ensures
        a.eq_spec(&a),
        *a.category() == *b.category() ==> (a.eq_spec(&b) <==> a.raw_code() == b.raw_code()),
        *a.category() != *b.category() ==> !a.eq_spec(&b),
{
}

impl PartialEq for ErrorCode {
    fn eq(&self, other: &Self) -> (r: bool)
        ensures
            r == (*self.category() == *other.category() && self.raw_code() == other.raw_code()),
    {
        self.category.equivalent(self.code, other)
    }
}

impl vstd::std_specs::cmp::PartialEqSpecImpl for ErrorCode {
    open spec fn obeys_eq_spec() -> bool {
        true
    }

    open spec fn eq_spec(&self, other: &ErrorCode) -> bool {
        *self.category() == *other.category() && self.raw_code() == other.raw_code()
    }
}

impl From<std::io::Error> for ErrorCode {
    /// POSIX error code for the platform error number carried by `err`, or -1 when it
    /// carries none.
    fn from(err: std::io::Error) -> (r: Self)
        ensures
            r.raw_code() == match raw_os_error_of(err) {
                Some(code) => code,
                None => -1i32,
            },
            *r.category() == Category::Posix,
    {
        Self::from_os_error(err.raw_os_error())
    }
}

impl vstd::std_specs::convert::FromSpecImpl<std::io::Error> for ErrorCode {
    open spec fn obeys_from_spec() -> bool {
        true
    }

    open spec fn from_spec(err: std::io::Error) -> ErrorCode {
        ErrorCode::spec_posix(
            match raw_os_error_of(err) {
                Some(code) => code,
                None => -1i32,
            },
        )
    }
}

impl Eq for ErrorCode {

}

} // verus!
