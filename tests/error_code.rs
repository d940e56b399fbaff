use error_code::buf::StrBuf;
use error_code::defs::{EAGAIN, WSAEWOULDBLOCK};
use error_code::generic::GenericCategory;
use error_code::posix::describe_into;
use error_code::os::os_code;
use error_code::system::{format_message, FormatOutcome};
use error_code::utils::write_message_buf;
use error_code::{
    Category, ErrorCode, MessageBuf, FAIL_ERROR_FORMAT, MESSAGE_BUF_SIZE, POSIX_CATEGORY,
    SYSTEM_CATEGORY, UNKNOWN_ERROR,
};

use core::mem;

#[test]
fn size_check_64bit() {
    //On 64bit we suffer from alignment, but Rust optimizes enums quite well so ErrorCode benefits
    //of this optimization, letting its padding to be consumed by Result
    assert_eq!(mem::size_of::<ErrorCode>(), 16);
}

#[test]
fn it_works() {
    let error = ErrorCode::new_posix(11);
    println!("{:?}", error.to_string());
    println!("{:?}", error.debug_string());

    let error = ErrorCode::last_posix();
    println!("{}", error.to_string());

    let error = ErrorCode::new_system(11);
    println!("{:?}", error.to_string());

    let error = ErrorCode::last_system();
    println!("{}", error.to_string());
}

#[test]
fn check_error_code_range() {
    for code in 0..=15999 {
        let error = ErrorCode::new_posix(code);
        println!("{:?}", error.to_string());

        let error = ErrorCode::new_system(code);
        println!("{:?}", error.to_string());
    }
}

fn message_of(category: Category, code: i32) -> String {
    let mut buf = MessageBuf::new();
    category.message(code, &mut buf);
    buf.as_str().to_owned()
}

#[test]
fn constructors_keep_code_and_category() {
    for code in [0, 1, 11, -1, i32::MAX, i32::MIN] {
        let e = ErrorCode::new(code, &SYSTEM_CATEGORY);
        assert_eq!(e.raw_code(), code);
        assert_eq!(*e.category(), SYSTEM_CATEGORY);
        let e = ErrorCode::new(code, &POSIX_CATEGORY);
        assert_eq!(e.raw_code(), code);
        assert_eq!(*e.category(), POSIX_CATEGORY);
        assert_eq!(*ErrorCode::new_posix(code).category(), Category::Posix);
        assert_eq!(*ErrorCode::new_system(code).category(), Category::System);
    }
}

#[test]
fn equality_follows_category_and_code() {
    let a = ErrorCode::new_posix(5);
    assert!(a == a);
    assert!(ErrorCode::new_posix(5) == ErrorCode::new(5, &POSIX_CATEGORY));
    assert!(ErrorCode::new_posix(5) != ErrorCode::new_posix(6));
    assert!(ErrorCode::new_posix(5) != ErrorCode::new_system(5));
    assert!(POSIX_CATEGORY.equivalent(5, &a));
    assert!(!SYSTEM_CATEGORY.equivalent(5, &a));
    assert!(!POSIX_CATEGORY.equivalent(4, &a));
}

#[test]
fn messages_in_range_are_bounded_text() {
    for code in 0..16000 {
        for category in [POSIX_CATEGORY, SYSTEM_CATEGORY] {
            let m = message_of(category, code);
            assert!(!m.is_empty());
            assert!(m.len() <= MESSAGE_BUF_SIZE);
        }
    }
}

#[test]
fn would_block_classification() {
    assert!(ErrorCode::new_posix(EAGAIN).is_would_block());
    assert!(ErrorCode::new_posix(11).is_would_block());
    assert!(!ErrorCode::new_posix(12).is_would_block());
    assert!(!ErrorCode::new_posix(WSAEWOULDBLOCK).is_would_block());
    assert!(ErrorCode::new_system(10035).is_would_block());
    assert!(ErrorCode::new_system(11).is_would_block());
    assert!(!ErrorCode::new_system(2).is_would_block());
    for code in [0, 11, 10035, 12, -1] {
        let e = ErrorCode::new_system(code);
        assert_eq!(e.is_would_block(), e.is_would_block());
        assert_eq!(POSIX_CATEGORY.is_would_block(code), POSIX_CATEGORY.is_would_block(code));
    }
}

#[test]
fn posix_eleven_renders_platform_text() {
    let e = ErrorCode::new_posix(11);
    let platform = std::io::Error::from_raw_os_error(11).to_string();
    let m = message_of(POSIX_CATEGORY, 11);
    assert!(platform.starts_with(&m));
    assert_eq!(m, "Resource temporarily unavailable");
    assert_eq!(e.to_string(), "PosixError(11): Resource temporarily unavailable");
    assert_eq!(e.debug_string(), "PosixError(11)");
}

#[test]
fn unknown_system_code_falls_back() {
    let m = message_of(SYSTEM_CATEGORY, 13000);
    assert!(m.starts_with(UNKNOWN_ERROR));
    assert!(ErrorCode::new_system(13000).to_string().starts_with("OSError(13000): Unknown error"));
}

#[test]
fn last_system_reports_failed_operation() {
    let err = std::path::Path::new("/nonexistent-dir/no-such-file").canonicalize().unwrap_err();
    let e = ErrorCode::last_system();
    assert_eq!(Some(e.raw_code()), err.raw_os_error());
    assert_eq!(e.raw_code(), 2);
}

#[test]
fn message_is_platform_description() {
    assert_eq!(message_of(POSIX_CATEGORY, 2), "No such file or directory");
    assert_eq!(message_of(SYSTEM_CATEGORY, 2), "No such file or directory");
    let mut buf = MessageBuf::new();
    GenericCategory::new().message(2, &mut buf);
    assert_eq!(buf.as_str(), "No such file or directory");
    assert_eq!(GenericCategory::new().name(), "Generic");
}

#[test]
fn per_category_equivalence_and_last_error() {
    let p = ErrorCode::new_posix(9);
    let s = ErrorCode::new_system(9);
    assert!(error_code::posix::equivalent(9, &p));
    assert!(!error_code::posix::equivalent(9, &s));
    assert!(error_code::system::equivalent(9, &s));
    assert!(!error_code::system::equivalent(8, &s));
    let err = std::path::Path::new("/nonexistent-dir/other-file").canonicalize().unwrap_err();
    assert_eq!(Some(error_code::generic::get_last_error()), err.raw_os_error());
}

#[test]
fn renders_names_and_negative_codes() {
    assert_eq!(POSIX_CATEGORY.name(), "PosixError");
    assert_eq!(SYSTEM_CATEGORY.name(), "OSError");
    assert_eq!(ErrorCode::new_posix(-42).debug_string(), "PosixError(-42)");
    assert_eq!(ErrorCode::new_system(i32::MIN).debug_string(), "OSError(-2147483648)");
    assert_eq!(ErrorCode::new_system(0).debug_string(), "OSError(0)");
    assert_eq!(ErrorCode::new_system(5).display_with("boom"), "OSError(5): boom");
}

fn describe(code: i32, native: &[u8]) -> String {
    let mut buf = MessageBuf::new();
    buf.push_str("stale");
    describe_into(code, native, &mut buf);
    buf.as_str().to_owned()
}

#[test]
fn describe_strips_note_of_same_code() {
    assert_eq!(describe(5, b"Bad thing (os error 5)"), "Bad thing");
    assert_eq!(describe(-3, b"Odd (os error -3)"), "Odd");
    assert_eq!(describe(5, b"Bad thing (os error 6)"), "Bad thing (os error 6)");
    assert_eq!(describe(5, b"Plain"), "Plain");
}

#[test]
fn describe_falls_back_on_bad_or_empty_text() {
    assert_eq!(describe(1, &[0xff, 0xfe, 0x41]), FAIL_ERROR_FORMAT);
    assert_eq!(describe(1, b""), UNKNOWN_ERROR);
    assert_eq!(describe(7, b" (os error 7)"), UNKNOWN_ERROR);
}

#[test]
fn describe_truncates_at_capacity_and_boundary() {
    let long = vec![b'a'; 300];
    let m = describe(1, &long);
    assert_eq!(m.len(), 256);
    let mut text = vec![b'a'; 255];
    text.extend_from_slice("é".as_bytes());
    let m = describe(1, &text);
    assert_eq!(m.len(), 255);
    assert!(m.bytes().all(|b| b == b'a'));
}

#[test]
fn strbuf_truncates_on_overflow() {
    let mut buf = StrBuf::<4>::new();
    assert_eq!(buf.remaining(), 4);
    buf.push_str("abcdef");
    assert_eq!(buf.as_str(), "abcd");
    assert_eq!(buf.len(), 4);
    assert_eq!(buf.remaining(), 0);
    buf.push_str("x");
    assert_eq!(buf.as_str(), "abcd");
    assert_eq!(buf.as_slice(), b"abcd");
    assert_eq!(StrBuf::<4>::capacity(), 4);
}

#[test]
fn strbuf_keeps_whole_characters() {
    let mut buf = StrBuf::<4>::new();
    buf.push_str("a\u{e9}\u{20ac}");
    assert_eq!(buf.as_str(), "a\u{e9}");
    assert_eq!(buf.len(), 3);
    assert_eq!(buf.remaining(), 1);
    let empty = StrBuf::<8>::new();
    assert_eq!(empty.as_str(), "");
    assert_eq!(empty.len(), 0);
}

#[test]
fn strbuf_truncate_shortens_only() {
    let mut buf = StrBuf::<16>::new();
    buf.push_str("h\u{e9}llo");
    buf.truncate(10);
    assert_eq!(buf.as_str(), "h\u{e9}llo");
    buf.truncate(4);
    assert_eq!(buf.as_str(), "h\u{e9}l");
    buf.truncate(2);
    assert_eq!(buf.as_str(), "h");
    buf.truncate(0);
    assert_eq!(buf.as_str(), "");
}

fn system_text(code: i32, outcome: FormatOutcome) -> String {
    let mut buf = MessageBuf::new();
    buf.push_str("stale");
    format_message(code, outcome, &mut buf);
    buf.as_str().to_owned()
}

#[test]
fn native_formatter_outcomes() {
    assert_eq!(system_text(5, FormatOutcome::Text(b"Access is denied.\r\n\0")), "Access is denied.");
    assert_eq!(system_text(5, FormatOutcome::Text(b"No terminator")), "No terminator");
    assert_eq!(system_text(5, FormatOutcome::Text(b"\r\n")), UNKNOWN_ERROR);
    assert_eq!(system_text(5, FormatOutcome::Text(&[0xc3, 0x28, 0x0d])), FAIL_ERROR_FORMAT);
    assert_eq!(system_text(5, FormatOutcome::Failed), FAIL_ERROR_FORMAT);
    assert_eq!(system_text(2, FormatOutcome::UnknownCode), message_of(POSIX_CATEGORY, 2));
    let long = vec![b'z'; 400];
    assert_eq!(system_text(5, FormatOutcome::Text(&long)).len(), 256);
}

#[test]
fn write_message_buf_replaces_contents() {
    let mut buf = MessageBuf::new();
    buf.push_str("old text");
    write_message_buf(&mut buf, "new");
    assert_eq!(buf.as_str(), "new");
    let long = "x".repeat(300);
    write_message_buf(&mut buf, &long);
    assert_eq!(buf.len(), 256);
    assert_eq!(buf.remaining(), 0);
}

#[test]
fn conversion_from_io_error() {
    let e = ErrorCode::from(std::io::Error::from_raw_os_error(13));
    assert_eq!(e.raw_code(), 13);
    assert_eq!(*e.category(), POSIX_CATEGORY);
    let e = ErrorCode::from(std::io::Error::new(std::io::ErrorKind::Other, "custom"));
    assert_eq!(e.raw_code(), -1);
    assert_eq!(ErrorCode::from_os_error(Some(4)), ErrorCode::new_posix(4));
    assert_eq!(ErrorCode::from_os_error(None), ErrorCode::new_posix(-1));
}

#[test]
fn os_code_maps_missing_number_to_zero() {
    assert_eq!(os_code(Some(13)), 13);
    assert_eq!(os_code(Some(-7)), -7);
    assert_eq!(os_code(None), 0);
}
