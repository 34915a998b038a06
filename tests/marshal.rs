use opencv::error::{into_result, Error, STS_BAD_ARG, STS_NULL_PTR, STS_OK};
use opencv::marshal::string_arg;

#[test]
fn string_arg_appends_terminator() {
    assert_eq!(string_arg("abc").unwrap(), vec![b'a', b'b', b'c', 0]);
    assert_eq!(string_arg("").unwrap(), vec![0]);
}

#[test]
fn string_arg_encodes_utf8() {
    assert_eq!(string_arg("é").unwrap(), vec![0xc3, 0xa9, 0]);
}

#[test]
fn string_arg_refuses_zero_byte() {
    let e = string_arg("ab\0c").unwrap_err();
    assert_eq!(e.code, STS_BAD_ARG);
    assert!(string_arg("\0").is_err());
}

#[test]
fn native_success_gives_value() {
    let r = into_result(STS_OK, String::new(), 42i32);
    assert_eq!(r.unwrap(), 42);
}

#[test]
fn native_failure_gives_error() {
    let r = into_result(-215, "assertion failed".to_string(), 7i32);
    let e = r.unwrap_err();
    assert_eq!(e.code, -215);
    assert_eq!(e.message, "assertion failed");
}

#[test]
fn error_constructors() {
    let e = Error::new(-2, "unknown".to_string());
    assert_eq!(e.code, -2);
    assert_eq!(e.message, "unknown");
    assert_eq!(Error::null_pointer().code, STS_NULL_PTR);
    let b = Error::bad_argument("bad");
    assert_eq!(b.code, STS_BAD_ARG);
    assert_eq!(b.message, "bad");
}
