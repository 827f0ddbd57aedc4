use cpp_wrapper_gen::errors::{ErrorKind, GenError};
use cpp_wrapper_gen::str_eq;
use cpp_wrapper_gen::text::{decimal_string, escape_backslashes, escape_quotes, join, replace_dots};

#[test]
fn decimal_rendering() {
    assert_eq!(decimal_string(0), "0");
    assert_eq!(decimal_string(7), "7");
    assert_eq!(decimal_string(10), "10");
    assert_eq!(decimal_string(1203), "1203");
    assert_eq!(decimal_string(u32::MAX), "4294967295");
}

#[test]
fn quote_escaping() {
    assert_eq!(escape_quotes("plain"), "plain");
    assert_eq!(escape_quotes("a\"b\"c"), "a\\\"b\\\"c");
    assert_eq!(escape_quotes(""), "");
}

#[test]
fn backslash_escaping() {
    assert_eq!(escape_backslashes("C:\\Qt\\include"), "C:\\\\Qt\\\\include");
    assert_eq!(escape_backslashes("no separators"), "no separators");
}

#[test]
fn dot_replacement() {
    assert_eq!(replace_dots("lib_foo.h"), "lib_foo_h");
    assert_eq!(replace_dots("a.b.c"), "a_b_c");
    assert_eq!(replace_dots("none"), "none");
}

#[test]
fn joining() {
    assert_eq!(join(&vec![], ", "), "");
    assert_eq!(join(&vec!["a".to_string()], ", "), "a");
    assert_eq!(join(&vec!["a".to_string(), "b".to_string(), "c".to_string()], ", "), "a, b, c");
}

#[test]
fn string_comparison() {
    assert!(str_eq("", ""));
    assert!(str_eq("same", "same"));
    assert!(!str_eq("same", "sam"));
    assert!(!str_eq("same", "samX"));
}

#[test]
fn error_kinds() {
    assert_eq!(GenError::internal("a".to_string()).kind, ErrorKind::InternalConsistency);
    assert_eq!(GenError::input_output("b".to_string()).kind, ErrorKind::InputOutput);
    assert_eq!(GenError::external_process("c".to_string()).kind, ErrorKind::ExternalProcess);
    assert_eq!(GenError::encoding("d".to_string()).kind, ErrorKind::Encoding);
}
