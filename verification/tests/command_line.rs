// Command lines, environment blocks and wide strings.

use worrywart::cmdline::{build_command_line, quote_arg};
use worrywart::decimal::{parse_usize, to_decimal};
use worrywart::env::build_env_block;
use worrywart::wide::to_wide_null;

fn quoted(arg: &str) -> String {
    let mut s = String::new();
    quote_arg(&mut s, arg);
    s
}

fn wide(s: &str) -> Vec<u16> {
    s.encode_utf16().chain(std::iter::once(0)).collect()
}

fn pairs(v: &[(&str, &str)]) -> Vec<(String, String)> {
    v.iter().map(|(k, v)| (k.to_string(), v.to_string())).collect()
}

#[test]
fn plain_arguments_are_unchanged() {
    assert_eq!(quoted("abc"), "abc");
    assert_eq!(quoted(r"C:\dir\file.exe"), r"C:\dir\file.exe");
    assert_eq!(quoted("--flag=1"), "--flag=1");
}

#[test]
fn special_arguments_are_quoted() {
    assert_eq!(quoted(""), "\"\"");
    assert_eq!(quoted("a b"), "\"a b\"");
    assert_eq!(quoted("a\tb"), "\"a\tb\"");
    assert_eq!(quoted("say \"hi\""), r#""say \"hi\"""#);
    // Backslashes before a quote are doubled, others kept.
    assert_eq!(quoted(r#"a\"b"#), r#""a\\\"b""#);
    assert_eq!(quoted(r"a b\c"), r#""a b\c""#);
    // Trailing backslashes are doubled before the closing quote.
    assert_eq!(quoted(r"dir with space\"), r#""dir with space\\""#);
    assert_eq!(quoted(r"x y\\"), r#""x y\\\\""#);
}

#[test]
fn quote_appends() {
    let mut s = String::from("prefix ");
    quote_arg(&mut s, "a b");
    assert_eq!(s, "prefix \"a b\"");
}

#[test]
fn command_line_joins_quoted_parts() {
    let args = vec!["/c".to_string(), "exit 0".to_string()];
    assert_eq!(build_command_line("cmd", &args), wide("cmd /c \"exit 0\""));
    assert_eq!(build_command_line("my prog", &vec![]), wide("\"my prog\""));
    assert_eq!(
        build_command_line("p", &vec![String::new(), "x".to_string()]),
        wide("p \"\" x")
    );
}

#[test]
fn wide_strings_are_utf16_and_null_terminated() {
    assert_eq!(to_wide_null(""), vec![0]);
    assert_eq!(to_wide_null("A"), vec![0x41, 0]);
    assert_eq!(to_wide_null("é"), vec![0xE9, 0]);
    // Outside the basic plane: a surrogate pair.
    assert_eq!(to_wide_null("😀"), vec![0xD83D, 0xDE00, 0]);
    assert_eq!(to_wide_null("a😀b"), wide("a😀b"));
}

#[test]
fn unchanged_environment_is_inherited() {
    assert_eq!(build_env_block(false, &vec![], &vec![], &pairs(&[("A", "1")])), None);
}

#[test]
fn cleared_environment_holds_only_overrides() {
    let block = build_env_block(true, &pairs(&[("X", "1")]), &vec![], &pairs(&[("A", "1")])).unwrap();
    let expected: Vec<u16> = "X=1\0\0".encode_utf16().collect();
    assert_eq!(block, expected);
    // Cleared and nothing set: an empty block, still double-null terminated.
    assert_eq!(build_env_block(true, &vec![], &vec![], &pairs(&[("A", "1")])), Some(vec![0, 0]));
}

#[test]
fn overrides_replace_inherited_values() {
    let inherited = pairs(&[("A", "1"), ("B", "2"), ("C", "3")]);
    let envs = pairs(&[("B", "x"), ("D", "4"), ("B", "y")]);
    let block = build_env_block(false, &envs, &vec![], &inherited).unwrap();
    let expected: Vec<u16> = "A=1\0C=3\0D=4\0B=y\0\0".encode_utf16().collect();
    assert_eq!(block, expected);
}

#[test]
fn decimal_text() {
    assert_eq!(to_decimal(0), "0");
    assert_eq!(to_decimal(7), "7");
    assert_eq!(to_decimal(1234567890), "1234567890");
    assert_eq!(to_decimal(usize::MAX), usize::MAX.to_string());
    for n in [0usize, 1, 9, 10, 99, 100, 65535, usize::MAX] {
        assert_eq!(parse_usize(&to_decimal(n)), Some(n));
    }
    assert_eq!(parse_usize("007"), Some(7));
    assert_eq!(parse_usize("+0"), Some(0));
    assert_eq!(parse_usize("1_000"), None);
}

#[test]
fn removed_variables_are_not_inherited() {
    let inherited = pairs(&[("A", "1"), ("PATH", "x"), ("B", "2")]);
    let removed = vec!["PATH".to_string()];
    let block = build_env_block(false, &vec![], &removed, &inherited).unwrap();
    let expected: Vec<u16> = "A=1\0B=2\0\0".encode_utf16().collect();
    assert_eq!(block, expected);
    // A variable removed and set again holds the new value.
    let block = build_env_block(false, &pairs(&[("PATH", "y")]), &removed, &inherited).unwrap();
    let expected: Vec<u16> = "A=1\0B=2\0PATH=y\0\0".encode_utf16().collect();
    assert_eq!(block, expected);
    // Removing everything still gives a double-null block.
    let all = vec!["A".to_string(), "PATH".to_string(), "B".to_string()];
    assert_eq!(build_env_block(false, &vec![], &all, &inherited), Some(vec![0, 0]));
}
