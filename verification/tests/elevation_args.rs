use breeze_wh::cmdline::{escape_arg, join_args, quote_arg};
use breeze_wh::elevation::{
    decimal, elevated_args, elevated_exit_code, elevated_output_file_name, extract_output_file,
};

fn v(items: &[&str]) -> Vec<String> {
    items.iter().map(|s| s.to_string()).collect()
}

#[test]
fn extract_without_flag_keeps_args() {
    let (out, rest) = extract_output_file(&v(&["install"]));
    assert_eq!(out, None);
    assert_eq!(rest, v(&["install"]));
}

#[test]
fn extract_takes_path_after_flag() {
    let (out, rest) = extract_output_file(&v(&["upgrade", "--output-file", "C:\\t\\o.log"]));
    assert_eq!(out, Some("C:\\t\\o.log".to_string()));
    assert_eq!(rest, v(&["upgrade"]));
}

#[test]
fn extract_flag_in_the_middle() {
    let (out, rest) = extract_output_file(&v(&["a", "--output-file", "p", "b"]));
    assert_eq!(out, Some("p".to_string()));
    assert_eq!(rest, v(&["a", "b"]));
}

#[test]
fn extract_trailing_flag_is_dropped() {
    let (out, rest) = extract_output_file(&v(&["start", "--output-file"]));
    assert_eq!(out, None);
    assert_eq!(rest, v(&["start"]));
}

#[test]
fn extract_last_flag_wins() {
    let (out, rest) = extract_output_file(&v(&["--output-file", "one", "x", "--output-file", "two"]));
    assert_eq!(out, Some("two".to_string()));
    assert_eq!(rest, v(&["x"]));
}

#[test]
fn extract_flag_as_path_is_consumed() {
    let (out, rest) = extract_output_file(&v(&["--output-file", "--output-file", "p"]));
    assert_eq!(out, Some("--output-file".to_string()));
    assert_eq!(rest, v(&["p"]));
}

#[test]
fn extract_empty() {
    let (out, rest) = extract_output_file(&[]);
    assert_eq!(out, None);
    assert!(rest.is_empty());
}

#[test]
fn elevated_args_round_trip() {
    let given = v(&["stop"]);
    let extended = elevated_args(&given, "C:\\Temp\\breeze-wh-elevated-42.log");
    assert_eq!(extended, v(&["stop", "--output-file", "C:\\Temp\\breeze-wh-elevated-42.log"]));
    let (out, rest) = extract_output_file(&extended);
    assert_eq!(out, Some("C:\\Temp\\breeze-wh-elevated-42.log".to_string()));
    assert_eq!(rest, given);
}

#[test]
fn join_args_quotes_each_argument() {
    assert_eq!(join_args(&v(&["stop", "--output-file", "p"])), "\"stop\" \"--output-file\" \"p\"");
    assert_eq!(join_args(&v(&["one"])), "\"one\"");
    assert_eq!(join_args(&[]), "");
    assert_eq!(
        join_args(&v(&["stop", "--output-file", "C:\\Users\\John Smith\\Temp\\x.log"])),
        "\"stop\" \"--output-file\" \"C:\\Users\\John Smith\\Temp\\x.log\""
    );
}

#[test]
fn escaping_quotes_and_backslashes() {
    assert_eq!(escape_arg("plain"), "plain");
    assert_eq!(escape_arg("a\"b"), "a\\\"b");
    assert_eq!(escape_arg("dir\\"), "dir\\\\");
    assert_eq!(escape_arg("a\\b"), "a\\b");
    assert_eq!(escape_arg("a\\\"b"), "a\\\\\\\"b");
    assert_eq!(quote_arg(""), "\"\"");
    assert_eq!(quote_arg("x y"), "\"x y\"");
}

#[test]
fn decimal_writing() {
    assert_eq!(decimal(0), "0");
    assert_eq!(decimal(7), "7");
    assert_eq!(decimal(10), "10");
    assert_eq!(decimal(1234), "1234");
    assert_eq!(decimal(u32::MAX), "4294967295");
}

#[test]
fn output_file_name_holds_pid() {
    assert_eq!(elevated_output_file_name(4096), "breeze-wh-elevated-4096.log");
}

#[test]
fn exit_code_is_passed_on() {
    assert_eq!(elevated_exit_code(0), 0);
    assert_eq!(elevated_exit_code(1), 1);
    assert_eq!(elevated_exit_code(42), 42);
    assert_eq!(elevated_exit_code(255), 255);
    assert_eq!(elevated_exit_code(256), 1);
    assert_eq!(elevated_exit_code(0xC000_013A), 1);
}
