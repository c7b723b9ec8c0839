use regtest::config::{Config, Flag};
use regtest::decimal::{decimal_string, push_decimal, signed_decimal_string};
use regtest::pattern::Pattern;
use regtest::session::{
    capture_report, compile_error_report, compile_time_report, match_report, test_line, Session,
};

fn strs(v: &[&str]) -> Vec<String> {
    v.iter().map(|s| s.to_string()).collect()
}

#[test]
fn decimal_of_small_and_large_numbers() {
    assert_eq!(decimal_string(0), "0");
    assert_eq!(decimal_string(7), "7");
    assert_eq!(decimal_string(10), "10");
    assert_eq!(decimal_string(120), "120");
    assert_eq!(decimal_string(u64::MAX), "18446744073709551615");
}

#[test]
fn signed_decimal_of_negative_numbers() {
    assert_eq!(signed_decimal_string(-5), "-5");
    assert_eq!(signed_decimal_string(0), "0");
    assert_eq!(signed_decimal_string(i64::MAX), "9223372036854775807");
    assert_eq!(signed_decimal_string(i64::MIN), "-9223372036854775808");
}

#[test]
fn push_decimal_appends() {
    let mut s = String::from("n=");
    push_decimal(305, &mut s);
    assert_eq!(s, "n=305");
}

#[test]
fn match_report_lines() {
    assert_eq!(match_report(true), strs(&["Matched"]));
    assert_eq!(match_report(false), strs(&["Failed to match"]));
}

#[test]
fn capture_report_numbers_every_group() {
    let groups = vec![Some("abc".to_string()), None, Some("b".to_string())];
    assert_eq!(capture_report(&groups), strs(&["Captures:", "0: abc", "1: None", "2: b"]));
}

#[test]
fn capture_report_with_many_groups() {
    let groups: Vec<Option<String>> = (0..12).map(|i| Some(format!("g{}", i))).collect();
    let r = capture_report(&groups);
    assert_eq!(r.len(), 13);
    assert_eq!(r[11], "10: g10");
    assert_eq!(r[12], "11: g11");
}

#[test]
fn compile_time_report_prefers_nanoseconds() {
    assert_eq!(compile_time_report(Some(1500), 2), "Regex compiled in 1500ns");
    assert_eq!(compile_time_report(None, 42), "Regex compiled in 42ns");
    assert_eq!(compile_time_report(Some(-3), 0), "Regex compiled in -3ns");
}

#[test]
fn compile_error_report_terse_and_verbose() {
    assert_eq!(
        compile_error_report(false, "ignored"),
        strs(&["Failed to compile regex", "Turn on verbose errors with :v"])
    );
    assert_eq!(compile_error_report(true, "bad"), strs(&["Error compiling regex: bad"]));
}

#[test]
fn pattern_compiles_and_matches() {
    let p = Pattern::new("a.c").unwrap();
    assert_eq!(p.as_str(), "a.c");
    assert!(p.is_match("abc"));
    assert!(p.is_match("xxabcxx"));
    assert!(!p.is_match("abd"));
}

#[test]
fn pattern_refuses_unclosed_group() {
    match Pattern::new("foo(bar") {
        Err(e) => assert!(!e.detail.is_empty()),
        Ok(_) => panic!("an unclosed group compiled"),
    }
}

#[test]
fn pattern_captures_groups() {
    let p = Pattern::new(r"(\w)(\d)?(\w)").unwrap();
    let g = p.captures("AZ").unwrap();
    assert_eq!(g, vec![Some("AZ".to_string()), Some("A".to_string()), None, Some("Z".to_string())]);
    assert_eq!(p.captures("!!"), None);
}

#[test]
fn test_line_plain_and_with_groups() {
    let p = Pattern::new("a(b)?c").unwrap();
    assert_eq!(test_line(false, &p, "ac"), strs(&["Matched"]));
    assert_eq!(test_line(false, &p, "xy"), strs(&["Failed to match"]));
    assert_eq!(test_line(true, &p, "zabc"), strs(&["Captures:", "0: abc", "1: b"]));
    assert_eq!(test_line(true, &p, "ac"), strs(&["Captures:", "0: ac", "1: None"]));
    assert_eq!(test_line(true, &p, "xy"), strs(&["Failed to match"]));
}

#[test]
fn session_matches_a_line_against_a_pattern() {
    let mut s = Session::new(Config::default());
    assert_eq!(s.prompt(), "Input> ");
    let r = s.handle_line("a.c");
    assert!(!r.exit);
    assert_eq!(r.lines.len(), 1);
    assert!(r.lines[0].starts_with("Regex compiled in "));
    assert!(r.lines[0].ends_with("ns"));
    assert_eq!(s.prompt(), "Regex(a.c)> ");
    let r = s.handle_line("abc");
    assert_eq!(r.lines, strs(&["Matched"]));
    let r = s.handle_line("xyz");
    assert_eq!(r.lines, strs(&["Failed to match"]));
    assert!(!r.exit);
}

#[test]
fn session_without_compile_time_prints_nothing_on_compile() {
    let mut c = Config::default();
    c.remove(Flag::CompileTime);
    let mut s = Session::new(c);
    let r = s.handle_line("x+");
    assert!(r.lines.is_empty());
    assert_eq!(s.prompt(), "Regex(x+)> ");
}

#[test]
fn session_reports_compile_errors() {
    let mut s = Session::new(Config::default());
    let r = s.handle_line("foo(bar");
    assert_eq!(r.lines.len(), 1);
    assert!(r.lines[0].starts_with("Error compiling regex: "));
    assert_eq!(s.prompt(), "Input> ");
    let r = s.handle_line(":v");
    assert_eq!(r.lines, strs(&["Verbose errors: off"]));
    let r = s.handle_line("foo(bar");
    assert_eq!(r.lines, strs(&["Failed to compile regex", "Turn on verbose errors with :v"]));
    assert!(!r.exit);
}

#[test]
fn session_back_and_quit() {
    let mut s = Session::new(Config::default());
    s.handle_line("a");
    assert_eq!(s.prompt(), "Regex(a)> ");
    let r = s.handle_line(":b");
    assert!(r.lines.is_empty());
    assert!(!r.exit);
    assert_eq!(s.prompt(), "Input> ");
    let r = s.handle_line(":b");
    assert!(!r.exit);
    assert_eq!(s.prompt(), "Input> ");
    let r = s.handle_line(":q");
    assert!(r.exit);
    assert!(r.lines.is_empty());
}

#[test]
fn session_toggles_groups_while_testing() {
    let mut s = Session::new(Config::default());
    s.handle_line("(a)(x)?");
    let r = s.handle_line(":g");
    assert_eq!(r.lines, strs(&["Show capture groups: on"]));
    assert!(s.config().contains(Flag::CaptureGroups));
    assert_eq!(s.prompt(), "Regex((a)(x)?)> ");
    let r = s.handle_line("ba");
    assert_eq!(r.lines, strs(&["Captures:", "0: a", "1: a", "2: None"]));
    let r = s.handle_line("b");
    assert_eq!(r.lines, strs(&["Failed to match"]));
    let r = s.handle_line(":h");
    assert_eq!(r.lines.len(), 1);
    assert!(r.lines[0].starts_with(":t - Toggle compile time display"));
    let r = s.handle_line(":q");
    assert!(r.exit);
}
