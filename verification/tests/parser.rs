use test_runner::expectation::{
    annotation_patterns_ready, classify, match_line, Directive, LineMatches, ParseStatus, Test,
};
use test_runner::pattern::{accepts, find_groups, group_text, match_each, PatternError};
use test_runner::suite::{clox_suite, jlox_suite};

fn parsed(path: &str, source: &str, java: bool) -> (Test, ParseStatus, usize) {
    let suite = if java { jlox_suite() } else { clox_suite() };
    let mut test = Test::new(path, &suite);
    let p = test.parse(source, &suite).expect("the annotation patterns compile");
    (test, p.status, p.expectations)
}

#[test]
fn new_test_expects_nothing() {
    let suite = clox_suite();
    let t = Test::new("test/a.lox", &suite);
    assert_eq!(t.path, "test/a.lox");
    assert!(t.expected_output.is_empty());
    assert!(t.expected_errors.is_empty());
    assert_eq!(t.expected_runtime_error, None);
    assert_eq!(t.runtime_error_line, 0);
    assert_eq!(t.expected_exit_code, 0);
    assert!(t.failures.is_empty());
}

#[test]
fn patterns_are_ready() {
    assert!(annotation_patterns_ready());
}

#[test]
fn expected_output_lines_are_read_in_order() {
    let (t, status, count) =
        parsed("test/a.lox", "print 1; // expect: 1\nprint 2;\nprint 3; // expect: three\n", false);
    assert_eq!(status, ParseStatus::Ready);
    assert_eq!(count, 2);
    assert_eq!(t.expected_output.len(), 2);
    assert_eq!(t.expected_output[0].line, 1);
    assert_eq!(t.expected_output[0].output, "1");
    assert_eq!(t.expected_output[1].line, 3);
    assert_eq!(t.expected_output[1].output, "three");
    assert_eq!(t.expected_exit_code, 0);
    assert!(t.expected_errors.is_empty());
    assert_eq!(t.expected_runtime_error, None);
}

#[test]
fn expected_output_may_be_empty() {
    let (t, status, count) = parsed("test/a.lox", "print \"\"; // expect:\nprint \"\"; // expect: ", false);
    assert_eq!(status, ParseStatus::Ready);
    assert_eq!(count, 2);
    assert_eq!(t.expected_output[0].output, "");
    assert_eq!(t.expected_output[1].output, "");
    assert_eq!(t.expected_output[1].line, 2);
}

#[test]
fn carriage_returns_end_lines_too() {
    let (t, _, count) = parsed("test/a.lox", "a // expect: 1\r\nb // expect: 2\r\n", false);
    assert_eq!(count, 2);
    assert_eq!(t.expected_output[0].output, "1");
    assert_eq!(t.expected_output[1].output, "2");
    assert_eq!(t.expected_output[1].line, 2);
}

#[test]
fn expected_error_takes_the_current_line() {
    let (t, status, count) = parsed("test/a.lox", "a\nb\nc // Error at end: Expect '}'.\n", false);
    assert_eq!(status, ParseStatus::Ready);
    assert_eq!(count, 1);
    assert_eq!(t.expected_errors, vec!["[line 3] Error at end: Expect '}'.".to_string()]);
    assert_eq!(t.expected_exit_code, 65);
}

#[test]
fn the_same_error_is_held_once() {
    let (t, _, count) =
        parsed("test/a.lox", "// [line 2] Error at 'x'\nfoo // Error at 'x'\n", false);
    assert_eq!(count, 2);
    assert_eq!(t.expected_errors, vec!["[line 2] Error at 'x'".to_string()]);
}

#[test]
fn error_line_directive_names_its_own_line() {
    let (t, status, count) = parsed("test/a.lox", "x\n// [line 7] Error at 'b': nope\n", false);
    assert_eq!(status, ParseStatus::Ready);
    assert_eq!(count, 1);
    assert_eq!(t.expected_errors, vec!["[line 7] Error at 'b': nope".to_string()]);
    assert_eq!(t.expected_exit_code, 65);
}

#[test]
fn error_line_directive_of_another_language_is_ignored() {
    let source = "// [java line 2] Error at 'a'\n// [c line 3] Error at 'b'\n";
    let (c, c_status, c_count) = parsed("test/a.lox", source, false);
    assert_eq!(c_status, ParseStatus::Ready);
    assert_eq!(c_count, 1);
    assert_eq!(c.expected_errors, vec!["[line 3] Error at 'b'".to_string()]);
    let (j, _, j_count) = parsed("test/a.lox", source, true);
    assert_eq!(j_count, 1);
    assert_eq!(j.expected_errors, vec!["[line 2] Error at 'a'".to_string()]);
}

#[test]
fn ignored_directive_leaves_exit_code_alone() {
    let (t, status, count) = parsed("test/a.lox", "// [java line 2] Error at 'a'\n", false);
    assert_eq!(status, ParseStatus::Ready);
    assert_eq!(count, 0);
    assert!(t.expected_errors.is_empty());
    assert_eq!(t.expected_exit_code, 0);
}

#[test]
fn runtime_error_is_read_with_its_line() {
    let (t, status, count) =
        parsed("test/a.lox", "a\nb\nc\nd\nfoo(); // expect runtime error: Stack overflow.\n", false);
    assert_eq!(status, ParseStatus::Ready);
    assert_eq!(count, 1);
    assert_eq!(t.expected_runtime_error, Some("Stack overflow.".to_string()));
    assert_eq!(t.runtime_error_line, 5);
    assert_eq!(t.expected_exit_code, 70);
}

#[test]
fn nontest_marker_stops_the_scan() {
    let (t, status, count) =
        parsed("test/a.lox", "// expect: 1\n// nontest\n// expect: 2\n// Error x\n", false);
    assert_eq!(status, ParseStatus::NonTest);
    assert_eq!(count, 1);
    assert_eq!(t.expected_output.len(), 1);
    assert!(t.expected_errors.is_empty());
}

#[test]
fn nontest_marker_wins_within_a_line() {
    let (_, status, count) = parsed("test/a.lox", "x // expect: 1 // nontest\n", false);
    assert_eq!(status, ParseStatus::NonTest);
    assert_eq!(count, 0);
}

#[test]
fn both_kinds_of_error_are_malformed() {
    let (_, status, count) = parsed(
        "test/a.lox",
        "a // Error at 'a'\nb // expect runtime error: Boom.\n",
        false,
    );
    assert_eq!(status, ParseStatus::Malformed);
    assert_eq!(count, 2);
    let (_, other, _) = parsed(
        "test/a.lox",
        "b // expect runtime error: Boom.\na // Error at 'a'\n",
        false,
    );
    assert_eq!(other, ParseStatus::Malformed);
}

#[test]
fn skipped_file_is_not_read() {
    let (t, status, count) = parsed("test/scanning/numbers.lox", "// expect: 1\n// nontest\n", false);
    assert_eq!(status, ParseStatus::Skipped);
    assert_eq!(count, 0);
    assert!(t.expected_output.is_empty());
}

#[test]
fn exit_code_follows_the_annotations() {
    let (a, _, _) = parsed("test/a.lox", "// expect: 1\n", false);
    assert_eq!(a.expected_exit_code, 0);
    let (b, _, _) = parsed("test/a.lox", "// expect: 1\n// Error at 'x'\n// expect: 2\n", false);
    assert_eq!(b.expected_exit_code, 65);
    let (c, _, _) = parsed("test/a.lox", "// expect runtime error: x\n// expect: 2\n", false);
    assert_eq!(c.expected_exit_code, 70);
}

#[test]
fn empty_file_is_ready() {
    let (t, status, count) = parsed("test/empty.lox", "", false);
    assert_eq!(status, ParseStatus::Ready);
    assert_eq!(count, 0);
    assert_eq!(t.expected_exit_code, 0);
}

#[test]
fn find_groups_returns_the_groups() {
    let found = find_groups(r"(\w+)@(\w+)(\.\w+)?", "mail bob@example now").unwrap();
    assert_eq!(
        found,
        Some(vec![
            Some("bob@example".to_string()),
            Some("bob".to_string()),
            Some("example".to_string()),
            None
        ])
    );
    assert_eq!(group_text(&found, 1), Some("bob".to_string()));
    assert_eq!(group_text(&found, 3), None);
    assert_eq!(group_text(&found, 9), None);
    assert_eq!(find_groups(r"\d+", "none here").unwrap(), None);
    assert_eq!(group_text(&None, 0), None);
}

#[test]
fn rejected_pattern_is_an_error() {
    assert_eq!(find_groups("(", "text"), Err(PatternError::Rejected));
    assert!(!accepts("("));
    assert!(accepts(r"\[line (\d+)\]"));
    assert_eq!(match_each("(", &vec![]), Err(PatternError::Rejected));
}

#[test]
fn match_each_matches_every_line() {
    let lines = vec!["[line 3] in x".to_string(), "nothing".to_string()];
    let found = match_each(r"\[line (\d+)\]", &lines).unwrap();
    assert_eq!(found.len(), 2);
    assert_eq!(found[0], Some(vec![Some("[line 3]".to_string()), Some("3".to_string())]));
    assert_eq!(found[1], None);
}

#[test]
fn match_line_finds_each_pattern() {
    let m = match_line("foo // expect: bar").unwrap();
    assert!(m.nontest.is_none());
    assert_eq!(group_text(&m.output, 1), Some("bar".to_string()));
    assert!(m.error.is_none());
    assert!(m.error_line.is_none());
    assert!(m.runtime.is_none());
    let r = match_line("foo // expect runtime error: Bad.").unwrap();
    assert!(r.output.is_none());
    assert_eq!(group_text(&r.runtime, 1), Some("Bad.".to_string()));
}

fn groups(parts: &[Option<&str>]) -> Option<Vec<Option<String>>> {
    Some(parts.iter().map(|p| p.map(|s| s.to_string())).collect())
}

fn no_matches() -> LineMatches {
    LineMatches { nontest: None, output: None, error: None, error_line: None, runtime: None }
}

fn text_of(d: Directive) -> (u8, String) {
    match d {
        Directive::NonTest => (0, String::new()),
        Directive::Output(t) => (1, t),
        Directive::CompileError(t) => (2, t),
        Directive::RuntimeError(t) => (3, t),
        Directive::Inert => (4, String::new()),
    }
}

#[test]
fn classify_takes_the_first_match() {
    let mut m = no_matches();
    assert_eq!(text_of(classify(&m, 4, "c")), (4, String::new()));
    m.runtime = groups(&[Some("// expect runtime error: R"), Some("R")]);
    assert_eq!(text_of(classify(&m, 4, "c")), (3, "R".to_string()));
    m.error_line = groups(&[Some("x"), Some("c "), Some("c"), Some("12"), Some("Error E")]);
    assert_eq!(text_of(classify(&m, 4, "c")), (2, "[line 12] Error E".to_string()));
    assert_eq!(text_of(classify(&m, 4, "java")), (4, String::new()));
    m.error = groups(&[Some("// Error F"), Some("Error F")]);
    assert_eq!(text_of(classify(&m, 4, "c")), (2, "[line 4] Error F".to_string()));
    m.output = groups(&[Some("// expect: O"), Some("O")]);
    assert_eq!(text_of(classify(&m, 4, "c")), (1, "O".to_string()));
    m.nontest = groups(&[Some("// nontest")]);
    assert_eq!(text_of(classify(&m, 4, "c")), (0, String::new()));
}

#[test]
fn classify_without_a_group_is_inert() {
    let mut m = no_matches();
    m.output = groups(&[Some("// expect: O")]);
    m.runtime = groups(&[Some("x"), Some("R")]);
    assert_eq!(text_of(classify(&m, 1, "c")), (4, String::new()));
    let mut e = no_matches();
    e.error_line = groups(&[Some("x"), None, None, Some("3"), Some("Error E")]);
    assert_eq!(text_of(classify(&e, 1, "c")), (2, "[line 3] Error E".to_string()));
    e.error_line = groups(&[Some("x"), None, Some(""), Some("3"), Some("Error E")]);
    assert_eq!(text_of(classify(&e, 1, "java")), (2, "[line 3] Error E".to_string()));
    e.error_line = groups(&[Some("x"), None, None, None, Some("Error E")]);
    assert_eq!(text_of(classify(&e, 1, "c")), (4, String::new()));
}

#[test]
fn record_takes_in_each_kind() {
    let suite = clox_suite();
    let mut t = Test::new("test/a.lox", &suite);
    t.record(Directive::Output("a".to_string()), 2);
    t.record(Directive::Inert, 3);
    t.record(Directive::NonTest, 3);
    assert_eq!(t.expected_output.len(), 1);
    assert_eq!(t.expected_exit_code, 0);
    t.record(Directive::CompileError("[line 4] Error".to_string()), 4);
    t.record(Directive::CompileError("[line 4] Error".to_string()), 5);
    assert_eq!(t.expected_errors.len(), 1);
    assert_eq!(t.expected_exit_code, 65);
    t.record(Directive::RuntimeError("Boom".to_string()), 9);
    assert_eq!(t.expected_runtime_error, Some("Boom".to_string()));
    assert_eq!(t.runtime_error_line, 9);
    assert_eq!(t.expected_exit_code, 70);
}
