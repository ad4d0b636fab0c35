use test_runner::suite::{
    clox_suite, find_state, get_clox_tests, get_jlox_tests, jlox_suite, Disposition, Suite,
};

fn pairs(table: &[(String, String)]) -> Vec<(&str, &str)> {
    table.iter().map(|(k, v)| (k.as_str(), v.as_str())).collect()
}

#[test]
fn jlox_table_lists_its_skips() {
    assert_eq!(
        pairs(&get_jlox_tests()),
        vec![
            ("test/scanning", "skip"),
            ("test/expressions", "skip"),
            ("test/number/nan_equality.lox", "skip"),
            ("test/limit/loop_too_large.lox", "skip"),
            ("test/limit/no_reuse_constants.lox", "skip"),
            ("test/limit/too_many_constants.lox", "skip"),
            ("test/limit/too_many_locals.lox", "skip"),
            ("test/limit/too_many_upvalues.lox", "skip"),
            ("test/limit/stack_overflow.lox", "skip"),
        ]
    );
}

#[test]
fn clox_table_lists_its_skips() {
    assert_eq!(
        pairs(&get_clox_tests()),
        vec![
            ("test/scanning", "skip"),
            ("test/expressions", "skip"),
            ("test/limit/no_reuse_constants.lox", "skip"),
            ("test/limit/too_many_constants.lox", "skip"),
        ]
    );
}

#[test]
fn suites_hold_their_invocation() {
    let j = jlox_suite();
    assert_eq!(j.name, "jlox");
    assert_eq!(j.language, "java");
    assert_eq!(j.executable, "java");
    assert_eq!(j.args, vec!["-cp", "build", "JLox.lox.Lox"]);
    let c = clox_suite();
    assert_eq!(c.name, "clox");
    assert_eq!(c.language, "c");
    assert_eq!(c.executable, "build/clox.exe");
    assert!(c.args.is_empty());
}

#[test]
fn find_state_takes_the_exact_key() {
    let table = get_clox_tests();
    assert_eq!(find_state(&table, "test/scanning"), Some("skip".to_string()));
    assert_eq!(find_state(&table, "test/scannin"), None);
    assert_eq!(find_state(&table, "test/scanning/"), None);
    assert_eq!(find_state(&Vec::new(), ""), None);
}

#[test]
fn disposition_goes_by_directory_and_file() {
    let j = jlox_suite();
    assert_eq!(j.disposition("test/scanning/numbers.lox"), Disposition::Skip);
    assert_eq!(j.disposition("test/scanning"), Disposition::Skip);
    assert_eq!(j.disposition("test/scanning_more/numbers.lox"), Disposition::Run);
    assert_eq!(j.disposition("test/limit/stack_overflow.lox"), Disposition::Skip);
    assert_eq!(j.disposition("test/limit/stack_overflow.lox.bak"), Disposition::Run);
    assert_eq!(j.disposition("test/limit/other.lox"), Disposition::Run);
    assert_eq!(j.disposition("test"), Disposition::Run);
    assert_eq!(j.disposition(""), Disposition::Run);
    let c = clox_suite();
    assert_eq!(c.disposition("test/limit/stack_overflow.lox"), Disposition::Run);
    assert_eq!(c.disposition("test/expressions/parse.lox"), Disposition::Skip);
}

#[test]
fn most_specific_entry_decides() {
    let suite = Suite {
        name: "x".to_string(),
        language: "c".to_string(),
        executable: "x".to_string(),
        args: vec![],
        tests: vec![
            ("test".to_string(), "skip".to_string()),
            ("test/keep".to_string(), "run".to_string()),
            ("test/keep/not_this.lox".to_string(), "skip".to_string()),
        ],
    };
    assert_eq!(suite.disposition("test/a.lox"), Disposition::Skip);
    assert_eq!(suite.disposition("test/keep/a.lox"), Disposition::Run);
    assert_eq!(suite.disposition("test/keep/not_this.lox"), Disposition::Skip);
    assert_eq!(suite.disposition("other/a.lox"), Disposition::Run);
}

fn with_table(entries: &[(&str, &str)]) -> Suite {
    Suite {
        name: "x".to_string(),
        language: "c".to_string(),
        executable: "x".to_string(),
        args: vec![],
        tests: entries.iter().map(|(k, v)| (k.to_string(), v.to_string())).collect(),
    }
}

#[test]
fn leading_separators_are_passed_over() {
    let plain = with_table(&[("abs", "skip")]);
    assert_eq!(plain.disposition("/abs/a.lox"), Disposition::Skip);
    assert_eq!(plain.disposition("//abs"), Disposition::Skip);
    assert_eq!(plain.disposition("abs/a.lox"), Disposition::Skip);
    let rooted = with_table(&[("/abs", "skip")]);
    assert_eq!(rooted.disposition("/abs/a.lox"), Disposition::Run);
    let empty = with_table(&[("", "skip")]);
    assert_eq!(empty.disposition("/x"), Disposition::Skip);
    assert_eq!(empty.disposition("x"), Disposition::Run);
    assert_eq!(empty.disposition(""), Disposition::Skip);
    assert_eq!(empty.disposition("/"), Disposition::Skip);
}

#[test]
fn empty_components_are_kept_inside_a_path() {
    let suite = with_table(&[("a/", "skip"), ("b//c", "skip")]);
    assert_eq!(suite.disposition("a//x.lox"), Disposition::Skip);
    assert_eq!(suite.disposition("a/x.lox"), Disposition::Run);
    assert_eq!(suite.disposition("a/"), Disposition::Skip);
    assert_eq!(suite.disposition("b//c/d"), Disposition::Skip);
    assert_eq!(suite.disposition("b/c/d"), Disposition::Run);
}

#[test]
fn first_entry_for_a_path_counts() {
    let suite = with_table(&[("a", "run"), ("a", "skip")]);
    assert_eq!(suite.disposition("a/x.lox"), Disposition::Run);
    assert_eq!(find_state(&suite.tests, "a"), Some("run".to_string()));
}
