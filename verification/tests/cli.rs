use test_runner::cli::{parse_arguments, UsageError};
use test_runner::suite::{find_suite, suite_names};

fn args(list: &[&str]) -> Vec<String> {
    list.iter().map(|s| s.to_string()).collect()
}

#[test]
fn suite_name_is_required() {
    assert_eq!(parse_arguments(&args(&[])).err(), Some(UsageError::MissingSuite));
    assert_eq!(parse_arguments(&args(&["runner"])).err(), Some(UsageError::MissingSuite));
}

#[test]
fn suite_and_filter_are_positional() {
    let plain = parse_arguments(&args(&["runner", "clox"])).unwrap();
    assert_eq!(plain.suite_name, "clox");
    assert_eq!(plain.config.filter_path, None);
    assert_eq!(plain.config.custom_interpreter, None);
    assert_eq!(plain.config.custom_arguments, None);
    let filtered = parse_arguments(&args(&["runner", "jlox", "closure"])).unwrap();
    assert_eq!(filtered.suite_name, "jlox");
    assert_eq!(filtered.config.filter_path, Some("closure".to_string()));
}

#[test]
fn option_in_the_filter_place_is_the_filter() {
    let r = parse_arguments(&args(&["runner", "clox", "-i", "./lox"])).unwrap();
    assert_eq!(r.config.filter_path, Some("-i".to_string()));
    assert_eq!(r.config.custom_interpreter, None);
}

#[test]
fn interpreter_and_arguments_are_read() {
    let r = parse_arguments(&args(&[
        "runner", "clox", "for", "junk", "-i", "./a", "--interpreter", "./b", "-a", "-x", "-i", "y",
    ]))
    .unwrap();
    assert_eq!(r.config.filter_path, Some("for".to_string()));
    assert_eq!(r.config.custom_interpreter, Some("./b".to_string()));
    assert_eq!(r.config.custom_arguments, Some(args(&["-x", "-i", "y"])));
    let long = parse_arguments(&args(&["runner", "clox", "f", "--arguments", "one"])).unwrap();
    assert_eq!(long.config.custom_interpreter, None);
    assert_eq!(long.config.custom_arguments, Some(args(&["one"])));
}

#[test]
fn interpreter_value_is_not_an_option() {
    let r = parse_arguments(&args(&["runner", "clox", "f", "-i", "-a"])).unwrap();
    assert_eq!(r.config.custom_interpreter, Some("-a".to_string()));
    assert_eq!(r.config.custom_arguments, None);
}

#[test]
fn option_without_value_is_an_error() {
    assert_eq!(
        parse_arguments(&args(&["runner", "clox", "f", "-i"])).err(),
        Some(UsageError::MissingInterpreter)
    );
    assert_eq!(
        parse_arguments(&args(&["runner", "clox", "f", "--interpreter"])).err(),
        Some(UsageError::MissingInterpreter)
    );
    assert_eq!(
        parse_arguments(&args(&["runner", "clox", "f", "-i", "x", "-a"])).err(),
        Some(UsageError::MissingArguments)
    );
    assert_eq!(
        parse_arguments(&args(&["runner", "clox", "f", "--arguments"])).err(),
        Some(UsageError::MissingArguments)
    );
}

#[test]
fn usage_errors_have_messages() {
    assert_eq!(UsageError::MissingSuite.message(), "Missing suite name.");
    assert_eq!(UsageError::MissingInterpreter.message(), "Missing value for --interpreter option.");
    assert_eq!(UsageError::MissingArguments.message(), "Missing value for --arguments option.");
}

#[test]
fn suites_are_found_by_name() {
    assert_eq!(find_suite("jlox").map(|s| s.language), Some("java".to_string()));
    assert_eq!(find_suite("clox").map(|s| s.language), Some("c".to_string()));
    assert!(find_suite("all").is_none());
    assert!(find_suite("").is_none());
    assert_eq!(suite_names(), vec!["jlox", "clox"]);
}
