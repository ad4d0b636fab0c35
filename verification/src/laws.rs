//! Laws of the parser and of the validation engine.

use vstd::prelude::*;
use crate::expectation::{
    blank, derived_exit_code, directive_of, lemma_scan_stops, line_matches, malformed, recorded,
    scan, status_of, with_error, DirectiveModel, Expectation, ParseStatus,
};
use crate::validate::{
    lesser, mismatches, missing, missing_message, none_message, output_failures,
    runtime_failures, surplus, surplus_message, validation_failures, without_trailing_blank,
};

verus! {

/// The texts of the expected output lines, in order.
pub open spec fn wanted_lines(expected: Seq<(int, Seq<char>)>) -> Seq<Seq<char>> {
    expected.map_values(|e: (int, Seq<char>)| e.1)
}

proof fn lemma_mismatches_none(expected: Seq<(int, Seq<char>)>, lines: Seq<Seq<char>>, k: int)
    requires
        0 <= k <= expected.len(),
        k <= lines.len(),
    ensures
        mismatches(expected, lines, k).len() == 0 <==> forall|i: int|
            0 <= i < k ==> (#[trigger] expected[i]).1 == lines[i],
    decreases k,
{
    if k > 0 {
        lemma_mismatches_none(expected, lines, k - 1);
        if expected[k - 1].1 != lines[k - 1] {
            assert(!(forall|i: int| 0 <= i < k ==> (#[trigger] expected[i]).1 == lines[i]));
        }
    }
}

proof fn lemma_missing_all(expected: Seq<(int, Seq<char>)>, from: int, k: int)
    requires
        0 <= from <= k <= expected.len(),
    ensures
        missing(expected, from, k).len() == k - from,
        forall|i: int|
            0 <= i < k - from ==> #[trigger] missing(expected, from, k)[i] == missing_message(
                expected[from + i].1,
                expected[from + i].0,
            ),
    decreases k - from,
{
    if from < k {
        lemma_missing_all(expected, from, k - 1);
    }
}

/// The output check finds no failure exactly when the lines of output,
/// without one empty line at their end, are the expected lines in order.
pub proof fn lemma_output_passes_iff_equal(expected: Seq<(int, Seq<char>)>, actual: Seq<Seq<char>>)
    ensures
        output_failures(expected, actual).len() == 0 <==> without_trailing_blank(actual)
            == wanted_lines(expected),
{
    let lines = without_trailing_blank(actual);
    let shared = lesser(lines.len() as int, expected.len() as int);
    lemma_mismatches_none(expected, lines, shared);
    lemma_missing_all(expected, shared, expected.len() as int);
    if lines.len() == expected.len() {
        if output_failures(expected, actual).len() == 0 {
            assert(lines =~= wanted_lines(expected));
        }
        if lines == wanted_lines(expected) {
            assert forall|i: int| 0 <= i < shared implies (#[trigger] expected[i]).1
                == lines[i] by {
                assert(wanted_lines(expected)[i] == expected[i].1);
            }
        }
    } else {
        assert(wanted_lines(expected).len() == expected.len());
    }
}

/// For a test that expects output only, a run that ends with exit code 0
/// and an empty stderr passes exactly when its output is the expected lines
/// in order.
pub proof fn lemma_clean_run_passes_iff_output_equal(e: Expectation, stdout: Seq<Seq<char>>)
    requires
        e.errors.len() == 0,
        e.runtime is None,
        e.exit_code == 0,
    ensures
        validation_failures(e, stdout, Seq::empty(), Some(0i32)).len() == 0
            <==> without_trailing_blank(stdout) == wanted_lines(e.outputs),
{
    lemma_output_passes_iff_equal(e.outputs, stdout);
}

/// Whether line `i` is an expected output line or says nothing.
pub open spec fn output_or_inert(lines: Seq<Seq<char>>, language: Seq<char>, i: int) -> bool {
    let d = directive_of(line_matches(lines[i]), i + 1, language);
    d is Output || d is Inert
}

/// A file whose lines expect output at most expects no error and the exit
/// code 0, and is no non-test.
pub proof fn lemma_output_only_file(lines: Seq<Seq<char>>, language: Seq<char>, k: int)
    requires
        0 <= k <= lines.len(),
        forall|i: int| 0 <= i < k ==> output_or_inert(lines, language, i),
    ensures
        !scan(blank(), lines, language, k).nontest,
        scan(blank(), lines, language, k).expectation.errors.len() == 0,
        scan(blank(), lines, language, k).expectation.runtime is None,
        scan(blank(), lines, language, k).expectation.exit_code == 0,
    decreases k,
{
    if k > 0 {
        lemma_output_only_file(lines, language, k - 1);
        assert(output_or_inert(lines, language, k - 1));
    }
}

/// For a file whose lines expect output at most, a run that ends with exit
/// code 0 and an empty stderr passes exactly when its output is the expected
/// lines in order.
pub proof fn lemma_output_only_file_passes_iff_equal(
    lines: Seq<Seq<char>>,
    language: Seq<char>,
    stdout: Seq<Seq<char>>,
)
    requires
        forall|i: int| 0 <= i < lines.len() ==> output_or_inert(lines, language, i),
    ensures
        ({
            let e = scan(blank(), lines, language, lines.len() as int).expectation;
            validation_failures(e, stdout, Seq::empty(), Some(0i32)).len() == 0
                <==> without_trailing_blank(stdout) == wanted_lines(e.outputs)
        }),
{
    lemma_output_only_file(lines, language, lines.len() as int);
    lemma_clean_run_passes_iff_output_equal(
        scan(blank(), lines, language, lines.len() as int).expectation,
        stdout,
    );
}

/// A file with the non-test marker in any of its lines parses as no test,
/// whatever its other lines hold.
pub proof fn lemma_marker_makes_nontest(
    start: Expectation,
    lines: Seq<Seq<char>>,
    language: Seq<char>,
    j: int,
)
    requires
        0 <= j < lines.len(),
        line_matches(lines[j]).nontest is Some,
    ensures
        status_of(scan(start, lines, language, lines.len() as int)) == ParseStatus::NonTest,
{
    assert(directive_of(line_matches(lines[j]), j + 1, language) is NonTest);
    assert(scan(start, lines, language, j + 1).nontest);
    lemma_scan_stops(start, lines, language, j + 1, lines.len() as int);
}

proof fn lemma_kinds_persist(
    start: Expectation,
    lines: Seq<Seq<char>>,
    language: Seq<char>,
    j: int,
    n: int,
)
    requires
        0 <= j <= n <= lines.len(),
        !scan(start, lines, language, n).nontest,
    ensures
        !scan(start, lines, language, j).nontest,
        scan(start, lines, language, j).expectation.errors.len() > 0 ==> scan(
            start,
            lines,
            language,
            n,
        ).expectation.errors.len() > 0,
        scan(start, lines, language, j).expectation.runtime is Some ==> scan(
            start,
            lines,
            language,
            n,
        ).expectation.runtime is Some,
    decreases n - j,
{
    if j < n {
        lemma_kinds_persist(start, lines, language, j, n - 1);
        let prev = scan(start, lines, language, n - 1);
        let d = directive_of(line_matches(lines[n - 1]), n, language);
        assert(scan(start, lines, language, n).expectation == recorded(prev.expectation, d, n));
    }
}

/// A file without the non-test marker in which one line expects a compile
/// error and one a runtime error is malformed.
pub proof fn lemma_both_kinds_malformed(
    start: Expectation,
    lines: Seq<Seq<char>>,
    language: Seq<char>,
    j: int,
    k: int,
)
    requires
        0 <= j < lines.len(),
        0 <= k < lines.len(),
        !scan(start, lines, language, lines.len() as int).nontest,
        directive_of(line_matches(lines[j]), j + 1, language) is CompileError,
        directive_of(line_matches(lines[k]), k + 1, language) is RuntimeError,
    ensures
        status_of(scan(start, lines, language, lines.len() as int)) == ParseStatus::Malformed,
{
    let n = lines.len() as int;
    lemma_kinds_persist(start, lines, language, j, n);
    lemma_kinds_persist(start, lines, language, j + 1, n);
    lemma_kinds_persist(start, lines, language, k, n);
    lemma_kinds_persist(start, lines, language, k + 1, n);
    let before = scan(start, lines, language, j).expectation;
    let d = directive_of(line_matches(lines[j]), j + 1, language);
    assert(scan(start, lines, language, j + 1).expectation == recorded(before, d, j + 1));
    match d {
        DirectiveModel::CompileError(t) => {
            if before.errors.contains(t) {
                let i = choose|i: int| 0 <= i < before.errors.len() && before.errors[i] == t;
            }
        },
        _ => {},
    }
}

/// The expected compile errors are a set: taking one in adds it to the set,
/// and none is held twice.
pub proof fn lemma_errors_are_a_set(errors: Seq<Seq<char>>, e: Seq<char>)
    requires
        errors.no_duplicates(),
    ensures
        with_error(errors, e).no_duplicates(),
        with_error(errors, e).to_set() == errors.to_set().insert(e),
{
    if errors.contains(e) {
        assert(errors.to_set().insert(e) =~= errors.to_set());
    } else {
        errors.lemma_push_to_set_commute(e);
        assert(errors.push(e).to_set() =~= errors.to_set().insert(e));
        assert forall|a: int, b: int|
            0 <= a < errors.push(e).len() && 0 <= b < errors.push(e).len() && a
                != b implies errors.push(e)[a] != errors.push(e)[b] by {
            if a < errors.len() {
                assert(errors.contains(errors[a]));
            }
            if b < errors.len() {
                assert(errors.contains(errors[b]));
            }
        }
    }
}

/// Whether the exit code goes with the kinds of error expected, for as long
/// as not both kinds are.
pub open spec fn exit_code_fits(e: Expectation) -> bool {
    !malformed(e) ==> e.exit_code == derived_exit_code(e)
}

/// The expected exit code follows from the annotations alone: after any
/// number of lines it is 0 where no error is expected, 65 where compile
/// errors are, and 70 where a runtime error is.
pub proof fn lemma_exit_code_derived(lines: Seq<Seq<char>>, language: Seq<char>, k: int)
    ensures
        exit_code_fits(scan(blank(), lines, language, k).expectation),
    decreases k,
{
    if k > 0 {
        lemma_exit_code_derived(lines, language, k - 1);
        let prev = scan(blank(), lines, language, k - 1);
        if !(prev.nontest || k > lines.len()) {
            let d = directive_of(line_matches(lines[k - 1]), k, language);
            match d {
                DirectiveModel::CompileError(t) => {
                    if prev.expectation.errors.contains(t) {
                        let i = choose|i: int|
                            0 <= i < prev.expectation.errors.len() && prev.expectation.errors[i]
                                == t;
                    }
                },
                _ => {},
            }
        }
    }
}

/// Where the output falls short, each expected line beyond it has a message
/// of its own and nothing is reported as surplus; where it goes beyond the
/// expected lines, one message reports the first line beyond them, however
/// many there are, and nothing is reported as missing.
pub proof fn lemma_missing_each_surplus_once(
    expected: Seq<(int, Seq<char>)>,
    actual: Seq<Seq<char>>,
)
    ensures
        ({
            let lines = without_trailing_blank(actual);
            let shared = lesser(lines.len() as int, expected.len() as int);
            let absent = missing(expected, shared, expected.len() as int);
            let beyond = surplus(expected.len() as int, lines);
            &&& output_failures(expected, actual) == mismatches(expected, lines, shared) + absent
                + beyond
            &&& lines.len() < expected.len() ==> {
                &&& absent.len() == expected.len() - lines.len()
                &&& forall|i: int|
                    0 <= i < absent.len() ==> #[trigger] absent[i] == missing_message(
                        expected[lines.len() + i].1,
                        expected[lines.len() + i].0,
                    )
                &&& beyond.len() == 0
            }
            &&& lines.len() > expected.len() ==> {
                &&& beyond == seq![surplus_message(lines[expected.len() as int])]
                &&& absent.len() == 0
            }
        }),
{
    let lines = without_trailing_blank(actual);
    let shared = lesser(lines.len() as int, expected.len() as int);
    lemma_missing_all(expected, shared, expected.len() as int);
}

/// With fewer than two lines on stderr an expected runtime error counts as
/// absent, whatever the lines hold.
pub proof fn lemma_short_stderr_has_no_runtime_error(
    expected: Seq<char>,
    line: int,
    stderr: Seq<Seq<char>>,
    traces: Seq<Option<Seq<Option<Seq<char>>>>>,
)
    requires
        stderr.len() < 2,
    ensures
        runtime_failures(expected, line, stderr, traces) == seq![none_message(expected)],
{
}

} // verus!
