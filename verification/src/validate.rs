//! The validation engine: what an interpreter printed and how it ended,
//! held against what a test expects.

use vstd::prelude::*;
use vstd::string::*;
use crate::expectation::{error_text, outputs_view, ExpectedOutput, Expectation, Test};
use crate::pattern::{
    captures_each, group, group_text, groups_view, match_each, matches_view, regex_accepts,
    PatternError, STACK_TRACE_PATTERN, SYNTAX_ERROR_PATTERN,
};
use crate::text::{
    append_range, append_texts, decimal, lines_of, parse_count, parsed_count, position,
    push_text, render_count, render_signed, signed_decimal, split_lines, texts,
};

verus! {

/// The exit code that stands for a process that ended without one.
pub const NO_EXIT_CODE: i32 = -1;

/// The message for an output line that differs from the expected one.
pub open spec fn mismatch_message(expected: Seq<char>, line: int, actual: Seq<char>) -> Seq<char> {
    "Expected output '"@ + expected + "' on line "@ + decimal(line as nat) + " and got '"@ + actual
        + "'."@
}

/// The message for an expected output line that never came.
pub open spec fn missing_message(expected: Seq<char>, line: int) -> Seq<char> {
    "Missing expected output '"@ + expected + "' on line "@ + decimal(line as nat) + "."@
}

/// The message for output beyond what was expected.
pub open spec fn surplus_message(actual: Seq<char>) -> Seq<char> {
    "Got output '"@ + actual + "' when none was expected."@
}

/// The lines without one empty line at their end.
pub open spec fn without_trailing_blank(lines: Seq<Seq<char>>) -> Seq<Seq<char>> {
    if lines.len() > 0 && lines.last().len() == 0 {
        lines.drop_last()
    } else {
        lines
    }
}

/// The messages for the places below `k` at which output and expectation
/// differ.
pub open spec fn mismatches(expected: Seq<(int, Seq<char>)>, lines: Seq<Seq<char>>, k: int) -> Seq<
    Seq<char>,
>
    decreases k,
{
    if k <= 0 || k > expected.len() || k > lines.len() {
        Seq::empty()
    } else if expected[k - 1].1 != lines[k - 1] {
        mismatches(expected, lines, k - 1).push(
            mismatch_message(expected[k - 1].1, expected[k - 1].0, lines[k - 1]),
        )
    } else {
        mismatches(expected, lines, k - 1)
    }
}

/// The messages for the expected lines from place `from` up to `k`.
pub open spec fn missing(expected: Seq<(int, Seq<char>)>, from: int, k: int) -> Seq<Seq<char>>
    decreases k - from,
{
    if k <= from || from < 0 || k > expected.len() {
        Seq::empty()
    } else {
        missing(expected, from, k - 1).push(missing_message(expected[k - 1].1, expected[k - 1].0))
    }
}

/// The message for the first line of output beyond the `count` expected.
pub open spec fn surplus(count: int, lines: Seq<Seq<char>>) -> Seq<Seq<char>> {
    if 0 <= count < lines.len() {
        seq![surplus_message(lines[count])]
    } else {
        Seq::empty()
    }
}

/// The lesser of two numbers.
pub open spec fn lesser(a: int, b: int) -> int {
    if a < b {
        a
    } else {
        b
    }
}

/// The failures of the output against the expected lines: the differences
/// place by place, then each expected line that is missing, then the first
/// line of output that is beyond the expected ones.
pub open spec fn output_failures(expected: Seq<(int, Seq<char>)>, actual: Seq<Seq<char>>) -> Seq<
    Seq<char>,
> {
    let lines = without_trailing_blank(actual);
    let shared = lesser(lines.len() as int, expected.len() as int);
    mismatches(expected, lines, shared) + missing(expected, shared, expected.len() as int)
        + surplus(expected.len() as int, lines)
}

/// The exit code of a process, or the stand-in where it had none.
pub open spec fn code_of(exit_code: Option<i32>) -> int {
    match exit_code {
        Some(c) => c as int,
        None => NO_EXIT_CODE as int,
    }
}

/// The message for an exit code other than the expected one.
pub open spec fn exit_message(expected: int, actual: int) -> Seq<char> {
    "Expected return code "@ + signed_decimal(expected) + " and got "@ + signed_decimal(actual)
        + ". Stderr:"@
}

/// The lines of stderr that go with such a message: the first ten, and a
/// note where there were more.
pub open spec fn stderr_context(lines: Seq<Seq<char>>) -> Seq<Seq<char>> {
    if lines.len() > 10 {
        lines.take(10).push("(truncated...)"@)
    } else {
        lines
    }
}

/// The failures of the exit code against the expected one.
pub open spec fn exit_failures(expected: int, actual: int, stderr: Seq<Seq<char>>) -> Seq<
    Seq<char>,
> {
    if actual == expected {
        Seq::empty()
    } else {
        seq![exit_message(expected, actual)] + stderr_context(stderr)
    }
}

/// Whether two tests differ in their failures at most.
pub open spec fn same_but_failures(a: &Test, b: &Test) -> bool {
    &&& a.path == b.path
    &&& a.expected_output == b.expected_output
    &&& a.expected_errors == b.expected_errors
    &&& a.expected_runtime_error == b.expected_runtime_error
    &&& a.runtime_error_line == b.runtime_error_line
    &&& a.expected_exit_code == b.expected_exit_code
}

fn mismatch_text(expected: &ExpectedOutput, actual: &str) -> (r: String)
    ensures
        r@ == mismatch_message(expected.output@, expected.line as int, actual@),
{
    let line = render_count(expected.line);
    String::from_str("Expected output '").concat(expected.output.as_str()).concat(
        "' on line ",
    ).concat(line.as_str()).concat(" and got '").concat(actual).concat("'.")
}

fn missing_text(expected: &ExpectedOutput) -> (r: String)
    ensures
        r@ == missing_message(expected.output@, expected.line as int),
{
    let line = render_count(expected.line);
    String::from_str("Missing expected output '").concat(expected.output.as_str()).concat(
        "' on line ",
    ).concat(line.as_str()).concat(".")
}

/// Compares the lines of output with the expected ones.
pub fn output_line_failures(expected: &Vec<ExpectedOutput>, output_lines: &Vec<String>) -> (r: Vec<
    String,
>)
    ensures
        texts(r@) == output_failures(outputs_view(expected@), texts(output_lines@)),
{
    let ghost want = outputs_view(expected@);
    let ghost lines = without_trailing_blank(texts(output_lines@));
    let mut count: usize = output_lines.len();
    if count > 0 && output_lines[count - 1].as_str().is_empty() {
        count = count - 1;
    }
    assert(lines =~= texts(output_lines@).take(count as int));
    let expected_len = expected.len();
    let mut out: Vec<String> = Vec::new();
    let mut index: usize = 0;
    assert(texts(out@) =~= mismatches(want, lines, 0));
    while index < count && index < expected_len
        invariant
            index <= count,
            index <= expected_len,
            expected_len == expected@.len(),
            count == lines.len(),
            count <= output_lines@.len(),
            want == outputs_view(expected@),
            lines == texts(output_lines@).take(count as int),
            texts(out@) == mismatches(want, lines, index as int),
        decreases count - index,
    {
        let line = &output_lines[index];
        let wanted = &expected[index];
        assert(want[index as int] == (wanted.line as int, wanted.output@));
        assert(lines[index as int] == line@);
        if !(wanted.output == *line) {
            push_text(&mut out, mismatch_text(wanted, line.as_str()));
        }
        index += 1;
    }
    let ghost shared = index as int;
    assert(shared == lesser(lines.len() as int, want.len() as int));
    assert(texts(out@) =~= mismatches(want, lines, shared) + missing(want, shared, index as int));
    while index < expected_len
        invariant
            shared <= index <= expected_len,
            0 <= shared,
            expected_len == expected@.len(),
            want == outputs_view(expected@),
            texts(out@) == mismatches(want, lines, shared) + missing(want, shared, index as int),
        decreases expected_len - index,
    {
        let wanted = &expected[index];
        assert(want[index as int] == (wanted.line as int, wanted.output@));
        push_text(&mut out, missing_text(wanted));
        assert(texts(out@) =~= mismatches(want, lines, shared) + missing(
            want,
            shared,
            index + 1,
        ));
        index += 1;
    }
    if index < count {
        assert(lines[index as int] == output_lines@[index as int]@);
        let extra = String::from_str("Got output '").concat(output_lines[index].as_str()).concat(
            "' when none was expected.",
        );
        push_text(&mut out, extra);
    }
    assert(texts(out@) =~= output_failures(want, texts(output_lines@)));
    out
}

/// Compares the exit code with the expected one.
pub fn exit_code_failures(expected: i32, exit_code: Option<i32>, error_lines: &Vec<String>) -> (r:
    Vec<String>)
    ensures
        texts(r@) == exit_failures(expected as int, code_of(exit_code), texts(error_lines@)),
{
    let actual = match exit_code {
        Some(c) => c,
        None => NO_EXIT_CODE,
    };
    let mut out: Vec<String> = Vec::new();
    if actual == expected {
        assert(texts(out@) =~= Seq::<Seq<char>>::empty());
        return out;
    }
    let message = String::from_str("Expected return code ").concat(
        render_signed(expected).as_str(),
    ).concat(" and got ").concat(render_signed(actual).as_str()).concat(". Stderr:");
    push_text(&mut out, message);
    assert(texts(out@) =~= seq![exit_message(expected as int, actual as int)]);
    if error_lines.len() > 10 {
        append_range(&mut out, error_lines, 0, 10);
        assert(texts(error_lines@).subrange(0, 10) =~= texts(error_lines@).take(10));
        push_text(&mut out, String::from_str("(truncated...)"));
        assert(texts(out@) =~= exit_failures(
            expected as int,
            actual as int,
            texts(error_lines@),
        ));
    } else {
        append_texts(&mut out, error_lines);
    }
    out
}

/// The message for a runtime error that did not come.
pub open spec fn none_message(expected: Seq<char>) -> Seq<char> {
    "Expected runtime error '"@ + expected + "' and got none."@
}

/// The heading for a runtime error other than the expected one.
pub open spec fn other_message(expected: Seq<char>) -> Seq<char> {
    "Expected runtime error '"@ + expected + "' and got:"@
}

/// The message for a runtime error on another line than the expected one.
pub open spec fn line_message(expected: int, actual: int) -> Seq<char> {
    "Expected runtime error on line "@ + decimal(expected as nat) + " but was on line "@ + decimal(
        actual as nat,
    ) + "."@
}

/// The first place from `from` on at which a stack-trace match holds a line
/// number.
pub open spec fn first_trace(traces: Seq<Option<Seq<Option<Seq<char>>>>>, from: int) -> Option<int>
    decreases traces.len() - from,
{
    if from < 0 || from >= traces.len() {
        None
    } else if group(traces[from], 1) is Some {
        Some(from)
    } else {
        first_trace(traces, from + 1)
    }
}

/// The line that a stack trace names: zero where the digits are no number
/// that fits.
pub open spec fn trace_line(digits: Seq<char>) -> int {
    match parsed_count(digits) {
        Some(n) => n as int,
        None => 0,
    }
}

/// The failures of stderr against an expected runtime error of `line`,
/// given the stack-trace match in each line of stderr.
pub open spec fn runtime_failures(
    expected: Seq<char>,
    line: int,
    stderr: Seq<Seq<char>>,
    traces: Seq<Option<Seq<Option<Seq<char>>>>>,
) -> Seq<Seq<char>> {
    if stderr.len() < 2 {
        seq![none_message(expected)]
    } else {
        (if stderr[0] != expected {
            seq![other_message(expected), stderr[0]]
        } else {
            Seq::empty()
        }) + (match first_trace(traces, 1) {
            Some(i) => {
                let actual = trace_line(group(traces[i], 1).unwrap());
                if actual != line {
                    seq![line_message(line, actual)]
                } else {
                    Seq::empty()
                }
            },
            None => seq!["Expected stack trace and got:"@] + stderr.skip(1),
        })
    }
}

/// The state of a scan through stderr for compile errors.
pub struct ErrorScan {
    /// The expected errors met so far.
    pub found: Set<Seq<char>>,
    /// How many lines were unexpected.
    pub unexpected: nat,
    pub messages: Seq<Seq<char>>,
}

/// The error that a syntax-error match reports, in the form in which
/// expected errors are held.
pub open spec fn reported(m: Option<Seq<Option<Seq<char>>>>) -> Option<Seq<char>> {
    match (group(m, 1), group(m, 2)) {
        (Some(n), Some(t)) => Some(error_text(n, t)),
        _ => None,
    }
}

/// The match for line `i`, where there is one.
pub open spec fn match_at(matches: Seq<Option<Seq<Option<Seq<char>>>>>, i: int) -> Option<
    Seq<Option<Seq<char>>>,
> {
    if 0 <= i < matches.len() {
        matches[i]
    } else {
        None
    }
}

/// The scan after an unexpected line: the first ten are reported, each under
/// `heading`, and all are counted.
pub open spec fn noted(s: ErrorScan, heading: Seq<char>, line: Seq<char>) -> ErrorScan {
    ErrorScan {
        unexpected: s.unexpected + 1,
        messages: if s.unexpected < 10 {
            s.messages.push(heading).push(line)
        } else {
            s.messages
        },
        ..s
    }
}

/// The scan after one line of stderr.
pub open spec fn error_step(
    expected: Seq<Seq<char>>,
    s: ErrorScan,
    line: Seq<char>,
    m: Option<Seq<Option<Seq<char>>>>,
) -> ErrorScan {
    if m is Some {
        match reported(m) {
            Some(e) => if expected.contains(e) {
                ErrorScan { found: s.found.insert(e), ..s }
            } else {
                noted(s, "Unexpected error:"@, line)
            },
            None => s,
        }
    } else if line.len() > 0 {
        noted(s, "Unexpected output on stderr:"@, line)
    } else {
        s
    }
}

/// The scan after the first `k` lines of stderr.
pub open spec fn error_scan(
    expected: Seq<Seq<char>>,
    stderr: Seq<Seq<char>>,
    matches: Seq<Option<Seq<Option<Seq<char>>>>>,
    k: int,
) -> ErrorScan
    decreases k,
{
    if k <= 0 {
        ErrorScan { found: Set::empty(), unexpected: 0, messages: Seq::empty() }
    } else if k > stderr.len() {
        error_scan(expected, stderr, matches, k - 1)
    } else {
        error_step(
            expected,
            error_scan(expected, stderr, matches, k - 1),
            stderr[k - 1],
            match_at(matches, k - 1),
        )
    }
}

/// The note on the unexpected lines beyond the first ten.
pub open spec fn truncated_message(more: nat) -> Seq<char> {
    "(truncated "@ + decimal(more) + " more...)"@
}

/// The message for an expected error that did not come.
pub open spec fn missing_error_message(error: Seq<char>) -> Seq<char> {
    "Missing expected error: "@ + error
}

/// The messages for those of the first `k` expected errors that are not
/// among `found`.
pub open spec fn missing_errors(expected: Seq<Seq<char>>, found: Set<Seq<char>>, k: int) -> Seq<
    Seq<char>,
>
    decreases k,
{
    if k <= 0 || k > expected.len() {
        Seq::empty()
    } else if found.contains(expected[k - 1]) {
        missing_errors(expected, found, k - 1)
    } else {
        missing_errors(expected, found, k - 1).push(missing_error_message(expected[k - 1]))
    }
}

/// The failures of stderr against the expected compile errors, given the
/// syntax-error match in each line of stderr.
pub open spec fn compile_failures(
    expected: Seq<Seq<char>>,
    stderr: Seq<Seq<char>>,
    matches: Seq<Option<Seq<Option<Seq<char>>>>>,
) -> Seq<Seq<char>> {
    let s = error_scan(expected, stderr, matches, stderr.len() as int);
    s.messages + (if s.unexpected > 10 {
        seq![truncated_message((s.unexpected - 10) as nat)]
    } else {
        Seq::empty()
    }) + missing_errors(expected, s.found, expected.len() as int)
}

/// Holds stderr against an expected runtime error, given the stack-trace
/// match in each of its lines.
pub fn runtime_error_failures(
    expected_error: &str,
    line: usize,
    error_lines: &Vec<String>,
    traces: &Vec<Option<Vec<Option<String>>>>,
) -> (r: Vec<String>)
    ensures
        texts(r@) == runtime_failures(
            expected_error@,
            line as int,
            texts(error_lines@),
            matches_view(traces@),
        ),
{
    let ghost stderr = texts(error_lines@);
    let ghost found = matches_view(traces@);
    let mut out: Vec<String> = Vec::new();
    if error_lines.len() < 2 {
        let message = String::from_str("Expected runtime error '").concat(expected_error).concat(
            "' and got none.",
        );
        push_text(&mut out, message);
        assert(texts(out@) =~= seq![none_message(expected_error@)]);
        return out;
    }
    assert(stderr[0] == error_lines@[0]@);
    if !(error_lines[0] == String::from_str(expected_error)) {
        let message = String::from_str("Expected runtime error '").concat(expected_error).concat(
            "' and got:",
        );
        push_text(&mut out, message);
        push_text(&mut out, error_lines[0].clone());
        assert(texts(out@) =~= seq![other_message(expected_error@), stderr[0]]);
    } else {
        assert(texts(out@) =~= Seq::<Seq<char>>::empty());
    }
    let mut digits: Option<String> = None;
    let mut i: usize = 1;
    while i < traces.len() && digits.is_none()
        invariant
            1 <= i,
            found == matches_view(traces@),
            match digits {
                Some(d) => first_trace(found, 1) is Some && group(
                    found[first_trace(found, 1).unwrap()],
                    1,
                ) == Some(d@),
                None => first_trace(found, 1) == first_trace(found, i as int),
            },
        decreases traces.len() - i + (if digits is None { 1int } else { 0int }),
    {
        assert(found[i as int] == groups_view(traces@[i as int]));
        digits = group_text(&traces[i], 1);
        if digits.is_none() {
            i += 1;
        }
    }
    match digits {
        Some(d) => {
            let actual = match parse_count(d.as_str()) {
                Some(n) => n,
                None => 0,
            };
            if actual != line {
                let message = String::from_str("Expected runtime error on line ").concat(
                    render_count(line).as_str(),
                ).concat(" but was on line ").concat(render_count(actual).as_str()).concat(".");
                push_text(&mut out, message);
            }
            assert(texts(out@) =~= runtime_failures(expected_error@, line as int, stderr, found));
        },
        None => {
            push_text(&mut out, String::from_str("Expected stack trace and got:"));
            append_range(&mut out, error_lines, 1, error_lines.len());
            assert(stderr.subrange(1, stderr.len() as int) =~= stderr.skip(1));
            assert(texts(out@) =~= runtime_failures(expected_error@, line as int, stderr, found));
        },
    }
    out
}

fn note(out: &mut Vec<String>, unexpected: usize, heading: &str, line: &String)
    ensures
        texts(final(out)@) == if unexpected < 10 {
            texts(old(out)@).push(heading@).push(line@)
        } else {
            texts(old(out)@)
        },
{
    if unexpected < 10 {
        push_text(out, String::from_str(heading));
        push_text(out, line.clone());
    }
}

/// Holds stderr against the expected compile errors, given the syntax-error
/// match in each of its lines.
pub fn compile_error_failures(
    expected: &Vec<String>,
    error_lines: &Vec<String>,
    matches: &Vec<Option<Vec<Option<String>>>>,
) -> (r: Vec<String>)
    ensures
        texts(r@) == compile_failures(
            texts(expected@),
            texts(error_lines@),
            matches_view(matches@),
        ),
{
    let ghost want = texts(expected@);
    let ghost stderr = texts(error_lines@);
    let ghost found = matches_view(matches@);
    let mut out: Vec<String> = Vec::new();
    let mut seen: Vec<String> = Vec::new();
    let mut unexpected: usize = 0;
    let mut i: usize = 0;
    assert(texts(out@) =~= Seq::<Seq<char>>::empty());
    assert(texts(seen@).to_set() =~= Set::<Seq<char>>::empty());
    while i < error_lines.len()
        invariant
            i <= error_lines.len(),
            unexpected <= i,
            want == texts(expected@),
            stderr == texts(error_lines@),
            found == matches_view(matches@),
            texts(out@) == error_scan(want, stderr, found, i as int).messages,
            unexpected == error_scan(want, stderr, found, i as int).unexpected,
            error_scan(want, stderr, found, i as int).found == texts(seen@).to_set(),
        decreases error_lines.len() - i,
    {
        let line = &error_lines[i];
        let ghost before = error_scan(want, stderr, found, i as int);
        assert(stderr[i as int] == line@);
        let none: Option<Vec<Option<String>>> = None;
        let m = if i < matches.len() {
            &matches[i]
        } else {
            &none
        };
        assert(groups_view(*m) == match_at(found, i as int));
        if m.is_some() {
            match (group_text(m, 1), group_text(m, 2)) {
                (Some(n), Some(t)) => {
                    let error = String::from_str("[line ").concat(n.as_str()).concat("] ").concat(
                        t.as_str(),
                    );
                    if position(expected, &error).is_some() {
                        let ghost old_seen = texts(seen@);
                        push_text(&mut seen, error);
                        proof {
                            old_seen.lemma_push_to_set_commute(error@);
                        }
                        assert(texts(seen@).to_set() =~= before.found.insert(error@));
                    } else {
                        note(&mut out, unexpected, "Unexpected error:", line);
                        unexpected += 1;
                    }
                },
                _ => {},
            }
        } else if !line.as_str().is_empty() {
            note(&mut out, unexpected, "Unexpected output on stderr:", line);
            unexpected += 1;
        }
        i += 1;
    }
    let ghost end = error_scan(want, stderr, found, stderr.len() as int);
    if unexpected > 10 {
        let message = String::from_str("(truncated ").concat(
            render_count(unexpected - 10).as_str(),
        ).concat(" more...)");
        push_text(&mut out, message);
    }
    let ghost head = texts(out@);
    assert(head =~= end.messages + (if end.unexpected > 10 {
        seq![truncated_message((end.unexpected - 10) as nat)]
    } else {
        Seq::empty()
    }));
    let mut j: usize = 0;
    assert(texts(out@) =~= head + missing_errors(want, end.found, 0));
    while j < expected.len()
        invariant
            j <= expected.len(),
            want == texts(expected@),
            texts(out@) == head + missing_errors(want, end.found, j as int),
            end.found == texts(seen@).to_set(),
        decreases expected.len() - j,
    {
        assert(want[j as int] == expected@[j as int]@);
        if position(&seen, &expected[j]).is_none() {
            let message = String::from_str("Missing expected error: ").concat(
                expected[j].as_str(),
            );
            push_text(&mut out, message);
        }
        assert(texts(out@) =~= head + missing_errors(want, end.found, j + 1));
        j += 1;
    }
    assert(texts(out@) =~= compile_failures(want, stderr, found));
    out
}

/// What came of running the interpreter on a test file.
pub enum RunResult {
    /// The process ran to its end. Its exit code is `None` where the process
    /// had none, as after a signal.
    Finished { stdout: String, stderr: String, exit_code: Option<i32> },
    /// The process could not be started, for the reason given.
    LaunchFailed(String),
}

/// The pattern that the check of stderr uses: that of stack traces where a
/// runtime error is expected, that of syntax errors otherwise.
pub open spec fn stderr_pattern(e: Expectation) -> Seq<char> {
    if e.runtime is Some {
        STACK_TRACE_PATTERN@
    } else {
        SYNTAX_ERROR_PATTERN@
    }
}

/// The failures of stderr: against the runtime error where one is expected,
/// against the compile errors otherwise.
pub open spec fn stderr_failures(e: Expectation, stderr: Seq<Seq<char>>) -> Seq<Seq<char>> {
    match e.runtime {
        Some(t) => runtime_failures(
            t,
            e.runtime_line,
            stderr,
            captures_each(STACK_TRACE_PATTERN@, stderr),
        ),
        None => compile_failures(e.errors, stderr, captures_each(SYNTAX_ERROR_PATTERN@, stderr)),
    }
}

/// All failures of a finished run, in the order of the checks: stderr, exit
/// code, output.
pub open spec fn validation_failures(
    e: Expectation,
    stdout: Seq<Seq<char>>,
    stderr: Seq<Seq<char>>,
    exit_code: Option<i32>,
) -> Seq<Seq<char>> {
    stderr_failures(e, stderr) + exit_failures(e.exit_code, code_of(exit_code), stderr)
        + output_failures(e.outputs, stdout)
}

/// The message for an interpreter that could not be started.
pub open spec fn launch_message(reason: Seq<char>) -> Seq<char> {
    "Failed to run interpreter: "@ + reason
}

impl Test {
    /// Records one failure.
    pub fn fail(&mut self, message: &str)
        ensures
            final(self).messages() == old(self).messages().push(message@),
            same_but_failures(final(self), old(self)),
    {
        push_text(&mut self.failures, String::from_str(message));
    }

    /// Records a list of failures, in order.
    pub fn fail_list(&mut self, lines: &Vec<String>)
        ensures
            final(self).messages() == old(self).messages() + texts(lines@),
            same_but_failures(final(self), old(self)),
    {
        append_texts(&mut self.failures, lines);
    }

    /// Holds the exit code against the expected one. A process that ended
    /// without an exit code counts as having ended with -1.
    pub fn validate_exit_code(&mut self, exit_code: Option<i32>, error_lines: &Vec<String>)
        ensures
            final(self).messages() == old(self).messages() + exit_failures(
                old(self).expectation().exit_code,
                code_of(exit_code),
                texts(error_lines@),
            ),
            same_but_failures(final(self), old(self)),
    {
        let found = exit_code_failures(self.expected_exit_code, exit_code, error_lines);
        self.fail_list(&found);
    }

    /// Holds the lines of stdout against the expected output.
    pub fn validate_output_lines(&mut self, output_lines: &Vec<String>)
        ensures
            final(self).messages() == old(self).messages() + output_failures(
                old(self).expectation().outputs,
                texts(output_lines@),
            ),
            same_but_failures(final(self), old(self)),
    {
        let found = output_line_failures(&self.expected_output, output_lines);
        self.fail_list(&found);
    }

    /// Holds stderr against the expected runtime error: its first line is
    /// the error, and a later line names the line of the annotation.
    pub fn validate_runtime_error(&mut self, error_lines: &Vec<String>, expected_error: &str) -> (r:
        Result<(), PatternError>)
        ensures
            r is Ok <==> regex_accepts(STACK_TRACE_PATTERN@),
            r is Ok ==> final(self).messages() == old(self).messages() + runtime_failures(
                expected_error@,
                old(self).runtime_error_line as int,
                texts(error_lines@),
                captures_each(STACK_TRACE_PATTERN@, texts(error_lines@)),
            ),
            r is Err ==> final(self).messages() == old(self).messages(),
            same_but_failures(final(self), old(self)),
    {
        match match_each(STACK_TRACE_PATTERN, error_lines) {
            Ok(traces) => {
                let found = runtime_error_failures(
                    expected_error,
                    self.runtime_error_line,
                    error_lines,
                    &traces,
                );
                self.fail_list(&found);
                Ok(())
            },
            Err(e) => Err(e),
        }
    }

    /// Holds stderr against the expected compile errors: each error on it
    /// must be expected, and each expected error must be on it.
    pub fn validate_compile_errors(&mut self, error_lines: &Vec<String>) -> (r: Result<
        (),
        PatternError,
    >)
        ensures
            r is Ok <==> regex_accepts(SYNTAX_ERROR_PATTERN@),
            r is Ok ==> final(self).messages() == old(self).messages() + compile_failures(
                old(self).expectation().errors,
                texts(error_lines@),
                captures_each(SYNTAX_ERROR_PATTERN@, texts(error_lines@)),
            ),
            r is Err ==> final(self).messages() == old(self).messages(),
            same_but_failures(final(self), old(self)),
    {
        match match_each(SYNTAX_ERROR_PATTERN, error_lines) {
            Ok(matches) => {
                let found = compile_error_failures(&self.expected_errors, error_lines, &matches);
                self.fail_list(&found);
                Ok(())
            },
            Err(e) => Err(e),
        }
    }

    /// Holds a run of the interpreter against what this test expects and
    /// records each failure: those of stderr first, then that of the exit
    /// code, then those of the output. A run that could not be started is
    /// one failure.
    pub fn validate_output(&mut self, run: &RunResult) -> (r: Result<(), PatternError>)
        ensures
            same_but_failures(final(self), old(self)),
            r is Err ==> final(self).messages() == old(self).messages(),
            match *run {
                RunResult::LaunchFailed(reason) => r is Ok && final(self).messages() == old(
                    self,
                ).messages().push(launch_message(reason@)),
                RunResult::Finished { stdout, stderr, exit_code } => {
                    &&& r is Ok <==> regex_accepts(stderr_pattern(old(self).expectation()))
                    &&& r is Ok ==> final(self).messages() == old(self).messages()
                        + validation_failures(
                        old(self).expectation(),
                        lines_of(stdout@),
                        lines_of(stderr@),
                        exit_code,
                    )
                },
            },
    {
        match run {
            RunResult::LaunchFailed(reason) => {
                let message = String::from_str("Failed to run interpreter: ").concat(
                    reason.as_str(),
                );
                self.fail(message.as_str());
                Ok(())
            },
            RunResult::Finished { stdout, stderr, exit_code } => {
                let stdout_lines = split_lines(stdout.as_str());
                let stderr_lines = split_lines(stderr.as_str());
                let expected_error = match &self.expected_runtime_error {
                    Some(t) => Some(t.clone()),
                    None => None,
                };
                let checked = match expected_error {
                    Some(t) => self.validate_runtime_error(&stderr_lines, t.as_str()),
                    None => self.validate_compile_errors(&stderr_lines),
                };
                match checked {
                    Ok(()) => {
                        self.validate_exit_code(*exit_code, &stderr_lines);
                        self.validate_output_lines(&stdout_lines);
                        assert(self.messages() =~= old(self).messages() + validation_failures(
                            old(self).expectation(),
                            lines_of(stdout@),
                            lines_of(stderr@),
                            *exit_code,
                        ));
                        Ok(())
                    },
                    Err(e) => Err(e),
                }
            },
        }
    }
}

} // verus!
