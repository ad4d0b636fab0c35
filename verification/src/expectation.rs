//! The annotation parser: the directives that a test file's comments hold,
//! and the expectations that they add up to.

use vstd::prelude::*;
use vstd::string::*;
use crate::pattern::{
    accepts, group, group_text, groups_in, groups_view, regex_accepts, regex_captures,
    PatternError, ERROR_LINE_PATTERN, EXPECTED_ERROR_PATTERN, EXPECTED_OUTPUT_PATTERN,
    EXPECTED_RUNTIME_ERROR_PATTERN, NONTEST_PATTERN,
};
use crate::suite::{disposition_of, Disposition, Suite};
use crate::text::{decimal, lines_of, position, render_count, split_lines, texts};

verus! {

/// A line that the interpreter is expected to print, and the line of the
/// test file that says so.
pub struct ExpectedOutput {
    pub line: usize,
    pub output: String,
}

/// One test case: its file, what it expects of the interpreter, and the
/// failures found so far.
pub struct Test {
    pub path: String,
    pub expected_output: Vec<ExpectedOutput>,
    pub expected_errors: Vec<String>,
    pub expected_runtime_error: Option<String>,
    pub runtime_error_line: usize,
    pub expected_exit_code: i32,
    pub failures: Vec<String>,
}

/// What a test case expects, as mathematics.
pub struct Expectation {
    /// Expected output lines in order, each with its source line.
    pub outputs: Seq<(int, Seq<char>)>,
    /// Expected compile errors, each once.
    pub errors: Seq<Seq<char>>,
    /// The expected runtime error, if any.
    pub runtime: Option<Seq<char>>,
    /// The source line of the runtime error annotation.
    pub runtime_line: int,
    /// The expected exit code.
    pub exit_code: int,
}

/// The matches of the five annotation patterns in one line.
pub struct LineMatches {
    pub nontest: Option<Vec<Option<String>>>,
    pub output: Option<Vec<Option<String>>>,
    pub error: Option<Vec<Option<String>>>,
    pub error_line: Option<Vec<Option<String>>>,
    pub runtime: Option<Vec<Option<String>>>,
}

/// The same matches, by characters.
pub struct LineMatchesModel {
    pub nontest: Option<Seq<Option<Seq<char>>>>,
    pub output: Option<Seq<Option<Seq<char>>>>,
    pub error: Option<Seq<Option<Seq<char>>>>,
    pub error_line: Option<Seq<Option<Seq<char>>>>,
    pub runtime: Option<Seq<Option<Seq<char>>>>,
}

impl View for LineMatches {
    type V = LineMatchesModel;

    open spec fn view(&self) -> LineMatchesModel {
        LineMatchesModel {
            nontest: groups_view(self.nontest),
            output: groups_view(self.output),
            error: groups_view(self.error),
            error_line: groups_view(self.error_line),
            runtime: groups_view(self.runtime),
        }
    }
}

/// What one line of a test file says.
pub enum Directive {
    /// The file is no test at all.
    NonTest,
    /// A line of expected output.
    Output(String),
    /// An expected compile error, with its line in front.
    CompileError(String),
    /// The expected runtime error.
    RuntimeError(String),
    /// Nothing.
    Inert,
}

/// A directive, by characters.
pub enum DirectiveModel {
    NonTest,
    Output(Seq<char>),
    CompileError(Seq<char>),
    RuntimeError(Seq<char>),
    Inert,
}

impl View for Directive {
    type V = DirectiveModel;

    open spec fn view(&self) -> DirectiveModel {
        match self {
            Directive::NonTest => DirectiveModel::NonTest,
            Directive::Output(t) => DirectiveModel::Output(t@),
            Directive::CompileError(t) => DirectiveModel::CompileError(t@),
            Directive::RuntimeError(t) => DirectiveModel::RuntimeError(t@),
            Directive::Inert => DirectiveModel::Inert,
        }
    }
}

/// How parsing a test file ended.
#[derive(Debug, Clone, Copy, PartialEq, Eq)]
pub enum ParseStatus {
    /// The expectations are complete and the test can be run.
    Ready,
    /// The suite leaves this file out.
    Skipped,
    /// The file is marked as no test.
    NonTest,
    /// The file expects both compile errors and a runtime error.
    Malformed,
}

/// The result of parsing: how it ended and how many expectations were read.
#[derive(Debug, Clone, Copy, PartialEq, Eq)]
pub struct Parsed {
    pub status: ParseStatus,
    pub expectations: usize,
}

/// The state of a scan through the lines of a file.
pub struct Scan {
    pub expectation: Expectation,
    /// Expectations read so far.
    pub count: nat,
    /// Whether the marker of a non-test was met.
    pub nontest: bool,
}

/// Whether the matcher compiles all five annotation patterns.
pub open spec fn annotation_patterns_accepted() -> bool {
    &&& regex_accepts(NONTEST_PATTERN@)
    &&& regex_accepts(EXPECTED_OUTPUT_PATTERN@)
    &&& regex_accepts(EXPECTED_ERROR_PATTERN@)
    &&& regex_accepts(ERROR_LINE_PATTERN@)
    &&& regex_accepts(EXPECTED_RUNTIME_ERROR_PATTERN@)
}

/// The matches of the five annotation patterns in `line`.
pub open spec fn line_matches(line: Seq<char>) -> LineMatchesModel {
    LineMatchesModel {
        nontest: regex_captures(NONTEST_PATTERN@, line),
        output: regex_captures(EXPECTED_OUTPUT_PATTERN@, line),
        error: regex_captures(EXPECTED_ERROR_PATTERN@, line),
        error_line: regex_captures(ERROR_LINE_PATTERN@, line),
        runtime: regex_captures(EXPECTED_RUNTIME_ERROR_PATTERN@, line),
    }
}

/// A compile error as it is compared: its line in brackets, then the message.
pub open spec fn error_text(line: Seq<char>, message: Seq<char>) -> Seq<char> {
    "[line "@ + line + "] "@ + message
}

/// Whether an error annotation with this language tag concerns a suite of
/// `language`: one without a tag, or with an empty one, concerns all.
pub open spec fn language_matches(tag: Option<Seq<char>>, language: Seq<char>) -> bool {
    match tag {
        Some(t) => t.len() == 0 || t == language,
        None => true,
    }
}

/// The directive of the line with number `number`, given the matches in it.
/// The first pattern that matches decides, in the order: non-test marker,
/// expected output, expected error, error with explicit line, runtime error.
pub open spec fn directive_of(m: LineMatchesModel, number: int, language: Seq<char>) -> DirectiveModel {
    if m.nontest is Some {
        DirectiveModel::NonTest
    } else if m.output is Some {
        match group(m.output, 1) {
            Some(t) => DirectiveModel::Output(t),
            None => DirectiveModel::Inert,
        }
    } else if m.error is Some {
        match group(m.error, 1) {
            Some(t) => DirectiveModel::CompileError(error_text(decimal(number as nat), t)),
            None => DirectiveModel::Inert,
        }
    } else if m.error_line is Some {
        if language_matches(group(m.error_line, 2), language) {
            match (group(m.error_line, 3), group(m.error_line, 4)) {
                (Some(n), Some(t)) => DirectiveModel::CompileError(error_text(n, t)),
                _ => DirectiveModel::Inert,
            }
        } else {
            DirectiveModel::Inert
        }
    } else {
        match group(m.runtime, 1) {
            Some(t) => DirectiveModel::RuntimeError(t),
            None => DirectiveModel::Inert,
        }
    }
}

/// Whether a directive is an expectation.
pub open spec fn is_expectation(d: DirectiveModel) -> bool {
    d is Output || d is CompileError || d is RuntimeError
}

/// The set of errors with `e` in it: unchanged where it was there already.
pub open spec fn with_error(errors: Seq<Seq<char>>, e: Seq<char>) -> Seq<Seq<char>> {
    if errors.contains(e) {
        errors
    } else {
        errors.push(e)
    }
}

/// The expectations after the directive `d` of line `number` was taken in.
pub open spec fn recorded(e: Expectation, d: DirectiveModel, number: int) -> Expectation {
    match d {
        DirectiveModel::Output(t) => Expectation { outputs: e.outputs.push((number, t)), ..e },
        DirectiveModel::CompileError(t) => Expectation {
            errors: with_error(e.errors, t),
            exit_code: 65,
            ..e
        },
        DirectiveModel::RuntimeError(t) => Expectation {
            runtime: Some(t),
            runtime_line: number,
            exit_code: 70,
            ..e
        },
        _ => e,
    }
}

/// The scan after the first `k` lines, begun with the expectations `start`.
/// It stops at the first non-test marker.
pub open spec fn scan(start: Expectation, lines: Seq<Seq<char>>, language: Seq<char>, k: int) -> Scan
    decreases k,
{
    if k <= 0 {
        Scan { expectation: start, count: 0, nontest: false }
    } else {
        let prev = scan(start, lines, language, k - 1);
        if prev.nontest || k > lines.len() {
            prev
        } else {
            let d = directive_of(line_matches(lines[k - 1]), k, language);
            if d is NonTest {
                Scan { nontest: true, ..prev }
            } else {
                Scan {
                    expectation: recorded(prev.expectation, d, k),
                    count: if is_expectation(d) {
                        prev.count + 1
                    } else {
                        prev.count
                    },
                    nontest: false,
                }
            }
        }
    }
}

/// Whether both compile errors and a runtime error are expected.
pub open spec fn malformed(e: Expectation) -> bool {
    e.errors.len() > 0 && e.runtime is Some
}

/// The exit code that follows from the kinds of error expected.
pub open spec fn derived_exit_code(e: Expectation) -> int {
    if e.runtime is Some {
        70
    } else if e.errors.len() > 0 {
        65
    } else {
        0
    }
}

/// How a finished scan ends.
pub open spec fn status_of(s: Scan) -> ParseStatus {
    if s.nontest {
        ParseStatus::NonTest
    } else if malformed(s.expectation) {
        ParseStatus::Malformed
    } else {
        ParseStatus::Ready
    }
}

/// Whether all five annotation patterns can be used.
pub fn annotation_patterns_ready() -> (r: bool)
    ensures
        r == annotation_patterns_accepted(),
{
    accepts(NONTEST_PATTERN) && accepts(EXPECTED_OUTPUT_PATTERN) && accepts(EXPECTED_ERROR_PATTERN)
        && accepts(ERROR_LINE_PATTERN) && accepts(EXPECTED_RUNTIME_ERROR_PATTERN)
}

fn matches_in(line: &str) -> (r: LineMatches)
    requires
        annotation_patterns_accepted(),
    ensures
        r@ == line_matches(line@),
{
    LineMatches {
        nontest: groups_in(NONTEST_PATTERN, line),
        output: groups_in(EXPECTED_OUTPUT_PATTERN, line),
        error: groups_in(EXPECTED_ERROR_PATTERN, line),
        error_line: groups_in(ERROR_LINE_PATTERN, line),
        runtime: groups_in(EXPECTED_RUNTIME_ERROR_PATTERN, line),
    }
}

/// Matches the five annotation patterns against one line.
pub fn match_line(line: &str) -> (r: Result<LineMatches, PatternError>)
    ensures
        r is Ok <==> annotation_patterns_accepted(),
        r matches Ok(m) ==> m@ == line_matches(line@),
{
    if annotation_patterns_ready() {
        Ok(matches_in(line))
    } else {
        Err(PatternError::Rejected)
    }
}

fn error_message(line: &str, message: &str) -> (r: String)
    ensures
        r@ == error_text(line@, message@),
{
    String::from_str("[line ").concat(line).concat("] ").concat(message)
}

/// Decides what the line with number `number` says, from the matches in it,
/// for a suite of `language`.
pub fn classify(m: &LineMatches, number: usize, language: &str) -> (r: Directive)
    ensures
        r@ == directive_of(m@, number as int, language@),
{
    if m.nontest.is_some() {
        Directive::NonTest
    } else if m.output.is_some() {
        match group_text(&m.output, 1) {
            Some(t) => Directive::Output(t),
            None => Directive::Inert,
        }
    } else if m.error.is_some() {
        match group_text(&m.error, 1) {
            Some(t) => {
                let number_text = render_count(number);
                Directive::CompileError(error_message(number_text.as_str(), t.as_str()))
            },
            None => Directive::Inert,
        }
    } else if m.error_line.is_some() {
        let concerned = match group_text(&m.error_line, 2) {
            Some(tag) => tag.as_str().is_empty() || tag == String::from_str(language),
            None => true,
        };
        if concerned {
            match (group_text(&m.error_line, 3), group_text(&m.error_line, 4)) {
                (Some(n), Some(t)) => Directive::CompileError(
                    error_message(n.as_str(), t.as_str()),
                ),
                _ => Directive::Inert,
            }
        } else {
            Directive::Inert
        }
    } else {
        match group_text(&m.runtime, 1) {
            Some(t) => Directive::RuntimeError(t),
            None => Directive::Inert,
        }
    }
}

/// The expected output lines of a test, by characters.
pub open spec fn outputs_view(outputs: Seq<ExpectedOutput>) -> Seq<(int, Seq<char>)> {
    outputs.map_values(|e: ExpectedOutput| (e.line as int, e.output@))
}

impl Test {
    /// What this test expects.
    pub open spec fn expectation(&self) -> Expectation {
        Expectation {
            outputs: outputs_view(self.expected_output@),
            errors: texts(self.expected_errors@),
            runtime: match self.expected_runtime_error {
                Some(t) => Some(t@),
                None => None,
            },
            runtime_line: self.runtime_error_line as int,
            exit_code: self.expected_exit_code as int,
        }
    }

    /// The failure messages gathered so far.
    pub open spec fn messages(&self) -> Seq<Seq<char>> {
        texts(self.failures@)
    }

    /// No expected compile error is held twice.
    pub open spec fn well_formed(&self) -> bool {
        self.expectation().errors.no_duplicates()
    }

    /// A test for the file at `path` that expects nothing yet.
    pub fn new(path: &str, _suite: &Suite) -> (r: Test)
        ensures
            r.path@ == path@,
            r.expectation() == blank(),
            r.messages() == Seq::<Seq<char>>::empty(),
            r.well_formed(),
    {
        let r = Test {
            path: String::from_str(path),
            expected_output: Vec::new(),
            expected_errors: Vec::new(),
            expected_runtime_error: None,
            runtime_error_line: 0,
            expected_exit_code: 0,
            failures: Vec::new(),
        };
        assert(r.expectation().outputs =~= blank().outputs);
        assert(r.expectation().errors =~= blank().errors);
        assert(r.messages() =~= Seq::<Seq<char>>::empty());
        r
    }

    /// Takes in the directive of line `number`.
    pub fn record(&mut self, d: Directive, number: usize)
        requires
            old(self).well_formed(),
        ensures
            final(self).expectation() == recorded(old(self).expectation(), d@, number as int),
            final(self).well_formed(),
            final(self).path == old(self).path,
            final(self).failures == old(self).failures,
    {
        match d {
            Directive::Output(t) => {
                self.expected_output.push(ExpectedOutput { line: number, output: t });
                assert(self.expectation().outputs =~= old(self).expectation().outputs.push(
                    (number as int, t@),
                ));
            },
            Directive::CompileError(t) => {
                if position(&self.expected_errors, &t).is_none() {
                    self.expected_errors.push(t);
                    assert(self.expectation().errors =~= old(self).expectation().errors.push(t@));
                } else {
                    assert(old(self).expectation().errors.contains(t@));
                }
                self.expected_exit_code = 65;
                assert(self.expectation().errors == with_error(old(self).expectation().errors, t@));
            },
            Directive::RuntimeError(t) => {
                self.runtime_error_line = number;
                self.expected_runtime_error = Some(t);
                self.expected_exit_code = 70;
                assert(self.expectation().runtime == Some(t@));
            },
            _ => {},
        }
    }

    /// Reads the annotations in `source`, the text of this test's file, for
    /// `suite`. Where the suite skips the file, the text is not looked at.
    /// Otherwise every line is scanned in turn, up to the first non-test
    /// marker, and what the lines expect is added to this test.
    pub fn parse(&mut self, source: &str, suite: &Suite) -> (r: Result<Parsed, PatternError>)
        requires
            old(self).well_formed(),
        ensures
            final(self).path == old(self).path,
            final(self).failures == old(self).failures,
            final(self).well_formed(),
            r is Ok <==> disposition_of(suite.table(), old(self).path@) == Disposition::Skip
                || annotation_patterns_accepted(),
            r is Err ==> *final(self) == *old(self),
            r matches Ok(p) ==> if disposition_of(suite.table(), old(self).path@)
                == Disposition::Skip {
                &&& p.status == ParseStatus::Skipped
                &&& p.expectations == 0
                &&& *final(self) == *old(self)
            } else {
                let end = scan(
                    old(self).expectation(),
                    lines_of(source@),
                    suite.language@,
                    lines_of(source@).len() as int,
                );
                &&& p.status == status_of(end)
                &&& p.expectations == end.count
                &&& final(self).expectation() == end.expectation
            },
    {
        let skipped = match suite.disposition(self.path.as_str()) {
            Disposition::Skip => true,
            Disposition::Run => false,
        };
        if skipped {
            return Ok(Parsed { status: ParseStatus::Skipped, expectations: 0 });
        }
        if !annotation_patterns_ready() {
            return Err(PatternError::Rejected);
        }
        let lines = split_lines(source);
        let ghost start = self.expectation();
        let ghost all = lines_of(source@);
        let mut i: usize = 0;
        let mut count: usize = 0;
        let mut stopped = false;
        while i < lines.len() && !stopped
            invariant
                annotation_patterns_accepted(),
                texts(lines@) == all,
                i <= lines.len(),
                count <= i,
                self.well_formed(),
                self.path == old(self).path,
                self.failures == old(self).failures,
                self.expectation() == scan(start, all, suite.language@, i as int).expectation,
                count == scan(start, all, suite.language@, i as int).count,
                stopped == scan(start, all, suite.language@, i as int).nontest,
            decreases lines.len() - i,
        {
            assert(all[i as int] == lines@[i as int]@);
            let m = matches_in(lines[i].as_str());
            let d = classify(&m, i + 1, suite.language.as_str());
            match d {
                Directive::NonTest => {
                    stopped = true;
                },
                Directive::Inert => {},
                _ => {
                    count += 1;
                    self.record(d, i + 1);
                },
            }
            i += 1;
        }
        proof {
            lemma_scan_stops(start, all, suite.language@, i as int, all.len() as int);
        }
        let status = if stopped {
            ParseStatus::NonTest
        } else if self.expected_errors.len() > 0 && self.expected_runtime_error.is_some() {
            ParseStatus::Malformed
        } else {
            ParseStatus::Ready
        };
        Ok(Parsed { status, expectations: count })
    }
}

/// No expectations, and the exit code of a clean run.
pub open spec fn blank() -> Expectation {
    Expectation {
        outputs: Seq::empty(),
        errors: Seq::empty(),
        runtime: None,
        runtime_line: 0,
        exit_code: 0,
    }
}

/// A scan that has met the non-test marker, or the end of the lines, changes
/// no more.
pub proof fn lemma_scan_stops(
    start: Expectation,
    lines: Seq<Seq<char>>,
    language: Seq<char>,
    i: int,
    n: int,
)
    requires
        0 <= i <= n,
        scan(start, lines, language, i).nontest || i >= lines.len(),
    ensures
        scan(start, lines, language, n) == scan(start, lines, language, i),
    decreases n - i,
{
    if i < n {
        lemma_scan_stops(start, lines, language, i, n - 1);
    }
}

} // verus!
