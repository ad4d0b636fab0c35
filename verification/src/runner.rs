//! The decisions of a run: which files take part, how the interpreter is
//! invoked, how the tallies move, and what the status lines say.

use vstd::prelude::*;
use vstd::string::*;
use crate::color::{gray, green, painted, red, yellow};
use crate::expectation::{ParseStatus, Parsed};
use crate::suite::Suite;
use crate::text::{
    append_texts, contains_text, decimal, has_substring, normalize_path, push_text, render_count,
    texts, with_slashes,
};

verus! {

/// What the user asked for: a filter on the paths, and an interpreter with
/// its arguments to run in place of the suite's own.
#[derive(Debug)]
pub struct Config {
    pub filter_path: Option<String>,
    pub custom_interpreter: Option<String>,
    pub custom_arguments: Option<Vec<String>>,
}

/// The tallies of a run.
pub struct RunnerState {
    pub passed: usize,
    pub failed: usize,
    pub skipped: usize,
    pub expectations: usize,
    pub suite: Option<Suite>,
}

/// A program and the arguments to start it with.
pub struct Invocation {
    pub program: String,
    pub args: Vec<String>,
}

/// Whether the file at `path` takes part in a run: benchmarks never do, and
/// with a filter only the paths that hold it, once their backslashes are
/// slashes.
pub open spec fn takes_part(path: Seq<char>, filter: Option<Seq<char>>) -> bool {
    &&& !has_substring(path, "benchmark"@)
    &&& match filter {
        Some(f) => has_substring(with_slashes(path), f),
        None => true,
    }
}

/// The arguments of the interpreter: the fixed ones, then the test file.
pub open spec fn arguments_of(fixed: Seq<Seq<char>>, path: Seq<char>) -> Seq<Seq<char>> {
    fixed.push(path)
}

/// The text of an optional string.
pub open spec fn text_of(s: Option<String>) -> Option<Seq<char>> {
    match s {
        Some(t) => Some(t@),
        None => None,
    }
}

/// The line that sums a run up.
pub open spec fn summary_text(passed: nat, failed: nat, expectations: nat) -> Seq<char> {
    if failed == 0 {
        "All "@ + painted("\x1b[32m"@, decimal(passed)) + " tests passed ("@ + decimal(expectations)
            + " expectations)."@
    } else {
        painted("\x1b[32m"@, decimal(passed)) + " tests passed. "@ + painted(
            "\x1b[31m"@,
            decimal(failed),
        ) + " tests failed."@
    }
}

/// The line that shows the tallies while the file at `path` is run.
pub open spec fn status_text(passed: nat, failed: nat, skipped: nat, path: Seq<char>) -> Seq<char> {
    "\x1b[2K\rPassed: "@ + painted("\x1b[32m"@, decimal(passed)) + " Failed: "@ + painted(
        "\x1b[31m"@,
        decimal(failed),
    ) + " Skipped: "@ + painted("\x1b[33m"@, decimal(skipped)) + " ("@ + painted("\x1b[90m"@, path)
        + ")"@
}

/// Decides whether the file at `path` takes part in a run.
pub fn selects(path: &str, config: &Config) -> (r: bool)
    ensures
        r == takes_part(path@, text_of(config.filter_path)),
{
    if contains_text(path, "benchmark") {
        return false;
    }
    match &config.filter_path {
        Some(filter) => {
            let normalized = normalize_path(path);
            contains_text(normalized.as_str(), filter.as_str())
        },
        None => true,
    }
}

/// Says how to run the interpreter on the test file at `path`: with the
/// user's interpreter and arguments where an interpreter was given, with the
/// suite's own otherwise. The path is the last argument.
pub fn invocation(config: &Config, suite: &Suite, path: &str) -> (r: Invocation)
    ensures
        match config.custom_interpreter {
            Some(program) => {
                &&& r.program@ == program@
                &&& texts(r.args@) == arguments_of(
                    match config.custom_arguments {
                        Some(a) => texts(a@),
                        None => Seq::empty(),
                    },
                    path@,
                )
            },
            None => {
                &&& r.program@ == suite.executable@
                &&& texts(r.args@) == arguments_of(texts(suite.args@), path@)
            },
        },
{
    let mut args: Vec<String> = Vec::new();
    assert(texts(args@) =~= Seq::<Seq<char>>::empty());
    match &config.custom_interpreter {
        Some(program) => {
            match &config.custom_arguments {
                Some(custom) => {
                    append_texts(&mut args, custom);
                    assert(texts(args@) =~= texts(custom@));
                },
                None => {},
            }
            push_text(&mut args, String::from_str(path));
            Invocation { program: program.clone(), args }
        },
        None => {
            append_texts(&mut args, &suite.args);
            assert(texts(args@) =~= texts(suite.args@));
            push_text(&mut args, String::from_str(path));
            Invocation { program: suite.executable.clone(), args }
        },
    }
}

impl RunnerState {
    /// The tallies before the first test.
    pub fn new() -> (r: RunnerState)
        ensures
            r.passed == 0,
            r.failed == 0,
            r.skipped == 0,
            r.expectations == 0,
            r.suite is None,
    {
        RunnerState { passed: 0, failed: 0, skipped: 0, expectations: 0, suite: None }
    }

    /// Takes in how the parsing of a file ended: its expectations are
    /// counted, and the file too where the suite skips it. The result says
    /// whether the test is to be run.
    pub fn note_parsed(&mut self, parsed: Parsed) -> (run: bool)
        requires
            parsed.status == ParseStatus::Skipped ==> old(self).skipped < usize::MAX,
            old(self).expectations + parsed.expectations <= usize::MAX,
        ensures
            run == (parsed.status == ParseStatus::Ready),
            final(self).passed == old(self).passed,
            final(self).failed == old(self).failed,
            final(self).skipped == if parsed.status == ParseStatus::Skipped {
                old(self).skipped + 1
            } else {
                old(self).skipped as int
            },
            final(self).expectations == old(self).expectations + parsed.expectations,
            final(self).suite == old(self).suite,
    {
        self.expectations = self.expectations + parsed.expectations;
        match parsed.status {
            ParseStatus::Skipped => {
                self.skipped = self.skipped + 1;
                false
            },
            ParseStatus::Ready => true,
            _ => false,
        }
    }

    /// Takes in the failures of a test that was run: without any it passed.
    /// The result says whether it passed.
    pub fn note_result(&mut self, failures: &Vec<String>) -> (ok: bool)
        requires
            failures@.len() == 0 ==> old(self).passed < usize::MAX,
            failures@.len() > 0 ==> old(self).failed < usize::MAX,
        ensures
            ok == (failures@.len() == 0),
            final(self).passed == if ok {
                old(self).passed + 1
            } else {
                old(self).passed as int
            },
            final(self).failed == if ok {
                old(self).failed as int
            } else {
                old(self).failed + 1
            },
            final(self).skipped == old(self).skipped,
            final(self).expectations == old(self).expectations,
            final(self).suite == old(self).suite,
    {
        if failures.len() == 0 {
            self.passed = self.passed + 1;
            true
        } else {
            self.failed = self.failed + 1;
            false
        }
    }

    /// Whether no test has failed.
    pub fn all_passed(&self) -> (r: bool)
        ensures
            r == (self.failed == 0),
    {
        self.failed == 0
    }

    /// The line that sums the run up.
    pub fn summary_line(&self) -> (r: String)
        ensures
            r@ == summary_text(self.passed as nat, self.failed as nat, self.expectations as nat),
    {
        let passed = green(render_count(self.passed).as_str());
        if self.failed == 0 {
            String::from_str("All ").concat(passed.as_str()).concat(" tests passed (").concat(
                render_count(self.expectations).as_str(),
            ).concat(" expectations).")
        } else {
            let failed = red(render_count(self.failed).as_str());
            passed.concat(" tests passed. ").concat(failed.as_str()).concat(" tests failed.")
        }
    }

    /// The line that shows the tallies while the file at `path` is run.
    pub fn status_line(&self, path: &str) -> (r: String)
        ensures
            r@ == status_text(
                self.passed as nat,
                self.failed as nat,
                self.skipped as nat,
                path@,
            ),
    {
        let passed = green(render_count(self.passed).as_str());
        let failed = red(render_count(self.failed).as_str());
        let skipped = yellow(render_count(self.skipped).as_str());
        String::from_str("\x1b[2K\rPassed: ").concat(passed.as_str()).concat(" Failed: ").concat(
            failed.as_str(),
        ).concat(" Skipped: ").concat(skipped.as_str()).concat(" (").concat(
            gray(path).as_str(),
        ).concat(")")
    }
}

} // verus!
