//! Terminal colours, as ANSI escape sequences round a text.

use vstd::prelude::*;
use vstd::string::*;

verus! {

/// A text between the escape sequence `code` and the one that resets the
/// colour.
pub open spec fn painted(code: Seq<char>, s: Seq<char>) -> Seq<char> {
    code + s + "\x1b[0m"@
}

fn paint(code: &str, s: &str) -> (r: String)
    ensures
        r@ == painted(code@, s@),
{
    String::from_str(code).concat(s).concat("\x1b[0m")
}

pub fn green(s: &str) -> (r: String)
    ensures
        r@ == painted("\x1b[32m"@, s@),
{
    paint("\x1b[32m", s)
}

pub fn red(s: &str) -> (r: String)
    ensures
        r@ == painted("\x1b[31m"@, s@),
{
    paint("\x1b[31m", s)
}

pub fn yellow(s: &str) -> (r: String)
    ensures
        r@ == painted("\x1b[33m"@, s@),
{
    paint("\x1b[33m", s)
}

pub fn gray(s: &str) -> (r: String)
    ensures
        r@ == painted("\x1b[90m"@, s@),
{
    paint("\x1b[90m", s)
}

pub fn pink(s: &str) -> (r: String)
    ensures
        r@ == painted("\x1b[95m"@, s@),
{
    paint("\x1b[95m", s)
}

} // verus!
