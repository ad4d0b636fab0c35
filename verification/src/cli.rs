//! The invocation surface: a suite selector, an optional path filter, and
//! options that replace the suite's interpreter and its arguments.

use vstd::prelude::*;
use vstd::string::*;
use crate::runner::{text_of, Config};
use crate::text::{append_range, texts};

verus! {

/// Why the arguments cannot be used.
#[derive(Debug, Clone, Copy, PartialEq, Eq)]
pub enum UsageError {
    /// No suite was named.
    MissingSuite,
    /// The interpreter option stands last, without its value.
    MissingInterpreter,
    /// The arguments option stands last, without a value.
    MissingArguments,
}

/// What a command line asks for.
pub struct Request {
    pub suite_name: String,
    pub config: Config,
}

/// The interpreter and the arguments that the options give.
pub struct Options {
    pub interpreter: Option<Seq<char>>,
    pub arguments: Option<Seq<Seq<char>>>,
}

/// Whether an argument is the option that names the interpreter.
pub open spec fn is_interpreter_flag(arg: Seq<char>) -> bool {
    arg == "--interpreter"@ || arg == "-i"@
}

/// Whether an argument is the option that starts the interpreter's
/// arguments.
pub open spec fn is_arguments_flag(arg: Seq<char>) -> bool {
    arg == "--arguments"@ || arg == "-a"@
}

/// The options read from place `i` on, with `interpreter` read before. The
/// interpreter option takes the next argument as its value; the arguments
/// option takes all that follow it; anything else is passed over.
pub open spec fn options_from(args: Seq<Seq<char>>, i: int, interpreter: Option<Seq<char>>) -> Result<
    Options,
    UsageError,
>
    decreases args.len() - i,
{
    if i < 0 || i >= args.len() {
        Ok(Options { interpreter, arguments: None })
    } else if is_interpreter_flag(args[i]) {
        if i + 1 >= args.len() {
            Err(UsageError::MissingInterpreter)
        } else {
            options_from(args, i + 2, Some(args[i + 1]))
        }
    } else if is_arguments_flag(args[i]) {
        if i + 1 >= args.len() {
            Err(UsageError::MissingArguments)
        } else {
            Ok(Options { interpreter, arguments: Some(args.skip(i + 1)) })
        }
    } else {
        options_from(args, i + 1, interpreter)
    }
}

/// The texts of an optional list of strings.
pub open spec fn texts_of(list: Option<Vec<String>>) -> Option<Seq<Seq<char>>> {
    match list {
        Some(l) => Some(texts(l@)),
        None => None,
    }
}

fn is_either(arg: &String, long: &str, short: &str) -> (r: bool)
    ensures
        r == (arg@ == long@ || arg@ == short@),
{
    *arg == String::from_str(long) || *arg == String::from_str(short)
}

/// Reads a command line, program name first: the suite's name, then
/// optionally a filter on the paths, then options.
pub fn parse_arguments(args: &Vec<String>) -> (r: Result<Request, UsageError>)
    ensures
        match r {
            Ok(request) => {
                &&& args@.len() >= 2
                &&& request.suite_name@ == args@[1]@
                &&& text_of(request.config.filter_path) == if args@.len() > 2 {
                    Some(args@[2]@)
                } else {
                    None
                }
                &&& options_from(texts(args@), 3, None) == Ok::<Options, UsageError>(
                    Options {
                        interpreter: text_of(request.config.custom_interpreter),
                        arguments: texts_of(request.config.custom_arguments),
                    },
                )
            },
            Err(e) => if args@.len() < 2 {
                e == UsageError::MissingSuite
            } else {
                options_from(texts(args@), 3, None) == Err::<Options, UsageError>(e)
            },
        },
{
    if args.len() < 2 {
        return Err(UsageError::MissingSuite);
    }
    let ghost all = texts(args@);
    let suite_name = args[1].clone();
    let filter_path = if args.len() > 2 {
        Some(args[2].clone())
    } else {
        None
    };
    let mut custom_interpreter: Option<String> = None;
    let mut custom_arguments: Option<Vec<String>> = None;
    let mut i: usize = 3;
    while i < args.len()
        invariant
            3 <= i,
            all == texts(args@),
            options_from(all, 3, None) == if custom_arguments is Some {
                Ok::<Options, UsageError>(
                    Options {
                        interpreter: text_of(custom_interpreter),
                        arguments: texts_of(custom_arguments),
                    },
                )
            } else {
                options_from(all, i as int, text_of(custom_interpreter))
            },
            custom_arguments is Some ==> i >= args.len(),
        decreases args.len() - i,
    {
        assert(all[i as int] == args@[i as int]@);
        if is_either(&args[i], "--interpreter", "-i") {
            if i + 1 >= args.len() {
                return Err(UsageError::MissingInterpreter);
            }
            assert(all[i + 1] == args@[i + 1]@);
            custom_interpreter = Some(args[i + 1].clone());
            i += 2;
        } else if is_either(&args[i], "--arguments", "-a") {
            if i + 1 >= args.len() {
                return Err(UsageError::MissingArguments);
            }
            let mut rest: Vec<String> = Vec::new();
            assert(texts(rest@) =~= Seq::<Seq<char>>::empty());
            append_range(&mut rest, args, i + 1, args.len());
            assert(texts(rest@) =~= all.skip(i + 1));
            custom_arguments = Some(rest);
            i = args.len();
        } else {
            i += 1;
        }
    }
    Ok(Request { suite_name, config: Config { filter_path, custom_interpreter, custom_arguments } })
}

impl UsageError {
    /// What to tell the user.
    pub fn message(&self) -> (r: String)
        ensures
            r@ == match *self {
                UsageError::MissingSuite => "Missing suite name."@,
                UsageError::MissingInterpreter => "Missing value for --interpreter option."@,
                UsageError::MissingArguments => "Missing value for --arguments option."@,
            },
    {
        match self {
            UsageError::MissingSuite => String::from_str("Missing suite name."),
            UsageError::MissingInterpreter => String::from_str(
                "Missing value for --interpreter option.",
            ),
            UsageError::MissingArguments => String::from_str(
                "Missing value for --arguments option.",
            ),
        }
    }
}

} // verus!
