//! Command-line argument validation: exactly one argument, the help
//! flag short-circuit, and rejection of inputs that carry a URL
//! scheme or a path separator.

use vstd::prelude::*;
use crate::text::{str_contains_char, str_eq, str_starts_with};

verus! {

/// Why an invocation was rejected before any probe ran.
#[derive(Clone, Copy, Debug, PartialEq, Eq, Structural)]
pub enum ArgError {
    /// The argument count was not exactly one.
    Usage,
    /// The argument begins with `http://` or `https://`.
    Scheme,
    /// The argument contains a `/`.
    Path,
}

/// What the argument validator decided.
#[derive(Debug, PartialEq, Eq)]
pub enum ArgOutcome {
    /// The sole argument was `-h` or `--help`.
    HelpRequested,
    /// The invocation is malformed; no probe may run.
    Rejected(ArgError),
    /// The sole argument is a well-formed domain to probe.
    ValidDomain(String),
}

/// The argument asks for the help text.
pub open spec fn is_help_flag(arg: Seq<char>) -> bool {
    arg == "-h"@ || arg == "--help"@
}

/// The argument carries a URL scheme prefix.
pub open spec fn has_scheme_prefix(arg: Seq<char>) -> bool {
    "http://"@.is_prefix_of(arg) || "https://"@.is_prefix_of(arg)
}

/// The argument contains a path separator.
pub open spec fn has_path_separator(arg: Seq<char>) -> bool {
    arg.contains('/')
}

/// The one decision the validator makes on an argument list (the
/// invocation name excluded): wrong count, then the help flag, then a
/// scheme prefix, then a path separator, and otherwise the domain is
/// accepted as given.
pub open spec fn validated(args: Seq<Seq<char>>, r: ArgOutcome) -> bool {
    if args.len() != 1 {
        r == ArgOutcome::Rejected(ArgError::Usage)
    } else if is_help_flag(args[0]) {
        r == ArgOutcome::HelpRequested
    } else if has_scheme_prefix(args[0]) {
        r == ArgOutcome::Rejected(ArgError::Scheme)
    } else if has_path_separator(args[0]) {
        r == ArgOutcome::Rejected(ArgError::Path)
    } else {
        r matches ArgOutcome::ValidDomain(d) && d@ == args[0]
    }
}

/// Validate the user-supplied arguments (the invocation name
/// excluded). No normalization is performed: an accepted domain is
/// returned exactly as given.
pub fn validate_args(args: &Vec<String>) -> (r: ArgOutcome)
    ensures
        validated(args.deep_view(), r),
{
    if args.len() != 1 {
        return ArgOutcome::Rejected(ArgError::Usage);
    }
    let arg: &String = &args[0];
    proof {
        assert(args.deep_view()[0] == arg@);
    }
    if str_eq(arg.as_str(), "-h") || str_eq(arg.as_str(), "--help") {
        return ArgOutcome::HelpRequested;
    }
    if str_starts_with(arg.as_str(), "http://") || str_starts_with(arg.as_str(), "https://") {
        return ArgOutcome::Rejected(ArgError::Scheme);
    }
    if str_contains_char(arg.as_str(), '/') {
        return ArgOutcome::Rejected(ArgError::Path);
    }
    ArgOutcome::ValidDomain(arg.clone())
}

/// The exit code settled by validation alone: zero for the help text,
/// one for a rejection, and none when the probes still have to run.
pub open spec fn early_code_spec(r: ArgOutcome) -> Option<i32> {
    match r {
        ArgOutcome::HelpRequested => Some(0i32),
        ArgOutcome::Rejected(_) => Some(1i32),
        ArgOutcome::ValidDomain(_) => None,
    }
}

/// Exit code owed before any probe runs, if validation already
/// settled it.
pub fn early_exit_code(r: &ArgOutcome) -> (c: Option<i32>)
    ensures
        c == early_code_spec(*r),
{
    match r {
        ArgOutcome::HelpRequested => Some(0),
        ArgOutcome::Rejected(_) => Some(1),
        ArgOutcome::ValidDomain(_) => None,
    }
}

/// An invocation whose argument count is not exactly one is rejected
/// as a usage error and owes exit code one before any probe runs.
pub proof fn lemma_wrong_count_rejected(args: Seq<Seq<char>>, r: ArgOutcome)
    requires
        args.len() != 1,
        validated(args, r),
    ensures
        r == ArgOutcome::Rejected(ArgError::Usage),
        early_code_spec(r) == Some(1i32),
{
}

} // verus!
