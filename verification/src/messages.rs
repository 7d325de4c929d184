//! The fixed texts the tool prints: the usage error, the two
//! validation errors, and the help text.

use vstd::prelude::*;
use vstd::string::StringExecFns;
use crate::validate::ArgError;

verus! {

/// The two-line usage message written when the argument count is
/// wrong.
pub open spec fn usage_message() -> Seq<Seq<char>> {
    seq![
        "Usage: apex-check <APEX_DOMAIN>"@,
        "Only a single argument is supported, see --help for more information."@,
    ]
}

/// The diagnostic written for each way an invocation is rejected.
pub open spec fn error_message(e: ArgError) -> Seq<Seq<char>> {
    match e {
        ArgError::Usage => usage_message(),
        ArgError::Scheme => seq!["The input url provided should not have a scheme (e.g. http://)"@],
        ArgError::Path => seq!["The input url should just be the domain name, no paths"@],
    }
}

/// The lines of the diagnostic owed for a rejection, in print order.
pub fn error_lines(e: &ArgError) -> (lines: Vec<String>)
    ensures
        lines.deep_view() == error_message(*e),
{
    let mut lines: Vec<String> = Vec::new();
    match e {
        ArgError::Usage => {
            lines.push(String::from_str("Usage: apex-check <APEX_DOMAIN>"));
            lines.push(
                String::from_str(
                    "Only a single argument is supported, see --help for more information.",
                ),
            );
        },
        ArgError::Scheme => {
            lines.push(
                String::from_str("The input url provided should not have a scheme (e.g. http://)"),
            );
        },
        ArgError::Path => {
            lines.push(
                String::from_str("The input url should just be the domain name, no paths"),
            );
        },
    }
    proof {
        assert forall|j: int| 0 <= j < lines@.len() implies lines.deep_view()[j] == error_message(
            *e,
        )[j] by {
            assert(lines.deep_view()[j] == lines@[j]@);
        }
        assert(lines.deep_view() =~~= error_message(*e));
    }
    lines
}

/// The help text, one entry per output line: name and version, the
/// author, what the tool does, a usage hint, the help flag, and a
/// usage example.
pub open spec fn help_message() -> Seq<Seq<char>> {
    seq![
        "Apex Check v0.1.0"@,
        "Chip Reed"@,
        "Check that the four hostname variants of an apex domain are reachable."@,
        "Useful for sites on GitHub Pages where 1 of the 4 will fail by default."@,
        ""@,
        "USAGE:"@,
        "\tapex-check <APEX_DOMAIN>"@,
        ""@,
        "FLAGS:"@,
        "\t-h, --help\tPrints this message"@,
        ""@,
        "EXAMPLE:"@,
        "\tapex-check example.org"@,
    ]
}

/// The lines of the help text, in print order.
pub fn help_lines() -> (lines: Vec<String>)
    ensures
        lines.deep_view() == help_message(),
{
    let mut lines: Vec<String> = Vec::new();
    lines.push(String::from_str("Apex Check v0.1.0"));
    lines.push(String::from_str("Chip Reed"));
    lines.push(
        String::from_str(
            "Check that the four hostname variants of an apex domain are reachable.",
        ),
    );
    lines.push(
        String::from_str(
            "Useful for sites on GitHub Pages where 1 of the 4 will fail by default.",
        ),
    );
    lines.push(String::from_str(""));
    lines.push(String::from_str("USAGE:"));
    lines.push(String::from_str("\tapex-check <APEX_DOMAIN>"));
    lines.push(String::from_str(""));
    lines.push(String::from_str("FLAGS:"));
    lines.push(String::from_str("\t-h, --help\tPrints this message"));
    lines.push(String::from_str(""));
    lines.push(String::from_str("EXAMPLE:"));
    lines.push(String::from_str("\tapex-check example.org"));
    proof {
        assert forall|j: int| 0 <= j < lines@.len() implies lines.deep_view()[j] == help_message()[j] by {
            assert(lines.deep_view()[j] == lines@[j]@);
        }
        assert(lines.deep_view() =~~= help_message());
    }
    lines
}

} // verus!
