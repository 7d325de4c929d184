//! The four candidate URLs probed for a domain, in their fixed order:
//! bare HTTP, `www` HTTP, bare HTTPS, `www` HTTPS.

use vstd::prelude::*;
use vstd::string::StringExecFns;
use crate::validate::{
    has_path_separator, has_scheme_prefix, is_help_flag, validated, ArgOutcome,
};

verus! {

/// The four URL variants of a domain, in the order they are probed.
pub open spec fn url_variants(d: Seq<char>) -> Seq<Seq<char>> {
    seq![
        "http://"@ + d,
        "http://www."@ + d,
        "https://"@ + d,
        "https://www."@ + d,
    ]
}

/// Build the four URLs to probe for a validated domain, in their
/// fixed order.
pub fn probe_urls(domain: &str) -> (urls: Vec<String>)
    ensures
        urls.deep_view() == url_variants(domain@),
{
    let mut urls: Vec<String> = Vec::new();
    urls.push(String::from_str("http://").concat(domain));
    urls.push(String::from_str("http://www.").concat(domain));
    urls.push(String::from_str("https://").concat(domain));
    urls.push(String::from_str("https://www.").concat(domain));
    proof {
        assert(urls.deep_view() =~~= url_variants(domain@));
    }
    urls
}

/// A single argument that is not the help flag, has no scheme prefix
/// and no path separator is accepted as the domain exactly as given,
/// and the probe list for it is exactly the four variants in their
/// fixed order.
pub proof fn lemma_valid_argument_probes(args: Seq<Seq<char>>, r: ArgOutcome)
    requires
        args.len() == 1,
        !is_help_flag(args[0]),
        !has_scheme_prefix(args[0]),
        !has_path_separator(args[0]),
        validated(args, r),
    ensures
        r matches ArgOutcome::ValidDomain(d) && d@ == args[0],
        url_variants(args[0]).len() == 4,
        url_variants(args[0])[0] == "http://"@ + args[0],
        url_variants(args[0])[1] == "http://www."@ + args[0],
        url_variants(args[0])[2] == "https://"@ + args[0],
        url_variants(args[0])[3] == "https://www."@ + args[0],
{
}

} // verus!
