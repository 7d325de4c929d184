//! Per-probe report lines, their colors, and the exit code of a run.
//!
//! A report line is the status glyph (a check mark on success, an `X`
//! on failure), an em-dash separator, then the URL. Lines are emitted
//! strictly in the fixed URL order, and the run exits with code one
//! exactly when some probe failed.

use vstd::prelude::*;
use vstd::string::StringExecFns;
use crate::urls::{probe_urls, url_variants};

verus! {

/// The color a report line is written in: green on success, red on
/// failure.
#[derive(Clone, Copy, Debug, PartialEq, Eq, Structural)]
pub enum ReportColor {
    Green,
    Red,
}

/// The status glyph that opens a report line.
pub open spec fn status_glyph(ok: bool) -> Seq<char> {
    if ok {
        "✓"@
    } else {
        "X"@
    }
}

/// A report line: status glyph, em-dash separator, URL.
pub open spec fn report_line_spec(url: Seq<char>, ok: bool) -> Seq<char> {
    status_glyph(ok) + " — "@ + url
}

/// Format the report line for one probe.
pub fn report_line(url: &str, ok: bool) -> (line: String)
    ensures
        line@ == report_line_spec(url@, ok),
{
    let glyph: &str = if ok {
        "✓"
    } else {
        "X"
    };
    let line = String::from_str(glyph).concat(" — ").concat(url);
    proof {
        assert(line@ =~= report_line_spec(url@, ok));
    }
    line
}

/// The color of one probe's report line.
pub fn line_color(ok: bool) -> (c: ReportColor)
    ensures
        c == (if ok {
            ReportColor::Green
        } else {
            ReportColor::Red
        }),
{
    if ok {
        ReportColor::Green
    } else {
        ReportColor::Red
    }
}

/// The report lines of a whole run: one line per probe, in the fixed
/// URL order, each carrying that probe's own outcome.
pub open spec fn run_lines_spec(d: Seq<char>, outcomes: Seq<bool>) -> Seq<Seq<char>> {
    Seq::new(outcomes.len(), |i: int| report_line_spec(url_variants(d)[i], outcomes[i]))
}

/// Format the report lines of a whole run over the four probe
/// outcomes, in the fixed URL order.
pub fn run_report(domain: &str, outcomes: &Vec<bool>) -> (lines: Vec<String>)
    requires
        outcomes@.len() == 4,
    ensures
        lines.deep_view() == run_lines_spec(domain@, outcomes@),
{
    let urls = probe_urls(domain);
    proof {
        assert(urls@.len() == 4) by {
            assert(urls.deep_view().len() == urls@.len());
        }
    }
    let mut lines: Vec<String> = Vec::new();
    for i in 0..4usize
        invariant
            urls.deep_view() == url_variants(domain@),
            urls@.len() == 4,
            outcomes@.len() == 4,
            lines@.len() == i,
            forall|j: int| 0 <= j < i
                ==> #[trigger] lines@[j]@ == report_line_spec(url_variants(domain@)[j], outcomes@[j]),
    {
        let u: &String = &urls[i];
        proof {
            assert(u@ == urls.deep_view()[i as int]);
        }
        lines.push(report_line(u.as_str(), outcomes[i]));
    }
    proof {
        assert forall|j: int| 0 <= j < 4 implies lines.deep_view()[j] == run_lines_spec(
            domain@,
            outcomes@,
        )[j] by {
            assert(lines.deep_view()[j] == lines@[j]@);
        }
        assert(lines.deep_view() =~~= run_lines_spec(domain@, outcomes@));
    }
    lines
}

/// Every probe of the run succeeded.
pub open spec fn all_ok(outcomes: Seq<bool>) -> bool {
    forall|i: int| 0 <= i < outcomes.len() ==> outcomes[i]
}

/// Exit code of a run that reached the probes: zero exactly when
/// every probe succeeded, one otherwise.
pub open spec fn run_exit_code(outcomes: Seq<bool>) -> int {
    if all_ok(outcomes) {
        0
    } else {
        1
    }
}

/// Decide the process exit code from the probe outcomes.
pub fn exit_code(outcomes: &Vec<bool>) -> (c: i32)
    ensures
        c as int == run_exit_code(outcomes@),
{
    let n = outcomes.len();
    for i in 0..n
        invariant
            n == outcomes@.len(),
            forall|j: int| 0 <= j < i ==> outcomes@[j],
    {
        if !outcomes[i] {
            return 1;
        }
    }
    0
}

/// Two runs over the same domain and the same probe outcomes produce
/// the same report lines and the same exit code: the report is a
/// function of its inputs alone.
pub proof fn lemma_run_idempotent(d1: Seq<char>, d2: Seq<char>, o1: Seq<bool>, o2: Seq<bool>)
    requires
        d1 == d2,
        o1 == o2,
    ensures
        run_lines_spec(d1, o1) == run_lines_spec(d2, o2),
        run_exit_code(o1) == run_exit_code(o2),
{
}

/// Report lines keep the fixed URL order whatever the outcomes: the
/// line at each position carries the URL of that position after its
/// four-character status prefix, so two runs differing only in
/// outcomes show the same URL on every line.
pub proof fn lemma_report_order_stable(d: Seq<char>, o1: Seq<bool>, o2: Seq<bool>)
    requires
        o1.len() == 4,
        o2.len() == 4,
    ensures
        run_lines_spec(d, o1).len() == 4,
        forall|i: int| 0 <= i < 4 ==> #[trigger] run_lines_spec(d, o1)[i].skip(4)
            == url_variants(d)[i],
        forall|i: int| 0 <= i < 4 ==> #[trigger] run_lines_spec(d, o1)[i].skip(4)
            == run_lines_spec(d, o2)[i].skip(4),
{
    reveal_strlit("✓");
    reveal_strlit("X");
    reveal_strlit(" — ");
    assert forall|i: int, ok: bool| 0 <= i < 4 implies #[trigger] report_line_spec(
        url_variants(d)[i],
        ok,
    ).skip(4) == url_variants(d)[i] by {
        assert(status_glyph(ok).len() == 1);
        assert(report_line_spec(url_variants(d)[i], ok).skip(4) =~= url_variants(d)[i]);
    }
    assert forall|i: int| 0 <= i < 4 implies #[trigger] run_lines_spec(d, o1)[i].skip(4)
        == url_variants(d)[i] by {
        assert(run_lines_spec(d, o1)[i] == report_line_spec(url_variants(d)[i], o1[i]));
    }
    assert forall|i: int| 0 <= i < 4 implies #[trigger] run_lines_spec(d, o2)[i].skip(4)
        == url_variants(d)[i] by {
        assert(run_lines_spec(d, o2)[i] == report_line_spec(url_variants(d)[i], o2[i]));
    }
}

} // verus!
