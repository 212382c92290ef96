//! Terminal ANSI-capability detection.
//!
//! The library answers one question: will the current output terminal
//! interpret ANSI/VT100 escape sequences?  The answer is computed from two
//! plain inputs — the value of the `TERM` environment variable and the
//! outcome of a platform console-mode toggle — so that every decision in the
//! process is a verified function.  Reading the environment, talking to the
//! console and caching the answer are left to the embedding program.

pub mod console;
pub mod term;

use vstd::prelude::*;

verus! {

/// What the environment probe settled: either `TERM` already establishes
/// ANSI support and no platform call is needed, or the platform toggle has
/// to be attempted.
#[derive(Clone, Copy, Debug, PartialEq, Eq, Structural)]
pub enum ProbeStep {
    /// The environment alone establishes support; make no platform call.
    Supported,
    /// The environment establishes nothing; attempt the platform toggle.
    TryToggle,
}

/// Probes the `TERM` value and says whether the platform toggle still has
/// to be attempted.
pub fn probe_term(term: &Option<String>) -> (step: ProbeStep)
    ensures
        step == ProbeStep::Supported <==> term::term_indicates_ansi(term::term_view(*term)),
{
    if term::is_specific_term(term) {
        ProbeStep::Supported
    } else {
        ProbeStep::TryToggle
    }
}

/// Whether the terminal supports ANSI escapes, given the `TERM` value and
/// whether the platform toggle attempt succeeded.
pub open spec fn spec_supports_ansi(term: Option<Seq<char>>, toggle_ok: bool) -> bool {
    term::term_indicates_ansi(term) || toggle_ok
}

/// Decides whether the current terminal supports ANSI escape sequences.
///
/// `term` is the value of the `TERM` environment variable and
/// `toggle_result` the outcome of the platform toggle attempt; a caller
/// whose environment probe already settled the answer passes any failure
/// (the toggle outcome cannot lower a decision the environment made).  The
/// toggle's error is swallowed here: it only ever turns the answer `false`,
/// and the decision itself cannot fail.
pub fn supports_ansi(term: &Option<String>, toggle_result: Result<(), console::ConsoleError>) -> (b:
    bool)
    ensures
        b == spec_supports_ansi(term::term_view(*term), toggle_result is Ok),
{
    term::is_specific_term(term) || toggle_result.is_ok()
}

/// Any `TERM` value other than `dumb` settles support from the environment
/// alone: the probe needs no platform call, and the decision is `true`
/// whatever a toggle attempt would have reported.
pub proof fn lemma_non_dumb_term_decides(t: Seq<char>, toggle_ok: bool)
    requires
        t != "dumb"@,
    ensures
        term::term_indicates_ansi(Some(t)),
        spec_supports_ansi(Some(t), toggle_ok),
{
}

/// An unset `TERM` establishes nothing: the decision is exactly the outcome
/// of the platform toggle.
pub proof fn lemma_unset_term_defers_to_toggle(toggle_ok: bool)
    ensures
        !term::term_indicates_ansi(None),
        spec_supports_ansi(None, toggle_ok) == toggle_ok,
{
}

/// `TERM=dumb` fails the allow-list check too, so the decision is exactly
/// the outcome of the platform toggle.
pub proof fn lemma_dumb_term_defers_to_toggle(toggle_ok: bool)
    ensures
        spec_supports_ansi(Some("dumb"@), toggle_ok) == toggle_ok,
{
    term::lemma_dumb_term_establishes_nothing();
}

/// The support decision is a pure function of the `TERM` value and the
/// toggle outcome: two evaluations on the same inputs agree, which is what
/// lets a process compute the answer once and serve every later call from a
/// cache.
pub proof fn lemma_supports_ansi_deterministic(
    term: Option<Seq<char>>,
    toggle_ok: bool,
    first: bool,
    second: bool,
)
    requires
        first == spec_supports_ansi(term, toggle_ok),
        second == spec_supports_ansi(term, toggle_ok),
    ensures
        first == second,
{
}

} // verus!
