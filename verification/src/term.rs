//! The `TERM` environment-variable probe.
//!
//! A terminal announces itself through `TERM`.  Any value other than the
//! exact string `dumb` is taken as ANSI-capable; the value `dumb` is then
//! held against a fixed allow-list of known ANSI-capable terminal names
//! (which it never matches); an unset variable establishes nothing.  The
//! caller hands the variable's value in as a plain `Option<String>`.

use vstd::prelude::*;

verus! {

/// The view of a `TERM` value: the character sequence when the variable is
/// set, `None` when it is unset.
pub open spec fn term_view(term: Option<String>) -> Option<Seq<char>> {
    match term {
        Some(s) => Some(s@),
        None => None,
    }
}

/// Membership in the fixed allow-list of terminal names known to interpret
/// ANSI escape sequences.
pub open spec fn is_allowed_term(t: Seq<char>) -> bool {
    ||| t == "xterm"@
    ||| t == "rxvt"@
    ||| t == "eterm"@
    ||| t == "screen"@
    ||| t == "tmux"@
    ||| t == "vt100"@
    ||| t == "vt102"@
    ||| t == "vt220"@
    ||| t == "vt320"@
    ||| t == "ansi"@
    ||| t == "scoansi"@
    ||| t == "cygwin"@
    ||| t == "linux"@
    ||| t == "konsole"@
    ||| t == "bvterm"@
}

/// Whether a `TERM` value establishes ANSI support on its own: the variable
/// is set and its value either differs from `dumb` or is on the allow-list.
pub open spec fn term_indicates_ansi(term: Option<Seq<char>>) -> bool {
    match term {
        Some(t) => t != "dumb"@ || is_allowed_term(t),
        None => false,
    }
}

/// Compares a `TERM` value with one terminal name.
fn term_eq(v: &String, name: &str) -> (b: bool)
    ensures
        b == (v@ == name@),
{
    let owned: String = name.to_owned();
    *v == owned
}

/// Checks a set `TERM` value against the allow-list of terminal names.
pub fn is_allowed_term_name(v: &String) -> (b: bool)
    ensures
        b == is_allowed_term(v@),
{
    term_eq(v, "xterm") || term_eq(v, "rxvt") || term_eq(v, "eterm") || term_eq(v, "screen")
        || term_eq(v, "tmux") || term_eq(v, "vt100") || term_eq(v, "vt102") || term_eq(v, "vt220")
        || term_eq(v, "vt320") || term_eq(v, "ansi") || term_eq(v, "scoansi") || term_eq(
        v,
        "cygwin",
    ) || term_eq(v, "linux") || term_eq(v, "konsole") || term_eq(v, "bvterm")
}

/// Checks whether the `TERM` value names a terminal that supports ANSI
/// escape sequences: any set value other than `dumb` counts, as does an
/// allow-listed name.
pub fn is_specific_term(term: &Option<String>) -> (b: bool)
    ensures
        b == term_indicates_ansi(term_view(*term)),
{
    match term {
        Some(v) => !term_eq(v, "dumb") || is_allowed_term_name(v),
        None => false,
    }
}

/// The value `dumb` itself is not on the allow-list, so `TERM=dumb` fails
/// the environment check and leaves the decision to the platform toggle.
pub proof fn lemma_dumb_term_establishes_nothing()
    ensures
        !is_allowed_term("dumb"@),
        !term_indicates_ansi(Some("dumb"@)),
{
    reveal_strlit("dumb");
    reveal_strlit("xterm");
    reveal_strlit("rxvt");
    reveal_strlit("eterm");
    reveal_strlit("screen");
    reveal_strlit("tmux");
    reveal_strlit("vt100");
    reveal_strlit("vt102");
    reveal_strlit("vt220");
    reveal_strlit("vt320");
    reveal_strlit("ansi");
    reveal_strlit("scoansi");
    reveal_strlit("cygwin");
    reveal_strlit("linux");
    reveal_strlit("konsole");
    reveal_strlit("bvterm");
    assert("dumb"@.len() == 4);
    assert("xterm"@.len() == 5);
    assert("eterm"@.len() == 5);
    assert("screen"@.len() == 6);
    assert("vt100"@.len() == 5);
    assert("vt102"@.len() == 5);
    assert("vt220"@.len() == 5);
    assert("vt320"@.len() == 5);
    assert("scoansi"@.len() == 7);
    assert("cygwin"@.len() == 6);
    assert("linux"@.len() == 5);
    assert("konsole"@.len() == 7);
    assert("bvterm"@.len() == 6);
    assert("dumb"@[0] == 'd');
    assert("rxvt"@[0] == 'r');
    assert("tmux"@[0] == 't');
    assert("ansi"@[0] == 'a');
}

} // verus!
