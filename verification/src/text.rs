//! Display-text building blocks: exact decimal rendering, the not-available
//! marker, and the fixed segment texts used by the summary composition.
//!
//! Localization is out of scope here: the marker and the memory label are the
//! fixed source texts a localized lookup would start from.

use vstd::prelude::*;
use crate::ratio::{percent_of, Ratio};

verus! {

/// The marker shown whenever the source datum for a display field is absent.
/// Absence must never render as `0 %`: "no data" stays distinguishable from
/// "zero load".
pub open spec fn na_seq() -> Seq<char> {
    "N/A"@
}

/// The delimiter between segments of the compact summary.
pub open spec fn delim_seq() -> Seq<char> {
    " · "@
}

/// The label that introduces the memory segment of the compact summary.
pub open spec fn mem_label_seq() -> Seq<char> {
    "Memory: "@
}

/// The decimal digit character for `d < 10`.
pub open spec fn digit_char(d: nat) -> char {
    if d == 0 {
        '0'
    } else if d == 1 {
        '1'
    } else if d == 2 {
        '2'
    } else if d == 3 {
        '3'
    } else if d == 4 {
        '4'
    } else if d == 5 {
        '5'
    } else if d == 6 {
        '6'
    } else if d == 7 {
        '7'
    } else if d == 8 {
        '8'
    } else {
        '9'
    }
}

/// The decimal digit sequence of `n`, most significant digit first, with no
/// leading zero except for `n == 0` itself.
pub open spec fn dec_digits(n: nat) -> Seq<char>
    decreases n,
{
    if n < 10 {
        seq![digit_char(n)]
    } else {
        dec_digits(n / 10).push(digit_char(n % 10))
    }
}

/// The percentage text for a fraction: its rounded whole percentage followed
/// by `" %"`.
pub open spec fn percent_seq(r: Ratio) -> Seq<char> {
    dec_digits(percent_of(r.num as nat, r.den as nat)) + " %"@
}

/// The single-character decimal string for `d < 10`.
fn digit_str(d: u128) -> (s: &'static str)
    requires
        d < 10,
    ensures
        s@ == seq![digit_char(d as nat)],
{
    proof {
        reveal_strlit("0");
        reveal_strlit("1");
        reveal_strlit("2");
        reveal_strlit("3");
        reveal_strlit("4");
        reveal_strlit("5");
        reveal_strlit("6");
        reveal_strlit("7");
        reveal_strlit("8");
        reveal_strlit("9");
    }
    let s: &'static str = if d == 0 {
        "0"
    } else if d == 1 {
        "1"
    } else if d == 2 {
        "2"
    } else if d == 3 {
        "3"
    } else if d == 4 {
        "4"
    } else if d == 5 {
        "5"
    } else if d == 6 {
        "6"
    } else if d == 7 {
        "7"
    } else if d == 8 {
        "8"
    } else {
        "9"
    };
    proof {
        assert(s@ =~= seq![digit_char(d as nat)]);
    }
    s
}

/// Renders `n` in decimal, most significant digit first.
pub fn dec_string(n: u128) -> (s: String)
    ensures
        s@ == dec_digits(n as nat),
    decreases n,
{
    if n < 10 {
        String::from_str(digit_str(n))
    } else {
        let mut s = dec_string(n / 10);
        s.append(digit_str(n % 10));
        proof {
            assert(s@ =~= dec_digits((n / 10) as nat).push(digit_char((n % 10) as nat)));
        }
        s
    }
}

/// Renders a fraction as its rounded whole percentage with a `%` suffix.
pub fn percent_string(r: &Ratio) -> (s: String)
    requires
        r.wf(),
    ensures
        s@ == percent_seq(*r),
{
    let mut s = dec_string(r.rounded_percent());
    s.append(" %");
    s
}

/// The not-available marker as an owned string.
pub fn not_available() -> (s: String)
    ensures
        s@ == na_seq(),
{
    String::from_str("N/A")
}

/// A collaborator-formatted field text, or the not-available marker when the
/// underlying datum was absent. Present strings are passed through as-is.
pub fn or_not_available(text: &Option<String>) -> (s: String)
    ensures
        s@ == or_na_spec(opt_text_view(*text)),
{
    match text {
        Some(t) => t.clone(),
        None => not_available(),
    }
}

/// The text of an optional field: the field's own text when the datum is
/// present, the not-available marker otherwise.
pub open spec fn or_na_spec(text: Option<Seq<char>>) -> Seq<char> {
    match text {
        Some(t) => t,
        None => na_seq(),
    }
}

/// The view of an optional owned string.
pub open spec fn opt_text_view(text: Option<String>) -> Option<Seq<char>> {
    match text {
        Some(t) => Some(t@),
        None => None,
    }
}

} // verus!
