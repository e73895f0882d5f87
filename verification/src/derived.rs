//! The pure per-tick derivation: one telemetry snapshot in, one consistent
//! set of display-ready fractions, flags and composed strings out.

use vstd::prelude::*;
use crate::ratio::{guard_div, spec_zero, Ratio};
use crate::snapshot::TelemetrySnapshot;
use crate::text::{
    delim_seq, mem_label_seq, na_seq, not_available, opt_text_view, or_na_spec, or_not_available,
    percent_seq, percent_string,
};

verus! {

/// The usage fraction for numeric display: the reading itself when present,
/// else the safe zero fraction. Absence is tracked separately by the
/// visibility flag, never by the numeric value.
pub open spec fn spec_usage_clamped(usage: Option<Ratio>) -> Ratio {
    match usage {
        Some(u) => u,
        None => spec_zero(),
    }
}

/// The memory fraction `used / total`: defined exactly when both byte counts
/// are present and the total is non-zero, absent otherwise. A zero or absent
/// denominator yields "absent", never a non-finite or artificial zero value.
pub open spec fn spec_memory_fraction(total: Option<u64>, used: Option<u64>) -> Option<Ratio> {
    if total is Some && used is Some && total->0 > 0 {
        Some(Ratio { num: used->0, den: total->0 })
    } else {
        None
    }
}

/// The usage percentage text: the rounded percentage when the counter is
/// present, the not-available marker otherwise.
pub open spec fn usage_text_spec(usage: Option<Ratio>) -> Seq<char> {
    match usage {
        Some(u) => percent_seq(u),
        None => na_seq(),
    }
}

/// The compact summary: the usage percentage (or the not-available marker)
/// first, then — each behind a delimiter and only if its source datum is
/// present — the labelled memory percentage and the temperature text.
/// Segments are composed positionally and never silently dropped: an absent
/// usage counter still contributes the leading marker.
pub open spec fn summary_spec(
    usage: Option<Ratio>,
    mem: Option<Ratio>,
    temp: Option<Seq<char>>,
) -> Seq<char> {
    let lead = usage_text_spec(usage);
    let with_mem = match mem {
        Some(m) => lead + delim_seq() + mem_label_seq() + percent_seq(m),
        None => lead,
    };
    match temp {
        Some(t) => with_mem + delim_seq() + t,
        None => with_mem,
    }
}

/// The power line: the draw text (or the not-available marker), and when a
/// limit is configured `" / "` and the limit text — two independent optional
/// fields composed positionally, not mutually gated.
pub open spec fn power_display_spec(
    draw: Option<Seq<char>>,
    limit: Option<Seq<char>>,
) -> Seq<char> {
    let base = or_na_spec(draw);
    match limit {
        Some(l) => base + " / "@ + l,
        None => base,
    }
}

/// The memory detail line: `"<used> / <total> · <percentage>"` when both byte
/// counts are present, the not-available marker otherwise. The percentage
/// renders as the marker when the fraction is absent (a zero total), never as
/// `0 %`.
pub open spec fn memory_subtitle_spec(
    used_text: Option<Seq<char>>,
    total_text: Option<Seq<char>>,
    mem: Option<Ratio>,
) -> Seq<char> {
    if used_text is Some && total_text is Some {
        let pct = match mem {
            Some(m) => percent_seq(m),
            None => na_seq(),
        };
        used_text->0 + " / "@ + total_text->0 + delim_seq() + pct
    } else {
        na_seq()
    }
}

/// The display-ready reduction of one snapshot, recomputed wholesale every
/// tick with no carry-over state.
pub struct DerivedMetrics {
    /// The usage fraction for numeric consumers (graph series), zero when the
    /// counter is absent.
    pub usage_fraction_clamped: Ratio,
    /// Whether the usage counter is actually available — a capability signal,
    /// not "value is zero".
    pub usage_visible: bool,
    /// The exact memory fraction, absent when undefined.
    pub memory_fraction: Option<Ratio>,
    /// Whether the memory fraction is defined.
    pub memory_visible: bool,
    /// The compact summary string for the tab's subtitle.
    pub composite_summary: String,
}

impl DerivedMetrics {
    /// Well-formedness: the numeric outputs are finite, and the clamped usage
    /// fraction stays in the unit interval.
    pub open spec fn wf(self) -> bool {
        &&& self.usage_fraction_clamped.wf()
        &&& self.usage_fraction_clamped.in_unit()
        &&& match self.memory_fraction {
            Some(m) => m.wf(),
            None => true,
        }
    }

    /// Reduces one snapshot to its derived metrics.
    ///
    /// `temperature_text` is the unit-formatting collaborator's rendering of
    /// the snapshot's temperature reading, present exactly when the reading
    /// is; this core gates it on presence and composes it, and does not
    /// interpret it further.
    pub fn derive(snap: &TelemetrySnapshot, temperature_text: &Option<String>) -> (d:
        DerivedMetrics)
        requires
            snap.wf(),
            temperature_text is Some <==> snap.temperature is Some,
        ensures
            d.usage_fraction_clamped == spec_usage_clamped(snap.usage_fraction),
            d.usage_visible == snap.usage_fraction is Some,
            d.memory_fraction == spec_memory_fraction(snap.memory_total, snap.memory_used),
            d.memory_visible == spec_memory_fraction(snap.memory_total, snap.memory_used) is Some,
            d.composite_summary@ == summary_spec(
                snap.usage_fraction,
                spec_memory_fraction(snap.memory_total, snap.memory_used),
                opt_text_view(*temperature_text),
            ),
            d.wf(),
    {
        let usage_fraction_clamped = usage_clamped(&snap.usage_fraction);
        let usage_visible = snap.usage_fraction.is_some();
        let memory_fraction = memory_fraction_of(&snap.memory_total, &snap.memory_used);
        let memory_visible = memory_fraction.is_some();
        let composite_summary = composite_summary(
            &snap.usage_fraction,
            &memory_fraction,
            temperature_text,
        );
        DerivedMetrics {
            usage_fraction_clamped,
            usage_visible,
            memory_fraction,
            memory_visible,
            composite_summary,
        }
    }
}

/// The usage fraction with the absent case clamped to zero for numeric
/// display.
pub fn usage_clamped(usage: &Option<Ratio>) -> (r: Ratio)
    requires
        match *usage {
            Some(u) => u.wf() && u.in_unit(),
            None => true,
        },
    ensures
        r == spec_usage_clamped(*usage),
        r.wf(),
        r.in_unit(),
{
    match usage {
        Some(u) => *u,
        None => Ratio::zero(),
    }
}

/// The memory fraction of a snapshot's byte counts. The numeric guard forms
/// the ratio, so the division cannot yield a non-finite value; a zero total
/// reports the fraction as absent.
pub fn memory_fraction_of(total: &Option<u64>, used: &Option<u64>) -> (r: Option<Ratio>)
    ensures
        r == spec_memory_fraction(*total, *used),
        match r {
            Some(m) => m.wf(),
            None => true,
        },
{
    match (total, used) {
        (Some(t), Some(u)) => {
            if *t > 0 {
                Some(guard_div(*u, *t))
            } else {
                None
            }
        },
        _ => None,
    }
}

/// Composes the compact summary string from the derived fractions and the
/// collaborator's temperature text.
pub fn composite_summary(
    usage: &Option<Ratio>,
    mem: &Option<Ratio>,
    temperature_text: &Option<String>,
) -> (s: String)
    requires
        match *usage {
            Some(u) => u.wf(),
            None => true,
        },
        match *mem {
            Some(m) => m.wf(),
            None => true,
        },
    ensures
        s@ == summary_spec(*usage, *mem, opt_text_view(*temperature_text)),
{
    let mut s = match usage {
        Some(u) => percent_string(u),
        None => not_available(),
    };
    match mem {
        Some(m) => {
            s.append(" · ");
            s.append("Memory: ");
            let pct = percent_string(m);
            s.append(pct.as_str());
        },
        None => {},
    }
    match temperature_text {
        Some(t) => {
            s.append(" · ");
            s.append(t.as_str());
        },
        None => {},
    }
    s
}

/// Composes the power line from the collaborator's draw and limit texts.
pub fn power_display(draw_text: &Option<String>, limit_text: &Option<String>) -> (s: String)
    ensures
        s@ == power_display_spec(opt_text_view(*draw_text), opt_text_view(*limit_text)),
{
    let mut s = or_not_available(draw_text);
    match limit_text {
        Some(l) => {
            s.append(" / ");
            s.append(l.as_str());
        },
        None => {},
    }
    s
}

/// Composes the memory detail line from the collaborator's byte-count texts
/// and the derived memory fraction.
pub fn memory_subtitle(
    used_text: &Option<String>,
    total_text: &Option<String>,
    mem: &Option<Ratio>,
) -> (s: String)
    requires
        match *mem {
            Some(m) => m.wf(),
            None => true,
        },
    ensures
        s@ == memory_subtitle_spec(
            opt_text_view(*used_text),
            opt_text_view(*total_text),
            *mem,
        ),
{
    match (used_text, total_text) {
        (Some(u), Some(t)) => {
            let mut s = u.clone();
            s.append(" / ");
            s.append(t.as_str());
            s.append(" · ");
            let pct = match mem {
                Some(m) => percent_string(m),
                None => not_available(),
            };
            s.append(pct.as_str());
            s
        },
        _ => not_available(),
    }
}

/// When both byte counts are present and the total is non-zero, the memory
/// fraction is exactly `used / total` and is finite.
pub proof fn lemma_memory_fraction_exact(total: u64, used: u64)
    requires
        total > 0,
    ensures
        spec_memory_fraction(Some(total), Some(used)) == Some(Ratio { num: used, den: total }),
        spec_memory_fraction(Some(total), Some(used))->0.wf(),
{
}

/// With a zero total, or either byte count absent, the memory fraction is
/// absent — not zero, and never a non-finite artifact.
pub proof fn lemma_memory_fraction_absent(total: Option<u64>, used: Option<u64>)
    requires
        total is None || used is None || total->0 == 0,
    ensures
        spec_memory_fraction(total, used) is None,
{
}

/// When the usage counter is absent, the compact summary still leads with the
/// not-available marker, whatever the other fields hold: its first characters
/// are exactly the marker.
pub proof fn lemma_summary_leads_with_marker(mem: Option<Ratio>, temp: Option<Seq<char>>)
    ensures
        summary_spec(None, mem, temp).len() >= na_seq().len(),
        summary_spec(None, mem, temp).subrange(0, na_seq().len() as int) == na_seq(),
{
    let s = summary_spec(None, mem, temp);
    assert(s.subrange(0, na_seq().len() as int) =~= na_seq());
}

/// The derivation is deterministic and idempotent: two passes over equal
/// snapshot fields and equal collaborator text derive equal fractions, flags
/// and summary text, character for character.
pub proof fn lemma_derivation_deterministic(
    a: TelemetrySnapshot,
    b: TelemetrySnapshot,
    temp_a: Option<Seq<char>>,
    temp_b: Option<Seq<char>>,
)
    requires
        a.usage_fraction == b.usage_fraction,
        a.memory_total == b.memory_total,
        a.memory_used == b.memory_used,
        temp_a == temp_b,
    ensures
        spec_usage_clamped(a.usage_fraction) == spec_usage_clamped(b.usage_fraction),
        spec_memory_fraction(a.memory_total, a.memory_used) == spec_memory_fraction(
            b.memory_total,
            b.memory_used,
        ),
        summary_spec(
            a.usage_fraction,
            spec_memory_fraction(a.memory_total, a.memory_used),
            temp_a,
        ) == summary_spec(
            b.usage_fraction,
            spec_memory_fraction(b.memory_total, b.memory_used),
            temp_b,
        ),
{
}

} // verus!
