//! The mutable, cached presentation record that the rendering layer reads,
//! and the per-tick refresh pass that overwrites it.

use vstd::prelude::*;
use crate::derived::{
    memory_subtitle, memory_subtitle_spec, power_display, power_display_spec,
    spec_memory_fraction, spec_usage_clamped, summary_spec, usage_text_spec, DerivedMetrics,
};
use crate::identity::tab_id_seq;
use crate::ordering::NPU_PRIMARY_ORD;
use crate::ratio::{spec_zero, Ratio};
use crate::snapshot::TelemetrySnapshot;
use crate::text::{
    not_available, opt_text_view, or_na_spec, or_not_available, percent_string,
};

verus! {

/// The collaborator-formatted texts for one refresh tick.
///
/// Unit formatting is a collaborator with its own contract; this core only
/// requires that a text is present exactly when the matching raw datum is
/// present in the snapshot, and composes the texts positionally.
pub struct CollaboratorTexts {
    /// Formatted temperature reading.
    pub temperature: Option<String>,
    /// Formatted power draw.
    pub power_draw: Option<String>,
    /// Formatted configured power limit.
    pub power_limit: Option<String>,
    /// Formatted maximum configurable power limit.
    pub power_limit_max: Option<String>,
    /// Formatted core clock.
    pub core_clock: Option<String>,
    /// Formatted memory clock.
    pub memory_clock: Option<String>,
    /// Formatted used memory byte count.
    pub memory_used: Option<String>,
    /// Formatted total memory byte count.
    pub memory_total: Option<String>,
}

impl CollaboratorTexts {
    /// Each text is present exactly when the matching raw datum of the
    /// snapshot is.
    pub open spec fn matches(self, snap: TelemetrySnapshot) -> bool {
        &&& self.temperature is Some <==> snap.temperature is Some
        &&& self.power_draw is Some <==> snap.power_draw is Some
        &&& self.power_limit is Some <==> snap.power_limit is Some
        &&& self.power_limit_max is Some <==> snap.power_limit_max is Some
        &&& self.core_clock is Some <==> snap.core_clock is Some
        &&& self.memory_clock is Some <==> snap.memory_clock is Some
        &&& self.memory_used is Some <==> snap.memory_used is Some
        &&& self.memory_total is Some <==> snap.memory_total is Some
    }
}

/// The display-ready strings and graph feeds of one refresh tick, read by
/// the rendering layer without further numeric interpretation.
pub struct PageSubtitles {
    /// Usage percentage, or the not-available marker.
    pub usage: String,
    /// Memory detail line.
    pub memory: String,
    /// Temperature, or the not-available marker.
    pub temperature: String,
    /// Power draw with optional limit suffix.
    pub power: String,
    /// Core clock, or the not-available marker.
    pub core_clock: String,
    /// Memory clock, or the not-available marker.
    pub memory_clock: String,
    /// Maximum power limit, or the not-available marker.
    pub max_power_limit: String,
    /// The data point the usage graph series receives this tick.
    pub usage_point: Ratio,
    /// Whether the usage graph is shown: the counter is actually available.
    pub usage_graph_visible: bool,
    /// The data point the memory graph series receives this tick.
    pub memory_point: Ratio,
    /// Whether the memory graph is shown: the fraction is defined.
    pub memory_graph_visible: bool,
}

/// The externally observable record of one device tab: created with default
/// values at discovery, initialized once with the device's identity, and
/// overwritten wholesale on every refresh tick.
pub struct PresentationState {
    tab_name: String,
    tab_detail: String,
    tab_usage_string: String,
    tab_id: String,
    usage_numeric: Ratio,
    primary_ord: u32,
    secondary_ord: u32,
}

impl PresentationState {
    /// The tab's numeric usage value is always a finite fraction.
    pub closed spec fn wf(self) -> bool {
        self.usage_numeric.wf()
    }

    /// Ghost projections of the cached fields.
    pub closed spec fn spec_tab_name(self) -> Seq<char> {
        self.tab_name@
    }

    pub closed spec fn spec_tab_detail(self) -> Seq<char> {
        self.tab_detail@
    }

    pub closed spec fn spec_tab_usage_string(self) -> Seq<char> {
        self.tab_usage_string@
    }

    pub closed spec fn spec_tab_id(self) -> Seq<char> {
        self.tab_id@
    }

    pub closed spec fn spec_usage_numeric(self) -> Ratio {
        self.usage_numeric
    }

    pub closed spec fn spec_primary_ord(self) -> u32 {
        self.primary_ord
    }

    pub closed spec fn spec_secondary_ord(self) -> u32 {
        self.secondary_ord
    }

    /// A fresh record at device discovery: the fixed category tab name, empty
    /// texts, zero usage, the category rank, and instance rank zero until
    /// discovery assigns one.
    pub fn new() -> (s: PresentationState)
        ensures
            s.spec_tab_name() == "NPU"@,
            s.spec_tab_detail() == Seq::<char>::empty(),
            s.spec_tab_usage_string() == Seq::<char>::empty(),
            s.spec_tab_id() == Seq::<char>::empty(),
            s.spec_usage_numeric() == spec_zero(),
            s.spec_primary_ord() == NPU_PRIMARY_ORD,
            s.spec_secondary_ord() == 0,
            s.wf(),
    {
        PresentationState {
            tab_name: String::from_str("NPU"),
            tab_detail: String::new(),
            tab_usage_string: String::new(),
            tab_id: String::new(),
            usage_numeric: Ratio::zero(),
            primary_ord: NPU_PRIMARY_ORD,
            secondary_ord: 0,
        }
    }

    pub fn tab_name(&self) -> (r: &String)
        ensures
            r@ == self.spec_tab_name(),
    {
        &self.tab_name
    }

    pub fn set_tab_name(&mut self, tab_name: &str)
        ensures
            final(self).spec_tab_name() == tab_name@,
            unchanged_but_name(*old(self), *final(self)),
    {
        self.tab_name = String::from_str(tab_name);
    }

    pub fn tab_detail(&self) -> (r: &String)
        ensures
            r@ == self.spec_tab_detail(),
    {
        &self.tab_detail
    }

    pub fn set_tab_detail(&mut self, detail: &str)
        ensures
            final(self).spec_tab_detail() == detail@,
            unchanged_but_detail(*old(self), *final(self)),
    {
        self.tab_detail = String::from_str(detail);
    }

    pub fn tab_usage_string(&self) -> (r: &String)
        ensures
            r@ == self.spec_tab_usage_string(),
    {
        &self.tab_usage_string
    }

    pub fn set_tab_usage_string(&mut self, tab_usage_string: &str)
        ensures
            final(self).spec_tab_usage_string() == tab_usage_string@,
            unchanged_but_usage_string(*old(self), *final(self)),
    {
        self.tab_usage_string = String::from_str(tab_usage_string);
    }

    pub fn tab_id(&self) -> (r: &String)
        ensures
            r@ == self.spec_tab_id(),
    {
        &self.tab_id
    }

    pub fn set_tab_id(&mut self, tab_id: &str)
        ensures
            final(self).spec_tab_id() == tab_id@,
            unchanged_but_id(*old(self), *final(self)),
    {
        self.tab_id = String::from_str(tab_id);
    }

    pub fn usage_numeric(&self) -> (r: Ratio)
        ensures
            r == self.spec_usage_numeric(),
    {
        self.usage_numeric
    }

    pub fn secondary_ord(&self) -> (r: u32)
        ensures
            r == self.spec_secondary_ord(),
    {
        self.secondary_ord
    }

    pub fn primary_ord(&self) -> (r: u32)
        ensures
            r == self.spec_primary_ord(),
    {
        self.primary_ord
    }

    /// One-time setup at device discovery: stores the instance rank and the
    /// tab identity derived from the bus/slot string and the advisory model
    /// name. An absent model name leaves the detail label untouched (empty on
    /// a fresh record), never a guessed placeholder. Refresh ticks never
    /// recompute identity: the first-seen values win for the session.
    pub fn setup(&mut self, bus_slot: &str, model_name: &Option<String>, secondary_ord: u32)
        ensures
            final(self).spec_tab_id() == tab_id_seq(bus_slot@),
            match *model_name {
                Some(m) => final(self).spec_tab_detail() == m@,
                None => final(self).spec_tab_detail() == old(self).spec_tab_detail(),
            },
            final(self).spec_secondary_ord() == secondary_ord,
            final(self).spec_tab_name() == old(self).spec_tab_name(),
            final(self).spec_tab_usage_string() == old(self).spec_tab_usage_string(),
            final(self).spec_usage_numeric() == old(self).spec_usage_numeric(),
            final(self).spec_primary_ord() == old(self).spec_primary_ord(),
            final(self).wf() == old(self).wf(),
    {
        self.secondary_ord = secondary_ord;
        self.tab_id = crate::identity::build_tab_id(bus_slot);
        match model_name {
            Some(m) => {
                self.tab_detail = m.clone();
            },
            None => {},
        }
    }

    /// Overwrites the per-tick fields from one derivation output, wholesale:
    /// after the call the numeric usage and the summary text come from the
    /// same derivation pass, never a mix of old and new. The identity and
    /// ordering fields are untouched.
    pub fn apply(&mut self, derived: &DerivedMetrics)
        requires
            derived.wf(),
        ensures
            final(self).spec_usage_numeric() == derived.usage_fraction_clamped,
            final(self).spec_tab_usage_string() == derived.composite_summary@,
            final(self).spec_tab_name() == old(self).spec_tab_name(),
            final(self).spec_tab_detail() == old(self).spec_tab_detail(),
            final(self).spec_tab_id() == old(self).spec_tab_id(),
            final(self).spec_primary_ord() == old(self).spec_primary_ord(),
            final(self).spec_secondary_ord() == old(self).spec_secondary_ord(),
            final(self).wf(),
    {
        self.usage_numeric = derived.usage_fraction_clamped;
        self.tab_usage_string = derived.composite_summary.clone();
    }

    /// One refresh tick: derives the metrics from the snapshot, overwrites
    /// the cached per-tick fields, and returns every formatted field and
    /// graph feed the rendering layer needs.
    pub fn refresh_page(
        &mut self,
        snap: &TelemetrySnapshot,
        texts: &CollaboratorTexts,
    ) -> (out: PageSubtitles)
        requires
            snap.wf(),
            texts.matches(*snap),
        ensures
            out.usage@ == usage_text_spec(snap.usage_fraction),
            out.memory@ == memory_subtitle_spec(
                opt_text_view(texts.memory_used),
                opt_text_view(texts.memory_total),
                spec_memory_fraction(snap.memory_total, snap.memory_used),
            ),
            out.temperature@ == or_na_spec(opt_text_view(texts.temperature)),
            out.power@ == power_display_spec(
                opt_text_view(texts.power_draw),
                opt_text_view(texts.power_limit),
            ),
            out.core_clock@ == or_na_spec(opt_text_view(texts.core_clock)),
            out.memory_clock@ == or_na_spec(opt_text_view(texts.memory_clock)),
            out.max_power_limit@ == or_na_spec(opt_text_view(texts.power_limit_max)),
            out.usage_point == spec_usage_clamped(snap.usage_fraction),
            out.usage_point.wf() && out.usage_point.in_unit(),
            out.usage_graph_visible == snap.usage_fraction is Some,
            out.memory_point == (match spec_memory_fraction(snap.memory_total, snap.memory_used) {
                Some(m) => m,
                None => spec_zero(),
            }),
            out.memory_point.wf(),
            out.memory_graph_visible == spec_memory_fraction(
                snap.memory_total,
                snap.memory_used,
            ) is Some,
            final(self).spec_usage_numeric() == spec_usage_clamped(snap.usage_fraction),
            final(self).spec_tab_usage_string() == summary_spec(
                snap.usage_fraction,
                spec_memory_fraction(snap.memory_total, snap.memory_used),
                opt_text_view(texts.temperature),
            ),
            final(self).spec_tab_name() == old(self).spec_tab_name(),
            final(self).spec_tab_detail() == old(self).spec_tab_detail(),
            final(self).spec_tab_id() == old(self).spec_tab_id(),
            final(self).spec_primary_ord() == old(self).spec_primary_ord(),
            final(self).spec_secondary_ord() == old(self).spec_secondary_ord(),
            final(self).wf(),
    {
        let derived = DerivedMetrics::derive(snap, &texts.temperature);

        let usage = match &snap.usage_fraction {
            Some(u) => percent_string(u),
            None => not_available(),
        };
        let memory = memory_subtitle(&texts.memory_used, &texts.memory_total,
            &derived.memory_fraction);
        let temperature = or_not_available(&texts.temperature);
        let power = power_display(&texts.power_draw, &texts.power_limit);
        let core_clock = or_not_available(&texts.core_clock);
        let memory_clock = or_not_available(&texts.memory_clock);
        let max_power_limit = or_not_available(&texts.power_limit_max);

        let usage_point = derived.usage_fraction_clamped;
        let usage_graph_visible = derived.usage_visible;
        let memory_point = match &derived.memory_fraction {
            Some(m) => *m,
            None => Ratio::zero(),
        };
        let memory_graph_visible = derived.memory_visible;

        self.apply(&derived);

        PageSubtitles {
            usage,
            memory,
            temperature,
            power,
            core_clock,
            memory_clock,
            max_power_limit,
            usage_point,
            usage_graph_visible,
            memory_point,
            memory_graph_visible,
        }
    }
}

/// All fields but the tab name are unchanged.
pub open spec fn unchanged_but_name(a: PresentationState, b: PresentationState) -> bool {
    &&& b.spec_tab_detail() == a.spec_tab_detail()
    &&& b.spec_tab_usage_string() == a.spec_tab_usage_string()
    &&& b.spec_tab_id() == a.spec_tab_id()
    &&& b.spec_usage_numeric() == a.spec_usage_numeric()
    &&& b.spec_primary_ord() == a.spec_primary_ord()
    &&& b.spec_secondary_ord() == a.spec_secondary_ord()
}

/// All fields but the detail label are unchanged.
pub open spec fn unchanged_but_detail(a: PresentationState, b: PresentationState) -> bool {
    &&& b.spec_tab_name() == a.spec_tab_name()
    &&& b.spec_tab_usage_string() == a.spec_tab_usage_string()
    &&& b.spec_tab_id() == a.spec_tab_id()
    &&& b.spec_usage_numeric() == a.spec_usage_numeric()
    &&& b.spec_primary_ord() == a.spec_primary_ord()
    &&& b.spec_secondary_ord() == a.spec_secondary_ord()
}

/// All fields but the usage summary string are unchanged.
pub open spec fn unchanged_but_usage_string(a: PresentationState, b: PresentationState) -> bool {
    &&& b.spec_tab_name() == a.spec_tab_name()
    &&& b.spec_tab_detail() == a.spec_tab_detail()
    &&& b.spec_tab_id() == a.spec_tab_id()
    &&& b.spec_usage_numeric() == a.spec_usage_numeric()
    &&& b.spec_primary_ord() == a.spec_primary_ord()
    &&& b.spec_secondary_ord() == a.spec_secondary_ord()
}

/// All fields but the tab id are unchanged.
pub open spec fn unchanged_but_id(a: PresentationState, b: PresentationState) -> bool {
    &&& b.spec_tab_name() == a.spec_tab_name()
    &&& b.spec_tab_detail() == a.spec_tab_detail()
    &&& b.spec_tab_usage_string() == a.spec_tab_usage_string()
    &&& b.spec_usage_numeric() == a.spec_usage_numeric()
    &&& b.spec_primary_ord() == a.spec_primary_ord()
    &&& b.spec_secondary_ord() == a.spec_secondary_ord()
}

} // verus!
