//! Stable per-device tab identity and the static labels computed once at
//! device discovery.

use vstd::prelude::*;
use crate::text::{not_available, opt_text_view, or_na_spec};

verus! {

/// The fixed category prefix of every tab id of this device kind.
pub open spec fn tab_id_prefix_seq() -> Seq<char> {
    "npu-"@
}

/// The tab id derived from a device's bus/slot string: the category prefix
/// followed by the bus/slot text. Collision-free across devices because the
/// bus/slot string is unique per physical device.
pub open spec fn tab_id_seq(bus_slot: Seq<char>) -> Seq<char> {
    tab_id_prefix_seq() + bus_slot
}

/// The stable identity of one device tab, computed once at discovery and
/// immutable for the device's lifetime in the session.
pub struct DeviceIdentity {
    /// Deterministic, collision-free tab id.
    pub tab_id: String,
    /// Best-effort human model name; empty — never a guessed placeholder —
    /// when the name cannot be read.
    pub tab_detail: String,
}

impl DeviceIdentity {
    /// Builds the identity from the bus/slot string and the advisory model
    /// name. An absent model name degrades softly to an empty detail label.
    pub fn build(bus_slot: &str, model_name: &Option<String>) -> (id: DeviceIdentity)
        ensures
            id.tab_id@ == tab_id_seq(bus_slot@),
            match *model_name {
                Some(m) => id.tab_detail@ == m@,
                None => id.tab_detail@ == Seq::<char>::empty(),
            },
    {
        let tab_detail = match model_name {
            Some(m) => m.clone(),
            None => String::new(),
        };
        DeviceIdentity { tab_id: build_tab_id(bus_slot), tab_detail }
    }
}

/// Renders the tab id for a bus/slot string.
pub fn build_tab_id(bus_slot: &str) -> (s: String)
    ensures
        s@ == tab_id_seq(bus_slot@),
{
    let mut s = String::from_str("npu-");
    s.append(bus_slot);
    s
}

/// Distinct bus/slot strings derive distinct tab ids: the shared prefix
/// cannot make two different suffixes collide, so no two devices ever share
/// a tab id.
pub proof fn lemma_tab_id_injective(a: Seq<char>, b: Seq<char>)
    requires
        a != b,
    ensures
        tab_id_seq(a) != tab_id_seq(b),
{
    if tab_id_seq(a) == tab_id_seq(b) {
        let p = tab_id_prefix_seq();
        assert(tab_id_seq(a).len() == p.len() + a.len());
        assert(tab_id_seq(b).len() == p.len() + b.len());
        assert forall|i: int| 0 <= i < a.len() implies a[i] == b[i] by {
            assert(tab_id_seq(a)[p.len() + i] == a[i]);
            assert(tab_id_seq(b)[p.len() + i] == b[i]);
        }
        assert(a =~= b);
    }
}

/// The static labels shown beside the graphs, computed once at discovery
/// from the discovery collaborator's strings.
pub struct StaticLabels {
    /// Vendor name, or the not-available marker when the vendor cannot be
    /// read.
    pub manufacturer: String,
    /// The device's bus/slot string, as-is.
    pub bus_slot: String,
    /// The kernel driver name, as-is.
    pub driver: String,
}

/// Builds the static labels: strings are accepted as-is, and only an absent
/// vendor degrades to the not-available marker.
pub fn static_labels(vendor: &Option<String>, bus_slot: &str, driver: &str) -> (l: StaticLabels)
    ensures
        l.manufacturer@ == or_na_spec(opt_text_view(*vendor)),
        l.bus_slot@ == bus_slot@,
        l.driver@ == driver@,
{
    let manufacturer = match vendor {
        Some(v) => v.clone(),
        None => not_available(),
    };
    StaticLabels {
        manufacturer,
        bus_slot: String::from_str(bus_slot),
        driver: String::from_str(driver),
    }
}

} // verus!
