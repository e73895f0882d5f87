//! The ordinal pair that sorts device tabs of all kinds into one list.

use vstd::prelude::*;

verus! {

/// The category rank shared by every tab of this device kind; constant for
/// the process, so same-kind tabs group together in the device list.
pub const NPU_PRIMARY_ORD: u32 = 5;

/// The `(category rank, instance rank)` pair that orders a tab.
///
/// The whole device list sorts ascending by this pair. The instance rank is
/// assigned by the discovery collaborator, uniquely among same-kind devices;
/// uniqueness is that collaborator's responsibility, and a violated one makes
/// the order stable but not meaningful. Ranks are never renumbered when a
/// device is removed mid-session: gaps are accepted.
#[derive(Clone, Copy, PartialEq, Eq, Structural, Debug)]
pub struct OrderingModel {
    /// Category-wide rank, the same for every device of this kind.
    pub primary_ord: u32,
    /// Per-instance rank among same-kind devices, stored once at discovery.
    pub secondary_ord: u32,
}

/// Lexicographic order on `(primary, secondary)` sort keys, ascending.
pub open spec fn key_precedes(a: OrderingModel, b: OrderingModel) -> bool {
    a.primary_ord < b.primary_ord || (a.primary_ord == b.primary_ord && a.secondary_ord
        < b.secondary_ord)
}

impl OrderingModel {
    /// Builds the ordering for one discovered instance of this device kind.
    pub fn new(secondary_ord: u32) -> (m: OrderingModel)
        ensures
            m.primary_ord == NPU_PRIMARY_ORD,
            m.secondary_ord == secondary_ord,
    {
        OrderingModel { primary_ord: NPU_PRIMARY_ORD, secondary_ord }
    }

    /// The sort key of this tab.
    pub fn sort_key(&self) -> (k: (u32, u32))
        ensures
            k.0 == self.primary_ord,
            k.1 == self.secondary_ord,
    {
        (self.primary_ord, self.secondary_ord)
    }

    /// Whether this tab sorts strictly before `other` in the device list.
    pub fn precedes(&self, other: &OrderingModel) -> (r: bool)
        ensures
            r == key_precedes(*self, *other),
    {
        self.primary_ord < other.primary_ord || (self.primary_ord == other.primary_ord
            && self.secondary_ord < other.secondary_ord)
    }
}

/// The sort order is a strict total order: over any three tabs it is
/// irreflexive and transitive, and two tabs with distinct sort keys are
/// ordered one way or the other.
pub proof fn lemma_key_order_strict_total(a: OrderingModel, b: OrderingModel, c: OrderingModel)
    ensures
        !key_precedes(a, a),
        key_precedes(a, b) && key_precedes(b, c) ==> key_precedes(a, c),
        a != b ==> key_precedes(a, b) || key_precedes(b, a),
{
}

} // verus!
