//! The raw, partially populated telemetry reading handed in once per refresh
//! cycle.

use vstd::prelude::*;
use crate::ratio::Ratio;

verus! {

/// One point-in-time reading of the device's hardware counters.
///
/// Every metric is independently optional: partial telemetry is the expected
/// common case, so an absent field is a first-class value, never an error.
/// Values that a machine float would carry are held as plain integers: the
/// usage fraction as an exact rational, temperature in milli-units of the
/// device's native scale, power in milliwatts, clocks in hertz.
pub struct TelemetrySnapshot {
    /// Opaque stable identifier of the physical device (its bus address),
    /// unique per device and stable across ticks.
    pub device_key: String,
    /// Busy fraction in `[0, 1]`, absent if the counter is unsupported or
    /// unreadable.
    pub usage_fraction: Option<Ratio>,
    /// Total device memory in bytes.
    pub memory_total: Option<u64>,
    /// Used device memory in bytes.
    pub memory_used: Option<u64>,
    /// Core clock in hertz.
    pub core_clock: Option<u64>,
    /// Memory clock in hertz.
    pub memory_clock: Option<u64>,
    /// Temperature in milli-units of the device-native scale.
    pub temperature: Option<i64>,
    /// Current power draw in milliwatts.
    pub power_draw: Option<u64>,
    /// Configured power limit in milliwatts.
    pub power_limit: Option<u64>,
    /// Maximum configurable power limit in milliwatts.
    pub power_limit_max: Option<u64>,
}

impl TelemetrySnapshot {
    /// Well-formedness: a present usage fraction is finite and lies in the
    /// unit interval, as the sampling collaborator guarantees.
    pub open spec fn wf(self) -> bool {
        match self.usage_fraction {
            Some(u) => u.wf() && u.in_unit(),
            None => true,
        }
    }

    /// A snapshot with every metric absent: the fully degraded but still
    /// valid input.
    pub fn empty(device_key: String) -> (s: TelemetrySnapshot)
        ensures
            s.device_key == device_key,
            s.usage_fraction is None,
            s.memory_total is None,
            s.memory_used is None,
            s.core_clock is None,
            s.memory_clock is None,
            s.temperature is None,
            s.power_draw is None,
            s.power_limit is None,
            s.power_limit_max is None,
            s.wf(),
    {
        TelemetrySnapshot {
            device_key,
            usage_fraction: None,
            memory_total: None,
            memory_used: None,
            core_clock: None,
            memory_clock: None,
            temperature: None,
            power_draw: None,
            power_limit: None,
            power_limit_max: None,
        }
    }
}

} // verus!
