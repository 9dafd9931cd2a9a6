//! Requests and responses of the pendant interface.

use vstd::prelude::*;

verus! {

/// Request to adjust an override.
#[derive(Debug)]
pub struct OverrideRequest {
    /// `feed_rate`, `spindle_speed` or `laser_power`.
    pub override_type: String,
    /// Percentage, 0 to 200.
    pub value: u8,
}

/// Error response.
#[derive(Debug)]
pub struct ApiError {
    pub code: u16,
    pub message: String,
}

/// Greatest percentage that an override request may ask for.
pub const MAX_OVERRIDE_VALUE: u8 = 200;

impl OverrideRequest {
    /// Whether the request names a known override and a percentage of at
    /// most 200.
    pub fn is_valid(&self) -> (r: bool)
        ensures
            r == ((self.override_type@ == "feed_rate"@ || self.override_type@ == "spindle_speed"@
                || self.override_type@ == "laser_power"@) && self.value <= MAX_OVERRIDE_VALUE),
    {
        let t = crate::text::chars_of(self.override_type.as_str());
        (crate::text::spells(&t, "feed_rate") || crate::text::spells(&t, "spindle_speed")
            || crate::text::spells(&t, "laser_power")) && self.value <= MAX_OVERRIDE_VALUE
    }
}

} // verus!
