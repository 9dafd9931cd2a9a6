//! Overrides widget: adjustment of feed rate and spindle or laser power while
//! a program runs.

use vstd::prelude::*;
use crate::text::{chars_of, string_of, extend, extend_str, decimal, decimal_of};

verus! {

/// State of the overrides widget.
#[derive(Debug, Clone, Copy, PartialEq, Eq, Structural)]
pub struct OverridesWidget {
    /// Feed rate in percent, 50 to 200.
    pub feed_rate_override: u32,
    /// Spindle or laser power in percent, 0 to 100.
    pub spindle_power_override: u32,
    /// Laser instead of spindle.
    pub laser_mode: bool,
}

/// `v` brought into the range from `low` to `high`.
pub open spec fn clamped(v: int, low: int, high: int) -> int {
    if v < low {
        low
    } else if v > high {
        high
    } else {
        v
    }
}

/// The realtime command that belongs to a feed rate override.
pub open spec fn feed_rate_command(percentage: u32) -> Seq<char> {
    if 150 <= percentage <= 200 {
        "0x91"@
    } else if 100 <= percentage <= 149 {
        "0x90"@
    } else {
        "0x8F"@
    }
}

/// The realtime command that belongs to a spindle power override.
pub open spec fn spindle_power_command(percentage: u32) -> Seq<char> {
    if 76 <= percentage <= 100 {
        "0x99"@
    } else if 51 <= percentage <= 75 {
        "0x98"@
    } else {
        "0x97"@
    }
}

impl OverridesWidget {
    /// A widget without any override.
    pub fn new() -> (r: OverridesWidget)
        ensures
            r == (OverridesWidget {
                feed_rate_override: 100,
                spindle_power_override: 100,
                laser_mode: false,
            }),
    {
        OverridesWidget { feed_rate_override: 100, spindle_power_override: 100, laser_mode: false }
    }

    /// Sets the feed rate override, kept within 50 to 200 percent.
    pub fn set_feed_rate(&mut self, percentage: u32)
        ensures
            *final(self) == (OverridesWidget {
                feed_rate_override: clamped(percentage as int, 50, 200) as u32,
                ..*old(self)
            }),
    {
        self.feed_rate_override = if percentage < 50 {
            50
        } else if percentage > 200 {
            200
        } else {
            percentage
        };
    }

    /// Raises the feed rate override by 10 percent.
    pub fn increase_feed_rate(&mut self)
        ensures
            *final(self) == (OverridesWidget {
                feed_rate_override: clamped(old(self).feed_rate_override + 10, 50, 200) as u32,
                ..*old(self)
            }),
    {
        self.set_feed_rate(self.feed_rate_override.saturating_add(10));
    }

    /// Lowers the feed rate override by 10 percent.
    pub fn decrease_feed_rate(&mut self)
        ensures
            *final(self) == (OverridesWidget {
                feed_rate_override: clamped(old(self).feed_rate_override - 10, 50, 200) as u32,
                ..*old(self)
            }),
    {
        self.set_feed_rate(self.feed_rate_override.saturating_sub(10));
    }

    /// Sets the spindle or laser power override, kept within 0 to 100
    /// percent.
    pub fn set_spindle_power(&mut self, percentage: u32)
        ensures
            *final(self) == (OverridesWidget {
                spindle_power_override: clamped(percentage as int, 0, 100) as u32,
                ..*old(self)
            }),
    {
        self.spindle_power_override = if percentage > 100 {
            100
        } else {
            percentage
        };
    }

    /// Raises the power override by 5 percent.
    pub fn increase_spindle_power(&mut self)
        ensures
            *final(self) == (OverridesWidget {
                spindle_power_override: clamped(old(self).spindle_power_override + 5, 0, 100) as u32,
                ..*old(self)
            }),
    {
        self.set_spindle_power(self.spindle_power_override.saturating_add(5));
    }

    /// Lowers the power override by 5 percent.
    pub fn decrease_spindle_power(&mut self)
        ensures
            *final(self) == (OverridesWidget {
                spindle_power_override: clamped(old(self).spindle_power_override - 5, 0, 100) as u32,
                ..*old(self)
            }),
    {
        self.set_spindle_power(self.spindle_power_override.saturating_sub(5));
    }

    /// Switches between laser and spindle.
    pub fn toggle_laser_mode(&mut self)
        ensures
            *final(self) == (OverridesWidget { laser_mode: !old(self).laser_mode, ..*old(self) }),
    {
        self.laser_mode = !self.laser_mode;
    }

    /// The GRBL realtime command for the feed rate override.
    pub fn get_feed_rate_command(&self) -> (r: String)
        ensures
            r@ == feed_rate_command(self.feed_rate_override),
    {
        let p = self.feed_rate_override;
        if 150 <= p && p <= 200 {
            "0x91".to_owned()
        } else if 100 <= p && p <= 149 {
            "0x90".to_owned()
        } else {
            "0x8F".to_owned()
        }
    }

    /// The GRBL realtime command for the power override.
    pub fn get_spindle_power_command(&self) -> (r: String)
        ensures
            r@ == spindle_power_command(self.spindle_power_override),
    {
        let p = self.spindle_power_override;
        if 76 <= p && p <= 100 {
            "0x99".to_owned()
        } else if 51 <= p && p <= 75 {
            "0x98".to_owned()
        } else {
            "0x97".to_owned()
        }
    }

    /// A description of the overrides.
    pub fn get_status(&self) -> (r: String)
        ensures
            r@ == "Feed: "@ + decimal(self.feed_rate_override as nat) + "% | Power: "@ + decimal(
                self.spindle_power_override as nat,
            ) + "% | Mode: "@ + if self.laser_mode {
                "Laser"@
            } else {
                "Spindle"@
            },
    {
        let mut v = chars_of("Feed: ");
        let feed = decimal_of(self.feed_rate_override as u128);
        extend(&mut v, &feed);
        extend_str(&mut v, "% | Power: ");
        let power = decimal_of(self.spindle_power_override as u128);
        extend(&mut v, &power);
        extend_str(&mut v, "% | Mode: ");
        if self.laser_mode {
            extend_str(&mut v, "Laser");
        } else {
            extend_str(&mut v, "Spindle");
        }
        string_of(&v)
    }
}

impl Default for OverridesWidget {
    fn default() -> (r: OverridesWidget)
        ensures
            r == (OverridesWidget {
                feed_rate_override: 100,
                spindle_power_override: 100,
                laser_mode: false,
            }),
    {
        OverridesWidget::new()
    }
}

} // verus!
