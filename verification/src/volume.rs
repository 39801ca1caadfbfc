//! Volume widget state: the displayed icon and text for a volume
//! reading.  Querying the sound server happens in the surrounding
//! application, which hands the plain values in.

use vstd::prelude::*;

use crate::strutil::dec_digits;
use crate::strutil::u8_to_string;

verus! {

/// Volume widget state.
#[derive(Debug)]
pub struct Volume {
    /// Volume percentage.
    pub percentage: u8,
    /// Whether the sink is muted.
    pub muted: bool,
    /// Cached display string: icon, space, percentage, percent sign.
    pub display_text: String,
}

/// Tick message: re-read the volume and refresh the display.
#[derive(Debug, Clone)]
pub enum Message {
    Tick,
}

/// The icon glyph for a reading: the muted glyph when muted, otherwise
/// high, medium or low by percentage band.
pub open spec fn spec_volume_icon(muted: bool, p: u8) -> Seq<char> {
    if muted {
        "󰝟"@
    } else if 66 <= p && p <= 100 {
        "󰕾"@
    } else if 33 <= p && p <= 65 {
        "󰖀"@
    } else {
        "󰕿"@
    }
}

/// The display string for a reading.
pub open spec fn spec_volume_text(percentage: u8, muted: bool) -> Seq<char> {
    spec_volume_icon(muted, percentage) + " "@ + dec_digits(percentage as nat) + "%"@
}

impl Volume {
    /// The icon glyph for the current reading.
    pub fn get_icon(&self) -> (r: &'static str)
        ensures
            r@ == spec_volume_icon(self.muted, self.percentage),
    {
        if self.muted {
            return "󰝟";
        }
        if 66 <= self.percentage && self.percentage <= 100 {
            "󰕾"
        } else if 33 <= self.percentage && self.percentage <= 65 {
            "󰖀"
        } else {
            "󰕿"
        }
    }

    /// Recompute the cached display string from the current reading.
    pub fn update_display(&mut self)
        ensures
            final(self).percentage == old(self).percentage,
            final(self).muted == old(self).muted,
            final(self).display_text@ == spec_volume_text(old(self).percentage, old(self).muted),
    {
        let mut s = String::new();
        s.append(self.get_icon());
        s.append(" ");
        let digits = u8_to_string(self.percentage);
        s.append(digits.as_str());
        s.append("%");
        self.display_text = s;
    }

    /// A widget showing the given reading.
    pub fn new(percentage: u8, muted: bool) -> (r: Volume)
        ensures
            r.percentage == percentage,
            r.muted == muted,
            r.display_text@ == spec_volume_text(percentage, muted),
    {
        let mut v = Volume { percentage, muted, display_text: String::new() };
        v.update_display();
        v
    }

    /// Take a fresh reading and refresh the display.
    pub fn update(&mut self, percentage: u8, muted: bool)
        ensures
            final(self).percentage == percentage,
            final(self).muted == muted,
            final(self).display_text@ == spec_volume_text(percentage, muted),
    {
        self.percentage = percentage;
        self.muted = muted;
        self.update_display();
    }
}

} // verus!
