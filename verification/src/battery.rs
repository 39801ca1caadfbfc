//! Battery widget state: the displayed icon and text for a battery
//! reading.  Reading the operating system's battery files happens in the
//! surrounding application, which hands the plain values in.

use vstd::prelude::*;

use crate::strutil::dec_digits;
use crate::strutil::u8_to_string;

verus! {

/// Battery widget state.
#[derive(Debug)]
pub struct Battery {
    /// Charge percentage, or nothing when no battery is present.
    pub percentage: Option<u8>,
    /// Whether the battery is charging.
    pub charging: bool,
    /// Cached display string: icon, space, percentage, percent sign —
    /// empty when no battery is present.
    pub display_text: String,
}

/// Tick message: re-read the battery and refresh the display.
#[derive(Debug, Clone)]
pub enum Message {
    Tick,
}

/// The icon glyph for a reading: the charging glyph while charging,
/// otherwise one of ten fill levels, with an alert glyph below ten
/// percent or for readings out of range.
pub open spec fn spec_battery_icon(charging: bool, p: u8) -> Seq<char> {
    if charging {
        "󰂄"@
    } else if 90 <= p && p <= 100 {
        "󰁹"@
    } else if 80 <= p && p <= 89 {
        "󰂂"@
    } else if 70 <= p && p <= 79 {
        "󰂁"@
    } else if 60 <= p && p <= 69 {
        "󰂀"@
    } else if 50 <= p && p <= 59 {
        "󰁿"@
    } else if 40 <= p && p <= 49 {
        "󰁾"@
    } else if 30 <= p && p <= 39 {
        "󰁽"@
    } else if 20 <= p && p <= 29 {
        "󰁼"@
    } else if 10 <= p && p <= 19 {
        "󰁻"@
    } else {
        "󰂃"@
    }
}

/// The display string for a reading.
pub open spec fn spec_battery_text(percentage: Option<u8>, charging: bool) -> Seq<char> {
    match percentage {
        Some(p) => spec_battery_icon(charging, p) + " "@ + dec_digits(p as nat) + "%"@,
        None => Seq::empty(),
    }
}

impl Battery {
    /// The icon glyph for a percentage under this state's charging flag.
    pub fn get_icon(&self, percentage: u8) -> (r: &'static str)
        ensures
            r@ == spec_battery_icon(self.charging, percentage),
    {
        if self.charging {
            return "󰂄";
        }
        if 90 <= percentage && percentage <= 100 {
            "󰁹"
        } else if 80 <= percentage && percentage <= 89 {
            "󰂂"
        } else if 70 <= percentage && percentage <= 79 {
            "󰂁"
        } else if 60 <= percentage && percentage <= 69 {
            "󰂀"
        } else if 50 <= percentage && percentage <= 59 {
            "󰁿"
        } else if 40 <= percentage && percentage <= 49 {
            "󰁾"
        } else if 30 <= percentage && percentage <= 39 {
            "󰁽"
        } else if 20 <= percentage && percentage <= 29 {
            "󰁼"
        } else if 10 <= percentage && percentage <= 19 {
            "󰁻"
        } else {
            "󰂃"
        }
    }

    /// Recompute the cached display string from the current reading.
    pub fn update_display(&mut self)
        ensures
            final(self).percentage == old(self).percentage,
            final(self).charging == old(self).charging,
            final(self).display_text@ == spec_battery_text(
                old(self).percentage,
                old(self).charging,
            ),
    {
        let mut s = String::new();
        match self.percentage {
            Some(p) => {
                s.append(self.get_icon(p));
                s.append(" ");
                let digits = u8_to_string(p);
                s.append(digits.as_str());
                s.append("%");
            },
            None => {},
        }
        self.display_text = s;
    }

    /// A widget showing the given reading.
    pub fn new(percentage: Option<u8>, charging: bool) -> (r: Battery)
        ensures
            r.percentage == percentage,
            r.charging == charging,
            r.display_text@ == spec_battery_text(percentage, charging),
    {
        let mut b = Battery { percentage, charging, display_text: String::new() };
        b.update_display();
        b
    }

    /// Take a fresh reading and refresh the display.
    pub fn update(&mut self, percentage: Option<u8>, charging: bool)
        ensures
            final(self).percentage == percentage,
            final(self).charging == charging,
            final(self).display_text@ == spec_battery_text(percentage, charging),
    {
        self.percentage = percentage;
        self.charging = charging;
        self.update_display();
    }
}

} // verus!
