//! What the presentation layer is handed: an icon selector and a status text.
//!
//! A level above 100 cannot be drawn, since the icons run from 0 to 100. Such
//! a reading selects icon 0, the same as an unknown one, while the text still
//! reports the byte as the device sent it. The reading itself is never
//! clamped: whoever needs the raw byte takes it from `BatteryReading`.
use vstd::prelude::*;
use vstd::string::StringExecFns;
use crate::reading::BatteryReading;

verus! {

/// Highest level that has an icon of its own.
pub const MAX_ICON: u8 = 100;

/// The character of one decimal digit.
pub open spec fn digit_char(d: int) -> char {
    if d == 0 {
        '0'
    } else if d == 1 {
        '1'
    } else if d == 2 {
        '2'
    } else if d == 3 {
        '3'
    } else if d == 4 {
        '4'
    } else if d == 5 {
        '5'
    } else if d == 6 {
        '6'
    } else if d == 7 {
        '7'
    } else if d == 8 {
        '8'
    } else {
        '9'
    }
}

/// Decimal notation of `n`, without sign or leading zeros.
pub open spec fn decimal(n: nat) -> Seq<char>
    decreases n,
{
    if n < 10 {
        seq![digit_char(n as int)]
    } else {
        decimal(n / 10).push(digit_char((n % 10) as int))
    }
}

/// The status text of a reading.
pub open spec fn tooltip(reading: BatteryReading) -> Seq<char> {
    match reading {
        BatteryReading::Unknown => "Rival 650 battery level is unknown"@,
        BatteryReading::Percent(n) => "Rival 650 battery level is "@ + decimal(n as nat) + "%"@,
    }
}

/// The icon that stands for a reading.
pub open spec fn icon_for(reading: BatteryReading) -> u8 {
    match reading {
        BatteryReading::Unknown => 0,
        BatteryReading::Percent(n) => if n > MAX_ICON {
            0
        } else {
            n
        },
    }
}

/// The pair delivered to the presentation layer once per poll cycle.
#[derive(Clone, Debug, PartialEq, Eq)]
pub struct DisplayState {
    /// Icon selector, never above `MAX_ICON`.
    pub icon: u8,
    /// Status text.
    pub text: String,
}

impl DisplayState {
    /// This is the state that shows `reading`.
    pub open spec fn shows(&self, reading: BatteryReading) -> bool {
        self.icon == icon_for(reading) && self.text@ == tooltip(reading)
    }
}

fn digit_str(d: u8) -> (s: &'static str)
    requires
        d < 10,
    ensures
        s@ == seq![digit_char(d as int)],
{
    proof {
        reveal_strlit("0");
        reveal_strlit("1");
        reveal_strlit("2");
        reveal_strlit("3");
        reveal_strlit("4");
        reveal_strlit("5");
        reveal_strlit("6");
        reveal_strlit("7");
        reveal_strlit("8");
        reveal_strlit("9");
    }
    match d {
        0 => "0",
        1 => "1",
        2 => "2",
        3 => "3",
        4 => "4",
        5 => "5",
        6 => "6",
        7 => "7",
        8 => "8",
        _ => "9",
    }
}

/// Appends the decimal notation of `n` to `out`.
pub fn push_decimal(out: &mut String, n: u8)
    ensures
        final(out)@ == old(out)@ + decimal(n as nat),
{
    let ghost before = out@;
    if n >= 100 {
        out.append(digit_str(n / 100));
    }
    if n >= 10 {
        out.append(digit_str((n / 10) % 10));
    }
    out.append(digit_str(n % 10));
    proof {
        reveal_with_fuel(decimal, 3);
        assert(out@ =~= before + decimal(n as nat));
    }
}

/// The status text of `reading`: the level followed by a percent sign, or
/// the word "unknown".
pub fn status_text(reading: BatteryReading) -> (text: String)
    ensures
        text@ == tooltip(reading),
{
    match reading {
        BatteryReading::Unknown => String::from_str("Rival 650 battery level is unknown"),
        BatteryReading::Percent(n) => {
            let mut text = String::from_str("Rival 650 battery level is ");
            push_decimal(&mut text, n);
            text.append("%");
            text
        },
    }
}

/// The icon selector of `reading`: the level itself up to `MAX_ICON`, and 0
/// for an unknown reading or a level beyond it.
pub fn icon_selector(reading: BatteryReading) -> (icon: u8)
    ensures
        icon == icon_for(reading),
        icon <= MAX_ICON,
{
    match reading {
        BatteryReading::Unknown => 0,
        BatteryReading::Percent(n) => if n > MAX_ICON {
            0
        } else {
            n
        },
    }
}

/// The display state of `reading`.
pub fn display_state(reading: BatteryReading) -> (state: DisplayState)
    ensures
        state.shows(reading),
        state.icon <= MAX_ICON,
{
    DisplayState { icon: icon_selector(reading), text: status_text(reading) }
}

} // verus!
