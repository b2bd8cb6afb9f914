//! The time for which the host has been running.
use vstd::prelude::*;
use crate::fetch::{one_line, single_line, Fetch, Line, LineView};
use crate::text::{decimal, push_decimal};

verus! {

/// The seconds of a minute.
pub const SECONDS_MIN: u64 = 60;

/// The seconds of an hour.
pub const SECONDS_HOUR: u64 = 3600;

/// The seconds of a day.
pub const SECONDS_DAY: u64 = 86400;

/// The whole seconds for which the host has been running.
pub struct Uptime(pub u64);

/// A number of units as it is shown: nothing for no unit and else the
/// number, a blank and the name of the unit, in the plural for more than
/// one. A comma and a blank follow, except behind the last kind of unit.
pub open spec fn unit_text(count: nat, unit: Seq<char>, last: bool) -> Seq<char> {
    if count == 0 {
        Seq::empty()
    } else {
        decimal(count) + seq![' '] + unit + (if count != 1 {
            seq!['s']
        } else {
            Seq::empty()
        }) + (if last {
            Seq::empty()
        } else {
            seq![',', ' ']
        })
    }
}

/// The whole days in `seconds`.
pub open spec fn days(seconds: nat) -> nat {
    seconds / SECONDS_DAY as nat
}

/// The whole hours in `seconds` that make no whole day.
pub open spec fn hours(seconds: nat) -> nat {
    ((seconds - days(seconds) * SECONDS_DAY) / SECONDS_HOUR as int) as nat
}

/// The whole minutes in `seconds` that make no whole hour.
pub open spec fn minutes(seconds: nat) -> nat {
    ((seconds - hours(seconds) * SECONDS_HOUR - days(seconds) * SECONDS_DAY) / SECONDS_MIN as int) as nat
}

/// The seconds in `seconds` that make no whole minute.
pub open spec fn odd_seconds(seconds: nat) -> nat {
    (seconds - minutes(seconds) * SECONDS_MIN - hours(seconds) * SECONDS_HOUR - days(seconds)
        * SECONDS_DAY) as nat
}

/// A time as it is shown: its days, hours, minutes and seconds, each kind
/// left out where there is none of it.
pub open spec fn uptime_text(seconds: nat) -> Seq<char> {
    unit_text(days(seconds), "day"@, false) + unit_text(hours(seconds), "hour"@, false)
        + unit_text(minutes(seconds), "minute"@, false) + unit_text(
        odd_seconds(seconds),
        "second"@,
        true,
    )
}

/// Appends a number of units to `f`.
fn push_unit(f: &mut String, count: u64, unit: &str, last: bool)
    ensures
        final(f)@ == old(f)@ + unit_text(count as nat, unit@, last),
{
    if count > 0 {
        push_decimal(f, count as u128);
        f.push(' ');
        f.append(unit);
        if count != 1 {
            f.push('s');
        }
        if !last {
            f.append(", ");
        }
        proof {
            reveal_strlit(", ");
        }
    }
}

impl Uptime {
    /// The days, hours, minutes and seconds of the time, each with its
    /// unit, and a comma behind each but the seconds.
    pub fn to_string(&self) -> (text: String)
        ensures
            text@ == uptime_text(self.0 as nat),
    {
        let days = self.0 / SECONDS_DAY;
        let hours = (self.0 - days * SECONDS_DAY) / SECONDS_HOUR;
        let minutes = (self.0 - hours * SECONDS_HOUR - days * SECONDS_DAY) / SECONDS_MIN;
        let seconds = self.0 - minutes * SECONDS_MIN - hours * SECONDS_HOUR - days * SECONDS_DAY;
        let mut text = String::new();
        push_unit(&mut text, days, "day", false);
        push_unit(&mut text, hours, "hour", false);
        push_unit(&mut text, minutes, "minute", false);
        push_unit(&mut text, seconds, "second", true);
        text
    }
}

impl Fetch for Uptime {
    open spec fn fetchable(&self) -> bool {
        true
    }

    open spec fn name_view(&self) -> Seq<char> {
        "Uptime"@
    }

    open spec fn content_view(&self) -> Seq<char> {
        uptime_text(self.0 as nat)
    }

    open spec fn lines_view(&self) -> Seq<LineView> {
        single_line(self.name_view(), self.content_view())
    }

    fn name(&self) -> (name: &'static str) {
        "Uptime"
    }

    fn content(&self) -> (content: String) {
        self.to_string()
    }

    fn as_fetchlines(&self) -> (lines: Vec<Line>) {
        one_line(self.as_fetchsection())
    }
}

} // verus!
