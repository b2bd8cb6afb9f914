//! The battery of the host.
use vstd::prelude::*;
use crate::fetch::{one_line, single_line, Fetch, Line, LineView};
use crate::numbers::{fixed_point, push_fixed_point};

verus! {

/// What a battery is doing.
#[derive(Copy, Clone, Debug, PartialEq, Eq, Structural)]
pub enum BatteryState {
    Unknown,
    Charging,
    Discharging,
    Empty,
    FullyCharged,
    PendingCharge,
    PendingDischarge,
}

/// The charge of the battery, in hundredths of a percent, and its state.
pub struct Battery {
    pub percentage: u64,
    pub state: BatteryState,
}

/// The state that the power service reports under the number `code`.
pub open spec fn state_of_code(code: u32) -> Option<BatteryState> {
    if code == 0 {
        Some(BatteryState::Unknown)
    } else if code == 1 {
        Some(BatteryState::Charging)
    } else if code == 2 {
        Some(BatteryState::Discharging)
    } else if code == 3 {
        Some(BatteryState::Empty)
    } else if code == 4 {
        Some(BatteryState::FullyCharged)
    } else if code == 5 {
        Some(BatteryState::PendingCharge)
    } else if code == 6 {
        Some(BatteryState::PendingDischarge)
    } else {
        None
    }
}

/// A state as it is shown.
pub open spec fn state_text(state: BatteryState) -> Seq<char> {
    match state {
        BatteryState::Unknown => "Unknown"@,
        BatteryState::Charging => "Charging"@,
        BatteryState::Discharging => "Discharging"@,
        BatteryState::Empty => "Empty"@,
        BatteryState::FullyCharged => "Fully Charged"@,
        BatteryState::PendingCharge => "Pending Charge"@,
        BatteryState::PendingDischarge => "Pending Discharge"@,
    }
}

/// A battery as it is shown: its state and its charge in whole percent.
pub open spec fn battery_text(percentage: nat, state: BatteryState) -> Seq<char> {
    state_text(state) + " at "@ + fixed_point(percentage, 100, 0) + "%"@
}

impl BatteryState {
    /// The state that the power service reports under the number `code`.
    pub fn from_code(code: u32) -> (state: Option<BatteryState>)
        ensures
            state == state_of_code(code),
    {
        match code {
            0 => Some(BatteryState::Unknown),
            1 => Some(BatteryState::Charging),
            2 => Some(BatteryState::Discharging),
            3 => Some(BatteryState::Empty),
            4 => Some(BatteryState::FullyCharged),
            5 => Some(BatteryState::PendingCharge),
            6 => Some(BatteryState::PendingDischarge),
            _ => None,
        }
    }

    /// The number under which the power service reports the state.
    pub fn code(&self) -> (code: u32)
        ensures
            state_of_code(code) == Some(*self),
    {
        match self {
            BatteryState::Unknown => 0,
            BatteryState::Charging => 1,
            BatteryState::Discharging => 2,
            BatteryState::Empty => 3,
            BatteryState::FullyCharged => 4,
            BatteryState::PendingCharge => 5,
            BatteryState::PendingDischarge => 6,
        }
    }

    /// The state in words.
    pub fn to_string(&self) -> (text: String)
        ensures
            text@ == state_text(*self),
    {
        let s = match self {
            BatteryState::Unknown => "Unknown",
            BatteryState::Charging => "Charging",
            BatteryState::Discharging => "Discharging",
            BatteryState::Empty => "Empty",
            BatteryState::FullyCharged => "Fully Charged",
            BatteryState::PendingCharge => "Pending Charge",
            BatteryState::PendingDischarge => "Pending Discharge",
        };
        s.to_owned()
    }
}

impl Battery {
    /// The battery with the charge `percentage`, in hundredths of a
    /// percent, and the state `state`. A host whose power service reports
    /// no charge and no state has no battery.
    pub fn new(percentage: u64, state: BatteryState) -> (battery: Option<Battery>)
        ensures
            battery is None <==> state == BatteryState::Unknown && percentage == 0,
            battery matches Some(b) ==> b.percentage == percentage && b.state == state,
    {
        if state == BatteryState::Unknown && percentage == 0 {
            return None;
        }
        Some(Battery { percentage, state })
    }

    /// The state and the charge in whole percent.
    pub fn to_string(&self) -> (text: String)
        ensures
            text@ == battery_text(self.percentage as nat, self.state),
    {
        let mut text = self.state.to_string();
        text.append(" at ");
        push_fixed_point(&mut text, self.percentage, 100, 0);
        text.append("%");
        text
    }
}

impl Fetch for Battery {
    open spec fn fetchable(&self) -> bool {
        true
    }

    open spec fn name_view(&self) -> Seq<char> {
        "Battery"@
    }

    open spec fn content_view(&self) -> Seq<char> {
        battery_text(self.percentage as nat, self.state)
    }

    open spec fn lines_view(&self) -> Seq<LineView> {
        single_line(self.name_view(), self.content_view())
    }

    fn name(&self) -> (name: &'static str) {
        "Battery"
    }

    fn content(&self) -> (content: String) {
        self.to_string()
    }

    fn as_fetchlines(&self) -> (lines: Vec<Line>) {
        one_line(self.as_fetchsection())
    }
}

} // verus!
