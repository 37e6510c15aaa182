use vstd::prelude::*;

verus! {

/// The kind of area that a bus of the grid feeds.
#[derive(Debug, Clone, Copy, PartialEq, Eq, Structural)]
pub enum BusKind {
    Substation,
    HistoricCenter,
    Residential,
    Touristic,
    Industrial,
    School,
}

impl BusKind {
    /// The human-readable name of each kind of bus.
    pub open spec fn spec_label(self) -> Seq<char> {
        match self {
            BusKind::Substation => "Malgrat's substation ST"@,
            BusKind::HistoricCenter => "Historic Center"@,
            BusKind::Residential => "Residential zone"@,
            BusKind::Touristic => "Touristic zone"@,
            BusKind::Industrial => "Industrial polygon"@,
            BusKind::School => "School"@,
        }
    }

    /// Name of the area that a bus of this kind feeds.
    pub fn label(&self) -> (res: &'static str)
        ensures
            res@ == self.spec_label(),
    {
        match self {
            BusKind::Substation => "Malgrat's substation ST",
            BusKind::HistoricCenter => "Historic Center",
            BusKind::Residential => "Residential zone",
            BusKind::Touristic => "Touristic zone",
            BusKind::Industrial => "Industrial polygon",
            BusKind::School => "School",
        }
    }
}


/// `hour` lies in the half-open window `[start, end)`: the start hour is
/// inside, the end hour is not.
pub open spec fn in_window(start: int, end: int, hour: int) -> bool {
    start <= hour < end
}

/// Sign of the local balance of a bus in one hour: solar generation minus
/// demand.
#[derive(Debug, Clone, Copy, PartialEq, Eq, Structural)]
pub enum NetBalance {
    /// Generation exceeds demand.
    Surplus,
    /// Demand exceeds generation.
    Deficit,
    /// Neither of the two: the balance is zero (or not a number).
    Balanced,
}

/// What the battery of a bus does with the local balance in one hour.
#[derive(Debug, Clone, Copy, PartialEq, Eq, Structural)]
pub enum BatteryAction {
    /// The battery stays out of it and the whole balance goes to the grid.
    PassThrough,
    /// The surplus charges the battery first; the rest goes to the grid.
    Charge,
    /// The battery covers the deficit first; the rest comes from the grid.
    Discharge,
    /// There is nothing to exchange: the balance left for the grid is zero.
    Settle,
}

/// The hours at which the battery of a bus may charge from the grid (night
/// charge) and may discharge into the local demand.
#[derive(Debug, Clone, Copy)]
pub struct BatterySchedule {
    /// Hours `[start, end)` of grid charging; `None`: never.
    pub night_charge_window: Option<(usize, usize)>,
    /// Hours `[start, end)` at which discharging is allowed; `None`: always.
    pub discharge_window: Option<(usize, usize)>,
}

impl BatterySchedule {
    pub open spec fn spec_night_charge_active(self, hour: int) -> bool {
        match self.night_charge_window {
            Some((start, end)) => in_window(start as int, end as int, hour),
            None => false,
        }
    }

    pub open spec fn spec_discharge_allowed(self, hour: int) -> bool {
        match self.discharge_window {
            Some((start, end)) => in_window(start as int, end as int, hour),
            None => true,
        }
    }

    /// The battery's part in one hour: inside the night-charge window the
    /// battery is reserved for grid charging and the local balance passes
    /// through; otherwise a surplus charges it, a deficit discharges it when
    /// the discharge window allows, and a zero balance settles to zero.
    pub open spec fn spec_battery_action(self, hour: int, balance: NetBalance) -> BatteryAction {
        if self.spec_night_charge_active(hour) {
            BatteryAction::PassThrough
        } else {
            match balance {
                NetBalance::Surplus => BatteryAction::Charge,
                NetBalance::Deficit => if self.spec_discharge_allowed(hour) {
                    BatteryAction::Discharge
                } else {
                    BatteryAction::PassThrough
                },
                NetBalance::Balanced => BatteryAction::Settle,
            }
        }
    }

    pub fn new(
        night_charge_window: Option<(usize, usize)>,
        discharge_window: Option<(usize, usize)>,
    ) -> (res: Self)
        ensures
            res.night_charge_window == night_charge_window,
            res.discharge_window == discharge_window,
    {
        BatterySchedule { night_charge_window, discharge_window }
    }

    /// The battery charges from the grid at `hour`.
    pub fn night_charge_active(&self, hour: usize) -> (res: bool)
        ensures
            res == self.spec_night_charge_active(hour as int),
            res == (self.night_charge_window matches Some((s, e)) && s <= hour && hour < e),
    {
        match self.night_charge_window {
            Some((start, end)) => hour >= start && hour < end,
            None => false,
        }
    }

    /// The battery may discharge at `hour`.
    pub fn discharge_allowed(&self, hour: usize) -> (res: bool)
        ensures
            res == self.spec_discharge_allowed(hour as int),
            res == (self.discharge_window matches Some((s, e)) ==> s <= hour && hour < e),
    {
        match self.discharge_window {
            Some((start, end)) => hour >= start && hour < end,
            None => true,
        }
    }

    /// Decides what the battery does at `hour` with a local balance of the
    /// given sign.
    pub fn battery_action(&self, hour: usize, balance: NetBalance) -> (res: BatteryAction)
        ensures
            res == self.spec_battery_action(hour as int, balance),
            (res == BatteryAction::Settle) == (balance == NetBalance::Balanced
                && !(self.night_charge_window matches Some((s, e)) && s <= hour && hour < e)),
            (res == BatteryAction::Charge) == (balance == NetBalance::Surplus
                && !(self.night_charge_window matches Some((s, e)) && s <= hour && hour < e)),
            (res == BatteryAction::Discharge) == (balance == NetBalance::Deficit
                && !(self.night_charge_window matches Some((s, e)) && s <= hour && hour < e)
                && (self.discharge_window matches Some((s, e)) ==> s <= hour && hour < e)),
            (res == BatteryAction::PassThrough) == ((self.night_charge_window matches Some((s, e))
                && s <= hour && hour < e) || (balance == NetBalance::Deficit
                && !(self.discharge_window matches Some((s, e)) ==> s <= hour && hour < e))),
    {
        if self.night_charge_active(hour) {
            BatteryAction::PassThrough
        } else {
            match balance {
                NetBalance::Surplus => BatteryAction::Charge,
                NetBalance::Deficit => {
                    if self.discharge_allowed(hour) {
                        BatteryAction::Discharge
                    } else {
                        BatteryAction::PassThrough
                    }
                },
                NetBalance::Balanced => BatteryAction::Settle,
            }
        }
    }
}

/// Each kind of bus has a name of its own.
pub proof fn lemma_bus_labels_distinct(a: BusKind, b: BusKind)
    requires
        a != b,
    ensures
        a.spec_label() != b.spec_label(),
{
    reveal_strlit("Malgrat's substation ST");
    reveal_strlit("Historic Center");
    reveal_strlit("Residential zone");
    reveal_strlit("Touristic zone");
    reveal_strlit("Industrial polygon");
    reveal_strlit("School");
    assert(a.spec_label().len() != b.spec_label().len());
}

/// During its night-charge window a battery takes no part in the local
/// balance: whatever the balance, it passes through to the grid.
pub proof fn lemma_night_charge_excludes_local_use(
    schedule: BatterySchedule,
    hour: usize,
    balance: NetBalance,
)
    requires
        schedule.spec_night_charge_active(hour as int),
    ensures
        schedule.spec_battery_action(hour as int, balance) == BatteryAction::PassThrough,
{
}

/// A battery discharges only to cover a deficit, outside its night-charge
/// window, and inside its discharge window.
pub proof fn lemma_discharge_only_when_allowed(
    schedule: BatterySchedule,
    hour: usize,
    balance: NetBalance,
)
    ensures
        schedule.spec_battery_action(hour as int, balance) == BatteryAction::Discharge
            <==> (balance == NetBalance::Deficit && !schedule.spec_night_charge_active(hour as int)
            && schedule.spec_discharge_allowed(hour as int)),
{
}

/// A battery charges from the local balance exactly when there is a surplus
/// outside its night-charge window.
pub proof fn lemma_charge_only_from_surplus(
    schedule: BatterySchedule,
    hour: usize,
    balance: NetBalance,
)
    ensures
        schedule.spec_battery_action(hour as int, balance) == BatteryAction::Charge
            <==> (balance == NetBalance::Surplus && !schedule.spec_night_charge_active(
            hour as int,
        )),
{
}

/// The window bounds are half-open: a window holds its start hour and not its
/// end hour; with no discharge window the battery may always discharge, and
/// with no night-charge window it never charges from the grid.
pub proof fn lemma_window_bounds(schedule: BatterySchedule)
    ensures
        schedule.night_charge_window matches Some((s, e)) ==> (s < e
            ==> schedule.spec_night_charge_active(s as int)) && !schedule.spec_night_charge_active(
            e as int,
        ),
        schedule.discharge_window matches Some((s, e)) ==> (s < e
            ==> schedule.spec_discharge_allowed(s as int)) && !schedule.spec_discharge_allowed(
            e as int,
        ),
        schedule.night_charge_window is None ==> forall|h: int|
            !#[trigger] schedule.spec_night_charge_active(h),
        schedule.discharge_window is None ==> forall|h: int|
            #[trigger] schedule.spec_discharge_allowed(h),
{
}

/// The battery charges from the grid at exactly the hours `h` with
/// `start <= h < end` of its night-charge window, and never without one.
pub proof fn lemma_night_charge_hours(schedule: BatterySchedule, hour: int)
    ensures
        schedule.spec_night_charge_active(hour) == (schedule.night_charge_window matches Some(
            (s, e),
        ) && s <= hour && hour < e),
{
}

/// The battery may discharge at exactly the hours `h` with `start <= h < end`
/// of its discharge window, and at every hour without one.
pub proof fn lemma_discharge_hours(schedule: BatterySchedule, hour: int)
    ensures
        schedule.spec_discharge_allowed(hour) == (schedule.discharge_window matches Some((s, e))
            ==> s <= hour && hour < e),
{
}

/// What the battery does, in terms of the two windows and the balance alone:
/// inside the night-charge window the balance passes to the grid; outside it
/// a surplus charges, a deficit discharges inside the discharge window and
/// passes to the grid outside it, and only a zero balance settles to zero.
pub proof fn lemma_battery_action_by_windows(
    schedule: BatterySchedule,
    hour: int,
    balance: NetBalance,
)
    ensures
        ({
            let night = schedule.night_charge_window matches Some((s, e)) && s <= hour && hour < e;
            let discharge = schedule.discharge_window matches Some((s, e)) ==> s <= hour && hour
                < e;
            let action = schedule.spec_battery_action(hour, balance);
            &&& (action == BatteryAction::Settle) == (balance == NetBalance::Balanced && !night)
            &&& (action == BatteryAction::Charge) == (balance == NetBalance::Surplus && !night)
            &&& (action == BatteryAction::Discharge) == (balance == NetBalance::Deficit && !night
                && discharge)
            &&& (action == BatteryAction::PassThrough) == (night || (balance == NetBalance::Deficit
                && !discharge))
        }),
{
}

/// A deficit outside both windows is imported whole from the grid: the
/// battery passes it through and does not settle it to zero.
pub proof fn lemma_deficit_outside_windows_passes_through(
    schedule: BatterySchedule,
    hour: int,
)
    requires
        !(schedule.night_charge_window matches Some((s, e)) && s <= hour && hour < e),
        schedule.discharge_window matches Some((s, e)) && !(s <= hour && hour < e),
    ensures
        schedule.spec_battery_action(hour, NetBalance::Deficit) == BatteryAction::PassThrough,
{
}

} // verus!
