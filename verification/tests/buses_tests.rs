use malgrat_grid::buses::{BatteryAction, BatterySchedule, BusKind, NetBalance};

const ALL_KINDS: [BusKind; 6] = [
    BusKind::Substation,
    BusKind::HistoricCenter,
    BusKind::Residential,
    BusKind::Touristic,
    BusKind::Industrial,
    BusKind::School,
];

#[test]
fn labels_of_each_kind() {
    assert_eq!(BusKind::Substation.label(), "Malgrat's substation ST");
    assert_eq!(BusKind::HistoricCenter.label(), "Historic Center");
    assert_eq!(BusKind::Residential.label(), "Residential zone");
    assert_eq!(BusKind::Touristic.label(), "Touristic zone");
    assert_eq!(BusKind::Industrial.label(), "Industrial polygon");
    assert_eq!(BusKind::School.label(), "School");
}

#[test]
fn labels_are_distinct() {
    for (i, a) in ALL_KINDS.iter().enumerate() {
        for (j, b) in ALL_KINDS.iter().enumerate() {
            assert_eq!(i == j, a.label() == b.label());
        }
    }
}

#[test]
fn kinds_compare_by_variant() {
    assert_eq!(BusKind::Substation, BusKind::Substation);
    assert_ne!(BusKind::Substation, BusKind::School);
}

#[test]
fn night_window_is_half_open() {
    let touristic = BatterySchedule::new(Some((0, 6)), None);
    for hour in 0..6 {
        assert!(touristic.night_charge_active(hour));
    }
    for hour in 6..24 {
        assert!(!touristic.night_charge_active(hour));
    }
}

#[test]
fn no_night_window_never_charges_from_grid() {
    let school = BatterySchedule::new(None, None);
    for hour in 0..24 {
        assert!(!school.night_charge_active(hour));
    }
}

#[test]
fn discharge_window_bounds() {
    let evening = BatterySchedule::new(None, Some((17, 22)));
    assert!(!evening.discharge_allowed(16));
    assert!(evening.discharge_allowed(17));
    assert!(evening.discharge_allowed(21));
    assert!(!evening.discharge_allowed(22));
}

#[test]
fn no_discharge_window_always_allows() {
    let any = BatterySchedule::new(Some((0, 6)), None);
    for hour in 0..24 {
        assert!(any.discharge_allowed(hour));
    }
}

#[test]
fn empty_window_contains_nothing() {
    let empty = BatterySchedule::new(Some((5, 5)), Some((8, 3)));
    for hour in 0..24 {
        assert!(!empty.night_charge_active(hour));
        assert!(!empty.discharge_allowed(hour));
    }
}

#[test]
fn night_window_passes_balance_through() {
    let touristic = BatterySchedule::new(Some((0, 6)), None);
    for balance in [NetBalance::Surplus, NetBalance::Deficit, NetBalance::Balanced] {
        assert_eq!(touristic.battery_action(3, balance), BatteryAction::PassThrough);
    }
}

#[test]
fn surplus_charges_outside_night_window() {
    let touristic = BatterySchedule::new(Some((0, 6)), None);
    assert_eq!(touristic.battery_action(12, NetBalance::Surplus), BatteryAction::Charge);
    assert_eq!(touristic.battery_action(6, NetBalance::Surplus), BatteryAction::Charge);
}

#[test]
fn deficit_discharges_only_inside_discharge_window() {
    let evening = BatterySchedule::new(None, Some((17, 22)));
    assert_eq!(evening.battery_action(18, NetBalance::Deficit), BatteryAction::Discharge);
    assert_eq!(evening.battery_action(10, NetBalance::Deficit), BatteryAction::PassThrough);
    let always = BatterySchedule::new(None, None);
    assert_eq!(always.battery_action(10, NetBalance::Deficit), BatteryAction::Discharge);
}

#[test]
fn zero_balance_settles() {
    let always = BatterySchedule::new(None, None);
    assert_eq!(always.battery_action(10, NetBalance::Balanced), BatteryAction::Settle);
}
