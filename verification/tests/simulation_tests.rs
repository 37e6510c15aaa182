use malgrat_grid::models::MeteoData;
use malgrat_grid::simulation::{simulated_hours, Month, SIMULATION_HOURS};

const ALL_MONTHS: [Month; 12] = [
    Month::January,
    Month::February,
    Month::March,
    Month::April,
    Month::May,
    Month::June,
    Month::July,
    Month::August,
    Month::September,
    Month::October,
    Month::November,
    Month::December,
];

#[test]
fn month_labels() {
    let expected = [
        "january", "february", "march", "april", "may", "june", "july", "august",
        "september", "october", "november", "december",
    ];
    for (m, e) in ALL_MONTHS.iter().zip(expected.iter()) {
        assert_eq!(m.label(), *e);
    }
}

#[test]
fn august_file_name() {
    assert_eq!(Month::August.irradiation_file_name(), "pvgis/irradiation-august.json");
}

#[test]
fn file_names_are_distinct() {
    for (i, a) in ALL_MONTHS.iter().enumerate() {
        for (j, b) in ALL_MONTHS.iter().enumerate() {
            assert_eq!(i == j, a.irradiation_file_name() == b.irradiation_file_name());
        }
    }
}

#[test]
fn one_day_or_the_whole_short_profile() {
    assert_eq!(SIMULATION_HOURS, 24);
    assert_eq!(simulated_hours(24), 24);
    assert_eq!(simulated_hours(30), 24);
    assert_eq!(simulated_hours(5), 5);
    assert_eq!(simulated_hours(0), 0);
}

#[test]
fn meteo_data_holds_its_fields() {
    let meteo = MeteoData {
        radiation_db: "PVGIS-SARAH3".to_string(),
        meteo_db: "ERA5".to_string(),
        year_min: 2005,
        year_max: 2023,
        use_horizon: true,
        horizon_db: "DEM-calculated".to_string(),
    };
    let copy = meteo.clone();
    assert_eq!(copy.radiation_db, "PVGIS-SARAH3");
    assert_eq!(copy.year_min, 2005);
    assert_eq!(copy.year_max, 2023);
    assert!(copy.use_horizon);
}
