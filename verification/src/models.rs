use vstd::prelude::*;

verus! {

/// The databases and the span of years from which a PVGIS irradiation
/// profile was computed.
#[derive(Debug, Clone)]
pub struct MeteoData {
    pub radiation_db: String,
    pub meteo_db: String,
    pub year_min: u32,
    pub year_max: u32,
    pub use_horizon: bool,
    pub horizon_db: String,
}

} // verus!
