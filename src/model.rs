//! The telemetry messages the server pushes, as plain values.
use vstd::prelude::*;

verus! {

/// Energy totals of the day.
#[derive(Debug, Clone, Default, PartialEq)]
pub struct TotalDataNew {
    pub consumption: String,
    pub generated: String,
    /// The totals changed since they were last sent.
    pub new: bool,
}

/// Daily weather values; the first element of each list is the one shown.
#[derive(Debug, Clone, Default, PartialEq)]
pub struct DailyNew {
    pub time: Vec<String>,
    pub sunset: Vec<String>,
    pub sunrise: Vec<String>,
}

/// Hourly weather values, aligned to the four time slots of the panel.
#[derive(Debug, Clone, Default, PartialEq)]
pub struct HourlyNew {
    pub time: Vec<String>,
    pub temperature_2_m: Vec<String>,
    pub rain: Vec<String>,
    pub showers: Vec<String>,
    pub cloud_cover: Vec<String>,
    pub uv_index: Vec<String>,
    pub uv_index_clear_sky: Vec<String>,
}

/// A weather snapshot; either part may be absent.
#[derive(Debug, Clone, Default, PartialEq)]
pub struct WeatherNew {
    pub hourly: Option<HourlyNew>,
    pub daily: Option<DailyNew>,
}

/// A live reading. Every field is optional: an absent field keeps the value
/// shown last.
#[derive(Debug, Clone, Default, PartialEq)]
pub struct NewUiStruct {
    pub ts: Option<String>,
    pub gui_house_pow: Option<String>,
    pub gui_inverter_power: Option<String>,
    pub gui_grid_pow: Option<String>,
    pub gui_bat_data_power: Option<String>,
    pub gui_bat_data_fuel_charge: Option<String>,
    pub weather: Option<WeatherNew>,
    pub total_data: Option<TotalDataNew>,
}

/// A day-ahead forecast: kW times 1000 for each five-minute slot.
#[derive(Debug, Clone, Default, PartialEq)]
pub struct Prediction {
    pub prediction: Vec<i32>,
}

/// The payload of one decoded binary frame.
#[derive(Debug, Clone, PartialEq)]
pub enum TelemetryUpdate {
    LiveReading(NewUiStruct),
    Forecast(Prediction),
}

/// The view of an optional text field.
pub open spec fn opt_text(o: Option<String>) -> Option<Seq<char>> {
    match o {
        Some(s) => Some(s@),
        None => None,
    }
}

} // verus!
