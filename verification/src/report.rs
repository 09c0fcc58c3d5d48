//! The decoded shapes of the upstream weather API's responses.
//!
//! Every scalar field is kept as text: the upstream API does not
//! guarantee numeric JSON types for temperatures, humidities or counts,
//! so treating them as opaque strings avoids decode failures on
//! placeholder values. No value is mutated after construction.

use vstd::prelude::*;

verus! {

/// One city's current weather record.
#[derive(Debug)]
pub struct Live {
    pub province: String,
    pub city: String,
    pub adcode: String,
    pub weather: String,
    pub temperature: String,
    pub winddirection: String,
    pub windpower: String,
    pub humidity: String,
    pub reporttime: String,
    pub temperature_float: String,
    pub humidity_float: String,
}

/// The mathematical model of a `Live` record: each field as a
/// sequence of characters.
pub struct LiveView {
    pub province: Seq<char>,
    pub city: Seq<char>,
    pub adcode: Seq<char>,
    pub weather: Seq<char>,
    pub temperature: Seq<char>,
    pub winddirection: Seq<char>,
    pub windpower: Seq<char>,
    pub humidity: Seq<char>,
    pub reporttime: Seq<char>,
    pub temperature_float: Seq<char>,
    pub humidity_float: Seq<char>,
}

impl View for Live {
    type V = LiveView;

    open spec fn view(&self) -> LiveView {
        LiveView {
            province: self.province@,
            city: self.city@,
            adcode: self.adcode@,
            weather: self.weather@,
            temperature: self.temperature@,
            winddirection: self.winddirection@,
            windpower: self.windpower@,
            humidity: self.humidity@,
            reporttime: self.reporttime@,
            temperature_float: self.temperature_float@,
            humidity_float: self.humidity_float@,
        }
    }
}

/// The envelope of a current-weather response: status metadata plus the
/// list of live records.
#[derive(Debug)]
pub struct AlertResponse {
    pub status: String,
    pub count: String,
    pub info: String,
    pub infocode: String,
    pub lives: Vec<Live>,
}

/// The mathematical model of an `AlertResponse`.
pub struct AlertResponseView {
    pub status: Seq<char>,
    pub count: Seq<char>,
    pub info: Seq<char>,
    pub infocode: Seq<char>,
    pub lives: Seq<LiveView>,
}

impl View for AlertResponse {
    type V = AlertResponseView;

    open spec fn view(&self) -> AlertResponseView {
        AlertResponseView {
            status: self.status@,
            count: self.count@,
            info: self.info@,
            infocode: self.infocode@,
            lives: self.lives@.map_values(|l: Live| l@),
        }
    }
}

/// The forecast for one day.
#[derive(Debug)]
pub struct DayForecast {
    pub date: String,
    pub dayweather: String,
    pub nightweather: String,
    pub daytemp: String,
    pub nighttemp: String,
    pub daywind: String,
    pub nightwind: String,
    pub daypower: String,
    pub nightpower: String,
}

/// The mathematical model of a `DayForecast`.
pub struct DayForecastView {
    pub date: Seq<char>,
    pub dayweather: Seq<char>,
    pub nightweather: Seq<char>,
    pub daytemp: Seq<char>,
    pub nighttemp: Seq<char>,
    pub daywind: Seq<char>,
    pub nightwind: Seq<char>,
    pub daypower: Seq<char>,
    pub nightpower: Seq<char>,
}

impl View for DayForecast {
    type V = DayForecastView;

    open spec fn view(&self) -> DayForecastView {
        DayForecastView {
            date: self.date@,
            dayweather: self.dayweather@,
            nightweather: self.nightweather@,
            daytemp: self.daytemp@,
            nighttemp: self.nighttemp@,
            daywind: self.daywind@,
            nightwind: self.nightwind@,
            daypower: self.daypower@,
            nightpower: self.nightpower@,
        }
    }
}

/// One city's forecast: the city name and its ordered day entries.
#[derive(Debug)]
pub struct Forecast {
    pub city: String,
    pub casts: Vec<DayForecast>,
}

/// The mathematical model of a `Forecast`.
pub struct ForecastView {
    pub city: Seq<char>,
    pub casts: Seq<DayForecastView>,
}

impl View for Forecast {
    type V = ForecastView;

    open spec fn view(&self) -> ForecastView {
        ForecastView { city: self.city@, casts: self.casts@.map_values(|d: DayForecast| d@) }
    }
}

/// The envelope of a forecast response: status metadata plus the list
/// of city forecasts.
#[derive(Debug)]
pub struct PointsResponse {
    pub status: String,
    pub count: String,
    pub info: String,
    pub infocode: String,
    pub forecasts: Vec<Forecast>,
}

/// The mathematical model of a `PointsResponse`.
pub struct PointsResponseView {
    pub status: Seq<char>,
    pub count: Seq<char>,
    pub info: Seq<char>,
    pub infocode: Seq<char>,
    pub forecasts: Seq<ForecastView>,
}

impl View for PointsResponse {
    type V = PointsResponseView;

    open spec fn view(&self) -> PointsResponseView {
        PointsResponseView {
            status: self.status@,
            count: self.count@,
            info: self.info@,
            infocode: self.infocode@,
            forecasts: self.forecasts@.map_values(|f: Forecast| f@),
        }
    }
}

} // verus!
