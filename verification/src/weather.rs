use vstd::prelude::*;

use crate::units::{Precipitation, Speed, Temperature, Units};
use crate::wind::WindDirection;

verus! {

// The forecast as the panels show it. Open-Meteo sends numbers with a
// fraction; the fields below hold what the panels read of them: the text
// each is printed as, or the whole number it is rounded to.

/// The forecast of Open-Meteo, as shown.
pub struct Weather {
    pub current_weather: CurrentWeather,
    pub hourly_units: HourlyUnits,
    pub hourly: Hourly,
    pub daily_units: DailyUnits,
    pub daily: Daily,
}

/// The weather now.
pub struct CurrentWeather {
    /// The temperature with one decimal.
    pub temperature: String,
    /// The wind speed as printed.
    pub windspeed: String,
    /// The direction the wind comes from; none for a direction outside 0 to 360 degrees.
    pub winddirection: Option<WindDirection>,
    pub weathercode: u8,
    /// The time of the measurement, `%Y-%m-%dT%H:%M`.
    pub time: String,
}

/// The units of the hourly values.
pub struct HourlyUnits {
    pub temperature_2m: String,
    pub relativehumidity_2m: String,
    pub apparent_temperature: String,
    pub surface_pressure: String,
    pub dewpoint_2m: String,
    pub windspeed_10m: String,
    pub precipitation: String,
}

/// The values of each hour, from midnight of the first day on.
pub struct Hourly {
    /// The temperatures rounded to whole degrees.
    pub temperature_2m: Vec<i32>,
    /// The relative humidity as printed.
    pub relativehumidity_2m: Vec<String>,
    /// The apparent temperature with one decimal.
    pub apparent_temperature: Vec<String>,
    /// The surface pressure as printed.
    pub surface_pressure: Vec<String>,
    /// The dew point with one decimal.
    pub dewpoint_2m: Vec<String>,
    /// The precipitation rounded up to whole units.
    pub precipitation: Vec<u8>,
    pub precipitation_probability: Vec<u8>,
    pub weathercode: Vec<u8>,
}

/// The units of the daily values.
pub struct DailyUnits {
    pub temperature_2m_max: String,
    pub temperature_2m_min: String,
}

/// The values of each day.
pub struct Daily {
    /// The dates, `%Y-%m-%d`.
    pub time: Vec<String>,
    pub weathercode: Vec<u8>,
    /// The times of sunrise, `%Y-%m-%dT%H:%M`.
    pub sunrise: Vec<String>,
    /// The times of sunset, `%Y-%m-%dT%H:%M`.
    pub sunset: Vec<String>,
    /// The highest temperatures with one decimal.
    pub temperature_2m_max: Vec<String>,
    /// The lowest temperatures with one decimal.
    pub temperature_2m_min: Vec<String>,
    pub apparent_temperature_max: Vec<String>,
    pub apparent_temperature_min: Vec<String>,
    pub precipitation_probability_max: Vec<u8>,
    /// The precipitation of each day as printed.
    pub precipitation_sum: Option<Vec<String>>,
}

/// The weather of a past day, as the archive keeps it.
pub struct HistoricalDay {
    /// The temperature of each hour, rounded to whole degrees.
    pub temperature_2m: Vec<i32>,
    pub weathercode: Vec<u8>,
    /// The precipitation of each hour rounded up to whole units.
    pub precipitation: Vec<u8>,
    /// The time of sunrise, `%Y-%m-%dT%H:%M`.
    pub sunrise: String,
    pub sunset: String,
    /// The highest and lowest temperature with one decimal.
    pub temperature_2m_max: String,
    pub temperature_2m_min: String,
    pub apparent_temperature_max: String,
    pub apparent_temperature_min: String,
    /// The precipitation of the day as printed.
    pub precipitation_sum: String,
    /// The weather code of the day.
    pub daily_weathercode: u8,
    /// The unit of the temperatures.
    pub temperature_unit: String,
}

/// The unit precipitation is asked in: millimetres where the probability is
/// shown.
pub open spec fn precipitation_unit_name(p: Precipitation) -> Seq<char> {
    if p == Precipitation::probability {
        "mm"@
    } else {
        p.name()
    }
}

/// The units part of a request to Open-Meteo.
pub open spec fn units_query(units: Units) -> Seq<char> {
    "\n&temperature_unit="@ + units.temperature.name() + "\n&windspeed_unit="@ + units.speed.name()
        + "\n&precipitation_unit="@ + precipitation_unit_name(units.precipitation)
}

/// The request for the forecast at a place, its coordinates written out.
pub open spec fn forecast_url(lat: Seq<char>, lon: Seq<char>, units: Units) -> Seq<char> {
    "https://api.open-meteo.com/v1/forecast?\nlatitude="@ + lat + "\n&longitude="@ + lon
        + "\n&current_weather=true"@ + units_query(units)
        + "\n&hourly=temperature_2m,relativehumidity_2m,apparent_temperature,surface_pressure,dewpoint_2m,windspeed_10m,weathercode,precipitation,precipitation_probability\n&daily=weathercode,sunrise,sunset,temperature_2m_max,temperature_2m_min,precipitation_probability_max,apparent_temperature_max,apparent_temperature_min\n&timezone=auto"@
}

/// The request for the weather of a past date at a place.
pub open spec fn archive_url(date: Seq<char>, lat: Seq<char>, lon: Seq<char>, units: Units) -> Seq<char> {
    "https://archive-api.open-meteo.com/v1/archive?\nlatitude="@ + lat + "\n&longitude="@ + lon + "\n&start_date="@
        + date + "\n&end_date="@ + date + units_query(units)
        + "\n&hourly=temperature_2m,precipitation,weathercode\n&daily=weathercode,temperature_2m_max,temperature_2m_min,apparent_temperature_max,apparent_temperature_min,sunrise,sunset,precipitation_sum\n&timezone=auto"@
}

/// The names Open-Meteo takes for a temperature unit.
pub open spec fn api_temperature(t: Temperature) -> Seq<char> {
    match t {
        Temperature::celsius => "celsius"@,
        Temperature::fahrenheit => "fahrenheit"@,
    }
}

/// The names Open-Meteo takes for a wind speed unit.
pub open spec fn api_speed(s: Speed) -> Seq<char> {
    match s {
        Speed::kmh => "kmh"@,
        Speed::mph => "mph"@,
        Speed::knots => "knots"@,
        Speed::ms => "ms"@,
    }
}

/// The names Open-Meteo takes for a precipitation unit; probabilities come
/// with amounts in millimetres.
pub open spec fn api_precipitation(p: Precipitation) -> Seq<char> {
    match p {
        Precipitation::probability => "mm"@,
        Precipitation::mm => "mm"@,
        Precipitation::inch => "inch"@,
    }
}

/// The two requests to Open-Meteo: the place's coordinates as given, then
/// the units the user chose by the names Open-Meteo takes (temperature, wind
/// speed, precipitation), then the values asked for, in the place's time zone.
pub proof fn lemma_requests_ask_for_the_units(lat: Seq<char>, lon: Seq<char>, date: Seq<char>, units: Units)
    ensures
        forecast_url(lat, lon, units) == "https://api.open-meteo.com/v1/forecast?\nlatitude="@ + lat + "\n&longitude="@
            + lon + "\n&current_weather=true"@ + "\n&temperature_unit="@ + api_temperature(units.temperature)
            + "\n&windspeed_unit="@ + api_speed(units.speed) + "\n&precipitation_unit="@ + api_precipitation(
            units.precipitation,
        )
            + "\n&hourly=temperature_2m,relativehumidity_2m,apparent_temperature,surface_pressure,dewpoint_2m,windspeed_10m,weathercode,precipitation,precipitation_probability\n&daily=weathercode,sunrise,sunset,temperature_2m_max,temperature_2m_min,precipitation_probability_max,apparent_temperature_max,apparent_temperature_min\n&timezone=auto"@,
        archive_url(date, lat, lon, units) == "https://archive-api.open-meteo.com/v1/archive?\nlatitude="@ + lat
            + "\n&longitude="@ + lon + "\n&start_date="@ + date + "\n&end_date="@ + date + "\n&temperature_unit="@
            + api_temperature(units.temperature) + "\n&windspeed_unit="@ + api_speed(units.speed)
            + "\n&precipitation_unit="@ + api_precipitation(units.precipitation)
            + "\n&hourly=temperature_2m,precipitation,weathercode\n&daily=weathercode,temperature_2m_max,temperature_2m_min,apparent_temperature_max,apparent_temperature_min,sunrise,sunset,precipitation_sum\n&timezone=auto"@,
{
    assert(units.temperature.name() == api_temperature(units.temperature));
    assert(units.speed.name() == api_speed(units.speed));
    assert(precipitation_unit_name(units.precipitation) == api_precipitation(units.precipitation));
}

fn push_units_query(url: &mut String, units: &Units)
    ensures
        final(url)@ == old(url)@ + units_query(*units),
{
    url.append("\n&temperature_unit=");
    url.append(units.temperature.as_str());
    url.append("\n&windspeed_unit=");
    url.append(units.speed.as_str());
    url.append("\n&precipitation_unit=");
    url.append(
        if units.precipitation == Precipitation::probability {
            "mm"
        } else {
            units.precipitation.as_str()
        },
    );
    assert(url@ =~= old(url)@ + units_query(*units));
}

impl Weather {
    /// The request for the forecast at a place, its coordinates written out.
    pub fn forecast_url(lat: &str, lon: &str, units: &Units) -> (r: String)
        ensures
            r@ == forecast_url(lat@, lon@, *units),
    {
        let mut url = "https://api.open-meteo.com/v1/forecast?\nlatitude=".to_string();
        url.append(lat);
        url.append("\n&longitude=");
        url.append(lon);
        url.append("\n&current_weather=true");
        push_units_query(&mut url, units);
        url.append(
            "\n&hourly=temperature_2m,relativehumidity_2m,apparent_temperature,surface_pressure,dewpoint_2m,windspeed_10m,weathercode,precipitation,precipitation_probability\n&daily=weathercode,sunrise,sunset,temperature_2m_max,temperature_2m_min,precipitation_probability_max,apparent_temperature_max,apparent_temperature_min\n&timezone=auto",
        );
        assert(url@ =~= forecast_url(lat@, lon@, *units));
        url
    }

    /// The request for the weather of a past date (`%Y-%m-%d`) at a place.
    pub fn archive_url(date: &str, lat: &str, lon: &str, units: &Units) -> (r: String)
        ensures
            r@ == archive_url(date@, lat@, lon@, *units),
    {
        let mut url = "https://archive-api.open-meteo.com/v1/archive?\nlatitude=".to_string();
        url.append(lat);
        url.append("\n&longitude=");
        url.append(lon);
        url.append("\n&start_date=");
        url.append(date);
        url.append("\n&end_date=");
        url.append(date);
        push_units_query(&mut url, units);
        url.append(
            "\n&hourly=temperature_2m,precipitation,weathercode\n&daily=weathercode,temperature_2m_max,temperature_2m_min,apparent_temperature_max,apparent_temperature_min,sunrise,sunset,precipitation_sum\n&timezone=auto",
        );
        assert(url@ =~= archive_url(date@, lat@, lon@, *units));
        url
    }
}

} // verus!
