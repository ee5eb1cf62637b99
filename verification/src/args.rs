use vstd::prelude::*;

use crate::error::Error;

verus! {

/// What to forecast, as the user asks for it (`-f`).
#[derive(PartialEq, Eq, Structural, Debug, Clone, Copy)]
#[allow(non_camel_case_types)]
pub enum Forecast {
    disable,
    week,
    day,
    tomorrow,
    mo,
    tu,
    we,
    th,
    fr,
    sa,
    su,
}

/// A unit the user asks for (`-u`).
#[derive(PartialEq, Eq, Structural, Debug, Clone, Copy)]
pub enum UnitArg {
    Celsius,
    Fahrenheit,
    Kmh,
    Mph,
    Knots,
    Ms,
    AmPm,
    Military,
    Probability,
    Mm,
    Inch,
}

impl UnitArg {
    /// The name of a unit argument: snake case, except `kn` for knots, the name
    /// the Open-Meteo API takes.
    pub open spec fn name(self) -> Seq<char> {
        match self {
            UnitArg::Celsius => "celsius"@,
            UnitArg::Fahrenheit => "fahrenheit"@,
            UnitArg::Kmh => "kmh"@,
            UnitArg::Mph => "mph"@,
            UnitArg::Knots => "kn"@,
            UnitArg::Ms => "ms"@,
            UnitArg::AmPm => "am_pm"@,
            UnitArg::Military => "military"@,
            UnitArg::Probability => "probability"@,
            UnitArg::Mm => "mm"@,
            UnitArg::Inch => "inch"@,
        }
    }

    pub fn as_str(&self) -> (r: &'static str)
        ensures
            r@ == self.name(),
    {
        match self {
            UnitArg::Celsius => "celsius",
            UnitArg::Fahrenheit => "fahrenheit",
            UnitArg::Kmh => "kmh",
            UnitArg::Mph => "mph",
            UnitArg::Knots => "kn",
            UnitArg::Ms => "ms",
            UnitArg::AmPm => "am_pm",
            UnitArg::Military => "military",
            UnitArg::Probability => "probability",
            UnitArg::Mm => "mm",
            UnitArg::Inch => "inch",
        }
    }
}

/// The values given on the command line.
pub struct Cli {
    /// Address to check the weather
    pub address: Option<String>,
    pub forecast: Vec<Forecast>,
    /// Dates of historical weather, as `(year, month, day)`.
    pub historical_weather: Vec<(i32, u32, u32)>,
    pub units: Vec<UnitArg>,
    /// Output language
    pub language: Option<String>,
    /// Save the supplied values as default
    pub save: bool,
    /// Wipe wthrr's configuration data
    pub reset: bool,
}

/// Accepts a language code of at least two characters (bytes, as `str::len` counts).
pub fn parse_language_code(s: &str) -> (r: Result<String, Error>)
    ensures
        s.len() < 2 <==> r is Err,
        r matches Ok(code) ==> code@ == s@,
        r matches Err(e) ==> e == Error::LanguageCodeTooShort,
{
    if s.len() < 2 {
        return Err(Error::LanguageCodeTooShort);
    }
    Ok(s.to_string())
}

} // verus!
