use vstd::prelude::*;

verus! {

/// The ways the library's operations fail.
#[derive(PartialEq, Eq, Structural, Debug, Clone, Copy)]
pub enum Error {
    /// A weather code that is not one of the WMO codes Open-Meteo uses.
    UnknownWeatherCode,
    /// A language code shorter than two characters.
    LanguageCodeTooShort,
    /// The configuration asks for an address on the command line and none was given.
    CityRequired,
    /// A date or time that cannot be read or shown.
    InvalidDate,
    /// A locale name that chrono does not know.
    UnknownLocale,
    /// A wind direction outside the compass.
    UnknownWindDirection,
    /// A request whose URL cannot be made.
    InvalidUrl,
}

impl Error {
    /// The message shown to the user.
    pub open spec fn message_text(self) -> Seq<char> {
        match self {
            Error::UnknownWeatherCode => "Unknown weather code"@,
            Error::LanguageCodeTooShort => "\n  The language code must be at least two characters long."@,
            Error::CityRequired => "Your configuration requires you to specify a city."@,
            Error::InvalidDate => "Invalid date"@,
            Error::UnknownLocale => "Unknown locale"@,
            Error::UnknownWindDirection => "Wind from another dimension"@,
            Error::InvalidUrl => "relative URL without a base"@,
        }
    }

    pub fn message(&self) -> (r: String)
        ensures
            r@ == self.message_text(),
    {
        match self {
            Error::UnknownWeatherCode => "Unknown weather code".to_string(),
            Error::LanguageCodeTooShort => "\n  The language code must be at least two characters long.".to_string(),
            Error::CityRequired => "Your configuration requires you to specify a city.".to_string(),
            Error::InvalidDate => "Invalid date".to_string(),
            Error::UnknownLocale => "Unknown locale".to_string(),
            Error::UnknownWindDirection => "Wind from another dimension".to_string(),
            Error::InvalidUrl => "relative URL without a base".to_string(),
        }
    }
}

} // verus!
