use vstd::prelude::*;

use crate::error::Error;
use crate::localization::WeatherCodeLocales;

verus! {

/// The WMO weather codes that Open-Meteo reports.
pub open spec fn is_known_code(code: u8) -> bool {
    match code {
        0 | 1 | 2 | 3 | 45 | 48 | 51 | 53 | 55 | 56 | 57 | 61 | 63 | 65 | 66 | 67 | 71 | 73 | 75 | 77 | 80 | 81 | 82 | 85 | 86 | 95 | 96 | 99 => true,
        _ => false,
    }
}

/// The nerd-font icon of a weather code, by day or by night.
pub open spec fn code_icon(code: u8, is_night: bool) -> char {
    match code {
        0 => if is_night { '\u{e370}' } else { '\u{e30d}' },
        1 => if is_night { '\u{e37b}' } else { '\u{e30c}' },
        2 => if is_night { '\u{e32e}' } else { '\u{e302}' },
        3 => '\u{e312}',
        45 => if is_night { '\u{e346}' } else { '\u{e313}' },
        48 => '\u{e313}',
        51 => if is_night { '\u{e336}' } else { '\u{e308}' },
        53 => if is_night { '\u{e326}' } else { '\u{e308}' },
        55 => if is_night { '\u{e325}' } else { '\u{e308}' },
        56 => if is_night { '\u{e3ac}' } else { '\u{fb7d}' },
        57 => if is_night { '\u{e321}' } else { '\u{fb7d}' },
        61 => if is_night { '\u{e336}' } else { '\u{e31b}' },
        63 => if is_night { '\u{e334}' } else { '\u{e31b}' },
        65 => if is_night { '\u{e333}' } else { '\u{e318}' },
        66 => if is_night { '\u{e3ac}' } else { '\u{e3ad}' },
        67 => if is_night { '\u{e331}' } else { '\u{e314}' },
        71 => if is_night { '\u{e335}' } else { '\u{e31a}' },
        73 => if is_night { '\u{e335}' } else { '\u{e31a}' },
        75 => if is_night { '\u{e360}' } else { '\u{e35e}' },
        77 => '\u{e36f}',
        80 => if is_night { '\u{e336}' } else { '\u{e31b}' },
        81 => if is_night { '\u{e308}' } else { '\u{e31b}' },
        82 => if is_night { '\u{e332}' } else { '\u{e317}' },
        85 => if is_night { '\u{e335}' } else { '\u{e31a}' },
        86 => if is_night { '\u{e335}' } else { '\u{e31a}' },
        95 => if is_night { '\u{e32a}' } else { '\u{e31d}' },
        96 => if is_night { '\u{e367}' } else { '\u{e31c}' },
        99 => if is_night { '\u{e364}' } else { '\u{e31c}' },
        _ => ' ',
    }
}

/// The (translated) words for a weather code.
pub open spec fn code_interpretation(code: u8, t: WeatherCodeLocales) -> Seq<char> {
    match code {
        0 => t.clear_sky@,
        1 => t.mostly_clear@,
        2 => t.partly_cloudy@,
        3 => t.overcast@,
        45 => t.fog@,
        48 => t.depositing_rime_fog@,
        51 => t.light_drizzle@,
        53 => t.moderate_drizzle@,
        55 => t.dense_drizzle@,
        56 => t.light_freezing_drizzle@,
        57 => t.dense_freezing_drizzle@,
        61 => t.slight_rain@,
        63 => t.moderate_rain@,
        65 => t.heavy_rain@,
        66 => t.light_freezing_rain@,
        67 => t.heavy_freezing_rain@,
        71 => t.slight_snow_fall@,
        73 => t.moderate_snow_fall@,
        75 => t.heavy_snow_fall@,
        77 => t.snow_grains@,
        80 => t.slight_rain_showers@,
        81 => t.moderate_rain_showers@,
        82 => t.violent_rain_showers@,
        85 => t.slight_snow_showers@,
        86 => t.heavy_snow_showers@,
        95 => t.thunderstorm@,
        96 => t.thunderstorm_slight_hail@,
        99 => t.thunderstorm_heavy_hail@,
        _ => Seq::empty(),
    }
}

/// The WMO weather codes Open-Meteo sends are exactly these 28, and each is
/// told by the text of its own WMO name: 0 clear sky, 1 mostly clear, 2
/// partly cloudy, 3 overcast, 45 fog, 48 depositing rime fog, 51, 53 and 55
/// light, moderate and dense drizzle, 56 and 57 light and dense freezing
/// drizzle, 61, 63 and 65 slight, moderate and heavy rain, 66 and 67 light
/// and heavy freezing rain, 71, 73 and 75 slight, moderate and heavy snow
/// fall, 77 snow grains, 80, 81 and 82 slight, moderate and violent rain
/// showers, 85 and 86 slight and heavy snow showers, 95 thunderstorm, 96 and
/// 99 thunderstorm with slight and heavy hail.
pub proof fn lemma_codes_are_named(code: u8, t: WeatherCodeLocales)
    ensures
        is_known_code(code) <==> (code == 0 || code == 1 || code == 2 || code == 3 || code == 45 || code == 48 || code == 51 || code == 53 || code == 55 || code == 56 || code == 57 || code == 61 || code == 63 || code == 65 || code == 66 || code == 67 || code == 71 || code == 73 || code == 75 || code == 77 || code == 80 || code == 81 || code == 82 || code == 85 || code == 86 || code == 95 || code == 96 || code == 99),
        code_interpretation(0, t) == t.clear_sky@,
        code_interpretation(1, t) == t.mostly_clear@,
        code_interpretation(2, t) == t.partly_cloudy@,
        code_interpretation(3, t) == t.overcast@,
        code_interpretation(45, t) == t.fog@,
        code_interpretation(48, t) == t.depositing_rime_fog@,
        code_interpretation(51, t) == t.light_drizzle@,
        code_interpretation(53, t) == t.moderate_drizzle@,
        code_interpretation(55, t) == t.dense_drizzle@,
        code_interpretation(56, t) == t.light_freezing_drizzle@,
        code_interpretation(57, t) == t.dense_freezing_drizzle@,
        code_interpretation(61, t) == t.slight_rain@,
        code_interpretation(63, t) == t.moderate_rain@,
        code_interpretation(65, t) == t.heavy_rain@,
        code_interpretation(66, t) == t.light_freezing_rain@,
        code_interpretation(67, t) == t.heavy_freezing_rain@,
        code_interpretation(71, t) == t.slight_snow_fall@,
        code_interpretation(73, t) == t.moderate_snow_fall@,
        code_interpretation(75, t) == t.heavy_snow_fall@,
        code_interpretation(77, t) == t.snow_grains@,
        code_interpretation(80, t) == t.slight_rain_showers@,
        code_interpretation(81, t) == t.moderate_rain_showers@,
        code_interpretation(82, t) == t.violent_rain_showers@,
        code_interpretation(85, t) == t.slight_snow_showers@,
        code_interpretation(86, t) == t.heavy_snow_showers@,
        code_interpretation(95, t) == t.thunderstorm@,
        code_interpretation(96, t) == t.thunderstorm_slight_hail@,
        code_interpretation(99, t) == t.thunderstorm_heavy_hail@,
        !is_known_code(code) ==> code_interpretation(code, t) == Seq::<char>::empty(),
{
}

/// The icons of the codes: by day, clear sky is a sun, clouds a cloud, rain,
/// snow and thunder their own glyphs; by night, clear sky is a moon.
pub proof fn lemma_code_icons(code: u8)
    ensures
        code_icon(0, false) == '\u{e30d}' && code_icon(0, true) == '\u{e370}',
        code_icon(1, false) == '\u{e30c}' && code_icon(1, true) == '\u{e37b}',
        code_icon(2, false) == '\u{e302}' && code_icon(2, true) == '\u{e32e}',
        code_icon(3, false) == '\u{e312}' && code_icon(3, true) == '\u{e312}',
        code_icon(45, false) == '\u{e313}' && code_icon(45, true) == '\u{e346}',
        code_icon(48, false) == '\u{e313}' && code_icon(48, true) == '\u{e313}',
        code_icon(51, false) == '\u{e308}' && code_icon(51, true) == '\u{e336}',
        code_icon(53, false) == '\u{e308}' && code_icon(53, true) == '\u{e326}',
        code_icon(55, false) == '\u{e308}' && code_icon(55, true) == '\u{e325}',
        code_icon(56, false) == '\u{fb7d}' && code_icon(56, true) == '\u{e3ac}',
        code_icon(57, false) == '\u{fb7d}' && code_icon(57, true) == '\u{e321}',
        code_icon(61, false) == '\u{e31b}' && code_icon(61, true) == '\u{e336}',
        code_icon(63, false) == '\u{e31b}' && code_icon(63, true) == '\u{e334}',
        code_icon(65, false) == '\u{e318}' && code_icon(65, true) == '\u{e333}',
        code_icon(66, false) == '\u{e3ad}' && code_icon(66, true) == '\u{e3ac}',
        code_icon(67, false) == '\u{e314}' && code_icon(67, true) == '\u{e331}',
        code_icon(71, false) == '\u{e31a}' && code_icon(71, true) == '\u{e335}',
        code_icon(73, false) == '\u{e31a}' && code_icon(73, true) == '\u{e335}',
        code_icon(75, false) == '\u{e35e}' && code_icon(75, true) == '\u{e360}',
        code_icon(77, false) == '\u{e36f}' && code_icon(77, true) == '\u{e36f}',
        code_icon(80, false) == '\u{e31b}' && code_icon(80, true) == '\u{e336}',
        code_icon(81, false) == '\u{e31b}' && code_icon(81, true) == '\u{e308}',
        code_icon(82, false) == '\u{e317}' && code_icon(82, true) == '\u{e332}',
        code_icon(85, false) == '\u{e31a}' && code_icon(85, true) == '\u{e335}',
        code_icon(86, false) == '\u{e31a}' && code_icon(86, true) == '\u{e335}',
        code_icon(95, false) == '\u{e31d}' && code_icon(95, true) == '\u{e32a}',
        code_icon(96, false) == '\u{e31c}' && code_icon(96, true) == '\u{e367}',
        code_icon(99, false) == '\u{e31c}' && code_icon(99, true) == '\u{e364}',
        !is_known_code(code) ==> code_icon(code, false) == ' ' && code_icon(code, true) == ' ',
{
}

/// How a weather code is shown: its words and its icon.
pub struct WeatherCode {
    pub interpretation: String,
    pub icon: char,
}

impl WeatherCode {
    pub fn resolve(weather_code: u8, is_night: bool, t: &WeatherCodeLocales) -> (r: Result<Self, Error>)
        ensures
            is_known_code(weather_code) <==> r is Ok,
            r matches Ok(w) ==> w.interpretation@ == code_interpretation(weather_code, *t)
                && w.icon == code_icon(weather_code, is_night),
            r matches Err(e) ==> e == Error::UnknownWeatherCode,
    {
        let res: (&String, char) = match weather_code {
            0 => (&t.clear_sky, if is_night { '\u{e370}' } else { '\u{e30d}' }),
            1 => (&t.mostly_clear, if is_night { '\u{e37b}' } else { '\u{e30c}' }),
            2 => (&t.partly_cloudy, if is_night { '\u{e32e}' } else { '\u{e302}' }),
            3 => (&t.overcast, '\u{e312}'),
            45 => (&t.fog, if is_night { '\u{e346}' } else { '\u{e313}' }),
            48 => (&t.depositing_rime_fog, '\u{e313}'),
            51 => (&t.light_drizzle, if is_night { '\u{e336}' } else { '\u{e308}' }),
            53 => (&t.moderate_drizzle, if is_night { '\u{e326}' } else { '\u{e308}' }),
            55 => (&t.dense_drizzle, if is_night { '\u{e325}' } else { '\u{e308}' }),
            56 => (&t.light_freezing_drizzle, if is_night { '\u{e3ac}' } else { '\u{fb7d}' }),
            57 => (&t.dense_freezing_drizzle, if is_night { '\u{e321}' } else { '\u{fb7d}' }),
            61 => (&t.slight_rain, if is_night { '\u{e336}' } else { '\u{e31b}' }),
            63 => (&t.moderate_rain, if is_night { '\u{e334}' } else { '\u{e31b}' }),
            65 => (&t.heavy_rain, if is_night { '\u{e333}' } else { '\u{e318}' }),
            66 => (&t.light_freezing_rain, if is_night { '\u{e3ac}' } else { '\u{e3ad}' }),
            67 => (&t.heavy_freezing_rain, if is_night { '\u{e331}' } else { '\u{e314}' }),
            71 => (&t.slight_snow_fall, if is_night { '\u{e335}' } else { '\u{e31a}' }),
            73 => (&t.moderate_snow_fall, if is_night { '\u{e335}' } else { '\u{e31a}' }),
            75 => (&t.heavy_snow_fall, if is_night { '\u{e360}' } else { '\u{e35e}' }),
            77 => (&t.snow_grains, '\u{e36f}'),
            80 => (&t.slight_rain_showers, if is_night { '\u{e336}' } else { '\u{e31b}' }),
            81 => (&t.moderate_rain_showers, if is_night { '\u{e308}' } else { '\u{e31b}' }),
            82 => (&t.violent_rain_showers, if is_night { '\u{e332}' } else { '\u{e317}' }),
            85 => (&t.slight_snow_showers, if is_night { '\u{e335}' } else { '\u{e31a}' }),
            86 => (&t.heavy_snow_showers, if is_night { '\u{e335}' } else { '\u{e31a}' }),
            95 => (&t.thunderstorm, if is_night { '\u{e32a}' } else { '\u{e31d}' }),
            96 => (&t.thunderstorm_slight_hail, if is_night { '\u{e367}' } else { '\u{e31c}' }),
            99 => (&t.thunderstorm_heavy_hail, if is_night { '\u{e364}' } else { '\u{e31c}' }),
            _ => return Err(Error::UnknownWeatherCode),
        };
        Ok(WeatherCode { interpretation: res.0.clone(), icon: res.1 })
    }
}

} // verus!
