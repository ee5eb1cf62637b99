use wthrr::api::{Api, ApiName, ApiQuery};
use wthrr::args::parse_language_code;
use wthrr::border::BorderStyle;
use wthrr::config::{Config, ConfigFile, ConfigFileGraphOpts, ConfigFileGui, ConfigFileUnits};
use wthrr::date::{find_locale, localize_date, localize_date_on, Date};
use wthrr::error::Error;
use wthrr::graph::{Graph, GraphOpts, GraphRows, GraphStyle, LineVariant};
use wthrr::localization::{Locales, WeatherCodeLocales, TEXT_COUNT};
use wthrr::translation::{translation_text, translation_url, untranslated};
use wthrr::units::{Precipitation, Speed, Temperature, Time, Units};
use wthrr::weather::Weather;
use wthrr::weathercode::WeatherCode;
use wthrr::wind::WindDirection;

#[test]
fn language_codes() {
    assert_eq!(parse_language_code("de").unwrap(), "de");
    assert!(matches!(parse_language_code("d"), Err(Error::LanguageCodeTooShort)));
    assert_eq!(
        Error::LanguageCodeTooShort.message(),
        "\n  The language code must be at least two characters long."
    );
    assert_eq!(Error::CityRequired.message(), "Your configuration requires you to specify a city.");
}

#[test]
fn location_requests() {
    assert_eq!(ApiQuery::geo_ip().convert().assemble(), "https://api.geoip.rs");
    assert_eq!(
        ApiQuery::location(ApiName::OpenMeteo, "berlin", "de").convert().assemble(),
        "https://geocoding-api.open-meteo.com/v1/search?name=berlin&language=de"
    );
    assert_eq!(
        ApiQuery::location(ApiName::OpenStreetMap, "berlin", "pl").convert().assemble(),
        "https://nominatim.openstreetmap.org/search?q=berlin&accept-language=pl&limit=1&format=jsonv2"
    );
}

#[test]
fn weather_requests() {
    let units = Units {
        temperature: Temperature::fahrenheit,
        speed: Speed::mph,
        time: Time::am_pm,
        precipitation: Precipitation::probability,
    };
    let url = Weather::forecast_url("52.5", "13.4", &units);
    assert!(url.starts_with("https://api.open-meteo.com/v1/forecast?\nlatitude=52.5\n&longitude=13.4\n&current_weather=true"));
    assert!(url.contains("\n&temperature_unit=fahrenheit\n&windspeed_unit=mph\n&precipitation_unit=mm\n"));
    assert!(url.ends_with("&timezone=auto"));
    let units = Units { precipitation: Precipitation::inch, ..units };
    let url = Weather::archive_url("2021-12-31", "1", "2", &units);
    assert!(url.contains("&start_date=2021-12-31\n&end_date=2021-12-31\n"));
    assert!(url.contains("&precipitation_unit=inch\n"));
}

#[test]
fn weather_codes_and_winds() {
    let t = WeatherCodeLocales::default();
    let code = WeatherCode::resolve(0, true, &t).unwrap();
    assert_eq!(code.interpretation, "Clear Sky");
    assert_eq!(code.icon, '\u{e370}');
    assert!(matches!(WeatherCode::resolve(4, false, &t), Err(Error::UnknownWeatherCode)));
    assert_eq!(WindDirection::S.as_str(), "S");
    assert_eq!(WindDirection::NW.get_icon(), '\u{f542}');
}

#[test]
fn texts_round_trip_and_overrides() {
    let mut texts = Locales::default();
    let all = texts.texts();
    assert_eq!(all.len(), TEXT_COUNT);
    assert_eq!(all[13], "Hourly Forecast");
    texts.set_texts(&all);
    assert_eq!(texts.texts(), all);

    let mut values: Vec<Option<String>> = vec![None; TEXT_COUNT];
    values[0] = Some("Hallo".to_string());
    values[11] = Some("Luftfeuchtigkeit".to_string());
    texts.apply_overrides(&values);
    assert_eq!(texts.greeting, "Hallo");
    assert_eq!(texts.weather.humidity, "Luftfeuchtigkeit");
    assert_eq!(texts.search_station, all[1]);

    assert!(!Locales::needs_translation("en_US"));
    assert!(!Locales::needs_translation("en"));
    assert!(Locales::needs_translation("de_DE"));
}

#[test]
fn translations() {
    assert_eq!(untranslated("en_US", "tongue-twister").unwrap(), "tongue-twister");
    assert!(untranslated("de_DE", "tongue-twister").is_none());
    let pieces = Some(vec!["Zungen".to_string(), "brecher".to_string()]);
    assert_eq!(translation_text(&pieces), "Zungenbrecher");
    assert_eq!(translation_text(&None), "");
    let url = translation_url("de_DE", "Feels like").unwrap();
    assert_eq!(
        url,
        "https://translate.googleapis.com/translate_a/single?client=gtx&ie=UTF-8&oe=UTF-8&dt=t&sl=en_US&tl=de_DE&q=Feels+like"
    );
}

#[test]
fn locales_for_dates() {
    assert_eq!(find_locale("de_DE"), Some("de_DE"));
    // A language alone picks the first locale of that language.
    assert!(find_locale("pl").unwrap().starts_with("pl_"));
    assert_eq!(find_locale("xx"), None);
    let dt = Date { year: 2024, month: 10, day: 9 };
    let today = Date { year: 2024, month: 10, day: 1 };
    assert_eq!(localize_date_on(dt, "de_DE", today).unwrap(), "Mi,  9 Okt");
    // Without a locale for the language, English.
    assert_eq!(localize_date_on(dt, "xx", today).unwrap(), "Wed,  9 Oct");
    let past = Date { year: 2020, month: 2, day: 29 };
    assert_eq!(localize_date_on(past, "xx", today).unwrap(), "Sat, 29 Feb 2020");
    let bad = Date { year: 2023, month: 2, day: 30 };
    assert!(localize_date(bad, "xx").is_err());
}

#[test]
fn config_file_over_config() {
    let mut config = Config::default();
    let file = ConfigFile {
        address: Some("Berlin".to_string()),
        language: None,
        forecast: None,
        units: Some(ConfigFileUnits { temperature: Some(Temperature::fahrenheit), speed: None, time: None, precipitation: None }),
        gui: Some(ConfigFileGui {
            border: Some(BorderStyle::double),
            color: None,
            graph: Some(ConfigFileGraphOpts { style: None, rowspan: Some(GraphRows::single), time_indicator: None }),
            greeting: Some(false),
        }),
    };
    file.apply_to(&mut config);
    assert_eq!(config.address, "Berlin");
    assert_eq!(config.language, "en_US");
    assert_eq!(config.units.temperature, Temperature::fahrenheit);
    assert_eq!(config.units.speed, Speed::kmh);
    assert_eq!(config.gui.border, BorderStyle::double);
    assert_eq!(config.gui.graph.rowspan, GraphRows::single);
    assert!(config.gui.graph.time_indicator);
    assert!(!config.gui.greeting);
}

#[test]
fn graphs() {
    let opts = GraphOpts { style: GraphStyle::lines(LineVariant::slim), rowspan: GraphRows::single, time_indicator: true };
    let flat = vec![1usize; 25];
    let Graph(lower, upper) = Graph::prepare_graph(&flat, &opts);
    assert_eq!(lower, "⎼".repeat(72));
    assert_eq!(upper, "");
    let Graph(lower, upper) = Graph::prepare_graph(&[], &opts);
    assert_eq!((lower.as_str(), upper.as_str()), ("", ""));
    let opts = GraphOpts { style: GraphStyle::dotted, rowspan: GraphRows::double, time_indicator: true };
    let high = vec![7usize; 25];
    let Graph(lower, upper) = Graph::prepare_graph(&high, &opts);
    assert_eq!(lower, "⣿".repeat(72));
    assert_eq!(upper, "⣿".repeat(72));
}

#[test]
fn empty_config_file_changes_nothing() {
    let mut config = Config::default();
    let file = ConfigFile { address: None, language: None, forecast: None, units: None, gui: None };
    file.apply_to(&mut config);
    assert_eq!(config.address, "");
    assert_eq!(config.language, "en_US");
    assert!(config.forecast.is_empty());
    assert_eq!(config.units, Units::default());
    assert_eq!(config.gui.border, BorderStyle::rounded);
    assert!(config.gui.greeting && config.gui.graph.time_indicator);
}
