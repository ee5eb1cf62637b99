use wthrr::args::{Cli, Forecast, UnitArg};
use wthrr::config::Config;
use wthrr::error::Error;
use wthrr::forecast::Weekday;
use wthrr::localization::Locales;
use wthrr::location::{auto_address, resolve_input, AddressSource};
use wthrr::params::{dedup_forecast, NextStep, Params, SaveOutcome};
use wthrr::units::{Precipitation, Speed, Temperature, Time, Units};

fn greeting_get(toggle: bool, cfg: Option<bool>) -> bool {
    wthrr::params::greeting::get(toggle, cfg).unwrap()
}

#[test]
fn handle_greeting_state_from_arg() {
    // Toggle flag while greeting enabled in cfg
    assert_eq!(greeting_get(true, Some(true)), false);
    // Toggle flag while greeting disabled in cfg
    assert_eq!(greeting_get(true, Some(false)), true);
}

#[test]
fn handle_greeting_state_from_cfg() {
    assert_eq!(greeting_get(false, Some(true)), true);
    assert_eq!(greeting_get(false, Some(false)), false);
}

#[test]
fn forecast_from_args() {
    let forecast_args = &[Forecast::day, Forecast::week];
    let forecast_cfg = None;

    assert_eq!(wthrr::params::forecast::get(forecast_args, forecast_cfg).unwrap(), [Forecast::day, Forecast::week]);
}

#[test]
fn forecast_from_cfg() {
    let forecast_args = &[];
    let forecast_cfg = Some([Forecast::day, Forecast::week].to_vec());

    assert_eq!(wthrr::params::forecast::get(forecast_args, forecast_cfg).unwrap(), [Forecast::day, Forecast::week]);
}

#[test]
fn forecast_from_cfg_partial() {
    let forecast_args = &[];
    let forecast_cfg = Some([Forecast::day].to_vec());

    assert_eq!(wthrr::params::forecast::get(forecast_args, forecast_cfg).unwrap(), [Forecast::day]);
}

#[test]
fn lang_from_arg() {
    let lang_arg = "pl";
    let config = Config { language: "de".to_string(), ..Default::default() };

    assert!(wthrr::params::language::get(lang_arg, &config.language).unwrap().contains("pl"));
}

#[test]
fn lang_from_cfg() {
    let lang_arg = "";
    let config = Config { language: "de".to_string(), ..Default::default() };

    assert!(wthrr::params::language::get(lang_arg, &config.language).unwrap().contains("de"));
}

#[test]
fn lang_falls_back_to_english() {
    assert_eq!(wthrr::params::language::get("", "").unwrap(), "en_US");
}

#[test]
fn units_units_from_args() {
    let arg_units = [UnitArg::Fahrenheit, UnitArg::Mph, UnitArg::AmPm, UnitArg::Inch];
    let cfg_units = Units::default();

    assert_eq!(
        Units::get(&arg_units, &cfg_units),
        Units {
            temperature: Temperature::fahrenheit,
            speed: Speed::mph,
            time: Time::am_pm,
            precipitation: Precipitation::inch,
        }
    );
}

#[test]
fn units_units_from_cfg() {
    let arg_units = [];
    let cfg_units = Units {
        temperature: Temperature::fahrenheit,
        speed: Speed::knots,
        time: Time::am_pm,
        precipitation: Precipitation::inch,
    };

    assert_eq!(Units::get(&arg_units, &cfg_units), cfg_units);
}

#[test]
fn units_split_from_args_and_cfg() {
    let arg_units = [UnitArg::Fahrenheit, UnitArg::AmPm];
    let cfg_units = Units {
        temperature: Temperature::celsius,
        speed: Speed::ms,
        time: Time::military,
        precipitation: Precipitation::inch,
    };

    assert_eq!(
        Units::get(&arg_units, &cfg_units),
        Units {
            temperature: Temperature::fahrenheit,
            speed: cfg_units.speed,
            time: Time::am_pm,
            precipitation: cfg_units.precipitation,
        }
    );
}

#[test]
fn last_unit_of_a_kind_wins() {
    let units = Units::get(&[UnitArg::Fahrenheit, UnitArg::Celsius, UnitArg::Mm, UnitArg::Probability], &Units::default());
    assert_eq!(units.temperature, Temperature::celsius);
    assert_eq!(units.precipitation, Precipitation::probability);
    // `kn` asks for knots.
    let units = Units::get(&[UnitArg::Knots], &Units::default());
    assert_eq!(units.speed, Speed::knots);
    assert_eq!(units.temperature, Temperature::celsius);
}

fn given(input: &wthrr::location::AddressInput) -> String {
    match &input.source {
        AddressSource::Given(a) => a.clone(),
        _ => panic!("no address given"),
    }
}

#[test]
fn location_address_from_arg() {
    let arg_address = "new york";
    let texts = Locales::default();
    let config = Config { address: "Berlin, DE".to_string(), ..Default::default() };

    let input = resolve_input(arg_address, &config, &texts).unwrap();
    assert!(given(&input).contains("new york"));
}

#[test]
fn location_address_from_cfg() {
    let arg_address = "";
    let texts = Locales::default();
    let config = Config { address: "Berlin, DE".to_string(), ..Default::default() };

    let input = resolve_input(arg_address, &config, &texts).unwrap();
    assert!(given(&input).contains("Berlin"));
}

#[test]
fn address_sources() {
    let texts = Locales::default();
    let config = Config::default();
    // Nothing given and nothing configured: ask, greeting without indent.
    let input = resolve_input("", &config, &texts).unwrap();
    assert!(matches!(input.source, AddressSource::Ask));
    assert_eq!(input.greeting.unwrap(), " 🦀  Hey friend. I'm glad you are asking.");
    // "auto" looks the place up, greeting indented.
    let input = resolve_input("auto", &config, &texts).unwrap();
    assert!(matches!(input.source, AddressSource::GeoIp));
    assert_eq!(input.greeting.unwrap(), "  🦀  Hey friend. I'm glad you are asking.");
    // A configuration that always asks for an address needs one.
    let config = Config { address: "arg_input".to_string(), ..Default::default() };
    assert!(matches!(resolve_input("", &config, &texts), Err(Error::CityRequired)));
    // Without greeting.
    let mut config = Config { address: "auto".to_string(), ..Default::default() };
    config.gui.greeting = false;
    let input = resolve_input("", &config, &texts).unwrap();
    assert!(matches!(input.source, AddressSource::GeoIp));
    assert!(input.greeting.is_none());
    assert_eq!(auto_address("Berlin", "DE"), "Berlin,DE");
}

fn cli() -> Cli {
    Cli {
        address: None,
        forecast: vec![],
        historical_weather: vec![],
        units: vec![],
        language: None,
        save: false,
        reset: false,
    }
}

#[test]
fn merge_keeps_each_forecast_once() {
    let config = Config { forecast: vec![Forecast::week], ..Default::default() };
    let mut args = cli();
    args.forecast = vec![Forecast::day, Forecast::mo, Forecast::day, Forecast::mo];
    args.language = Some("de".to_string());
    args.units = vec![UnitArg::Fahrenheit];
    args.historical_weather = vec![(2021, 12, 31), (2021, 12, 31), (2022, 1, 1)];
    let params = Params::merge(&config, &args, Locales::default(), "Berlin".to_string());
    assert_eq!(params.config.forecast, vec![Forecast::day, Forecast::mo]);
    assert_eq!(params.config.language, "de");
    assert_eq!(params.config.address, "Berlin");
    assert_eq!(params.config.units.temperature, Temperature::fahrenheit);
    // A weekday turns the time marker off.
    assert!(!params.config.gui.graph.time_indicator);
    assert_eq!(params.historical_weather.len(), 2);
    assert_eq!(params.historical_weather[1].day, 1);
}

#[test]
fn merge_disable_clears_forecast() {
    let config = Config { forecast: vec![Forecast::day, Forecast::disable], ..Default::default() };
    let params = Params::merge(&config, &cli(), Locales::default(), String::new());
    assert!(params.config.forecast.is_empty());
    assert!(params.config.gui.graph.time_indicator);
    assert_eq!(params.config.language, "en_US");
    assert_eq!(dedup_forecast(&vec![Forecast::su, Forecast::su]), vec![Forecast::su]);
}

#[test]
fn merge_marks_the_panels_asked_for() {
    let mut args = cli();
    args.forecast = vec![Forecast::mo, Forecast::week, Forecast::mo, Forecast::tomorrow];
    // On a Wednesday the coming Monday is five days ahead.
    let params = Params::merge_on(&Config::default(), &args, Locales::default(), "Berlin".to_string(), Weekday::Wed);
    assert_eq!(params.forecast_indices, [false, true, false, false, false, true, false, true, false]);
    args.forecast = vec![Forecast::day, Forecast::we, Forecast::disable];
    let params = Params::merge_on(&Config::default(), &args, Locales::default(), "Berlin".to_string(), Weekday::Wed);
    assert_eq!(params.forecast_indices, [true, false, false, false, false, false, false, false, true]);
    assert!(params.config.forecast.is_empty());
    // Nothing asked for and nothing configured: no panel is marked.
    let params = Params::merge(&Config::default(), &cli(), Locales::default(), "Berlin".to_string());
    assert_eq!(params.forecast_indices, [false; 9]);
}

#[test]
fn next_steps_and_save_choices() {
    let stored = Config { address: "Berlin".to_string(), ..Default::default() };
    assert_eq!(Params::next_step(false, &stored), NextStep::Done);
    assert_eq!(Params::next_step(true, &stored), NextStep::Store);
    assert_eq!(Params::next_step(false, &Config::default()), NextStep::Prompt);

    let mut params = Params::merge(&Config::default(), &cli(), Locales::default(), "Berlin".to_string());
    assert_eq!(params.save_choices("").len(), 4);
    assert_eq!(params.save_choices("Berlin").len(), 3);
    assert_eq!(params.apply_save_choice(1), SaveOutcome::Skip);
    assert_eq!(params.config.address, "Berlin");
    assert_eq!(params.apply_save_choice(3), SaveOutcome::Store);
    assert_eq!(params.config.address, "auto");
    assert_eq!(params.apply_save_choice(2), SaveOutcome::Store);
    assert_eq!(params.config.address, "arg_input");
    assert_eq!(params.apply_save_choice(9), SaveOutcome::StoreUnchosen);

    let mut file = Config::default();
    file.gui.graph.time_indicator = true;
    params.config.gui.graph.time_indicator = false;
    assert!(params.config_to_keep(&file).gui.graph.time_indicator);
}
