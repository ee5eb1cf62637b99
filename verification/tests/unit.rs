use wthrr::params::unit::{assign_arg_units, contains_text, get, ArgUnits, Units};

#[test]
fn unit_units_from_args() {
    let arg_units = [ArgUnits::Fahrenheit, ArgUnits::Mph].to_vec();
    let cfg_units = "celsius,knots";

    assert_eq!(get(&arg_units, cfg_units).unwrap(), Units { temperature: ArgUnits::Fahrenheit, speed: ArgUnits::Mph });
}

#[test]
fn unit_units_from_cfg() {
    let arg_units: Vec<ArgUnits> = [].to_vec();
    let cfg_units = "fahrenheit,kn";

    assert_eq!(get(&arg_units, cfg_units).unwrap(), Units { temperature: ArgUnits::Fahrenheit, speed: ArgUnits::Knots });
}

#[test]
fn units_split_from_args_cfg() {
    let arg_units = [ArgUnits::Fahrenheit].to_vec();
    let cfg_units = "celsius,ms";

    assert_eq!(get(&arg_units, cfg_units).unwrap(), Units { temperature: ArgUnits::Fahrenheit, speed: ArgUnits::Ms });
}

#[test]
fn units_fallback() {
    let arg_units = [].to_vec();
    let cfg_units = "non_variant";

    assert_eq!(
        get(&arg_units, cfg_units).unwrap(),
        Units { temperature: Units::default().temperature, speed: Units::default().speed }
    );
}

#[test]
fn arguments_without_temperature_set_the_speed() {
    let units = assign_arg_units(&[ArgUnits::Kmh, ArgUnits::Celsius, ArgUnits::Ms]).unwrap();
    assert_eq!(units, Units { temperature: ArgUnits::Celsius, speed: ArgUnits::Ms });
    assert!(contains_text("celsius,knots", "kn"));
    assert!(!contains_text("ms", "kmh"));
    assert!(contains_text("abc", ""));
}
