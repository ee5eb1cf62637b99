use vstd::prelude::*;

use crate::error::Error;

verus! {

/// The units of the earlier settings: a temperature and a speed unit, or none.
#[derive(PartialEq, Eq, Structural, Debug, Clone, Copy)]
pub enum ArgUnits {
    Celsius,
    Fahrenheit,
    Kmh,
    Mph,
    Knots,
    Ms,
    NoUnit,
}

impl ArgUnits {
    /// The name of a unit: snake case, and `kn` for knots.
    pub open spec fn name(self) -> Seq<char> {
        match self {
            ArgUnits::Celsius => "celsius"@,
            ArgUnits::Fahrenheit => "fahrenheit"@,
            ArgUnits::Kmh => "kmh"@,
            ArgUnits::Mph => "mph"@,
            ArgUnits::Knots => "kn"@,
            ArgUnits::Ms => "ms"@,
            ArgUnits::NoUnit => "none"@,
        }
    }

    pub fn as_str(&self) -> (r: &'static str)
        ensures
            r@ == self.name(),
    {
        match self {
            ArgUnits::Celsius => "celsius",
            ArgUnits::Fahrenheit => "fahrenheit",
            ArgUnits::Kmh => "kmh",
            ArgUnits::Mph => "mph",
            ArgUnits::Knots => "kn",
            ArgUnits::Ms => "ms",
            ArgUnits::NoUnit => "none",
        }
    }
}

/// A temperature unit and a speed unit.
#[derive(PartialEq, Eq, Structural, Debug, Clone, Copy)]
pub struct Units {
    pub temperature: ArgUnits,
    pub speed: ArgUnits,
}

impl Default for Units {
    fn default() -> (r: Self)
        ensures
            r == (Units { temperature: ArgUnits::Celsius, speed: ArgUnits::Kmh }),
    {
        Self { temperature: ArgUnits::Celsius, speed: ArgUnits::Kmh }
    }
}

/// Whether `needle` occurs in `hay`.
pub open spec fn occurs_in(hay: Seq<char>, needle: Seq<char>) -> bool {
    exists|i: int| 0 <= i && i + needle.len() <= hay.len() && #[trigger] hay.subrange(i, i + needle.len()) == needle
}

/// Whether `needle` occurs in `hay`.
pub fn contains_text(hay: &str, needle: &str) -> (r: bool)
    ensures
        r == occurs_in(hay@, needle@),
{
    let n = hay.unicode_len();
    let m = needle.unicode_len();
    if m > n {
        proof {
            assert forall|i: int| 0 <= i && i + needle@.len() <= hay@.len() implies #[trigger] hay@.subrange(
                i,
                i + needle@.len(),
            ) != needle@ by {}
        }
        return false;
    }
    let mut i: usize = 0;
    while i <= n - m
        invariant
            n == hay@.len(),
            m == needle@.len(),
            m <= n,
            i <= n - m + 1,
            forall|j: int| 0 <= j < i ==> #[trigger] hay@.subrange(j, j + m) != needle@,
        decreases n - i,
    {
        let mut k: usize = 0;
        let mut same = true;
        while k < m
            invariant
                i + m <= n,
                n == hay@.len(),
                m == needle@.len(),
                k <= m,
                same == (forall|q: int| 0 <= q < k ==> hay@[i + q] == needle@[q]),
            decreases m - k,
        {
            if hay.get_char(i + k) != needle.get_char(k) {
                same = false;
            }
            k = k + 1;
        }
        if same {
            assert(hay@.subrange(i as int, i + m) =~= needle@);
            return true;
        }
        proof {
            let q = choose|q: int| 0 <= q < m && hay@[i + q] != needle@[q];
            assert(hay@.subrange(i as int, i + m)[q] != needle@[q]);
        }
        i = i + 1;
    }
    false
}

/// The units the arguments give: a temperature argument sets the temperature,
/// any other the speed, the last one of each winning; none where none is given.
pub open spec fn arg_units_of(args: Seq<ArgUnits>) -> Units
    decreases args.len(),
{
    if args.len() == 0 {
        Units { temperature: ArgUnits::NoUnit, speed: ArgUnits::NoUnit }
    } else {
        let u = arg_units_of(args.drop_last());
        match args.last() {
            ArgUnits::Celsius | ArgUnits::Fahrenheit => Units { temperature: args.last(), ..u },
            _ => Units { speed: args.last(), ..u },
        }
    }
}

/// The temperature unit the configured units name, checked in this order.
pub open spec fn configured_temperature(cfg: Seq<char>) -> ArgUnits {
    if occurs_in(cfg, ArgUnits::Fahrenheit.name()) {
        ArgUnits::Fahrenheit
    } else if occurs_in(cfg, ArgUnits::Celsius.name()) {
        ArgUnits::Celsius
    } else {
        ArgUnits::Celsius
    }
}

/// The speed unit the configured units name, checked in this order.
pub open spec fn configured_speed(cfg: Seq<char>) -> ArgUnits {
    if occurs_in(cfg, ArgUnits::Kmh.name()) {
        ArgUnits::Kmh
    } else if occurs_in(cfg, ArgUnits::Mph.name()) {
        ArgUnits::Mph
    } else if occurs_in(cfg, ArgUnits::Knots.name()) {
        ArgUnits::Knots
    } else if occurs_in(cfg, ArgUnits::Ms.name()) {
        ArgUnits::Ms
    } else {
        ArgUnits::Kmh
    }
}

/// The units given as arguments; those not given are read from the
/// configured units (a text such as `celsius,knots`), else the defaults.
pub fn get(arg_units: &[ArgUnits], config_units: &str) -> (r: Result<Units, Error>)
    ensures
        r matches Ok(u) && u == ({
            let a = arg_units_of(arg_units@);
            Units {
                temperature: if a.temperature == ArgUnits::NoUnit {
                    configured_temperature(config_units@)
                } else {
                    a.temperature
                },
                speed: if a.speed == ArgUnits::NoUnit {
                    configured_speed(config_units@)
                } else {
                    a.speed
                },
            }
        }),
{
    let mut units = assign_arg_units(arg_units)?;

    if units.temperature == ArgUnits::NoUnit {
        units.temperature = if contains_text(config_units, ArgUnits::Fahrenheit.as_str()) {
            ArgUnits::Fahrenheit
        } else if contains_text(config_units, ArgUnits::Celsius.as_str()) {
            ArgUnits::Celsius
        } else {
            Units::default().temperature
        };
    }
    if units.speed == ArgUnits::NoUnit {
        units.speed = if contains_text(config_units, ArgUnits::Kmh.as_str()) {
            ArgUnits::Kmh
        } else if contains_text(config_units, ArgUnits::Mph.as_str()) {
            ArgUnits::Mph
        } else if contains_text(config_units, ArgUnits::Knots.as_str()) {
            ArgUnits::Knots
        } else if contains_text(config_units, ArgUnits::Ms.as_str()) {
            ArgUnits::Ms
        } else {
            Units::default().speed
        };
    }

    Ok(units)
}

/// The units the arguments give: a temperature argument sets the
/// temperature, any other the speed.
pub fn assign_arg_units(arg_units: &[ArgUnits]) -> (r: Result<Units, Error>)
    ensures
        r matches Ok(u) && u == arg_units_of(arg_units@),
{
    let mut units = Units { temperature: ArgUnits::NoUnit, speed: ArgUnits::NoUnit };
    let mut i: usize = 0;
    while i < arg_units.len()
        invariant
            i <= arg_units@.len(),
            units == arg_units_of(arg_units@.subrange(0, i as int)),
        decreases arg_units@.len() - i,
    {
        let val = arg_units[i];
        match val {
            ArgUnits::Celsius | ArgUnits::Fahrenheit => {
                units.temperature = val;
            },
            _ => {
                units.speed = val;
            },
        }
        proof {
            let next = arg_units@.subrange(0, i + 1);
            assert(next.drop_last() =~= arg_units@.subrange(0, i as int));
        }
        i = i + 1;
    }
    assert(arg_units@.subrange(0, arg_units@.len() as int) =~= arg_units@);
    Ok(units)
}

} // verus!
