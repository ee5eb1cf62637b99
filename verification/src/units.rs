use vstd::prelude::*;

use crate::args::UnitArg;
use crate::text::str_equal;

verus! {

/// The units the weather is shown in.
#[derive(PartialEq, Eq, Structural, Debug, Clone, Copy)]
pub struct Units {
    pub temperature: Temperature,
    pub speed: Speed,
    pub time: Time,
    pub precipitation: Precipitation,
}

#[derive(PartialEq, Eq, Structural, Debug, Clone, Copy)]
#[allow(non_camel_case_types)]
pub enum Temperature {
    celsius,
    fahrenheit,
}

#[derive(PartialEq, Eq, Structural, Debug, Clone, Copy)]
#[allow(non_camel_case_types)]
pub enum Speed {
    kmh,
    mph,
    knots,
    ms,
}

#[derive(PartialEq, Eq, Structural, Debug, Clone, Copy)]
#[allow(non_camel_case_types)]
pub enum Time {
    am_pm,
    military,
}

#[derive(PartialEq, Eq, Structural, Debug, Clone, Copy)]
#[allow(non_camel_case_types)]
pub enum Precipitation {
    probability,
    mm,
    inch,
}

impl Default for Units {
    fn default() -> (r: Self)
        ensures
            r == (Units {
                temperature: Temperature::celsius,
                speed: Speed::kmh,
                time: Time::military,
                precipitation: Precipitation::probability,
            }),
    {
        Units {
            temperature: Temperature::celsius,
            speed: Speed::kmh,
            time: Time::military,
            precipitation: Precipitation::probability,
        }
    }
}

/// The temperature unit of that name (its variant's name).
pub open spec fn temperature_named(name: Seq<char>) -> Option<Temperature> {
    if name == "celsius"@ {
        Some(Temperature::celsius)
    } else if name == "fahrenheit"@ {
        Some(Temperature::fahrenheit)
    } else {
        None
    }
}

/// The speed unit of that name (its variant's name, or `kn` for knots).
pub open spec fn speed_named(name: Seq<char>) -> Option<Speed> {
    if name == "kmh"@ {
        Some(Speed::kmh)
    } else if name == "mph"@ {
        Some(Speed::mph)
    } else if name == "knots"@ || name == "kn"@ {
        Some(Speed::knots)
    } else if name == "ms"@ {
        Some(Speed::ms)
    } else {
        None
    }
}

/// The time format of that name (its variant's name).
pub open spec fn time_named(name: Seq<char>) -> Option<Time> {
    if name == "am_pm"@ {
        Some(Time::am_pm)
    } else if name == "military"@ {
        Some(Time::military)
    } else {
        None
    }
}

/// The precipitation unit of that name (its variant's name).
pub open spec fn precipitation_named(name: Seq<char>) -> Option<Precipitation> {
    if name == "probability"@ {
        Some(Precipitation::probability)
    } else if name == "mm"@ {
        Some(Precipitation::mm)
    } else if name == "inch"@ {
        Some(Precipitation::inch)
    } else {
        None
    }
}

impl Temperature {
    pub open spec fn name(self) -> Seq<char> {
        match self {
            Temperature::celsius => "celsius"@,
            Temperature::fahrenheit => "fahrenheit"@,
        }
    }

    pub fn as_str(&self) -> (r: &'static str)
        ensures
            r@ == self.name(),
    {
        match self {
            Temperature::celsius => "celsius",
            Temperature::fahrenheit => "fahrenheit",
        }
    }

    pub fn from_name(name: &str) -> (r: Option<Temperature>)
        ensures
            r == temperature_named(name@),
    {
        if str_equal(name, "celsius") {
            Some(Temperature::celsius)
        } else if str_equal(name, "fahrenheit") {
            Some(Temperature::fahrenheit)
        } else {
            None
        }
    }
}

impl Speed {
    pub open spec fn name(self) -> Seq<char> {
        match self {
            Speed::kmh => "kmh"@,
            Speed::mph => "mph"@,
            Speed::knots => "knots"@,
            Speed::ms => "ms"@,
        }
    }

    pub fn as_str(&self) -> (r: &'static str)
        ensures
            r@ == self.name(),
    {
        match self {
            Speed::kmh => "kmh",
            Speed::mph => "mph",
            Speed::knots => "knots",
            Speed::ms => "ms",
        }
    }

    pub fn from_name(name: &str) -> (r: Option<Speed>)
        ensures
            r == speed_named(name@),
    {
        if str_equal(name, "kmh") {
            Some(Speed::kmh)
        } else if str_equal(name, "mph") {
            Some(Speed::mph)
        } else if str_equal(name, "knots") || str_equal(name, "kn") {
            Some(Speed::knots)
        } else if str_equal(name, "ms") {
            Some(Speed::ms)
        } else {
            None
        }
    }
}

impl Time {
    pub open spec fn name(self) -> Seq<char> {
        match self {
            Time::am_pm => "am_pm"@,
            Time::military => "military"@,
        }
    }

    pub fn as_str(&self) -> (r: &'static str)
        ensures
            r@ == self.name(),
    {
        match self {
            Time::am_pm => "am_pm",
            Time::military => "military",
        }
    }

    pub fn from_name(name: &str) -> (r: Option<Time>)
        ensures
            r == time_named(name@),
    {
        if str_equal(name, "am_pm") {
            Some(Time::am_pm)
        } else if str_equal(name, "military") {
            Some(Time::military)
        } else {
            None
        }
    }
}

impl Precipitation {
    pub open spec fn name(self) -> Seq<char> {
        match self {
            Precipitation::probability => "probability"@,
            Precipitation::mm => "mm"@,
            Precipitation::inch => "inch"@,
        }
    }

    pub fn as_str(&self) -> (r: &'static str)
        ensures
            r@ == self.name(),
    {
        match self {
            Precipitation::probability => "probability",
            Precipitation::mm => "mm",
            Precipitation::inch => "inch",
        }
    }

    pub fn from_name(name: &str) -> (r: Option<Precipitation>)
        ensures
            r == precipitation_named(name@),
    {
        if str_equal(name, "probability") {
            Some(Precipitation::probability)
        } else if str_equal(name, "mm") {
            Some(Precipitation::mm)
        } else if str_equal(name, "inch") {
            Some(Precipitation::inch)
        } else {
            None
        }
    }
}

/// The units after one argument: every kind of unit whose variant the
/// argument names takes that variant; the others stay.
pub open spec fn apply_unit_arg(u: Units, arg: UnitArg) -> Units {
    let name = arg.name();
    Units {
        temperature: match temperature_named(name) { Some(t) => t, None => u.temperature },
        speed: match speed_named(name) { Some(s) => s, None => u.speed },
        time: match time_named(name) { Some(t) => t, None => u.time },
        precipitation: match precipitation_named(name) { Some(p) => p, None => u.precipitation },
    }
}

/// The units after the arguments, applied from first to last.
pub open spec fn apply_unit_args(u: Units, args: Seq<UnitArg>) -> Units
    decreases args.len(),
{
    if args.len() == 0 {
        u
    } else {
        apply_unit_arg(apply_unit_args(u, args.drop_last()), args.last())
    }
}

impl Units {
    /// The configured units, overridden by the units given as arguments.
    pub fn get(arg_units: &[UnitArg], cfg_units: &Units) -> (r: Units)
        ensures
            r == apply_unit_args(*cfg_units, arg_units@),
    {
        cfg_units.assign_unit_args(arg_units)
    }

    pub fn assign_unit_args(self, arg_units: &[UnitArg]) -> (r: Units)
        ensures
            r == apply_unit_args(self, arg_units@),
    {
        let mut units = self;
        let mut i: usize = 0;
        while i < arg_units.len()
            invariant
                i <= arg_units@.len(),
                units == apply_unit_args(self, arg_units@.subrange(0, i as int)),
            decreases arg_units@.len() - i,
        {
            let val = arg_units[i];
            let name = val.as_str();
            if let Some(t) = Temperature::from_name(name) {
                units.temperature = t;
            }
            if let Some(s) = Speed::from_name(name) {
                units.speed = s;
            }
            if let Some(t) = Time::from_name(name) {
                units.time = t;
            }
            if let Some(p) = Precipitation::from_name(name) {
                units.precipitation = p;
            }
            proof {
                let next = arg_units@.subrange(0, i + 1);
                assert(next.drop_last() =~= arg_units@.subrange(0, i as int));
            }
            i = i + 1;
        }
        assert(arg_units@.subrange(0, arg_units@.len() as int) =~= arg_units@);
        units
    }
}

/// Every unit is written by its variant's name (celsius, fahrenheit; kmh,
/// mph, knots, ms; am_pm, military; probability, mm, inch), and read back
/// from that name; knots are read from `kn` too.
pub proof fn lemma_unit_names_round_trip(t: Temperature, s: Speed, h: Time, p: Precipitation)
    ensures
        Temperature::celsius.name() == "celsius"@ && Temperature::fahrenheit.name() == "fahrenheit"@,
        Speed::kmh.name() == "kmh"@ && Speed::mph.name() == "mph"@ && Speed::knots.name() == "knots"@
            && Speed::ms.name() == "ms"@,
        Time::am_pm.name() == "am_pm"@ && Time::military.name() == "military"@,
        Precipitation::probability.name() == "probability"@ && Precipitation::mm.name() == "mm"@
            && Precipitation::inch.name() == "inch"@,
        temperature_named(t.name()) == Some(t),
        speed_named(s.name()) == Some(s),
        time_named(h.name()) == Some(h),
        precipitation_named(p.name()) == Some(p),
        speed_named("kn"@) == Some(Speed::knots),
{
    reveal_strlit("celsius");
    reveal_strlit("fahrenheit");
    reveal_strlit("kmh");
    reveal_strlit("mph");
    reveal_strlit("knots");
    reveal_strlit("kn");
    reveal_strlit("ms");
    reveal_strlit("am_pm");
    reveal_strlit("military");
    reveal_strlit("probability");
    reveal_strlit("mm");
    reveal_strlit("inch");
    assert("celsius"@.len() == 7 && "fahrenheit"@.len() == 10 && "kmh"@.len() == 3 && "mph"@.len() == 3);
    assert("knots"@.len() == 5 && "kn"@.len() == 2 && "ms"@.len() == 2 && "am_pm"@.len() == 5);
    assert("military"@.len() == 8 && "probability"@.len() == 11 && "mm"@.len() == 2 && "inch"@.len() == 4);
    assert("kmh"@[0] != "mph"@[0] && "knots"@[0] != "am_pm"@[0]);
    assert("kn"@[0] != "ms"@[0] && "kn"@[0] != "mm"@[0] && "ms"@[1] != "mm"@[1]);
}

/// Each unit argument sets the one kind of unit it names and leaves the
/// other three as they were.
pub proof fn lemma_unit_arg_sets_its_kind(u: Units, arg: UnitArg)
    ensures
        apply_unit_arg(u, arg) == match arg {
            UnitArg::Celsius => Units { temperature: Temperature::celsius, ..u },
            UnitArg::Fahrenheit => Units { temperature: Temperature::fahrenheit, ..u },
            UnitArg::Kmh => Units { speed: Speed::kmh, ..u },
            UnitArg::Mph => Units { speed: Speed::mph, ..u },
            UnitArg::Knots => Units { speed: Speed::knots, ..u },
            UnitArg::Ms => Units { speed: Speed::ms, ..u },
            UnitArg::AmPm => Units { time: Time::am_pm, ..u },
            UnitArg::Military => Units { time: Time::military, ..u },
            UnitArg::Probability => Units { precipitation: Precipitation::probability, ..u },
            UnitArg::Mm => Units { precipitation: Precipitation::mm, ..u },
            UnitArg::Inch => Units { precipitation: Precipitation::inch, ..u },
        },
{
    reveal_strlit("celsius");
    reveal_strlit("fahrenheit");
    reveal_strlit("kmh");
    reveal_strlit("mph");
    reveal_strlit("knots");
    reveal_strlit("kn");
    reveal_strlit("ms");
    reveal_strlit("am_pm");
    reveal_strlit("military");
    reveal_strlit("probability");
    reveal_strlit("mm");
    reveal_strlit("inch");
    // Names of different lengths differ; those of equal length differ in
    // their first or second character.
    assert("celsius"@.len() == 7 && "fahrenheit"@.len() == 10 && "kmh"@.len() == 3 && "mph"@.len() == 3);
    assert("knots"@.len() == 5 && "kn"@.len() == 2 && "ms"@.len() == 2 && "am_pm"@.len() == 5);
    assert("military"@.len() == 8 && "probability"@.len() == 11 && "mm"@.len() == 2 && "inch"@.len() == 4);
    assert("kmh"@[0] != "mph"@[0] && "knots"@[0] != "am_pm"@[0]);
    assert("kn"@[0] != "ms"@[0] && "kn"@[0] != "mm"@[0] && "ms"@[1] != "mm"@[1]);
}

/// The last unit argument naming a temperature decides it; where none names one,
/// the configured temperature stays.
pub proof fn lemma_last_temperature_wins(u: Units, args: Seq<UnitArg>)
    ensures
        forall|k: int|
            0 <= k < args.len() && temperature_named(#[trigger] args[k].name()) is Some && (forall|j: int|
                k < j < args.len() ==> temperature_named(args[j].name()) is None) ==> apply_unit_args(u, args).temperature
                == temperature_named(args[k].name())->Some_0,
        (forall|j: int| 0 <= j < args.len() ==> temperature_named(#[trigger] args[j].name()) is None) ==> apply_unit_args(
            u,
            args,
        ).temperature == u.temperature,
    decreases args.len(),
{
    if args.len() > 0 {
        let p = args.drop_last();
        lemma_last_temperature_wins(u, p);
        assert forall|k: int|
            0 <= k < args.len() && temperature_named(#[trigger] args[k].name()) is Some && (forall|j: int|
                k < j < args.len() ==> temperature_named(args[j].name()) is None) implies apply_unit_args(u, args).temperature
            == temperature_named(args[k].name())->Some_0 by {
            if k < args.len() - 1 {
                assert(p[k] == args[k]);
                assert forall|j: int| k < j < p.len() implies temperature_named(p[j].name()) is None by {
                    assert(p[j] == args[j]);
                }
            }
        }
        if forall|j: int| 0 <= j < args.len() ==> temperature_named(#[trigger] args[j].name()) is None {
            assert forall|j: int| 0 <= j < p.len() implies temperature_named(#[trigger] p[j].name()) is None by {
                assert(p[j] == args[j]);
            }
            assert(temperature_named(args[args.len() - 1].name()) is None);
        }
    }
}

/// The last unit argument naming a speed decides it; where none names one,
/// the configured speed stays.
pub proof fn lemma_last_speed_wins(u: Units, args: Seq<UnitArg>)
    ensures
        forall|k: int|
            0 <= k < args.len() && speed_named(#[trigger] args[k].name()) is Some && (forall|j: int|
                k < j < args.len() ==> speed_named(args[j].name()) is None) ==> apply_unit_args(u, args).speed
                == speed_named(args[k].name())->Some_0,
        (forall|j: int| 0 <= j < args.len() ==> speed_named(#[trigger] args[j].name()) is None) ==> apply_unit_args(
            u,
            args,
        ).speed == u.speed,
    decreases args.len(),
{
    if args.len() > 0 {
        let p = args.drop_last();
        lemma_last_speed_wins(u, p);
        assert forall|k: int|
            0 <= k < args.len() && speed_named(#[trigger] args[k].name()) is Some && (forall|j: int|
                k < j < args.len() ==> speed_named(args[j].name()) is None) implies apply_unit_args(u, args).speed
            == speed_named(args[k].name())->Some_0 by {
            if k < args.len() - 1 {
                assert(p[k] == args[k]);
                assert forall|j: int| k < j < p.len() implies speed_named(p[j].name()) is None by {
                    assert(p[j] == args[j]);
                }
            }
        }
        if forall|j: int| 0 <= j < args.len() ==> speed_named(#[trigger] args[j].name()) is None {
            assert forall|j: int| 0 <= j < p.len() implies speed_named(#[trigger] p[j].name()) is None by {
                assert(p[j] == args[j]);
            }
            assert(speed_named(args[args.len() - 1].name()) is None);
        }
    }
}

/// The last unit argument naming a time decides it; where none names one,
/// the configured time stays.
pub proof fn lemma_last_time_wins(u: Units, args: Seq<UnitArg>)
    ensures
        forall|k: int|
            0 <= k < args.len() && time_named(#[trigger] args[k].name()) is Some && (forall|j: int|
                k < j < args.len() ==> time_named(args[j].name()) is None) ==> apply_unit_args(u, args).time
                == time_named(args[k].name())->Some_0,
        (forall|j: int| 0 <= j < args.len() ==> time_named(#[trigger] args[j].name()) is None) ==> apply_unit_args(
            u,
            args,
        ).time == u.time,
    decreases args.len(),
{
    if args.len() > 0 {
        let p = args.drop_last();
        lemma_last_time_wins(u, p);
        assert forall|k: int|
            0 <= k < args.len() && time_named(#[trigger] args[k].name()) is Some && (forall|j: int|
                k < j < args.len() ==> time_named(args[j].name()) is None) implies apply_unit_args(u, args).time
            == time_named(args[k].name())->Some_0 by {
            if k < args.len() - 1 {
                assert(p[k] == args[k]);
                assert forall|j: int| k < j < p.len() implies time_named(p[j].name()) is None by {
                    assert(p[j] == args[j]);
                }
            }
        }
        if forall|j: int| 0 <= j < args.len() ==> time_named(#[trigger] args[j].name()) is None {
            assert forall|j: int| 0 <= j < p.len() implies time_named(#[trigger] p[j].name()) is None by {
                assert(p[j] == args[j]);
            }
            assert(time_named(args[args.len() - 1].name()) is None);
        }
    }
}

/// The last unit argument naming a precipitation decides it; where none names one,
/// the configured precipitation stays.
pub proof fn lemma_last_precipitation_wins(u: Units, args: Seq<UnitArg>)
    ensures
        forall|k: int|
            0 <= k < args.len() && precipitation_named(#[trigger] args[k].name()) is Some && (forall|j: int|
                k < j < args.len() ==> precipitation_named(args[j].name()) is None) ==> apply_unit_args(u, args).precipitation
                == precipitation_named(args[k].name())->Some_0,
        (forall|j: int| 0 <= j < args.len() ==> precipitation_named(#[trigger] args[j].name()) is None) ==> apply_unit_args(
            u,
            args,
        ).precipitation == u.precipitation,
    decreases args.len(),
{
    if args.len() > 0 {
        let p = args.drop_last();
        lemma_last_precipitation_wins(u, p);
        assert forall|k: int|
            0 <= k < args.len() && precipitation_named(#[trigger] args[k].name()) is Some && (forall|j: int|
                k < j < args.len() ==> precipitation_named(args[j].name()) is None) implies apply_unit_args(u, args).precipitation
            == precipitation_named(args[k].name())->Some_0 by {
            if k < args.len() - 1 {
                assert(p[k] == args[k]);
                assert forall|j: int| k < j < p.len() implies precipitation_named(p[j].name()) is None by {
                    assert(p[j] == args[j]);
                }
            }
        }
        if forall|j: int| 0 <= j < args.len() ==> precipitation_named(#[trigger] args[j].name()) is None {
            assert forall|j: int| 0 <= j < p.len() implies precipitation_named(#[trigger] p[j].name()) is None by {
                assert(p[j] == args[j]);
            }
            assert(precipitation_named(args[args.len() - 1].name()) is None);
        }
    }
}

} // verus!
