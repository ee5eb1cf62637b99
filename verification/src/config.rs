use vstd::prelude::*;

use crate::args::Forecast;
use crate::border::BorderStyle;
use crate::graph::{GraphOpts, GraphRows, GraphStyle, LineVariant};
use crate::units::{Precipitation, Speed, Temperature, Time, Units};

verus! {

/// Whether panels are drawn in colour.
#[derive(PartialEq, Eq, Structural, Debug, Clone, Copy)]
#[allow(non_camel_case_types)]
pub enum ColorVariant {
    default,
    plain,
}

/// How the panels look.
#[derive(Debug, Clone, Copy)]
pub struct Gui {
    pub border: BorderStyle,
    pub color: ColorVariant,
    pub graph: GraphOpts,
    pub greeting: bool,
}

impl Default for Gui {
    fn default() -> (r: Self)
        ensures
            r.border == BorderStyle::rounded,
            r.color == ColorVariant::default,
            r.graph.style == GraphStyle::lines(LineVariant::solid),
            r.graph.rowspan == GraphRows::double,
            r.graph.time_indicator,
            r.greeting,
    {
        Self {
            border: BorderStyle::default(),
            color: ColorVariant::default,
            graph: GraphOpts::default(),
            greeting: true,
        }
    }
}

/// The user's settings.
pub struct Config {
    pub address: String,
    pub language: String,
    /// The forecasts to show, each at most once.
    pub forecast: Vec<Forecast>,
    pub units: Units,
    pub gui: Gui,
}

impl Default for Config {
    fn default() -> (r: Self)
        ensures
            r.address@ == Seq::<char>::empty(),
            r.language@ == "en_US"@,
            r.forecast@ == Seq::<Forecast>::empty(),
            r.units == (Units {
                temperature: Temperature::celsius,
                speed: Speed::kmh,
                time: Time::military,
                precipitation: Precipitation::probability,
            }),
            r.gui.border == BorderStyle::rounded,
            r.gui.color == ColorVariant::default,
            r.gui.graph.style == GraphStyle::lines(LineVariant::solid),
            r.gui.graph.rowspan == GraphRows::double,
            r.gui.graph.time_indicator,
            r.gui.greeting,
    {
        Self {
            address: String::new(),
            forecast: Vec::new(),
            language: "en_US".to_string(),
            units: Units::default(),
            gui: Gui::default(),
        }
    }
}

impl Clone for Config {
    fn clone(&self) -> (r: Self)
        ensures
            r.address@ == self.address@,
            r.language@ == self.language@,
            r.forecast@ == self.forecast@,
            r.units == self.units,
            r.gui == self.gui,
    {
        Config {
            address: self.address.clone(),
            language: self.language.clone(),
            forecast: self.forecast.clone(),
            units: self.units,
            gui: self.gui,
        }
    }
}

/// The graph settings a configuration file may hold, each optional.
pub struct ConfigFileGraphOpts {
    pub style: Option<GraphStyle>,
    pub rowspan: Option<GraphRows>,
    pub time_indicator: Option<bool>,
}

/// The look a configuration file may set, each part optional.
pub struct ConfigFileGui {
    pub border: Option<BorderStyle>,
    pub color: Option<ColorVariant>,
    pub graph: Option<ConfigFileGraphOpts>,
    pub greeting: Option<bool>,
}

/// The units a configuration file may set, each optional.
pub struct ConfigFileUnits {
    pub temperature: Option<Temperature>,
    pub speed: Option<Speed>,
    pub time: Option<Time>,
    pub precipitation: Option<Precipitation>,
}

/// What a configuration file holds: any of the settings.
pub struct ConfigFile {
    pub address: Option<String>,
    pub language: Option<String>,
    pub forecast: Option<Vec<Forecast>>,
    pub units: Option<ConfigFileUnits>,
    pub gui: Option<ConfigFileGui>,
}

/// A setting from the file where it holds one, else the one in place.
pub open spec fn or_else<T>(o: Option<T>, current: T) -> T {
    match o {
        Some(v) => v,
        None => current,
    }
}

/// Graph settings with those of a file laid over them.
pub open spec fn graph_over(f: Option<ConfigFileGraphOpts>, g: GraphOpts) -> GraphOpts {
    match f {
        Some(f) => GraphOpts {
            style: or_else(f.style, g.style),
            rowspan: or_else(f.rowspan, g.rowspan),
            time_indicator: or_else(f.time_indicator, g.time_indicator),
        },
        None => g,
    }
}

/// The look with that of a file laid over it.
pub open spec fn gui_over(f: Option<ConfigFileGui>, g: Gui) -> Gui {
    match f {
        Some(f) => Gui {
            border: or_else(f.border, g.border),
            color: or_else(f.color, g.color),
            graph: graph_over(f.graph, g.graph),
            greeting: or_else(f.greeting, g.greeting),
        },
        None => g,
    }
}

/// Units with those of a file laid over them.
pub open spec fn units_over(f: Option<ConfigFileUnits>, u: Units) -> Units {
    match f {
        Some(f) => Units {
            temperature: or_else(f.temperature, u.temperature),
            speed: or_else(f.speed, u.speed),
            time: or_else(f.time, u.time),
            precipitation: or_else(f.precipitation, u.precipitation),
        },
        None => u,
    }
}

fn pick<T: Copy>(o: Option<T>, current: T) -> (r: T)
    ensures
        r == or_else(o, current),
{
    match o {
        Some(v) => v,
        None => current,
    }
}

impl ConfigFile {
    /// Lays the settings of the file over a configuration: each one the file
    /// holds replaces the one in place.
    pub fn apply_to(self, config: &mut Config)
        ensures
            final(config).address@ == match self.address {
                Some(a) => a@,
                None => old(config).address@,
            },
            final(config).language@ == match self.language {
                Some(l) => l@,
                None => old(config).language@,
            },
            final(config).forecast@ == match self.forecast {
                Some(f) => f@,
                None => old(config).forecast@,
            },
            final(config).units == units_over(self.units, old(config).units),
            final(config).gui == gui_over(self.gui, old(config).gui),
    {
        if let Some(address) = self.address {
            config.address = address;
        }
        if let Some(language) = self.language {
            config.language = language;
        }
        if let Some(forecast) = self.forecast {
            config.forecast = forecast;
        }
        if let Some(u) = self.units {
            config.units = Units {
                temperature: pick(u.temperature, config.units.temperature),
                speed: pick(u.speed, config.units.speed),
                time: pick(u.time, config.units.time),
                precipitation: pick(u.precipitation, config.units.precipitation),
            };
        }
        if let Some(g) = self.gui {
            let graph = match g.graph {
                Some(f) => GraphOpts {
                    style: pick(f.style, config.gui.graph.style),
                    rowspan: pick(f.rowspan, config.gui.graph.rowspan),
                    time_indicator: pick(f.time_indicator, config.gui.graph.time_indicator),
                },
                None => config.gui.graph,
            };
            config.gui = Gui {
                border: pick(g.border, config.gui.border),
                color: pick(g.color, config.gui.color),
                graph,
                greeting: pick(g.greeting, config.gui.greeting),
            };
        }
    }
}

/// A file whose parts set nothing leaves the units and the look as they are.
pub proof fn lemma_empty_parts_keep_config(u: Units, g: Gui)
    ensures
        units_over(Some(ConfigFileUnits { temperature: None, speed: None, time: None, precipitation: None }), u) == u,
        gui_over(
            Some(
                ConfigFileGui {
                    border: None,
                    color: None,
                    graph: Some(ConfigFileGraphOpts { style: None, rowspan: None, time_indicator: None }),
                    greeting: None,
                },
            ),
            g,
        ) == g,
{
}

/// A file that sets every unit and every part of the look replaces them all.
pub proof fn lemma_full_parts_replace_config(u: Units, g: Gui, nu: Units, ng: Gui)
    ensures
        units_over(
            Some(
                ConfigFileUnits {
                    temperature: Some(nu.temperature),
                    speed: Some(nu.speed),
                    time: Some(nu.time),
                    precipitation: Some(nu.precipitation),
                },
            ),
            u,
        ) == nu,
        gui_over(
            Some(
                ConfigFileGui {
                    border: Some(ng.border),
                    color: Some(ng.color),
                    graph: Some(
                        ConfigFileGraphOpts {
                            style: Some(ng.graph.style),
                            rowspan: Some(ng.graph.rowspan),
                            time_indicator: Some(ng.graph.time_indicator),
                        },
                    ),
                    greeting: Some(ng.greeting),
                },
            ),
            g,
        ) == ng,
{
}

} // verus!
