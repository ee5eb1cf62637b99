pub mod forecast;
pub mod greeting;
pub mod language;
pub mod unit;

use vstd::prelude::*;

use crate::args::{Cli, Forecast};
use crate::config::{Config, Gui};
use crate::date::Date;
use crate::forecast::{forecast_table, index_table, today_weekday, Weekday};
use crate::graph::GraphOpts;
use crate::localization::Locales;
use crate::units::{apply_unit_args, Units};

verus! {

/// The settings of one run: the configuration merged with the arguments,
/// the dates of historical weather asked for, and the texts to print.
pub struct Params {
    pub config: Config,
    /// Each date at most once.
    pub historical_weather: Vec<Date>,
    /// Which panels are asked for: `[0]` the current day, `[1]` to `[6]` the
    /// days after it, `[7]` the week's overview, `[8]` none at all.
    pub forecast_indices: [bool; 9],
    pub texts: Locales,
}

/// The values of `s` with each kept once, where it first occurs.
pub open spec fn first_occurrences<T>(s: Seq<T>) -> Seq<T>
    decreases s.len(),
{
    if s.len() == 0 {
        Seq::empty()
    } else {
        let r = first_occurrences(s.drop_last());
        if s.drop_last().contains(s.last()) {
            r
        } else {
            r.push(s.last())
        }
    }
}

/// Whether a value occurs at most once in `s`.
pub open spec fn no_duplicates<T>(s: Seq<T>) -> bool {
    forall|i: int, j: int| 0 <= i < j < s.len() ==> s[i] != s[j]
}

/// Keeping each value once keeps every value and nothing else.
pub proof fn lemma_first_occurrences_contains<T>(s: Seq<T>, x: T)
    ensures
        first_occurrences(s).contains(x) <==> s.contains(x),
    decreases s.len(),
{
    if s.len() > 0 {
        let p = s.drop_last();
        let l = s.last();
        lemma_first_occurrences_contains(p, x);
        lemma_push_contains(p, l, x);
        assert(s =~= p.push(l));
        if !p.contains(l) {
            lemma_push_contains(first_occurrences(p), l, x);
        }
    }
}

/// A value is in `s` with `l` added where it is `l` or in `s`.
pub(crate) proof fn lemma_push_contains<T>(s: Seq<T>, l: T, x: T)
    ensures
        s.push(l).contains(x) <==> s.contains(x) || x == l,
{
    let q = s.push(l);
    if q.contains(x) {
        let k = choose|k: int| 0 <= k < q.len() && q[k] == x;
        if k < s.len() {
            assert(s[k] == x);
        }
    }
    if s.contains(x) {
        let k = choose|k: int| 0 <= k < s.len() && s[k] == x;
        assert(q[k] == x);
    }
    if x == l {
        assert(q[s.len() as int] == x);
    }
}

/// Keeping the first occurrences leaves no value twice.
pub proof fn lemma_first_occurrences_unique<T>(s: Seq<T>)
    ensures
        no_duplicates(first_occurrences(s)),
    decreases s.len(),
{
    if s.len() > 0 {
        let p = s.drop_last();
        lemma_first_occurrences_unique(p);
        lemma_first_occurrences_contains(p, s.last());
        let r = first_occurrences(p);
        if !p.contains(s.last()) {
            assert forall|i: int, j: int| 0 <= i < j < r.len() + 1 implies #[trigger] r.push(s.last())[i] != #[trigger] r.push(
                s.last(),
            )[j] by {
                if j == r.len() {
                    assert(r.contains(r[i]));
                }
            }
        }
    }
}

/// Whether a forecast asks for a day of the week.
pub open spec fn is_weekday(f: Forecast) -> bool {
    match f {
        Forecast::mo | Forecast::tu | Forecast::we | Forecast::th | Forecast::fr | Forecast::sa | Forecast::su => true,
        _ => false,
    }
}

/// The forecasts asked for: those given as arguments, else the configured ones.
pub open spec fn asked_forecast(args: Seq<Forecast>, cfg: Seq<Forecast>) -> Seq<Forecast> {
    if args.len() > 0 {
        args
    } else {
        cfg
    }
}

/// The forecasts of a run: those asked for, each once in the order first
/// asked; none where `disable` is among them.
pub open spec fn merged_forecast(args: Seq<Forecast>, cfg: Seq<Forecast>) -> Seq<Forecast> {
    let f = asked_forecast(args, cfg);
    if f.contains(Forecast::disable) {
        Seq::empty()
    } else {
        first_occurrences(f)
    }
}

/// The forecasts of a run hold each one asked for exactly once, and
/// nothing else; asking for `disable` leaves none.
pub proof fn lemma_merged_forecast(args: Seq<Forecast>, cfg: Seq<Forecast>, f: Forecast)
    ensures
        no_duplicates(merged_forecast(args, cfg)),
        merged_forecast(args, cfg).contains(f) <==> !asked_forecast(args, cfg).contains(Forecast::disable)
            && asked_forecast(args, cfg).contains(f),
{
    let a = asked_forecast(args, cfg);
    lemma_first_occurrences_unique(a);
    lemma_first_occurrences_contains(a, f);
}

/// Whether the current time is marked in the graphs: as configured, except
/// where a day of the week is asked for.
pub open spec fn merged_time_indicator(configured: bool, args: Seq<Forecast>, cfg: Seq<Forecast>) -> bool {
    configured && !(exists|i: int| 0 <= i < asked_forecast(args, cfg).len() && is_weekday(
        #[trigger] asked_forecast(args, cfg)[i],
    ))
}

/// The date of a `(year, month, day)` triple.
pub open spec fn date_of(t: (i32, u32, u32)) -> Date {
    Date { year: t.0, month: t.1, day: t.2 }
}

/// The language of a run: the argument, else the configured one.
pub open spec fn merged_language(arg: Option<String>, cfg: Seq<char>) -> Seq<char> {
    match arg {
        Some(l) => l@,
        None => cfg,
    }
}

/// The language of a run: the argument, else the configured one.
pub fn chosen_language(arg: &Option<String>, cfg: &str) -> (r: String)
    ensures
        r@ == merged_language(*arg, cfg@),
{
    match arg {
        Some(lang) => lang.clone(),
        None => cfg.to_string(),
    }
}

fn forecast_position(s: &Vec<Forecast>, x: Forecast) -> (r: bool)
    ensures
        r == s@.contains(x),
{
    let mut k: usize = 0;
    while k < s.len()
        invariant
            k <= s@.len(),
            forall|j: int| 0 <= j < k ==> s@[j] != x,
        decreases s@.len() - k,
    {
        if s[k] == x {
            assert(s@[k as int] == x);
            return true;
        }
        k = k + 1;
    }
    false
}

fn date_position(s: &Vec<Date>, x: Date) -> (r: bool)
    ensures
        r == s@.contains(x),
{
    let mut k: usize = 0;
    while k < s.len()
        invariant
            k <= s@.len(),
            forall|j: int| 0 <= j < k ==> s@[j] != x,
        decreases s@.len() - k,
    {
        if s[k] == x {
            assert(s@[k as int] == x);
            return true;
        }
        k = k + 1;
    }
    false
}

/// The forecasts with each kept once, where it first occurs.
pub fn dedup_forecast(s: &Vec<Forecast>) -> (r: Vec<Forecast>)
    ensures
        r@ == first_occurrences(s@),
{
    let mut r: Vec<Forecast> = Vec::new();
    let mut i: usize = 0;
    while i < s.len()
        invariant
            i <= s@.len(),
            r@ == first_occurrences(s@.subrange(0, i as int)),
        decreases s@.len() - i,
    {
        let x = s[i];
        proof {
            let p = s@.subrange(0, i as int);
            assert(s@.subrange(0, i + 1).drop_last() =~= p);
            assert(s@.subrange(0, i + 1).last() == x);
            lemma_first_occurrences_contains(p, x);
        }
        if !forecast_position(&r, x) {
            r.push(x);
        }
        i = i + 1;
    }
    assert(s@.subrange(0, s@.len() as int) =~= s@);
    r
}

/// The dates of historical weather asked for, each kept once, where it first
/// occurs.
pub fn dedup_dates(s: &Vec<(i32, u32, u32)>) -> (r: Vec<Date>)
    ensures
        r@ == first_occurrences(s@.map_values(|t: (i32, u32, u32)| date_of(t))),
{
    let ghost dates = s@.map_values(|t: (i32, u32, u32)| date_of(t));
    let mut r: Vec<Date> = Vec::new();
    let mut i: usize = 0;
    while i < s.len()
        invariant
            i <= s@.len(),
            dates == s@.map_values(|t: (i32, u32, u32)| date_of(t)),
            r@ == first_occurrences(dates.subrange(0, i as int)),
        decreases s@.len() - i,
    {
        let (year, month, day) = s[i];
        let x = Date { year, month, day };
        proof {
            let p = dates.subrange(0, i as int);
            assert(dates.subrange(0, i + 1).drop_last() =~= p);
            assert(dates.subrange(0, i + 1).last() == x);
            lemma_first_occurrences_contains(p, x);
        }
        if !date_position(&r, x) {
            r.push(x);
        }
        i = i + 1;
    }
    assert(dates.subrange(0, s@.len() as int) =~= dates);
    r
}

impl Params {
    /// The settings of a run from the configuration and the arguments, with
    /// the texts of the run's language and the resolved address, on a
    /// weekday `today`.
    pub fn merge_on(config: &Config, args: &Cli, texts: Locales, address: String, today: Weekday) -> (r: Params)
        ensures
            r.config.language@ == merged_language(args.language, config.language@),
            r.config.address@ == address@,
            r.config.units == apply_unit_args(config.units, args.units@),
            r.config.forecast@ == merged_forecast(args.forecast@, config.forecast@),
            r.config.gui.border == config.gui.border,
            r.config.gui.color == config.gui.color,
            r.config.gui.greeting == config.gui.greeting,
            r.config.gui.graph.style == config.gui.graph.style,
            r.config.gui.graph.rowspan == config.gui.graph.rowspan,
            r.config.gui.graph.time_indicator == merged_time_indicator(
                config.gui.graph.time_indicator,
                args.forecast@,
                config.forecast@,
            ),
            r.historical_weather@ == first_occurrences(
                args.historical_weather@.map_values(|t: (i32, u32, u32)| date_of(t)),
            ),
            r.forecast_indices@ == index_table(asked_forecast(args.forecast@, config.forecast@), today.number() as int),
            r.texts == texts,
    {
        let language = chosen_language(&args.language, config.language.as_str());
        let units = Units::get(args.units.as_slice(), &config.units);

        let asked = if !args.forecast.is_empty() {
            args.forecast.clone()
        } else {
            config.forecast.clone()
        };
        assert(asked@ == asked_forecast(args.forecast@, config.forecast@));

        // The graphs mark the current time only for the current day.
        let mut time_indicator = config.gui.graph.time_indicator;
        let mut disable = false;
        let mut i: usize = 0;
        while i < asked.len()
            invariant
                i <= asked@.len(),
                time_indicator == (config.gui.graph.time_indicator && !(exists|j: int|
                    0 <= j < i && is_weekday(#[trigger] asked@[j]))),
                disable == asked@.subrange(0, i as int).contains(Forecast::disable),
            decreases asked@.len() - i,
        {
            proof {
                assert(asked@.subrange(0, i + 1) =~= asked@.subrange(0, i as int).push(asked@[i as int]));
                lemma_push_contains(asked@.subrange(0, i as int), asked@[i as int], Forecast::disable);
            }
            match asked[i] {
                Forecast::mo | Forecast::tu | Forecast::we | Forecast::th | Forecast::fr | Forecast::sa
                | Forecast::su => {
                    time_indicator = false;
                },
                Forecast::disable => {
                    disable = true;
                },
                _ => {},
            }
            i = i + 1;
        }
        assert(asked@.subrange(0, asked@.len() as int) =~= asked@);
        let forecast = if disable {
            Vec::new()
        } else {
            dedup_forecast(&asked)
        };

        let gui = Gui {
            border: config.gui.border,
            color: config.gui.color,
            graph: GraphOpts {
                style: config.gui.graph.style,
                rowspan: config.gui.graph.rowspan,
                time_indicator,
            },
            greeting: config.gui.greeting,
        };
        let historical_weather = dedup_dates(&args.historical_weather);
        let forecast_indices = forecast_table(asked.as_slice(), today);
        Params { config: Config { address, language, forecast, units, gui }, historical_weather, forecast_indices, texts }
    }

    /// The settings of a run from the configuration and the arguments, with
    /// the texts of the run's language and the resolved address: as
    /// `merge_on` on the current weekday.
    pub fn merge(config: &Config, args: &Cli, texts: Locales, address: String) -> (r: Params)
        ensures
            r.config.language@ == merged_language(args.language, config.language@),
            r.config.address@ == address@,
            r.config.units == apply_unit_args(config.units, args.units@),
            r.config.forecast@ == merged_forecast(args.forecast@, config.forecast@),
            r.config.gui.border == config.gui.border,
            r.config.gui.color == config.gui.color,
            r.config.gui.greeting == config.gui.greeting,
            r.config.gui.graph.style == config.gui.graph.style,
            r.config.gui.graph.rowspan == config.gui.graph.rowspan,
            r.config.gui.graph.time_indicator == merged_time_indicator(
                config.gui.graph.time_indicator,
                args.forecast@,
                config.forecast@,
            ),
            r.historical_weather@ == first_occurrences(
                args.historical_weather@.map_values(|t: (i32, u32, u32)| date_of(t)),
            ),
            exists|today: Weekday| r.forecast_indices@ == #[trigger] index_table(
                asked_forecast(args.forecast@, config.forecast@),
                today.number() as int,
            ),
            r.texts == texts,
    {
        Self::merge_on(config, args, texts, address, today_weekday())
    }
}

/// What follows a run: nothing, asking whether to keep the settings, or
/// storing them.
#[derive(PartialEq, Eq, Structural, Debug, Clone, Copy)]
pub enum NextStep {
    Done,
    Prompt,
    Store,
}

/// What follows a run: with no address configured, the user is asked
/// whether to keep the settings; with `--save`, they are stored.
pub open spec fn next_step_of(save: bool, configured_address: Seq<char>) -> NextStep {
    if !save && configured_address.len() > 0 {
        NextStep::Done
    } else if configured_address.len() == 0 {
        NextStep::Prompt
    } else {
        NextStep::Store
    }
}

/// What the user chose when asked whether to keep the settings.
#[derive(PartialEq, Eq, Structural, Debug, Clone, Copy)]
pub enum SaveOutcome {
    /// Store the settings.
    Store,
    /// Store nothing now.
    Skip,
    /// Nothing was chosen; the settings are stored.
    StoreUnchosen,
}

/// The address stored for a choice: unchanged, "arg_input" (always ask for
/// one) or "auto" (always look it up).
pub open spec fn chosen_address(address: Seq<char>, selection: usize) -> Seq<char> {
    if selection == 2 {
        "arg_input"@
    } else if selection == 3 {
        "auto"@
    } else {
        address
    }
}

impl Params {
    /// What follows the run.
    pub fn next_step(save: bool, config_file: &Config) -> (r: NextStep)
        ensures
            r == next_step_of(save, config_file.address@),
    {
        if !save && !config_file.address.as_str().is_empty() {
            NextStep::Done
        } else if config_file.address.as_str().is_empty() {
            NextStep::Prompt
        } else {
            NextStep::Store
        }
    }

    /// The settings to keep: those of the run, with the time marked in the
    /// graphs as configured (a run asking for a day of the week turns it off).
    pub fn config_to_keep(&self, config_file: &Config) -> (r: Config)
        ensures
            r.address@ == self.config.address@,
            r.language@ == self.config.language@,
            r.forecast@ == self.config.forecast@,
            r.units == self.config.units,
            r.gui.border == self.config.gui.border,
            r.gui.color == self.config.gui.color,
            r.gui.greeting == self.config.gui.greeting,
            r.gui.graph.style == self.config.gui.graph.style,
            r.gui.graph.rowspan == self.config.gui.graph.rowspan,
            r.gui.graph.time_indicator == config_file.gui.graph.time_indicator,
    {
        let mut config = self.config.clone();
        config.gui.graph.time_indicator = config_file.gui.graph.time_indicator;
        config
    }

    /// The choices offered when asked whether to keep the settings: always
    /// looking the place up is offered where no address, or "auto", was given.
    pub fn save_choices(&self, arg_address: &str) -> (r: Vec<String>)
        ensures
            r@.map_values(|s: String| s@) == seq![
                self.texts.config.confirm@,
                self.texts.config.next_time@,
                self.texts.config.deny@,
            ] + if arg_address@.len() == 0 || arg_address@ == "auto"@ {
                seq![self.texts.config.always_auto@]
            } else {
                Seq::empty()
            },
    {
        let mut items: Vec<String> = Vec::new();
        items.push(self.texts.config.confirm.clone());
        items.push(self.texts.config.next_time.clone());
        items.push(self.texts.config.deny.clone());
        if arg_address.is_empty() || crate::text::str_equal(arg_address, "auto") {
            items.push(self.texts.config.always_auto.clone());
        }
        proof {
            reveal_strlit("auto");
        }
        assert(items@.map_values(|s: String| s@) =~= seq![
            self.texts.config.confirm@,
            self.texts.config.next_time@,
            self.texts.config.deny@,
        ] + if arg_address@.len() == 0 || arg_address@ == "auto"@ {
            seq![self.texts.config.always_auto@]
        } else {
            Seq::empty()
        });
        items
    }

    /// Applies the user's choice to the settings to keep.
    pub fn apply_save_choice(&mut self, selection: usize) -> (r: SaveOutcome)
        ensures
            r == (if selection == 1 {
                SaveOutcome::Skip
            } else if selection <= 3 {
                SaveOutcome::Store
            } else {
                SaveOutcome::StoreUnchosen
            }),
            final(self).config.address@ == if selection == 1 {
                old(self).config.address@
            } else {
                chosen_address(old(self).config.address@, selection)
            },
            final(self).config.language@ == old(self).config.language@,
            final(self).config.forecast@ == old(self).config.forecast@,
            final(self).config.units == old(self).config.units,
            final(self).config.gui == old(self).config.gui,
            final(self).historical_weather@ == old(self).historical_weather@,
            final(self).texts == old(self).texts,
    {
        if selection == 0 {
            SaveOutcome::Store
        } else if selection == 1 {
            SaveOutcome::Skip
        } else if selection == 2 {
            self.config.address = "arg_input".to_string();
            SaveOutcome::Store
        } else if selection == 3 {
            self.config.address = "auto".to_string();
            SaveOutcome::Store
        } else {
            SaveOutcome::StoreUnchosen
        }
    }
}

} // verus!
