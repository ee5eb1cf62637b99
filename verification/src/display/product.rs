use vstd::prelude::*;

use crate::date::{today, Date};
use crate::date::parse_time;
use crate::display::current::{current_panel, current_ready, current_ready_at, lemma_current_ready_at_hour};
use crate::display::day::{day_panel, day_ready, day_ready_at, lemma_day_ready_at_hour};
use crate::display::hourly::{hours_short, parsed_hour};
use crate::units::Precipitation;
use crate::display::historical::{historical_panel, historical_weather_ready, HistoricalWeather};
use crate::display::line::{lines_view, plain, tinted, Line, SegmentView, Tint};
use crate::display::week::{week_dimensions, week_lines, week_prefix, week_ready, ForecastDay, Week};
use crate::error::Error;
use crate::forecast::{ascending, forecast_indices, get_indices, today_weekday, Weekday};
use crate::params::Params;
use crate::weather::{HistoricalDay, Weather};

verus! {

/// What the panels are drawn from: the place, its forecast and the weather
/// of the past days asked for.
pub struct Product {
    pub address: String,
    pub weather: Weather,
    pub historical_weather: Option<Vec<(Date, HistoricalDay)>>,
}

pub const MIN_WIDTH: usize = 34;
pub const MIN_CELL_WIDTH: usize = 15;
pub const TOTAL_BORDER_PADDING: usize = 2;

/// The index of the first comma at or after `from`.
pub open spec fn comma_from(s: Seq<char>, from: int) -> Option<int>
    decreases s.len() - from,
{
    if from < 0 || from >= s.len() {
        None
    } else if s[from] == ',' {
        Some(from)
    } else {
        comma_from(s, from + 1)
    }
}

/// An address without its second field: the text between the first and the
/// second comma goes, with the second comma. An address with fewer than two
/// commas stays as it is.
pub open spec fn without_second_field(s: Seq<char>) -> Seq<char> {
    match comma_from(s, 0) {
        Some(c1) => match comma_from(s, c1 + 1) {
            Some(c2) => s.subrange(0, c1 + 1) + s.subrange(c2 + 1, s.len() as int),
            None => s,
        },
        None => s,
    }
}

/// Whether an address has at least two commas.
pub open spec fn has_two_fields_to_spare(s: Seq<char>) -> bool {
    comma_from(s, 0) matches Some(c1) && comma_from(s, c1 + 1) is Some
}

/// Whether taking fields out brings an address down to `max_width` characters.
pub open spec fn truncates(s: Seq<char>, max_width: nat) -> bool
    decreases s.len(),
{
    if s.len() <= max_width {
        true
    } else if has_two_fields_to_spare(s) && without_second_field(s).len() < s.len() {
        truncates(without_second_field(s), max_width)
    } else {
        false
    }
}

/// An address shortened to `max_width` characters by taking out its second
/// field as often as it takes.
pub open spec fn truncated(s: Seq<char>, max_width: nat) -> Seq<char>
    decreases s.len(),
{
    if s.len() > max_width && has_two_fields_to_spare(s) && without_second_field(s).len() < s.len() {
        truncated(without_second_field(s), max_width)
    } else {
        s
    }
}

proof fn lemma_comma_from(s: Seq<char>, from: int)
    requires
        0 <= from,
    ensures
        comma_from(s, from) matches Some(c) ==> from <= c < s.len() && s[c] == ','
            && forall|k: int| from <= k < c ==> s[k] != ',',
        comma_from(s, from) is None ==> forall|k: int| from <= k < s.len() ==> s[k] != ',',
    decreases s.len() - from,
{
    if from < s.len() && s[from] != ',' {
        lemma_comma_from(s, from + 1);
    }
}

proof fn lemma_removal_shortens(s: Seq<char>)
    requires
        has_two_fields_to_spare(s),
    ensures
        without_second_field(s).len() < s.len(),
{
    lemma_comma_from(s, 0);
    let c1 = comma_from(s, 0).unwrap();
    lemma_comma_from(s, c1 + 1);
}

/// The index of the first comma at or after `from`.
fn find_comma(s: &str, from: usize) -> (r: Option<usize>)
    requires
        from <= s@.len(),
    ensures
        r matches Some(c) ==> comma_from(s@, from as int) == Some(c as int),
        r is None ==> comma_from(s@, from as int) is None,
{
    let n = s.unicode_len();
    let mut i = from;
    while i < n
        invariant
            from <= i <= n,
            n == s@.len(),
            comma_from(s@, from as int) == comma_from(s@, i as int),
        decreases n - i,
    {
        if s.get_char(i) == ',' {
            return Some(i);
        }
        i = i + 1;
    }
    None
}

/// Takes out the second field of an address: `Regex::replace` of the regex
/// crate with the pattern `^((?:[^,]*,){1})[^,]*,(.*)` and the replacement
/// `$1$2`. The contract claims what the regex syntax documents for this
/// pattern: with two commas or more, the text through the first comma, then
/// the text after the second (`.` stops at a line break, and the text after
/// the match is kept, so nothing is lost); with fewer, the text unchanged.
#[verifier::external_body]
fn remove_second_field(address: &str) -> (r: String)
    ensures
        r@ == without_second_field(address@),
{
    let re = regex::Regex::new("^((?:[^,]*,){1})[^,]*,(.*)").unwrap();
    re.replace(address, "$1$2").to_string()
}

/// Whether taking out fields brings an address down to `max_width` characters.
pub fn truncates_address(address: &str, max_width: usize) -> (r: bool)
    ensures
        r == truncates(address@, max_width as nat),
    decreases address@.len(),
{
    if address.unicode_len() <= max_width {
        return true;
    }
    match find_comma(address, 0) {
        None => false,
        Some(c1) => {
            proof {
                lemma_comma_from(address@, 0);
            }
            match find_comma(address, c1 + 1) {
                None => false,
                Some(_) => {
                    proof {
                        lemma_removal_shortens(address@);
                    }
                    let shorter = remove_second_field(address);
                    truncates_address(shorter.as_str(), max_width)
                },
            }
        },
    }
}

impl Product {
    /// Shortens an overly long address by taking out its second field (the one
    /// between the first and the second comma) until it is at most `max_width`
    /// characters long.
    pub fn trunc_address(address: String, max_width: usize) -> (r: String)
        requires
            truncates(address@, max_width as nat),
        ensures
            r@ == truncated(address@, max_width as nat),
            r@.len() <= max_width,
        decreases address@.len(),
    {
        let address_len = address.as_str().unicode_len();
        if address_len > max_width {
            proof {
                lemma_removal_shortens(address@);
            }
            // For most locations with overly long addresses, the results seem to be better if
            // truncated between the first and second comma instead the penultimate and last comma.
            let shorter = remove_second_field(address.as_str());
            Self::trunc_address(shorter, max_width)
        } else {
            address
        }
    }
}


/// The levels of the graphs of the panels that draw hours, worked out from
/// the temperatures.
pub struct PanelLevels {
    /// For each day of the forecast, the levels of its hourly graph.
    pub days: Vec<Vec<usize>>,
    /// For each past date asked for, in order, the levels of its graph.
    pub historical: Vec<Vec<usize>>,
}

/// What a panel gives: its lines, or the error that stops the output.
pub type Panel = Result<Seq<Seq<SegmentView>>, Error>;

/// The note on where the data comes from, shown last.
pub open spec fn disclaimer() -> Seq<SegmentView> {
    seq![plain(" "@), tinted("Weather data by Open-Meteo.com\n"@, Tint::Dim)]
}

/// What the panels show, one after the other, up to the first that fails,
/// and that panel's error.
pub open spec fn shown(panels: Seq<Panel>) -> (Seq<Seq<SegmentView>>, Option<Error>)
    decreases panels.len(),
{
    if panels.len() == 0 {
        (Seq::empty(), None)
    } else {
        match panels[0] {
            Err(e) => (Seq::empty(), Some(e)),
            Ok(lines) => {
                let rest = shown(panels.drop_first());
                (lines + rest.0, rest.1)
            },
        }
    }
}

/// The levels of the hourly graph of a day.
pub open spec fn day_levels(lv: &PanelLevels, i: int) -> Seq<usize> {
    lv.days@[i]@
}

/// The current weather as a panel.
pub open spec fn current_lines(p: &Product, params: &Params, lv: &PanelLevels, add_hourly: bool) -> Panel {
    match current_panel(p, params, add_hourly, if add_hourly { day_levels(lv, 0) } else { Seq::empty() }) {
        Ok((lines, _)) => Ok(lines),
        Err(e) => Err(e),
    }
}

/// The week's overview as a panel, below a panel of the given dimensions.
pub open spec fn week_panel(p: &Product, params: &Params, today: Date, dims: Option<(nat, nat)>) -> Panel {
    match week_prefix(p, params, today, p.weather.daily.time@.len()) {
        Err(e) => Err(e),
        Ok((days, width)) => {
            let (w, c) = week_dimensions(width, dims);
            Ok(week_lines(params.config.gui.border, days, w, c))
        },
    }
}

/// The current weather with its hours, and the week's overview, as asked for.
pub open spec fn top_panels(p: &Product, params: &Params, lv: &PanelLevels, today: Date, idx: Seq<usize>) -> Seq<Panel> {
    if idx.contains(0) && idx.contains(7) {
        match current_panel(p, params, true, day_levels(lv, 0)) {
            Err(e) => seq![Err(e)],
            Ok((lines, dims)) => seq![Ok(lines), week_panel(p, params, today, Some(dims))],
        }
    } else if idx.contains(0) {
        seq![current_lines(p, params, lv, true)]
    } else if idx.contains(7) {
        seq![week_panel(p, params, today, None)]
    } else {
        Seq::empty()
    }
}

/// The panels of the coming days among the indices, in their order.
pub open spec fn day_panels(p: &Product, params: &Params, lv: &PanelLevels, today: Date, idx: Seq<usize>) -> Seq<Panel>
    decreases idx.len(),
{
    if idx.len() == 0 {
        Seq::empty()
    } else {
        let rest = day_panels(p, params, lv, today, idx.drop_first());
        if 0 < idx[0] < 7 {
            seq![day_panel(p, params, idx[0] as int, day_levels(lv, idx[0] as int), today)] + rest
        } else {
            rest
        }
    }
}

/// The indices of the requested forecasts on a weekday.
pub open spec fn wanted(params: &Params, weekday: Weekday) -> Seq<usize> {
    ascending(forecast_indices(params.config.forecast@, weekday.number() as int), 8)
}

/// The panels shown, on the day `today`, a `weekday`: the current weather
/// alone where nothing else is asked for; else the past dates asked for,
/// then the current weather with its hours and the week's overview, then the
/// coming days, as the forecast asks for them.
pub open spec fn panels(p: &Product, params: &Params, lv: &PanelLevels, today: Date, weekday: Weekday) -> Seq<Panel> {
    let f = params.config.forecast@;
    let h = params.historical_weather@;
    if f.len() == 0 && h.len() == 0 {
        seq![current_lines(p, params, lv, false)]
    } else {
        let past = past_panels(p, params, lv, today);
        if f.len() == 0 {
            past
        } else {
            let idx = wanted(params, weekday);
            past + top_panels(p, params, lv, today, idx) + day_panels(p, params, lv, today, idx)
        }
    }
}

/// Whether each panel asked for on a weekday can be drawn, where `hour` is the
/// current hour as the hourly panels read it (`None`: not known).
pub open spec fn render_ready_at(p: &Product, params: &Params, lv: &PanelLevels, weekday: Weekday, hour: Option<int>) -> bool {
    let f = params.config.forecast@;
    let h = params.historical_weather@;
    let idx = wanted(params, weekday);
    &&& f.len() == 0 && h.len() == 0 ==> current_ready_at(p, params, false, Seq::empty(), hour)
    &&& past_ready(p, params, lv)
    &&& f.len() > 0 && idx.contains(0) ==> lv.days@.len() > 0 && current_ready_at(p, params, true, day_levels(lv, 0), hour)
    &&& f.len() > 0 && idx.contains(7) ==> week_ready(p)
    &&& f.len() > 0 ==> forall|k: int|
        0 <= k < idx.len() && 0 < #[trigger] idx[k] < 7 ==> lv.days@.len() > idx[k] && day_ready_at(
            p,
            params,
            idx[k] as int,
            day_levels(lv, idx[k] as int),
            hour,
        )
}

/// Whether each panel asked for on a weekday can be drawn at the current hour.
pub open spec fn render_ready(p: &Product, params: &Params, lv: &PanelLevels, weekday: Weekday) -> bool {
    render_ready_at(p, params, lv, weekday, parsed_hour(p))
}

/// Whether the panels of a weekday draw the current day's hours while the
/// hourly arrays stop short of the next day's, which that panel reads in the
/// last hour of the day.
pub open spec fn next_day_missing(p: &Product, params: &Params, weekday: Weekday) -> bool {
    params.config.forecast@.len() > 0 && wanted(params, weekday).contains(0) && hours_short(p, params)
}

/// Readiness without a known hour is readiness at the current hour, unless
/// the current day's hours are drawn and the arrays stop short of the next
/// day's hours.
pub proof fn lemma_render_ready_at_hour(p: &Product, params: &Params, lv: &PanelLevels, weekday: Weekday)
    requires
        render_ready_at(p, params, lv, weekday, None),
        !next_day_missing(p, params, weekday),
    ensures
        render_ready(p, params, lv, weekday),
{
    let f = params.config.forecast@;
    let h = params.historical_weather@;
    let idx = wanted(params, weekday);
    if f.len() == 0 && h.len() == 0 {
        lemma_current_ready_at_hour(p, params, false, Seq::empty());
    }
    if f.len() > 0 && idx.contains(0) {
        lemma_current_ready_at_hour(p, params, true, day_levels(lv, 0));
    }
    if f.len() > 0 {
        assert forall|k: int|
            0 <= k < idx.len() && 0 < #[trigger] idx[k] < 7 implies lv.days@.len() > idx[k] && day_ready(
                p,
                params,
                idx[k] as int,
                day_levels(lv, idx[k] as int),
            ) by {
            lemma_day_ready_at_hour(p, params, idx[k] as int, day_levels(lv, idx[k] as int));
        }
    }
}

/// Whether the current day's arrays stop short of the next day's hours in
/// the last hour of the day.
fn hours_short_of(p: &Product, params: &Params) -> (r: bool)
    ensures
        r == hours_short(p, params),
{
    let h = &p.weather.hourly;
    match parse_time(p.weather.current_weather.time.as_str(), "%Y-%m-%dT%H:%M") {
        Some((hour, _)) => {
            let precipitation_len = if params.config.units.precipitation == Precipitation::probability {
                h.precipitation_probability.len()
            } else {
                h.precipitation.len()
            };
            hour == 23 && !(h.temperature_2m.len() >= 50 && h.weathercode.len() >= 50 && precipitation_len >= 50)
        },
        None => false,
    }
}

/// Showing panels one after another: where one of the first panels fails,
/// nothing after it is shown; else the lines of the others follow theirs.
pub proof fn lemma_shown_append(a: Seq<Panel>, b: Seq<Panel>)
    ensures
        shown(a + b) == if shown(a).1 is Some {
            shown(a)
        } else {
            (shown(a).0 + shown(b).0, shown(b).1)
        },
    decreases a.len(),
{
    if a.len() == 0 {
        assert(a + b =~= b);
    } else {
        assert((a + b).drop_first() =~= a.drop_first() + b);
        lemma_shown_append(a.drop_first(), b);
        match a[0] {
            Err(_) => {},
            Ok(l) => {
                if shown(a.drop_first()).1 is None {
                    assert(l + (shown(a.drop_first()).0 + shown(b).0) =~= (l + shown(a.drop_first()).0) + shown(
                        b,
                    ).0);
                }
            },
        }
    }
}

/// One panel more: its lines after the others', or its error.
proof fn lemma_shown_push(a: Seq<Panel>, x: Panel)
    requires
        shown(a).1 is None,
    ensures
        shown(a.push(x)) == match x {
            Ok(l) => (shown(a).0 + l, None),
            Err(e) => (shown(a).0, Some(e)),
        },
{
    let one = seq![x];
    assert(one.drop_first() =~= Seq::<Panel>::empty());
    assert(shown(one.drop_first()) == (Seq::<Seq<SegmentView>>::empty(), Option::<Error>::None));
    match x {
        Ok(l) => {
            assert(shown(one) == (l + Seq::<Seq<SegmentView>>::empty(), Option::<Error>::None));
            assert(l + Seq::<Seq<SegmentView>>::empty() =~= l);
        },
        Err(e) => {
            assert(shown(one) == (Seq::<Seq<SegmentView>>::empty(), Some(e)));
            assert(shown(a).0 + Seq::<Seq<SegmentView>>::empty() =~= shown(a).0);
        },
    }
    lemma_shown_append(a, one);
    assert(a + one =~= a.push(x));
}

/// Moves the lines of a panel to the end of the output.
fn append_lines(out: &mut Vec<Line>, lines: Vec<Line>)
    ensures
        lines_view(final(out)@) == lines_view(old(out)@) + lines_view(lines@),
{
    let mut lines = lines;
    let ghost a = lines_view(out@);
    let ghost b = lines_view(lines@);
    out.append(&mut lines);
    assert(lines_view(out@) =~= a + b);
}

/// Ends the output with the note on the data's source.
fn finish(out: Vec<Line>, error: Option<Error>) -> (r: (Vec<Line>, Option<Error>))
    ensures
        lines_view(r.0@) == lines_view(out@).push(disclaimer()),
        r.1 == error,
{
    let mut out = out;
    let mut note = Line::new();
    note.add_plain(" ");
    note.add("Weather data by Open-Meteo.com\n".to_string(), Tint::Dim, false);
    assert(note@ =~= disclaimer());
    let ghost before = lines_view(out@);
    out.push(note);
    assert(lines_view(out@) =~= before.push(disclaimer()));
    (out, error)
}

fn has_index(idx: &Vec<usize>, v: usize) -> (r: bool)
    ensures
        r == idx@.contains(v),
{
    let mut k: usize = 0;
    while k < idx.len()
        invariant
            k <= idx@.len(),
            forall|j: int| 0 <= j < k ==> idx@[j] != v,
        decreases idx@.len() - k,
    {
        if idx[k] == v {
            assert(idx@[k as int] == v);
            return true;
        }
        k = k + 1;
    }
    false
}

/// The panels of the past dates asked for.
pub open spec fn past_panels(p: &Product, params: &Params, lv: &PanelLevels, today: Date) -> Seq<Panel> {
    let h = params.historical_weather@;
    Seq::new(h.len(), |j: int| historical_panel(p, params, h[j], lv.historical@[j]@, today))
}

/// Whether the panels of the past dates can be drawn.
pub open spec fn past_ready(p: &Product, params: &Params, lv: &PanelLevels) -> bool {
    let h = params.historical_weather@;
    &&& lv.historical@.len() == h.len()
    &&& forall|j: int| 0 <= j < h.len() ==> historical_weather_ready(p, params, h[j], #[trigger] lv.historical@[j]@)
}

fn render_past(p: &Product, params: &Params, levels: &PanelLevels, today: Date, out: &mut Vec<Line>) -> (r: Option<Error>)
    requires
        past_ready(p, params, levels),
    ensures
        lines_view(final(out)@) == lines_view(old(out)@) + shown(past_panels(p, params, levels, today)).0,
        r == shown(past_panels(p, params, levels, today)).1,
{
    proof {
        reveal(historical_panel);
    }
    let ghost start = lines_view(out@);
    let ghost all = past_panels(p, params, levels, today);
    let n = params.historical_weather.len();
    let mut j: usize = 0;
    assert(shown(all.subrange(0, 0)) == (Seq::<Seq<SegmentView>>::empty(), Option::<Error>::None));
    assert(start + Seq::<Seq<SegmentView>>::empty() =~= start);
    while j < n
        invariant
            j <= n,
            n == params.historical_weather@.len(),
            n == all.len(),
            past_ready(p, params, levels),
            all == past_panels(p, params, levels, today),
            start == lines_view(old(out)@),
            shown(all.subrange(0, j as int)).1 is None,
            lines_view(out@) == start + shown(all.subrange(0, j as int)).0,
        decreases n - j,
    {
        let ghost done = all.subrange(0, j as int);
        proof {
            reveal(historical_panel);
            lemma_shown_push(done, all[j as int]);
            assert(all.subrange(0, j + 1) =~= done.push(all[j as int]));
        }
        let date = &params.historical_weather[j];
        match HistoricalWeather::prep_on(p, params, date, levels.historical[j].as_slice(), today) {
            Ok(hw) => {
                let lines = hw.render(params);
                append_lines(out, lines);
                assert(start + shown(done).0 + all[j as int]->Ok_0 =~= start + (shown(done).0 + all[j as int]->Ok_0));
            },
            Err(e) => {
                proof {
                    assert(all[j as int] == historical_panel(p, params, *date, levels.historical@[j as int]@, today));
                    assert(all[j as int] == Err::<Seq<Seq<SegmentView>>, Error>(e));
                    assert(shown(done.push(all[j as int])) == (shown(done).0, Some(e)));
                    let rest = all.subrange(j + 1, n as int);
                    assert(all =~= done.push(all[j as int]) + rest);
                    lemma_shown_append(done.push(all[j as int]), rest);
                    assert(shown(all) == (shown(done).0, Some(e)));
                }
                return Some(e);
            },
        }
        j = j + 1;
    }
    assert(all.subrange(0, n as int) =~= all);
    None
}

fn render_days(
    p: &Product,
    params: &Params,
    levels: &PanelLevels,
    today: Date,
    indices: &Vec<usize>,
    out: &mut Vec<Line>,
) -> (r: Option<Error>)
    requires
        forall|k: int|
            0 <= k < indices@.len() && 0 < #[trigger] indices@[k] < 7 ==> levels.days@.len() > indices@[k] && day_ready(
                p,
                params,
                indices@[k] as int,
                day_levels(levels, indices@[k] as int),
            ),
    ensures
        lines_view(final(out)@) == lines_view(old(out)@) + shown(day_panels(p, params, levels, today, indices@)).0,
        r == shown(day_panels(p, params, levels, today, indices@)).1,
{
    let ghost start = lines_view(out@);
    let ghost idx = indices@;
    let ghost all = day_panels(p, params, levels, today, idx);
    let ghost mut done: Seq<Panel> = Seq::empty();
    assert(idx.subrange(0, idx.len() as int) =~= idx);
    assert(all =~= done + day_panels(p, params, levels, today, idx.subrange(0, idx.len() as int)));
    assert(start + Seq::<Seq<SegmentView>>::empty() =~= start);
    let mut k: usize = 0;
    while k < indices.len()
        invariant
            k <= idx.len(),
            indices@ == idx,
            forall|k: int|
                0 <= k < idx.len() && 0 < #[trigger] idx[k] < 7 ==> levels.days@.len() > idx[k] && day_ready(
                    p,
                    params,
                    idx[k] as int,
                    day_levels(levels, idx[k] as int),
                ),
            start == lines_view(old(out)@),
            all == day_panels(p, params, levels, today, idx),
            shown(done).1 is None,
            lines_view(out@) == start + shown(done).0,
            all == done + day_panels(p, params, levels, today, idx.subrange(k as int, idx.len() as int)),
        decreases idx.len() - k,
    {
        let ghost rest = idx.subrange(k as int, idx.len() as int);
        assert(rest.drop_first() =~= idx.subrange(k + 1, idx.len() as int));
        let i = indices[k];
        if 0 < i && i < 7 {
            let ghost later = day_panels(p, params, levels, today, rest.drop_first());
            let ghost this = day_panel(p, params, i as int, day_levels(levels, i as int), today);
            assert(all =~= done.push(this) + later);
            proof {
                lemma_shown_push(done, this);
            }
            match crate::display::day::prep_on(p, params, i, levels.days[i].as_slice(), today) {
                Err(e) => {
                    proof {
                        assert(this == Err::<Seq<Seq<SegmentView>>, Error>(e));
                        lemma_shown_append(done.push(this), later);
                    }
                    return Some(e);
                },
                Ok(lines) => {
                    append_lines(out, lines);
                    proof {
                        assert(start + shown(done).0 + this->Ok_0 =~= start + (shown(done).0 + this->Ok_0));
                        done = done.push(this);
                    }
                },
            }
        }
        k = k + 1;
    }
    proof {
        assert(idx.subrange(idx.len() as int, idx.len() as int) =~= Seq::<usize>::empty());
        assert(all =~= done);
    }
    None
}

fn render_top(
    p: &Product,
    params: &Params,
    levels: &PanelLevels,
    today: Date,
    indices: &Vec<usize>,
    out: &mut Vec<Line>,
) -> (r: Option<Error>)
    requires
        indices@.contains(0) ==> levels.days@.len() > 0 && current_ready(p, params, true, day_levels(levels, 0)),
        indices@.contains(7) ==> week_ready(p),
    ensures
        lines_view(final(out)@) == lines_view(old(out)@) + shown(top_panels(p, params, levels, today, indices@)).0,
        r == shown(top_panels(p, params, levels, today, indices@)).1,
{
    let ghost start = lines_view(out@);
    let ghost top = top_panels(p, params, levels, today, indices@);
    let ghost empty = Seq::<Panel>::empty();
    assert(shown(empty) == (Seq::<Seq<SegmentView>>::empty(), Option::<Error>::None));
    assert(start + Seq::<Seq<SegmentView>>::empty() =~= start);
    let has_today = has_index(indices, 0);
    let has_week = has_index(indices, 7);
    if has_today && has_week {
        // Current day with hours & weekly overview
        proof {
            lemma_shown_push(empty, top[0]);
        }
        match crate::display::current::prep(p, params, true, levels.days[0].as_slice()) {
            Err(e) => {
                assert(top =~= empty.push(top[0]));
                Some(e)
            },
            Ok((lines, dims)) => {
                append_lines(out, lines);
                let ghost first = empty.push(top[0]);
                proof {
                    lemma_shown_push(first, top[1]);
                    assert(top =~= first.push(top[1]));
                    assert(Seq::<Seq<SegmentView>>::empty() + top[0]->Ok_0 =~= top[0]->Ok_0);
                }
                match Week::prep_on(p, params, today) {
                    Err(e) => Some(e),
                    Ok(week) => {
                        let lines = week.render(params, Some(dims));
                        append_lines(out, lines);
                        assert(start + top[0]->Ok_0 + top[1]->Ok_0 =~= start + (top[0]->Ok_0 + top[1]->Ok_0));
                        None
                    },
                }
            },
        }
    } else if has_today {
        // Current day with hours
        proof {
            lemma_shown_push(empty, top[0]);
            assert(top =~= empty.push(top[0]));
        }
        match crate::display::current::prep(p, params, true, levels.days[0].as_slice()) {
            Err(e) => Some(e),
            Ok((lines, _)) => {
                append_lines(out, lines);
                assert(Seq::<Seq<SegmentView>>::empty() + top[0]->Ok_0 =~= top[0]->Ok_0);
                None
            },
        }
    } else if has_week {
        // Weekly overview only
        proof {
            lemma_shown_push(empty, top[0]);
            assert(top =~= empty.push(top[0]));
        }
        match Week::prep_on(p, params, today) {
            Err(e) => Some(e),
            Ok(week) => {
                let lines = week.render(params, None);
                append_lines(out, lines);
                assert(Seq::<Seq<SegmentView>>::empty() + top[0]->Ok_0 =~= top[0]->Ok_0);
                None
            },
        }
    } else {
        assert(top =~= empty);
        None
    }
}

impl Product {
    /// Draws the panels asked for, on the day `today`, a `weekday`: the lines
    /// up to the first panel that fails, the note on the data's source, and
    /// that panel's error.
    pub fn render_on(&self, params: &Params, levels: &PanelLevels, today: Date, weekday: Weekday) -> (r: (
        Vec<Line>,
        Option<Error>,
    ))
        requires
            render_ready(self, params, levels, weekday),
        ensures
            lines_view(r.0@) == shown(panels(self, params, levels, today, weekday)).0.push(disclaimer()),
            r.1 == shown(panels(self, params, levels, today, weekday)).1,
    {
        let ghost all = panels(self, params, levels, today, weekday);
        let mut out: Vec<Line> = Vec::new();
        if params.config.forecast.len() == 0 && params.historical_weather.len() == 0 {
            // Current day without hours
            let ghost empty = Seq::<Panel>::empty();
            assert(shown(empty) == (Seq::<Seq<SegmentView>>::empty(), Option::<Error>::None));
            proof {
                lemma_shown_push(empty, all[0]);
                assert(all =~= empty.push(all[0]));
            }
            let no_levels: Vec<usize> = Vec::new();
            return match crate::display::current::prep(self, params, false, no_levels.as_slice()) {
                Ok((lines, _)) => {
                    append_lines(&mut out, lines);
                    assert(Seq::<Seq<SegmentView>>::empty() + all[0]->Ok_0 =~= all[0]->Ok_0);
                    finish(out, None)
                },
                Err(e) => finish(out, Some(e)),
            };
        }
        let ghost past = past_panels(self, params, levels, today);
        let past_error = render_past(self, params, levels, today, &mut out);
        if let Some(e) = past_error {
            proof {
                if params.config.forecast@.len() == 0 {
                    assert(all =~= past);
                } else {
                    let idx = wanted(params, weekday);
                    lemma_shown_append(
                        past,
                        top_panels(self, params, levels, today, idx) + day_panels(self, params, levels, today, idx),
                    );
                    assert(all =~= past + (top_panels(self, params, levels, today, idx) + day_panels(
                        self,
                        params,
                        levels,
                        today,
                        idx,
                    )));
                }
            }
            return finish(out, Some(e));
        }
        if params.config.forecast.len() == 0 {
            assert(all =~= past);
            return finish(out, None);
        }
        let ghost idx = wanted(params, weekday);
        let indices = get_indices(params.config.forecast.as_slice(), weekday);
        let ghost top = top_panels(self, params, levels, today, idx);
        let ghost days = day_panels(self, params, levels, today, idx);
        assert(all =~= past + top + days);
        let top_error = render_top(self, params, levels, today, &indices, &mut out);
        if let Some(e) = top_error {
            proof {
                lemma_shown_append(past, top);
                lemma_shown_append(past + top, days);
            }
            return finish(out, Some(e));
        }
        let days_error = render_days(self, params, levels, today, &indices, &mut out);
        proof {
            lemma_shown_append(past, top);
            lemma_shown_append(past + top, days);
            assert(shown(past).0 + shown(top).0 + shown(days).0 =~= shown(past).0 + (shown(top).0 + shown(days).0));
        }
        finish(out, days_error)
    }

    /// Draws the panels asked for, on the day `today`, a `weekday`, where the
    /// hourly arrays hold the hours the panels read: `None` where the current
    /// day's hours are drawn in the last hour of the day and the arrays stop
    /// short of the next day's hours; else what `render_on` draws.
    pub fn render_if_complete_on(&self, params: &Params, levels: &PanelLevels, today: Date, weekday: Weekday) -> (r:
        Option<(Vec<Line>, Option<Error>)>)
        requires
            render_ready_at(self, params, levels, weekday, None),
        ensures
            r is None <==> next_day_missing(self, params, weekday),
            r matches Some(out) ==> lines_view(out.0@) == shown(panels(self, params, levels, today, weekday)).0.push(
                disclaimer(),
            ) && out.1 == shown(panels(self, params, levels, today, weekday)).1,
    {
        if params.config.forecast.len() > 0 && hours_short_of(self, params) {
            let indices = get_indices(params.config.forecast.as_slice(), weekday);
            if has_index(&indices, 0) {
                return None;
            }
        }
        proof {
            lemma_render_ready_at_hour(self, params, levels, weekday);
        }
        Some(self.render_on(params, levels, today, weekday))
    }

    /// Draws the panels asked for, today: as `render_if_complete_on` on
    /// the current date and weekday.
    pub fn render(&self, params: &Params, levels: &PanelLevels) -> (r: Option<(Vec<Line>, Option<Error>)>)
        requires
            forall|weekday: Weekday| render_ready_at(self, params, levels, weekday, None),
        ensures
            exists|today: Date, weekday: Weekday|
                #![trigger panels(self, params, levels, today, weekday)]
                (r is None <==> next_day_missing(self, params, weekday)) && (r matches Some(out) ==> lines_view(out.0@)
                    == shown(panels(self, params, levels, today, weekday)).0.push(disclaimer()) && out.1 == shown(
                    panels(self, params, levels, today, weekday),
                ).1),
    {
        let weekday = today_weekday();
        let now = today();
        let r = self.render_if_complete_on(params, levels, now, weekday);
        assert((r is None <==> next_day_missing(self, params, weekday)) && (r matches Some(out) ==> lines_view(out.0@)
            == shown(panels(self, params, levels, now, weekday)).0.push(disclaimer()) && out.1 == shown(
            panels(self, params, levels, now, weekday),
        ).1));
        r
    }
}

} // verus!
