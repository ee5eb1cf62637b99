use vstd::prelude::*;

use crate::border::{BorderStyle, Edge};
use crate::date::{
    add_days, chrono_add_days, chrono_format, chrono_parse_date, format_date, localize_date_on, localized_date,
    localized_date_error, parse_date, today, Date,
};
use crate::display::current::sun_time;
use crate::display::hourly::{
    hour_in, hour_of, hourly_lines, hourly_ready_at, lemma_hourly_ready_at_hour, parsed_hour, time_text_ok, WIDTH,
};
use crate::display::line::{
    bold, boxed, edge, edge_line, lines_view, plain, separator, separator_line, title_separator, title_separator_of,
    Line, SegmentView, Tint,
};
use crate::display::product::{truncated, truncates, Product, TOTAL_BORDER_PADDING};
use crate::error::Error;
use crate::params::Params;
use crate::text::{decimal_text, display_width, pad_string_to_width, padded, push_char, push_decimal, str_equal, str_width};
use crate::units::Time;
use crate::weathercode::{code_icon, code_interpretation, is_known_code, WeatherCode};

verus! {

/// Whether the panel of a coming day can be drawn: the day is one of the
/// week, the address can be shortened, the times are readable, the day's
/// values are there, the afternoon is after noon on the twelve-hour clock,
/// and the day's hourly panel can be drawn.
/// `hour` is the current hour as the hourly panel reads it (`None`: not known).
#[verifier::opaque]
pub open spec fn day_ready_at(p: &Product, params: &Params, day_index: int, levels: Seq<usize>, hour: Option<int>) -> bool {
    let w = &p.weather;
    &&& truncates(p.address@, 60)
    &&& time_text_ok(w.current_weather.time@)
    &&& w.daily.temperature_2m_max@.len() > day_index
    &&& w.daily.temperature_2m_min@.len() > day_index
    &&& w.daily.apparent_temperature_max@.len() > day_index
    &&& w.daily.apparent_temperature_min@.len() > day_index
    &&& w.daily.precipitation_probability_max@.len() > day_index
    &&& w.daily.weathercode@.len() > day_index
    &&& w.daily.sunrise@.len() > day_index
    &&& w.daily.sunset@.len() > day_index
    &&& time_text_ok(w.daily.sunrise@[day_index]@)
    &&& time_text_ok(w.daily.sunset@[day_index]@)
    &&& params.config.units.time == Time::am_pm ==> hour_of(w.daily.sunset@[day_index]@) >= 12
    &&& hourly_ready_at(p, params, day_index, levels, hour)
}

/// Whether a coming day's panel can be drawn, at the current hour.
pub open spec fn day_ready(p: &Product, params: &Params, day_index: int, levels: Seq<usize>) -> bool {
    day_ready_at(p, params, day_index, levels, parsed_hour(p))
}

/// Readiness without a known hour is readiness at the current hour for any
/// day after the current one.
pub proof fn lemma_day_ready_at_hour(p: &Product, params: &Params, day_index: int, levels: Seq<usize>)
    requires
        day_ready_at(p, params, day_index, levels, None),
        day_index != 0,
    ensures
        day_ready(p, params, day_index, levels),
{
    reveal(day_ready_at);
    lemma_hourly_ready_at_hour(p, params, day_index, levels, parsed_hour(p));
}

/// `n - k`, or 0 where `k` is larger.
pub open spec fn room(n: nat, k: nat) -> nat {
    if k <= n {
        (n - k) as nat
    } else {
        0
    }
}

/// The date of the day as shown: the weekday, the day and the month, in the
/// configured language (English for `en_US` and `en`), on the day `today`.
pub open spec fn day_date_text(dt: Date, lang: Seq<char>, today: Date) -> Result<Seq<char>, Error> {
    if lang == "en_US"@ || lang == "en"@ {
        match chrono_format(dt, "%a, %e %b"@) {
            Some(t) => Ok(t),
            None => Err(Error::InvalidDate),
        }
    } else {
        match localized_date(dt, lang, today) {
            Some(t) => Ok(t),
            None => Err(localized_date_error(lang)),
        }
    }
}

/// The date of the day `day_index` days after the current weather's, written
/// for the configured language on the day `today`.
pub open spec fn day_date(p: &Product, params: &Params, day_index: int, today: Date) -> Result<Seq<char>, Error> {
    match chrono_parse_date(p.weather.current_weather.time@, "%Y-%m-%dT%H:%M"@) {
        None => Err(Error::InvalidDate),
        Some(d) => match chrono_add_days(d, day_index as i64) {
            None => Err(Error::InvalidDate),
            Some(dt) => day_date_text(dt, params.config.language@, today),
        },
    }
}

/// The two rows under the title: weather, temperatures, chance of rain and
/// date; apparent temperatures, sunrise and sunset. The texts on the right
/// take the room they need; a text wider than the panel leaves the one on the
/// left unpadded.
pub open spec fn day_rows(
    style: BorderStyle,
    summary: Seq<char>,
    date: Seq<char>,
    apparent: Seq<char>,
    sun: Seq<char>,
) -> Seq<Seq<SegmentView>> {
    let inner = (WIDTH - TOTAL_BORDER_PADDING) as nat;
    seq![
        boxed(style, seq![bold(padded(summary, room(inner, display_width(date)))), plain(date)]),
        boxed(style, seq![plain(padded(apparent, room(inner, display_width(sun)))), plain(sun)]),
    ]
}

/// The panel of a coming day, on the day `today`: title, the day's summary,
/// and its hourly panel.
#[verifier::opaque]
pub open spec fn day_panel(p: &Product, params: &Params, day_index: int, levels: Seq<usize>, today: Date) -> Result<
    Seq<Seq<SegmentView>>,
    Error,
> {
    let w = &p.weather;
    let d = day_index;
    let style = params.config.gui.border;
    let h = hour_of(w.current_weather.time@);
    let sunrise = w.daily.sunrise@[d]@;
    let sunset = w.daily.sunset@[d]@;
    let night = h < hour_of(sunrise) || h > hour_of(sunset);
    let code = w.daily.weathercode@[d];
    match day_date(p, params, d, today) {
        Err(e) => Err(e),
        Ok(date) => if !is_known_code(code) {
            Err(Error::UnknownWeatherCode)
        } else {
            match hourly_lines(p, params, d, levels) {
                Err(e) => Err(e),
                Ok(hourly) => {
                    let time = params.config.units.time;
                    let unit = w.daily_units.temperature_2m_max@;
                    let temp_max_min = w.daily.temperature_2m_max@[d]@ + "/"@ + w.daily.temperature_2m_min@[d]@ + unit;
                    let probability = "❲"@ + decimal_text(w.daily.precipitation_probability_max@[d] as nat)
                        + "\u{f058e}❳"@;
                    let summary = seq![code_icon(code, night)] + " "@ + code_interpretation(
                        code,
                        params.texts.weather.weather_code,
                    ) + ", "@ + temp_max_min + " "@ + probability;
                    let apparent = params.texts.weather.feels_like@ + " "@ + w.daily.apparent_temperature_max@[d]@
                        + "/"@ + w.daily.apparent_temperature_min@[d]@ + unit;
                    let sun = "\u{e34c} "@ + sun_time(time, sunrise, false) + "  "@ + "\u{e343} "@ + sun_time(
                        time,
                        sunset,
                        true,
                    );
                    let inner = (WIDTH - TOTAL_BORDER_PADDING) as nat;
                    Ok(
                        seq![
                            edge_line(Edge::Top, WIDTH as nat, style),
                            boxed(style, seq![bold(padded(truncated(p.address@, 60), inner))]),
                            separator_line(title_separator(style), WIDTH as nat, style),
                        ] + day_rows(style, summary, "\u{eab0} "@ + date, apparent, sun) + hourly + seq![
                            edge_line(Edge::Bottom, WIDTH as nat, style),
                        ],
                    )
                },
            }
        },
    }
}

pub(crate) fn day_date_text_of(dt: Date, lang: &str, today: Date) -> (r: Result<String, Error>)
    ensures
        match day_date_text(dt, lang@, today) {
            Ok(t) => r matches Ok(s) && s@ == t,
            Err(e) => r matches Err(e2) && e2 == e,
        },
{
    proof {
        reveal_strlit("en_US");
        reveal_strlit("en");
    }
    if str_equal(lang, "en_US") || str_equal(lang, "en") {
        match format_date(dt, "%a, %e %b") {
            Some(s) => Ok(s),
            None => Err(Error::InvalidDate),
        }
    } else {
        localize_date_on(dt, lang, today)
    }
}

pub(crate) fn day_rows_lines(style: &BorderStyle, summary: &str, date: &str, apparent: &str, sun: &str) -> (r: Vec<Line>)
    ensures
        lines_view(r@) == day_rows(*style, summary@, date@, apparent@, sun@),
{
    let inner = WIDTH - TOTAL_BORDER_PADDING;
    let date_width = str_width(date);
    let sun_width = str_width(sun);
    let mut first = Line::new();
    first.add(pad_string_to_width(summary, if date_width <= inner { inner - date_width } else { 0 }), Tint::Plain, true);
    first.add(date.to_string(), Tint::Plain, false);
    let mut second = Line::new();
    second.add(pad_string_to_width(apparent, if sun_width <= inner { inner - sun_width } else { 0 }), Tint::Plain, false);
    second.add(sun.to_string(), Tint::Plain, false);
    let ghost inner_n = (WIDTH - TOTAL_BORDER_PADDING) as nat;
    assert(first@ =~= seq![bold(padded(summary@, room(inner_n, display_width(date@)))), plain(date@)]);
    assert(second@ =~= seq![plain(padded(apparent@, room(inner_n, display_width(sun@)))), plain(sun@)]);
    let mut result: Vec<Line> = Vec::new();
    result.push(Line::boxed(style, first));
    result.push(Line::boxed(style, second));
    assert(lines_view(result@) =~= day_rows(*style, summary@, date@, apparent@, sun@));
    result
}

/// Draws the panel of a coming day, on the day `today`.
pub fn prep_on(product: &Product, params: &Params, day_index: usize, levels: &[usize], today: Date) -> (r: Result<
    Vec<Line>,
    Error,
>)
    requires
        day_ready(product, params, day_index as int, levels@),
    ensures
        match day_panel(product, params, day_index as int, levels@, today) {
            Ok(lines) => r matches Ok(v) && lines_view(v@) == lines,
            Err(e) => r matches Err(e2) && e2 == e,
        },
{
    proof {
        reveal(day_panel);
        reveal(day_ready_at);
        reveal(hourly_ready_at);
    }
    let weather = &product.weather;
    let address = Product::trunc_address(product.address.clone(), 60);
    let t = &params.texts.weather;

    // Times
    let current_hour = hour_in(weather.current_weather.time.as_str());
    let sunrise_text = weather.daily.sunrise[day_index].as_str();
    let sunset_text = weather.daily.sunset[day_index].as_str();
    let sunrise_hour = hour_in(sunrise_text);
    let sunset_hour = hour_in(sunset_text);
    let night = current_hour < sunrise_hour || current_hour > sunset_hour;
    let sunrise = crate::display::current::sun_time_of(&params.config.units.time, sunrise_text, false);
    let sunset = crate::display::current::sun_time_of(&params.config.units.time, sunset_text, true);

    let unit = weather.daily_units.temperature_2m_max.as_str();
    let mut temp_max_min = weather.daily.temperature_2m_max[day_index].clone();
    temp_max_min.append("/");
    temp_max_min.append(weather.daily.temperature_2m_min[day_index].as_str());
    temp_max_min.append(unit);
    let mut apparent_temp_max_min = t.feels_like.clone();
    apparent_temp_max_min.append(" ");
    apparent_temp_max_min.append(weather.daily.apparent_temperature_max[day_index].as_str());
    apparent_temp_max_min.append("/");
    apparent_temp_max_min.append(weather.daily.apparent_temperature_min[day_index].as_str());
    apparent_temp_max_min.append(unit);
    let mut precipitation_probability_max = "❲".to_string();
    push_decimal(&mut precipitation_probability_max, weather.daily.precipitation_probability_max[day_index] as u64);
    precipitation_probability_max.append("\u{f058e}❳");

    let dt = match parse_date(weather.current_weather.time.as_str(), "%Y-%m-%dT%H:%M") {
        Some(d) => d,
        None => return Err(Error::InvalidDate),
    };
    let dt = match add_days(dt, day_index as i64) {
        Some(d) => d,
        None => return Err(Error::InvalidDate),
    };
    let date_text = day_date_text_of(dt, params.config.language.as_str(), today)?;
    let mut date = "\u{eab0} ".to_string();
    date.append(date_text.as_str());
    let mut sun = "\u{e34c} ".to_string();
    sun.append(sunrise.as_str());
    sun.append("  ");
    sun.append("\u{e343} ");
    sun.append(sunset.as_str());
    let wmo_code = WeatherCode::resolve(weather.daily.weathercode[day_index], night, &t.weather_code)?;

    let hourly = crate::display::hourly::prep(product, params, day_index, levels)?;

    let style = &params.config.gui.border;
    let mut result: Vec<Line> = Vec::new();
    // Border Top
    result.push(edge(Edge::Top, WIDTH, style));
    // Address / Title
    result.push(Line::boxed(
        style,
        Line::single(pad_string_to_width(address.as_str(), WIDTH - TOTAL_BORDER_PADDING), Tint::Plain, true),
    ));
    // Separator
    result.push(separator(title_separator_of(style), WIDTH, style));
    // Temperature & Weathercode
    let mut summary = String::new();
    push_char(&mut summary, wmo_code.icon);
    summary.append(" ");
    summary.append(wmo_code.interpretation.as_str());
    summary.append(", ");
    summary.append(temp_max_min.as_str());
    summary.append(" ");
    summary.append(precipitation_probability_max.as_str());
    let ghost head = lines_view(result@);
    let mut rows = day_rows_lines(style, summary.as_str(), date.as_str(), apparent_temp_max_min.as_str(), sun.as_str());
    let ghost middle = lines_view(rows@);
    result.append(&mut rows);
    // Hourly Forecast
    let mut hourly = hourly;
    let ghost tail = lines_view(hourly@);
    result.append(&mut hourly);
    // Border Bottom
    result.push(edge(Edge::Bottom, WIDTH, style));
    proof {
        assert(lines_view(result@) =~= head + middle + tail + seq![edge_line(Edge::Bottom, WIDTH as nat, *style)]);
        assert(lines_view(result@) =~= day_panel(product, params, day_index as int, levels@, today)->Ok_0);
    }
    Ok(result)
}

/// Draws the panel of a coming day.
pub fn prep(product: &Product, params: &Params, day_index: usize, levels: &[usize]) -> (r: Result<Vec<Line>, Error>)
    requires
        day_ready(product, params, day_index as int, levels@),
    ensures
        exists|today: Date| match #[trigger] day_panel(product, params, day_index as int, levels@, today) {
            Ok(lines) => r matches Ok(v) && lines_view(v@) == lines,
            Err(e) => r matches Err(e2) && e2 == e,
        },
{
    let now = today();
    prep_on(product, params, day_index, levels, now)
}

} // verus!
