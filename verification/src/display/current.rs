use vstd::prelude::*;

use crate::border::{BorderStyle, Edge, Separator};
use crate::display::hourly::{
    hour_in, hour_of, hourly_lines, hourly_ready_at, hours_short, lemma_hourly_ready_at_hour,
    parsed_hour, time_text_ok, WIDTH,
};
use crate::display::line::{
    bold, boxed, edge, edge_line, lines_view, plain, separator, separator_line, title_separator, title_separator_of,
    Line, SegmentView, Tint,
};
use crate::display::product::{truncated, truncates, Product, MIN_CELL_WIDTH, MIN_WIDTH, TOTAL_BORDER_PADDING};
use crate::error::Error;
use crate::params::Params;
use crate::text::{decimal_text, left_aligned, pad_string_to_width, padded, push_char, push_decimal, push_left_aligned};
use crate::units::Time;
use crate::weathercode::{code_icon, code_interpretation, is_known_code, WeatherCode};
use crate::wind::WindDirection;

verus! {

/// The width of a panel and the width of its left column.
pub struct Dimensions {
    pub width: usize,
    pub cell_width: usize,
}

/// The hour of the current weather.
pub open spec fn current_hour(p: &Product) -> int {
    hour_of(p.weather.current_weather.time@)
}

/// The time of sunrise (or, in the afternoon, of sunset) as shown: `7:18am` or
/// `6:29pm` on the twelve-hour clock, `07:18` on the 24-hour one.
pub open spec fn sun_time(time: Time, s: Seq<char>, afternoon: bool) -> Seq<char> {
    match time {
        Time::am_pm => decimal_text((if afternoon { hour_of(s) - 12 } else { hour_of(s) }) as nat) + ":"@
            + s.subrange(14, 16) + if afternoon { "pm"@ } else { "am"@ },
        Time::military => s.subrange(11, 16),
    }
}

/// `Feels like 11.8°C`.
pub open spec fn apparent_text(p: &Product, params: &Params) -> Seq<char> {
    let w = &p.weather;
    params.texts.weather.feels_like@ + " "@ + w.hourly.apparent_temperature@[current_hour(p)]@
        + w.hourly_units.temperature_2m@
}

/// `Humidity: 72%`.
pub open spec fn humidity_text(p: &Product, params: &Params) -> Seq<char> {
    let w = &p.weather;
    params.texts.weather.humidity@ + ": "@ + w.hourly.relativehumidity_2m@[current_hour(p)]@
        + w.hourly_units.relativehumidity_2m@
}

/// `Dew Point: 8.7°C`.
pub open spec fn dewpoint_text(p: &Product, params: &Params) -> Seq<char> {
    let w = &p.weather;
    params.texts.weather.dew_point@ + ": "@ + w.hourly.dewpoint_2m@[current_hour(p)]@ + w.hourly_units.dewpoint_2m@
}

/// The surface pressure with its icon.
pub open spec fn pressure_text(p: &Product) -> Seq<char> {
    let w = &p.weather;
    "\u{e3a9} "@ + w.hourly.surface_pressure@[current_hour(p)]@ + w.hourly_units.surface_pressure@
}

/// The wind: arrow, speed with unit, and direction.
pub open spec fn wind_text(p: &Product, dir: WindDirection) -> Seq<char> {
    let w = &p.weather;
    seq![dir.icon()] + " "@ + w.current_weather.windspeed@ + w.hourly_units.windspeed_10m@ + " "@ + dir.name()
}

/// The width of the panel: that of the hourly panels, or enough for the title.
pub open spec fn panel_width(address: Seq<char>, add_hourly: bool) -> nat {
    if add_hourly {
        WIDTH as nat
    } else if address.len() > MIN_WIDTH {
        (address.len() + 2 * TOTAL_BORDER_PADDING) as nat
    } else {
        (MIN_WIDTH + 2 * TOTAL_BORDER_PADDING) as nat
    }
}

/// The width of the left column: enough for the humidity, in a longer language.
pub open spec fn left_column_width(humidity: Seq<char>, add_hourly: bool) -> nat {
    if add_hourly {
        22
    } else if humidity.len() > MIN_CELL_WIDTH {
        humidity.len()
    } else {
        (MIN_CELL_WIDTH + TOTAL_BORDER_PADDING) as nat
    }
}

/// Whether the current weather can be drawn: the address can be shortened,
/// the times are readable, the hour's values are there, the left column fits,
/// the afternoon is after noon on the twelve-hour clock, and the hourly panel
/// can be drawn where it is asked for.
/// `hour` is the current hour as the hourly panel reads it (`None`: not known).
#[verifier::opaque]
pub open spec fn current_ready_at(p: &Product, params: &Params, add_hourly: bool, levels: Seq<usize>, hour: Option<int>) -> bool {
    let w = &p.weather;
    &&& truncates(p.address@, 60)
    &&& time_text_ok(w.current_weather.time@)
    &&& w.daily.sunrise@.len() >= 1
    &&& w.daily.sunset@.len() >= 1
    &&& time_text_ok(w.daily.sunrise@[0]@)
    &&& time_text_ok(w.daily.sunset@[0]@)
    &&& params.config.units.time == Time::am_pm ==> hour_of(w.daily.sunset@[0]@) >= 12
    &&& current_hour(p) < w.hourly.apparent_temperature@.len()
    &&& current_hour(p) < w.hourly.relativehumidity_2m@.len()
    &&& current_hour(p) < w.hourly.dewpoint_2m@.len()
    &&& current_hour(p) < w.hourly.surface_pressure@.len()
    &&& left_column_width(humidity_text(p, params), add_hourly) + TOTAL_BORDER_PADDING
        <= panel_width(truncated(p.address@, 60), add_hourly)
    &&& add_hourly ==> hourly_ready_at(p, params, 0, levels, hour)
}

/// Whether the current weather can be drawn, at the current hour.
pub open spec fn current_ready(p: &Product, params: &Params, add_hourly: bool, levels: Seq<usize>) -> bool {
    current_ready_at(p, params, add_hourly, levels, parsed_hour(p))
}

/// Readiness without a known hour is readiness at the current hour, unless the
/// hours are drawn and the arrays stop short of the next day's hours.
pub proof fn lemma_current_ready_at_hour(p: &Product, params: &Params, add_hourly: bool, levels: Seq<usize>)
    requires
        current_ready_at(p, params, add_hourly, levels, None),
        !(add_hourly && hours_short(p, params)),
    ensures
        current_ready(p, params, add_hourly, levels),
{
    reveal(current_ready_at);
    if add_hourly {
        lemma_hourly_ready_at_hour(p, params, 0, levels, parsed_hour(p));
    }
}

/// The rows above the hourly panel: frame top, title, weather, apparent
/// temperature, a blank, then humidity, wind and the sun in two columns.
pub open spec fn current_rows(
    style: BorderStyle,
    width: nat,
    cell: nat,
    address: Seq<char>,
    summary: Seq<char>,
    apparent: Seq<char>,
    humidity: Seq<char>,
    dewpoint: Seq<char>,
    wind: Seq<char>,
    pressure: Seq<char>,
    sunrise: Seq<char>,
    sunset: Seq<char>,
) -> Seq<Seq<SegmentView>> {
    let inner = (width - TOTAL_BORDER_PADDING) as nat;
    let rest = (inner - cell) as nat;
    seq![
        edge_line(Edge::Top, width, style),
        boxed(style, seq![bold(padded(address, inner))]),
        separator_line(title_separator(style), width, style),
        boxed(style, seq![bold(padded(summary, inner))]),
        boxed(style, seq![plain(padded(apparent, inner))]),
        separator_line(Separator::Blank, width, style),
        boxed(style, seq![plain(padded(humidity, cell)), plain(padded(dewpoint, rest))]),
        boxed(style, seq![plain(left_aligned(wind, cell)), plain(left_aligned(pressure, rest))]),
        boxed(style, seq![plain(left_aligned(sunrise, cell)), plain(left_aligned(sunset, rest))]),
    ]
}

/// The lines of the current weather, under a title, with the hourly panel
/// where it is asked for, and the panel's dimensions.
#[verifier::opaque]
pub open spec fn current_panel(p: &Product, params: &Params, add_hourly: bool, levels: Seq<usize>) -> Result<
    (Seq<Seq<SegmentView>>, (nat, nat)),
    Error,
> {
    let w = &p.weather;
    let style = params.config.gui.border;
    let h = current_hour(p);
    let sunrise = w.daily.sunrise@[0]@;
    let sunset = w.daily.sunset@[0]@;
    let night = h < hour_of(sunrise) || h > hour_of(sunset);
    let code = w.current_weather.weathercode;
    match w.current_weather.winddirection {
        None => Err(Error::UnknownWindDirection),
        Some(dir) => if !is_known_code(code) {
            Err(Error::UnknownWeatherCode)
        } else {
            let hourly = if add_hourly {
                hourly_lines(p, params, 0, levels)
            } else {
                Ok(Seq::empty())
            };
            match hourly {
                Err(e) => Err(e),
                Ok(hourly) => {
                    let address = truncated(p.address@, 60);
                    let width = panel_width(address, add_hourly);
                    let humidity = humidity_text(p, params);
                    let cell = left_column_width(humidity, add_hourly);
                    let time = params.config.units.time;
                    let summary = seq![code_icon(code, night)] + " "@ + code_interpretation(
                        code,
                        params.texts.weather.weather_code,
                    ) + ", "@ + w.current_weather.temperature@ + w.hourly_units.temperature_2m@;
                    Ok(
                        (
                            current_rows(
                                style,
                                width,
                                cell,
                                address,
                                summary,
                                apparent_text(p, params),
                                humidity,
                                dewpoint_text(p, params),
                                wind_text(p, dir),
                                pressure_text(p),
                                "\u{e34c} "@ + sun_time(time, sunrise, false),
                                "\u{e343} "@ + sun_time(time, sunset, true),
                            ) + hourly + seq![edge_line(Edge::Bottom, width, style)],
                            (width, cell),
                        ),
                    )
                },
            }
        },
    }
}

pub(crate) fn sun_time_of(time: &Time, s: &str, afternoon: bool) -> (r: String)
    requires
        time_text_ok(s@),
        afternoon && *time == Time::am_pm ==> hour_of(s@) >= 12,
    ensures
        r@ == sun_time(*time, s@, afternoon),
{
    match time {
        Time::am_pm => {
            let hour = hour_in(s);
            let mut r = String::new();
            push_decimal(&mut r, (if afternoon { hour - 12 } else { hour }) as u64);
            r.append(":");
            r.append(s.substring_char(14, 16));
            r.append(if afternoon { "pm" } else { "am" });
            assert(r@ =~= sun_time(*time, s@, afternoon));
            r
        },
        Time::military => s.substring_char(11, 16).to_string(),
    }
}

/// A line between the frame's sides holding one text.
fn boxed_one(style: &BorderStyle, text: String, bold: bool) -> (r: Line)
    ensures
        r@ == boxed(*style, seq![(text@, Tint::Plain, bold)]),
{
    Line::boxed(style, Line::single(text, Tint::Plain, bold))
}

/// A line between the frame's sides holding two plain texts.
fn boxed_two(style: &BorderStyle, left: String, right: String) -> (r: Line)
    ensures
        r@ == boxed(*style, seq![plain(left@), plain(right@)]),
{
    let mut inner = Line::new();
    inner.add(left, Tint::Plain, false);
    inner.add(right, Tint::Plain, false);
    Line::boxed(style, inner)
}

fn left_aligned_string(s: &str, n: usize) -> (r: String)
    ensures
        r@ == left_aligned(s@, n as nat),
{
    let mut r = String::new();
    push_left_aligned(&mut r, s, n);
    assert(r@ =~= left_aligned(s@, n as nat));
    r
}

fn current_rows_lines(
    style: &BorderStyle,
    width: usize,
    cell: usize,
    address: &str,
    summary: &str,
    apparent: &str,
    humidity: &str,
    dewpoint: &str,
    wind: &str,
    pressure: &str,
    sunrise: &str,
    sunset: &str,
) -> (r: Vec<Line>)
    requires
        cell + TOTAL_BORDER_PADDING <= width,
    ensures
        lines_view(r@) == current_rows(
            *style,
            width as nat,
            cell as nat,
            address@,
            summary@,
            apparent@,
            humidity@,
            dewpoint@,
            wind@,
            pressure@,
            sunrise@,
            sunset@,
        ),
{
    let inner = width - TOTAL_BORDER_PADDING;
    let mut result: Vec<Line> = Vec::new();
    // Border Top
    result.push(edge(Edge::Top, width, style));
    // Address / Title
    result.push(boxed_one(style, pad_string_to_width(address, inner), true));
    // Separator
    result.push(separator(title_separator_of(style), width, style));
    // Weather code and temperature
    result.push(boxed_one(style, pad_string_to_width(summary, inner), true));
    // Apparent Temperature
    result.push(boxed_one(style, pad_string_to_width(apparent, inner), false));
    // Blank Line
    result.push(separator(Separator::Blank, width, style));
    // Humidity & Dewpoint
    result.push(boxed_two(style, pad_string_to_width(humidity, cell), pad_string_to_width(dewpoint, inner - cell)));
    // Wind & Pressure
    result.push(boxed_two(style, left_aligned_string(wind, cell), left_aligned_string(pressure, inner - cell)));
    // Sunrise & Sunset
    result.push(boxed_two(style, left_aligned_string(sunrise, cell), left_aligned_string(sunset, inner - cell)));
    assert(lines_view(result@) =~= current_rows(
        *style,
        width as nat,
        cell as nat,
        address@,
        summary@,
        apparent@,
        humidity@,
        dewpoint@,
        wind@,
        pressure@,
        sunrise@,
        sunset@,
    ));
    result
}

/// Draws the current weather, with the hourly panel of today where
/// `add_hourly` asks for it (drawn from `levels`).
pub fn prep(product: &Product, params: &Params, add_hourly: bool, levels: &[usize]) -> (r: Result<
    (Vec<Line>, Dimensions),
    Error,
>)
    requires
        current_ready(product, params, add_hourly, levels@),
    ensures
        match current_panel(product, params, add_hourly, levels@) {
            Ok((lines, dims)) => r matches Ok((v, d)) && lines_view(v@) == lines && d.width == dims.0
                && d.cell_width == dims.1,
            Err(e) => r matches Err(e2) && e2 == e,
        },
{
    proof {
        reveal(current_panel);
        reveal(current_ready_at);
    }
    let weather = &product.weather;
    let address = Product::trunc_address(product.address.clone(), 60);
    let t = &params.texts.weather;

    // Times
    let current_hour = hour_in(weather.current_weather.time.as_str());
    let sunrise_text = weather.daily.sunrise[0].as_str();
    let sunset_text = weather.daily.sunset[0].as_str();
    let sunrise_hour = hour_in(sunrise_text);
    let sunset_hour = hour_in(sunset_text);
    let night = current_hour < sunrise_hour || current_hour > sunset_hour;

    // Display items
    let mut temperature = weather.current_weather.temperature.clone();
    temperature.append(weather.hourly_units.temperature_2m.as_str());
    let mut apparent_temperature = t.feels_like.clone();
    apparent_temperature.append(" ");
    apparent_temperature.append(weather.hourly.apparent_temperature[current_hour].as_str());
    apparent_temperature.append(weather.hourly_units.temperature_2m.as_str());
    let mut humidity = t.humidity.clone();
    humidity.append(": ");
    humidity.append(weather.hourly.relativehumidity_2m[current_hour].as_str());
    humidity.append(weather.hourly_units.relativehumidity_2m.as_str());
    let mut dewpoint = t.dew_point.clone();
    dewpoint.append(": ");
    dewpoint.append(weather.hourly.dewpoint_2m[current_hour].as_str());
    dewpoint.append(weather.hourly_units.dewpoint_2m.as_str());
    let wind_direction = match weather.current_weather.winddirection {
        Some(d) => d,
        None => return Err(Error::UnknownWindDirection),
    };
    let mut wind = String::new();
    push_char(&mut wind, wind_direction.get_icon());
    wind.append(" ");
    wind.append(weather.current_weather.windspeed.as_str());
    wind.append(weather.hourly_units.windspeed_10m.as_str());
    wind.append(" ");
    wind.append(wind_direction.as_str());
    let mut pressure = "\u{e3a9} ".to_string();
    pressure.append(weather.hourly.surface_pressure[current_hour].as_str());
    pressure.append(weather.hourly_units.surface_pressure.as_str());
    let mut sunrise = "\u{e34c} ".to_string();
    sunrise.append(sun_time_of(&params.config.units.time, sunrise_text, false).as_str());
    let mut sunset = "\u{e343} ".to_string();
    sunset.append(sun_time_of(&params.config.units.time, sunset_text, true).as_str());
    let wmo_code = WeatherCode::resolve(weather.current_weather.weathercode, night, &t.weather_code)?;
    proof {
        assert(temperature@ =~= weather.current_weather.temperature@ + weather.hourly_units.temperature_2m@);
        assert(apparent_temperature@ =~= apparent_text(product, params));
        assert(humidity@ =~= humidity_text(product, params));
        assert(dewpoint@ =~= dewpoint_text(product, params));
        assert(pressure@ =~= pressure_text(product));
        assert(wind@ =~= wind_text(product, wind_direction));
    }

    // Dimensions
    // Overall width
    let width = if add_hourly {
        WIDTH
    } else {
        let title_width = address.as_str().unicode_len();
        let title_padding = 2 * TOTAL_BORDER_PADDING;  // 2 spaces on each side
        if title_width > MIN_WIDTH {
            title_width + title_padding
        } else {
            MIN_WIDTH + title_padding
        }
    };
    // Cell width
    let cell_width = if add_hourly {
        22
    } else {
        let longest_cell_width = humidity.as_str().unicode_len();
        // increase cell_width for languages with longer texts
        if longest_cell_width > MIN_CELL_WIDTH {
            longest_cell_width
        } else {
            MIN_CELL_WIDTH + TOTAL_BORDER_PADDING
        }
    };

    let hourly = if add_hourly {
        crate::display::hourly::prep(product, params, 0, levels)?
    } else {
        Vec::new()
    };

    let style = &params.config.gui.border;
    let mut summary = String::new();
    push_char(&mut summary, wmo_code.icon);
    summary.append(" ");
    summary.append(wmo_code.interpretation.as_str());
    summary.append(", ");
    summary.append(temperature.as_str());
    let mut result = current_rows_lines(
        style,
        width,
        cell_width,
        address.as_str(),
        summary.as_str(),
        apparent_temperature.as_str(),
        humidity.as_str(),
        dewpoint.as_str(),
        wind.as_str(),
        pressure.as_str(),
        sunrise.as_str(),
        sunset.as_str(),
    );
    let ghost top = lines_view(result@);
    // Hourly Forecast
    let mut hourly = hourly;
    let ghost mid = lines_view(hourly@);
    result.append(&mut hourly);
    // Border Bottom
    result.push(edge(Edge::Bottom, width, style));
    proof {
        assert(lines_view(result@) =~= top + mid + seq![edge_line(Edge::Bottom, width as nat, *style)]);
        let expected = current_panel(product, params, add_hourly, levels@)->Ok_0.0;
        assert(summary@ =~= seq![code_icon(weather.current_weather.weathercode, night)] + " "@ + code_interpretation(
            weather.current_weather.weathercode,
            t.weather_code,
        ) + ", "@ + weather.current_weather.temperature@ + weather.hourly_units.temperature_2m@);
        assert(lines_view(result@) =~= expected);
    }
    Ok((result, Dimensions { width, cell_width }))
}

} // verus!
