use vstd::prelude::*;

use crate::border::{BorderStyle, Edge, Separator};
use crate::date::{chrono_parse_date, parse_date, today, Date};
use crate::display::current::Dimensions;
use crate::display::day::{day_date_text, day_date_text_of, room};
use crate::display::line::{boxed, edge, edge_line, lines_view, plain, separator, separator_line, Line, SegmentView, Tint};
use crate::display::product::{Product, MIN_CELL_WIDTH, TOTAL_BORDER_PADDING};
use crate::error::Error;
use crate::params::Params;
use crate::text::{display_width, pad_string_to_width, padded, push_char, str_width};
use crate::weathercode::{code_icon, code_interpretation, is_known_code, WeatherCode};

verus! {

/// One day of the week's overview: its date, its weather with the
/// temperatures, and the words for the weather.
pub struct ForecastDay {
    pub date: String,
    pub weather: String,
    pub interpretation: String,
}

/// What a day of the overview shows: (date, weather, interpretation).
pub type DayView = (Seq<char>, Seq<char>, Seq<char>);

impl View for ForecastDay {
    type V = DayView;

    open spec fn view(&self) -> DayView {
        (self.date@, self.weather@, self.interpretation@)
    }
}

/// The overview of the coming week, with the width its widest day needs.
pub struct Week {
    pub days: Vec<ForecastDay>,
    pub width: usize,
}

/// The columns a day of the overview takes.
pub open spec fn day_width(d: DayView) -> nat {
    display_width(d.0 + d.1 + d.2)
}

/// The day `i` of the forecast as the overview shows it, on the day `today`.
pub open spec fn week_day(p: &Product, params: &Params, today: Date, i: int) -> Result<DayView, Error> {
    let w = &p.weather;
    match chrono_parse_date(w.daily.time@[i]@, "%Y-%m-%d"@) {
        None => Err(Error::InvalidDate),
        Some(dt) => match day_date_text(dt, params.config.language@, today) {
            Err(e) => Err(e),
            Ok(date) => {
                let code = w.daily.weathercode@[i];
                if !is_known_code(code) {
                    Err(Error::UnknownWeatherCode)
                } else {
                    Ok(
                        (
                            date,
                            seq![code_icon(code, false)] + " "@ + w.daily.temperature_2m_max@[i]@
                                + w.daily_units.temperature_2m_max@ + "/"@ + w.daily.temperature_2m_min@[i]@
                                + w.daily_units.temperature_2m_min@,
                            code_interpretation(code, params.texts.weather.weather_code),
                        ),
                    )
                }
            },
        },
    }
}

/// The first `n` days of the overview and the width of the widest of them; the
/// first day that cannot be shown stops it with its error.
pub open spec fn week_prefix(p: &Product, params: &Params, today: Date, n: nat) -> Result<(Seq<DayView>, nat), Error>
    decreases n,
{
    if n == 0 {
        Ok((Seq::empty(), 0))
    } else {
        match week_prefix(p, params, today, (n - 1) as nat) {
            Err(e) => Err(e),
            Ok((days, width)) => match week_day(p, params, today, n - 1) {
                Err(e) => Err(e),
                Ok(day) => Ok(
                    (days.push(day), if day_width(day) > width { day_width(day) } else { width }),
                ),
            },
        }
    }
}

/// Once a day cannot be shown, no longer prefix can be.
proof fn lemma_prefix_stops(p: &Product, params: &Params, today: Date, i: nat, n: nat)
    requires
        i <= n,
        week_prefix(p, params, today, i) is Err,
    ensures
        week_prefix(p, params, today, n) == week_prefix(p, params, today, i),
    decreases n - i,
{
    if i < n {
        lemma_prefix_stops(p, params, today, i, (n - 1) as nat);
    }
}

/// Whether the overview can be made: each day has its values.
pub open spec fn week_ready(p: &Product) -> bool {
    let w = &p.weather;
    &&& w.daily.weathercode@.len() >= w.daily.time@.len()
    &&& w.daily.temperature_2m_max@.len() >= w.daily.time@.len()
    &&& w.daily.temperature_2m_min@.len() >= w.daily.time@.len()
}

/// The separator between two days: as heavy as the frame, else dashed.
pub open spec fn day_separator(style: BorderStyle) -> Separator {
    match style {
        BorderStyle::double => Separator::Double,
        BorderStyle::solid => Separator::Solid,
        _ => Separator::Dashed,
    }
}

/// The row of one day: the date in the left column, the weather, and the
/// words for it at the right edge.
pub open spec fn day_row(style: BorderStyle, d: DayView, width: nat, cell: nat) -> Seq<SegmentView> {
    let inner = (width - TOTAL_BORDER_PADDING) as nat;
    boxed(
        style,
        seq![plain(padded(padded(d.0, cell) + padded(d.1, room(room(inner, display_width(d.2)), cell)) + d.2, inner))],
    )
}

/// The rows of the days from the `i`-th on, with a separator between two.
pub open spec fn day_rows_from(style: BorderStyle, days: Seq<DayView>, width: nat, cell: nat, i: nat) -> Seq<
    Seq<SegmentView>,
>
    decreases days.len() - i,
{
    if i >= days.len() {
        Seq::empty()
    } else if i + 1 == days.len() {
        seq![day_row(style, days[i as int], width, cell)]
    } else {
        seq![day_row(style, days[i as int], width, cell), separator_line(day_separator(style), width, style)]
            + day_rows_from(style, days, width, cell, i + 1)
    }
}

/// The panel's width and left column: room for the widest day (as much as
/// a `usize` holds), or the current weather's panel above it where that is
/// wider.
pub open spec fn week_dimensions(width: nat, dims: Option<(nat, nat)>) -> (nat, nat) {
    let w = if width + 10 <= usize::MAX { width + 10 } else { usize::MAX as nat };
    let c = MIN_CELL_WIDTH as nat;
    match dims {
        Some((dw, dc)) => (if dw > w { dw } else { w }, if dc > c { dc } else { c }),
        None => (w, c),
    }
}

/// The overview as lines.
pub open spec fn week_lines(style: BorderStyle, days: Seq<DayView>, width: nat, cell: nat) -> Seq<Seq<SegmentView>> {
    seq![edge_line(Edge::Top, width, style)] + day_rows_from(style, days, width, cell, 0) + seq![
        edge_line(Edge::Bottom, width, style),
    ]
}

impl Week {
    /// Draws the overview; where the current weather is shown above it, as wide
    /// as that panel and with its left column.
    pub fn render(self, params: &Params, current_dimensions: Option<Dimensions>) -> (r: Vec<Line>)
        ensures
            ({
                let (width, cell) = week_dimensions(
                    self.width as nat,
                    match current_dimensions {
                        Some(d) => Some((d.width as nat, d.cell_width as nat)),
                        None => None,
                    },
                );
                lines_view(r@) == week_lines(
                    params.config.gui.border,
                    self.days@.map_values(|d: ForecastDay| d@),
                    width,
                    cell,
                )
            }),
    {
        let forecast = self;
        let style = &params.config.gui.border;
        let ghost days = forecast.days@.map_values(|d: ForecastDay| d@);

        let mut width = if forecast.width <= usize::MAX - 10 {
            forecast.width + 10
        } else {
            usize::MAX
        };
        let mut cell_width = MIN_CELL_WIDTH;
        if let Some(dims) = current_dimensions {
            if dims.cell_width > cell_width {
                cell_width = dims.cell_width;
            }
            if dims.width > width {
                width = dims.width;
            }
        }
        let width_no_border_pad = width - TOTAL_BORDER_PADDING;

        let mut result: Vec<Line> = Vec::new();
        // Border Top
        result.push(edge(Edge::Top, width, style));

        let n = forecast.days.len();
        let mut i: usize = 0;
        while i < n
            invariant
                i <= n,
                n == days.len(),
                n == forecast.days@.len(),
                days == forecast.days@.map_values(|d: ForecastDay| d@),
                width >= TOTAL_BORDER_PADDING,
                width_no_border_pad == width - TOTAL_BORDER_PADDING,
                lines_view(result@) + day_rows_from(*style, days, width as nat, cell_width as nat, i as nat)
                    == seq![edge_line(Edge::Top, width as nat, *style)] + day_rows_from(
                    *style,
                    days,
                    width as nat,
                    cell_width as nat,
                    0,
                ),
            decreases n - i,
        {
            let day = &forecast.days[i];
            assert(day@ == days[i as int]);
            let interpretation_width = str_width(day.interpretation.as_str());
            let room_left = if interpretation_width <= width_no_border_pad {
                width_no_border_pad - interpretation_width
            } else {
                0
            };
            let weather_width = if cell_width <= room_left {
                room_left - cell_width
            } else {
                0
            };
            let mut forecast_day = pad_string_to_width(day.date.as_str(), cell_width);
            forecast_day.append(pad_string_to_width(day.weather.as_str(), weather_width).as_str());
            forecast_day.append(day.interpretation.as_str());
            let row = Line::boxed(
                style,
                Line::single(pad_string_to_width(forecast_day.as_str(), width_no_border_pad), Tint::Plain, false),
            );
            let ghost before = lines_view(result@);
            result.push(row);
            proof {
                assert(row@ == day_row(*style, days[i as int], width as nat, cell_width as nat));
                assert(lines_view(result@) =~= before.push(row@));
            }
            if i + 1 < n {
                let ghost before2 = lines_view(result@);
                let sep = match style {
                    BorderStyle::double => Separator::Double,
                    BorderStyle::solid => Separator::Solid,
                    _ => Separator::Dashed,
                };
                result.push(separator(sep, width, style));
                proof {
                    assert(lines_view(result@) =~= before2.push(separator_line(day_separator(*style), width as nat, *style)));
                    let rest = day_rows_from(*style, days, width as nat, cell_width as nat, (i + 1) as nat);
                    assert(day_rows_from(*style, days, width as nat, cell_width as nat, i as nat) =~= seq![
                        row@,
                        separator_line(day_separator(*style), width as nat, *style),
                    ] + rest);
                    assert(lines_view(result@) + rest =~= before + day_rows_from(
                        *style,
                        days,
                        width as nat,
                        cell_width as nat,
                        i as nat,
                    ));
                }
            } else {
                proof {
                    assert(day_rows_from(*style, days, width as nat, cell_width as nat, i as nat) =~= seq![row@]);
                    assert(day_rows_from(*style, days, width as nat, cell_width as nat, (i + 1) as nat) =~= Seq::<
                        Seq<SegmentView>,
                    >::empty());
                    assert(lines_view(result@) + day_rows_from(
                        *style,
                        days,
                        width as nat,
                        cell_width as nat,
                        (i + 1) as nat,
                    ) =~= before + day_rows_from(*style, days, width as nat, cell_width as nat, i as nat));
                }
            }
            i = i + 1;
        }
        proof {
            assert(day_rows_from(*style, days, width as nat, cell_width as nat, n as nat) =~= Seq::<
                Seq<SegmentView>,
            >::empty());
            assert(lines_view(result@) =~= seq![edge_line(Edge::Top, width as nat, *style)] + day_rows_from(
                *style,
                days,
                width as nat,
                cell_width as nat,
                0,
            ));
        }
        let ghost before = lines_view(result@);
        // Border Bottom
        result.push(edge(Edge::Bottom, width, style));
        assert(lines_view(result@) =~= before.push(edge_line(Edge::Bottom, width as nat, *style)));
        result
    }

    /// Makes the overview of the week, on the day `today`.
    pub fn prep_on(product: &Product, params: &Params, today: Date) -> (r: Result<Self, Error>)
        requires
            week_ready(product),
        ensures
            match week_prefix(product, params, today, product.weather.daily.time@.len()) {
                Ok((days, width)) => r matches Ok(w) && w.days@.map_values(|d: ForecastDay| d@) == days && w.width
                    == width,
                Err(e) => r matches Err(e2) && e2 == e,
            },
    {
        let mut days: Vec<ForecastDay> = Vec::new();
        let mut width: usize = 0;
        let n = product.weather.daily.time.len();
        let mut i: usize = 0;
        assert(days@.map_values(|d: ForecastDay| d@) =~= Seq::<DayView>::empty());
        while i < n
            invariant
                i <= n,
                days@.len() == i,
                n == product.weather.daily.time@.len(),
                week_ready(product),
                week_prefix(product, params, today, i as nat) == Ok::<(Seq<DayView>, nat), Error>(
                    (days@.map_values(|d: ForecastDay| d@), width as nat),
                ),
            decreases n - i,
        {
            let dt = match parse_date(product.weather.daily.time[i].as_str(), "%Y-%m-%d") {
                Some(d) => d,
                None => {
                    proof {
                        lemma_prefix_stops(product, params, today, (i + 1) as nat, n as nat);
                    }
                    return Err(Error::InvalidDate);
                },
            };
            let date = match day_date_text_of(dt, params.config.language.as_str(), today) {
                Ok(d) => d,
                Err(e) => {
                    proof {
                        lemma_prefix_stops(product, params, today, (i + 1) as nat, n as nat);
                    }
                    return Err(e);
                },
            };
            let weather_code = match WeatherCode::resolve(product.weather.daily.weathercode[i], false, &params.texts.weather.weather_code) {
                Ok(c) => c,
                Err(e) => {
                    proof {
                        lemma_prefix_stops(product, params, today, (i + 1) as nat, n as nat);
                    }
                    return Err(e);
                },
            };
            let mut day_weather = String::new();
            push_char(&mut day_weather, weather_code.icon);
            day_weather.append(" ");
            day_weather.append(product.weather.daily.temperature_2m_max[i].as_str());
            day_weather.append(product.weather.daily_units.temperature_2m_max.as_str());
            day_weather.append("/");
            day_weather.append(product.weather.daily.temperature_2m_min[i].as_str());
            day_weather.append(product.weather.daily_units.temperature_2m_min.as_str());
            let mut all = date.clone();
            all.append(day_weather.as_str());
            all.append(weather_code.interpretation.as_str());
            let day_width = str_width(all.as_str());
            if day_width > width {
                width = day_width;
            }
            let ghost before = days@.map_values(|d: ForecastDay| d@);
            days.push(ForecastDay { date, weather: day_weather, interpretation: weather_code.interpretation });
            proof {
                assert(days@.map_values(|d: ForecastDay| d@) =~= before.push(days@[i as int]@));
                assert(all@ =~= days@[i as int]@.0 + days@[i as int]@.1 + days@[i as int]@.2);
                assert(week_day(product, params, today, i as int) == Ok::<DayView, Error>(days@[i as int]@));
            }
            i = i + 1;
        }
        Ok(Self { days, width })
    }

    /// Makes the overview of the week.
    pub fn prep(product: &Product, params: &Params) -> (r: Result<Self, Error>)
        requires
            week_ready(product),
        ensures
            exists|today: Date| match #[trigger] week_prefix(product, params, today, product.weather.daily.time@.len()) {
                Ok((days, width)) => r matches Ok(w) && w.days@.map_values(|d: ForecastDay| d@) == days && w.width
                    == width,
                Err(e) => r matches Err(e2) && e2 == e,
            },
    {
        let now = today();
        Self::prep_on(product, params, now)
    }
}

} // verus!
