use vstd::prelude::*;

use crate::border::{BorderStyle, Edge};
use crate::date::{chrono_format, format_date, localize_date_on, localized_date, localized_date_error, today, Date};
use crate::display::current::{sun_time, sun_time_of};
use crate::display::day::{day_rows, room};
use crate::display::hourly::{historical_lines, historical_ready, prep_historical, time_text_ok, WIDTH};
use crate::display::line::{
    bold, boxed, edge, edge_line, lines_view, separator, separator_line, title_separator, title_separator_of, Line,
    SegmentView, Tint,
};
use crate::display::product::{truncated, truncates, Product, TOTAL_BORDER_PADDING};
use crate::error::Error;
use crate::params::Params;
use crate::text::{center_in, centered, push_char, str_equal};
use crate::units::{Precipitation, Time};
use crate::weather::HistoricalDay;
use crate::weathercode::{code_icon, code_interpretation, is_known_code, WeatherCode};

verus! {

/// The panel of a past day, ready to be drawn.
pub struct HistoricalWeather {
    pub address: String,
    pub temp_max_min: String,
    pub apparent_temp_max_min: String,
    pub precipitation_sum: String,
    pub date: String,
    pub sunrise: String,
    pub sunset: String,
    pub wmo_code: WeatherCode,
    pub hourly_forecast: Vec<Line>,
}

/// The index of the first entry for `date` at or after `from`.
pub open spec fn entry_from(entries: Seq<(Date, HistoricalDay)>, date: Date, from: int) -> Option<int>
    decreases entries.len() - from,
{
    if from < 0 || from >= entries.len() {
        None
    } else if entries[from].0 == date {
        Some(from)
    } else {
        entry_from(entries, date, from + 1)
    }
}

proof fn lemma_entry_from(entries: Seq<(Date, HistoricalDay)>, date: Date, from: int)
    requires
        0 <= from,
    ensures
        entry_from(entries, date, from) matches Some(i) ==> from <= i < entries.len() && entries[i].0 == date,
    decreases entries.len() - from,
{
    if from < entries.len() && entries[from].0 != date {
        lemma_entry_from(entries, date, from + 1);
    }
}

/// The weather the product holds for a past date.
pub open spec fn weather_of(p: &Product, date: Date) -> HistoricalDay {
    let entries = p.historical_weather->Some_0@;
    entries[entry_from(entries, date, 0)->Some_0].1
}

/// Whether the panel of a past date can be made: the product holds the
/// weather of that date, the address can be shortened, the times are
/// readable, the afternoon is after noon on the twelve-hour clock, and the
/// day's overview can be drawn.
#[verifier::opaque]
pub open spec fn historical_weather_ready(p: &Product, params: &Params, date: Date, levels: Seq<usize>) -> bool {
    &&& p.historical_weather is Some
    &&& entry_from(p.historical_weather->Some_0@, date, 0) is Some
    &&& truncates(p.address@, 60)
    &&& time_text_ok(weather_of(p, date).sunrise@)
    &&& time_text_ok(weather_of(p, date).sunset@)
    &&& params.config.units.time == Time::am_pm ==> crate::display::hourly::hour_of(weather_of(p, date).sunset@) >= 12
    &&& historical_ready(&weather_of(p, date), params, levels)
}

/// The date of a past day as shown: with the year, in the configured language
/// (English for `en_US` and `en`), on the day `today`.
pub open spec fn past_date_text(date: Date, lang: Seq<char>, today: Date) -> Result<Seq<char>, Error> {
    if lang == "en_US"@ || lang == "en"@ {
        match chrono_format(date, "%a, %e %b %Y"@) {
            Some(t) => Ok(t),
            None => Err(Error::InvalidDate),
        }
    } else {
        match localized_date(date, lang, today) {
            Some(t) => Ok(t),
            None => Err(localized_date_error(lang)),
        }
    }
}

/// The precipitation of the day, with the unit: inches or millimetres.
pub open spec fn precipitation_sum_text(sum: Seq<char>, unit: Precipitation) -> Seq<char> {
    "❲"@ + sum + (if unit == Precipitation::inch { "\u{e34a}ᵢₙ"@ } else { "\u{e34a}ₘₘ"@ }) + "❳"@
}

/// The error that stops the panel of a past date, if any, on the day `today`.
pub open spec fn historical_error(p: &Product, params: &Params, date: Date, levels: Seq<usize>, today: Date) -> Option<
    Error,
> {
    let day = weather_of(p, date);
    match past_date_text(date, params.config.language@, today) {
        Err(e) => Some(e),
        Ok(_) => if !is_known_code(day.daily_weathercode) {
            Some(Error::UnknownWeatherCode)
        } else {
            match historical_lines(&day, params, levels) {
                Err(e) => Some(e),
                Ok(_) => None,
            }
        },
    }
}

/// Whether `h` is the panel of a past date, on the day `today`.
pub open spec fn is_historical_panel(
    h: &HistoricalWeather,
    p: &Product,
    params: &Params,
    date: Date,
    levels: Seq<usize>,
    today: Date,
) -> bool {
    let day = weather_of(p, date);
    let time = params.config.units.time;
    let unit = day.temperature_unit@;
    &&& h.address@ == truncated(p.address@, 60)
    &&& h.temp_max_min@ == day.temperature_2m_max@ + "/"@ + day.temperature_2m_min@ + unit
    &&& h.apparent_temp_max_min@ == params.texts.weather.felt_like@ + " "@ + day.apparent_temperature_max@ + "/"@
        + day.apparent_temperature_min@ + unit
    &&& h.precipitation_sum@ == precipitation_sum_text(day.precipitation_sum@, params.config.units.precipitation)
    &&& h.date@ == "\u{eab0} "@ + past_date_text(date, params.config.language@, today)->Ok_0
    &&& h.sunrise@ == "\u{e34c} "@ + sun_time(time, day.sunrise@, false)
    &&& h.sunset@ == "\u{e343} "@ + sun_time(time, day.sunset@, true)
    &&& h.wmo_code.icon == code_icon(day.daily_weathercode, false)
    &&& h.wmo_code.interpretation@ == code_interpretation(day.daily_weathercode, params.texts.weather.weather_code)
    &&& lines_view(h.hourly_forecast@) == historical_lines(&day, params, levels)->Ok_0
}

/// The lines of a past day's panel: title, the day's summary, and its
/// overview.
pub open spec fn past_day_lines(
    style: BorderStyle,
    address: Seq<char>,
    icon: char,
    interpretation: Seq<char>,
    temp_max_min: Seq<char>,
    precipitation_sum: Seq<char>,
    date: Seq<char>,
    apparent: Seq<char>,
    sunrise: Seq<char>,
    sunset: Seq<char>,
    hourly: Seq<Seq<SegmentView>>,
) -> Seq<Seq<SegmentView>> {
    let inner = (WIDTH - TOTAL_BORDER_PADDING) as nat;
    let summary = seq![icon] + " "@ + interpretation + ", "@ + temp_max_min + " "@ + precipitation_sum;
    seq![
        edge_line(Edge::Top, WIDTH as nat, style),
        boxed(style, seq![bold(centered(address, inner))]),
        separator_line(title_separator(style), WIDTH as nat, style),
    ] + day_rows(style, summary, date, apparent, sunrise + "  "@ + sunset) + hourly + seq![
        edge_line(Edge::Bottom, WIDTH as nat, style),
    ]
}

/// The lines of a panel.
pub open spec fn historical_panel_lines(h: &HistoricalWeather, style: BorderStyle) -> Seq<Seq<SegmentView>> {
    past_day_lines(
        style,
        h.address@,
        h.wmo_code.icon,
        h.wmo_code.interpretation@,
        h.temp_max_min@,
        h.precipitation_sum@,
        h.date@,
        h.apparent_temp_max_min@,
        h.sunrise@,
        h.sunset@,
        lines_view(h.hourly_forecast@),
    )
}

/// The lines of the panel of a past date, on the day `today`, or the error
/// that stops it.
#[verifier::opaque]
pub open spec fn historical_panel(p: &Product, params: &Params, date: Date, levels: Seq<usize>, today: Date) -> Result<
    Seq<Seq<SegmentView>>,
    Error,
> {
    let day = weather_of(p, date);
    let time = params.config.units.time;
    let unit = day.temperature_unit@;
    match historical_error(p, params, date, levels, today) {
        Some(e) => Err(e),
        None => Ok(
            past_day_lines(
                params.config.gui.border,
                truncated(p.address@, 60),
                code_icon(day.daily_weathercode, false),
                code_interpretation(day.daily_weathercode, params.texts.weather.weather_code),
                day.temperature_2m_max@ + "/"@ + day.temperature_2m_min@ + unit,
                precipitation_sum_text(day.precipitation_sum@, params.config.units.precipitation),
                "\u{eab0} "@ + past_date_text(date, params.config.language@, today)->Ok_0,
                params.texts.weather.felt_like@ + " "@ + day.apparent_temperature_max@ + "/"@
                    + day.apparent_temperature_min@ + unit,
                "\u{e34c} "@ + sun_time(time, day.sunrise@, false),
                "\u{e343} "@ + sun_time(time, day.sunset@, true),
                historical_lines(&day, params, levels)->Ok_0,
            ),
        ),
    }
}

fn find_entry(entries: &Vec<(Date, HistoricalDay)>, date: &Date) -> (r: Option<usize>)
    ensures
        r matches Some(i) ==> entry_from(entries@, *date, 0) == Some(i as int),
        r is None ==> entry_from(entries@, *date, 0) is None,
{
    let mut i: usize = 0;
    while i < entries.len()
        invariant
            i <= entries@.len(),
            entry_from(entries@, *date, 0) == entry_from(entries@, *date, i as int),
        decreases entries@.len() - i,
    {
        if entries[i].0 == *date {
            return Some(i);
        }
        i = i + 1;
    }
    None
}

fn past_date_text_of(date: Date, lang: &str, today: Date) -> (r: Result<String, Error>)
    ensures
        match past_date_text(date, lang@, today) {
            Ok(t) => r matches Ok(s) && s@ == t,
            Err(e) => r matches Err(e2) && e2 == e,
        },
{
    proof {
        reveal_strlit("en_US");
        reveal_strlit("en");
    }
    if str_equal(lang, "en_US") || str_equal(lang, "en") {
        match format_date(date, "%a, %e %b %Y") {
            Some(s) => Ok(s),
            None => Err(Error::InvalidDate),
        }
    } else {
        localize_date_on(date, lang, today)
    }
}

impl HistoricalWeather {
    /// Makes the panel of a past date, on the day `today`.
    pub fn prep_on(product: &Product, params: &Params, date: &Date, levels: &[usize], today: Date) -> (r: Result<
        Self,
        Error,
    >)
        requires
            historical_weather_ready(product, params, *date, levels@),
        ensures
            match historical_error(product, params, *date, levels@, today) {
                Some(e) => r matches Err(e2) && e2 == e,
                None => r matches Ok(h) && is_historical_panel(&h, product, params, *date, levels@, today),
            },
    {
        proof {
            reveal(historical_weather_ready);
            reveal(historical_ready);
        }
        let address = Product::trunc_address(product.address.clone(), 60);
        let entries = match &product.historical_weather {
            Some(e) => e,
            None => return Err(Error::InvalidDate),
        };
        let index = match find_entry(entries, date) {
            Some(i) => i,
            None => return Err(Error::InvalidDate),
        };
        proof {
            lemma_entry_from(entries@, *date, 0);
        }
        let weather = &entries[index].1;
        assert(*weather == weather_of(product, *date));
        let time = &params.config.units.time;
        let unit = weather.temperature_unit.as_str();

        // Display Items
        let mut sunrise = "\u{e34c} ".to_string();
        sunrise.append(sun_time_of(time, weather.sunrise.as_str(), false).as_str());
        let mut sunset = "\u{e343} ".to_string();
        sunset.append(sun_time_of(time, weather.sunset.as_str(), true).as_str());
        let mut temp_max_min = weather.temperature_2m_max.clone();
        temp_max_min.append("/");
        temp_max_min.append(weather.temperature_2m_min.as_str());
        temp_max_min.append(unit);
        let mut apparent_temp_max_min = params.texts.weather.felt_like.clone();
        apparent_temp_max_min.append(" ");
        apparent_temp_max_min.append(weather.apparent_temperature_max.as_str());
        apparent_temp_max_min.append("/");
        apparent_temp_max_min.append(weather.apparent_temperature_min.as_str());
        apparent_temp_max_min.append(unit);
        let mut precipitation_sum = "❲".to_string();
        precipitation_sum.append(weather.precipitation_sum.as_str());
        precipitation_sum.append(
            if params.config.units.precipitation == Precipitation::inch {
                "\u{e34a}ᵢₙ"
            } else {
                "\u{e34a}ₘₘ"
            },
        );
        precipitation_sum.append("❳");
        let date_text = past_date_text_of(*date, params.config.language.as_str(), today)?;
        let mut date_line = "\u{eab0} ".to_string();
        date_line.append(date_text.as_str());
        let wmo_code = WeatherCode::resolve(weather.daily_weathercode, false, &params.texts.weather.weather_code)?;
        let hourly_forecast = prep_historical(weather, params, levels)?;

        Ok(Self {
            address,
            temp_max_min,
            apparent_temp_max_min,
            precipitation_sum,
            date: date_line,
            sunrise,
            sunset,
            wmo_code,
            hourly_forecast,
        })
    }

    /// Makes the panel of a past date.
    pub fn prep(product: &Product, params: &Params, date: &Date, levels: &[usize]) -> (r: Result<Self, Error>)
        requires
            historical_weather_ready(product, params, *date, levels@),
        ensures
            exists|today: Date| match #[trigger] historical_error(product, params, *date, levels@, today) {
                Some(e) => r matches Err(e2) && e2 == e,
                None => r matches Ok(h) && is_historical_panel(&h, product, params, *date, levels@, today),
            },
    {
        let now = today();
        Self::prep_on(product, params, date, levels, now)
    }

    /// Draws the panel.
    pub fn render(self, params: &Params) -> (r: Vec<Line>)
        ensures
            lines_view(r@) == historical_panel_lines(&self, params.config.gui.border),
    {
        let ghost this = self;
        let style = &params.config.gui.border;
        let mut result: Vec<Line> = Vec::new();
        // Border Top
        result.push(edge(Edge::Top, WIDTH, style));
        // Address / Title
        result.push(Line::boxed(
            style,
            Line::single(center_in(self.address.as_str(), WIDTH - TOTAL_BORDER_PADDING), Tint::Plain, true),
        ));
        // Separator
        result.push(separator(title_separator_of(style), WIDTH, style));
        // Temperature & Weathercode
        let mut summary = String::new();
        push_char(&mut summary, self.wmo_code.icon);
        summary.append(" ");
        summary.append(self.wmo_code.interpretation.as_str());
        summary.append(", ");
        summary.append(self.temp_max_min.as_str());
        summary.append(" ");
        summary.append(self.precipitation_sum.as_str());
        // Apparent Temperature & Sun Rise & Sun Set
        let mut sunrise_and_sunset = self.sunrise.clone();
        sunrise_and_sunset.append("  ");
        sunrise_and_sunset.append(self.sunset.as_str());
        let ghost head = lines_view(result@);
        let mut rows = crate::display::day::day_rows_lines(
            style,
            summary.as_str(),
            self.date.as_str(),
            self.apparent_temp_max_min.as_str(),
            sunrise_and_sunset.as_str(),
        );
        let ghost middle = lines_view(rows@);
        result.append(&mut rows);
        // Overview of the hours
        let mut hourly = self.hourly_forecast;
        let ghost tail = lines_view(hourly@);
        result.append(&mut hourly);
        // Border Bottom
        result.push(edge(Edge::Bottom, WIDTH, style));
        proof {
            assert(lines_view(result@) =~= head + middle + tail + seq![edge_line(Edge::Bottom, WIDTH as nat, *style)]);
            assert(lines_view(result@) =~= historical_panel_lines(&this, *style));
        }
        result
    }
}

} // verus!
