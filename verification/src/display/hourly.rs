use vstd::prelude::*;
use vstd::utf8::encode_utf8;

use crate::border::{Border, BorderStyle, Separator};
use crate::config::Gui;
use crate::date::{chrono_parse_time, parse_time};
use crate::display::line::{
    bold, boxed, frame, lines_view, plain, separator, separator_line, tight, tinted, Line, SegmentView, Tint,
};
use crate::display::product::{Product, TOTAL_BORDER_PADDING};
use crate::error::Error;
use crate::graph::{lower_row, upper_row, valid_levels, Graph, GraphRows};
use crate::localization::WeatherCodeLocales;
use crate::params::Params;
use crate::text::{
    decimal_text, pad_string_to_width, padded, parse_two_chars, push_char, push_decimal, push_left_aligned,
    push_right_aligned, seq_repeat, spaces, style_number, styled_number, two_char_number, left_aligned,
    right_aligned, push_spaces, decimal_digits, digit_glyph, lemma_styled_number_digits,
};
use crate::units::{Precipitation, Temperature, Time, Units};
use crate::weather::HistoricalDay;
use crate::weathercode::{code_icon, is_known_code, WeatherCode};

verus! {

/// The width of the panels that show hours.
pub const WIDTH: usize = 72;

/// The hours of a day that are labelled: every third one, as `3 * k` for k below 8.
pub open spec fn display_hour(k: int) -> int {
    3 * k
}

/// The columns the label of the `k`-th labelled hour takes.
pub open spec fn colspan(k: int) -> nat {
    if k == 0 { 2 } else { 8 }
}

/// Whether an hour is before sunrise or after sunset.
pub open spec fn is_night_hour(hour: int, sunrise_sunset: (int, int)) -> bool {
    hour < sunrise_sunset.0 || hour > sunrise_sunset.1
}

/// Whether the weather codes of the first `k` labelled hours are known.
pub open spec fn codes_known(codes: Seq<u8>, k: int) -> bool {
    forall|j: int| 0 <= j < k ==> is_known_code(#[trigger] codes[display_hour(j)])
}

/// The labels of the first `k` labelled hours: the rounded temperature in
/// subscript, right-aligned, and the icon of the weather.
pub open spec fn temperatures_text(temps: Seq<i32>, codes: Seq<u8>, sunrise_sunset: (int, int), k: nat) -> Seq<char>
    decreases k,
{
    if k == 0 {
        Seq::empty()
    } else {
        let h = display_hour(k - 1);
        temperatures_text(temps, codes, sunrise_sunset, (k - 1) as nat) + right_aligned(
            styled_number(temps[h] as int, true),
            colspan(k - 1),
        ) + seq![code_icon(codes[h], is_night_hour(h, sunrise_sunset))]
    }
}

/// The labels of the precipitation of the first `k` labelled hours.
pub open spec fn precipitation_text(prec: Seq<u8>, k: nat) -> Seq<char>
    decreases k,
{
    if k == 0 {
        Seq::empty()
    } else {
        let h = display_hour(k - 1);
        precipitation_text(prec, (k - 1) as nat) + right_aligned(styled_number(prec[h] as int, true), colspan(k - 1))
            + " "@
    }
}

/// Whether the temperatures at the labelled hours can be written in subscript.
pub open spec fn labelled_temperatures_fit(temps: Seq<i32>) -> bool {
    forall|j: int| 0 <= j < 8 ==> #[trigger] temps[display_hour(j)] != i32::MIN
}

pub fn prepare_temperatures(
    temperatures: &[i32],
    weather_codes: &[u8],
    sunrise_sunset: (usize, usize),
    t: &WeatherCodeLocales,
) -> (r: Result<String, Error>)
    requires
        temperatures@.len() >= 22,
        weather_codes@.len() >= 22,
        labelled_temperatures_fit(temperatures@),
    ensures
        codes_known(weather_codes@, 8) <==> r is Ok,
        r matches Ok(s) ==> s@ == temperatures_text(
            temperatures@,
            weather_codes@,
            (sunrise_sunset.0 as int, sunrise_sunset.1 as int),
            8,
        ),
        r matches Err(e) ==> e == Error::UnknownWeatherCode,
{
    let ghost ss = (sunrise_sunset.0 as int, sunrise_sunset.1 as int);
    let mut result = String::new();
    let mut k: usize = 0;
    while k < 8
        invariant
            k <= 8,
            temperatures@.len() >= 22,
            weather_codes@.len() >= 22,
            labelled_temperatures_fit(temperatures@),
            ss == (sunrise_sunset.0 as int, sunrise_sunset.1 as int),
            codes_known(weather_codes@, k as int),
            result@ == temperatures_text(temperatures@, weather_codes@, ss, k as nat),
        decreases 8 - k,
    {
        let hour = 3 * k;
        assert(temperatures@[display_hour(k as int)] != i32::MIN);
        let temp_sub = style_number(temperatures[hour], true);
        let night = hour < sunrise_sunset.0 || hour > sunrise_sunset.1;
        let wmo_code = WeatherCode::resolve(weather_codes[hour], night, t);
        let wmo_code = match wmo_code {
            Ok(w) => w,
            Err(e) => {
                assert(!is_known_code(weather_codes@[display_hour(k as int)]));
                return Err(e);
            },
        };
        let colspan: usize = if hour == 0 { 2 } else { 8 };
        push_right_aligned(&mut result, temp_sub.as_str(), colspan);
        push_char(&mut result, wmo_code.icon);
        k = k + 1;
    }
    Ok(result)
}

pub fn prepare_precipitation(precipitation: &[u8]) -> (r: String)
    requires
        precipitation@.len() >= 22,
    ensures
        r@ == precipitation_text(precipitation@, 8),
{
    let mut result = String::new();
    let mut k: usize = 0;
    while k < 8
        invariant
            k <= 8,
            precipitation@.len() >= 22,
            result@ == precipitation_text(precipitation@, k as nat),
        decreases 8 - k,
    {
        let hour = 3 * k;
        let precipitation_sup = style_number(precipitation[hour] as i32, true);
        let colspan: usize = if hour == 0 { 2 } else { 8 };
        push_right_aligned(&mut result, precipitation_sup.as_str(), colspan);
        result.append(" ");
        k = k + 1;
    }
    result
}

/// The ends and the filling of a graph border in a frame style.
pub open spec fn indicator_pieces(style: BorderStyle) -> (char, char, char) {
    match style {
        BorderStyle::double => ('╟', '─', '╢'),
        BorderStyle::solid => ('┠', '─', '┨'),
        _ => ('├', '┈', '┤'),
    }
}

/// A graph border with a mark at column `col`: the mark right-aligned in
/// `col` columns of filling, then filling up to `width` columns.
pub open spec fn indicator_separator(col: nat, style: BorderStyle, width: nat, glyph: char) -> Seq<char> {
    let (left, fill, right) = indicator_pieces(style);
    seq![left] + seq_repeat(seq![fill], if col >= 1 { (col - 1) as nat } else { 0 }) + seq![glyph] + seq_repeat(
        seq![fill],
        (width - col) as nat,
    ) + seq![right]
}

fn push_repeated(r: &mut String, c: char, n: usize)
    ensures
        final(r)@ == old(r)@ + seq_repeat(seq![c], n as nat),
{
    let ghost start = r@;
    let mut i: usize = 0;
    while i < n
        invariant
            i <= n,
            r@ == start + seq_repeat(seq![c], i as nat),
        decreases n - i,
    {
        push_char(r, c);
        proof {
            assert(start + seq_repeat(seq![c], (i + 1) as nat) =~= (start + seq_repeat(seq![c], i as nat)).push(c));
        }
        i = i + 1;
    }
}

pub fn prepare_separator(time_indicator_col: usize, border_variant: &BorderStyle, width: usize, time_indicator_glyph: char) -> (r: String)
    requires
        time_indicator_col <= width,
    ensures
        r@ == indicator_separator(time_indicator_col as nat, *border_variant, width as nat, time_indicator_glyph),
{
    let (left, fill, right) = match border_variant {
        BorderStyle::double => ('╟', '─', '╢'),
        BorderStyle::solid => ('┠', '─', '┨'),
        _ => ('├', '┈', '┤'),
    };
    let mut r = String::new();
    push_char(&mut r, left);
    push_repeated(&mut r, fill, if time_indicator_col >= 1 { time_indicator_col - 1 } else { 0 });
    push_char(&mut r, time_indicator_glyph);
    push_repeated(&mut r, fill, width - time_indicator_col);
    push_char(&mut r, right);
    r
}

/// The glyph of a temperature unit.
pub open spec fn temperature_unit_glyph(t: Temperature) -> Seq<char> {
    match t {
        Temperature::fahrenheit => "\u{e341}"@,
        Temperature::celsius => "\u{e339}"@,
    }
}

/// The glyph of a precipitation unit.
pub open spec fn precipitation_unit_glyph(p: Precipitation) -> Seq<char> {
    match p {
        Precipitation::mm => "\u{e34a}ₘₘ"@,
        Precipitation::inch => "\u{e34a}ᵢₙ"@,
        Precipitation::probability => "\u{f058e} "@,
    }
}

fn temperature_unit_str(t: Temperature) -> (r: &'static str)
    ensures
        r@ == temperature_unit_glyph(t),
{
    match t {
        Temperature::fahrenheit => "\u{e341}",
        Temperature::celsius => "\u{e339}",
    }
}

fn precipitation_unit_str(p: Precipitation) -> (r: &'static str)
    ensures
        r@ == precipitation_unit_glyph(p),
        r@.len() == if p == Precipitation::probability { 2nat } else { 3nat },
{
    proof {
        reveal_strlit("\u{e34a}ₘₘ");
        reveal_strlit("\u{e34a}ᵢₙ");
        reveal_strlit("\u{f058e} ");
    }
    match p {
        Precipitation::mm => "\u{e34a}ₘₘ",
        Precipitation::inch => "\u{e34a}ᵢₙ",
        Precipitation::probability => "\u{f058e} ",
    }
}

/// The label of the `k`-th labelled hour.
pub open spec fn hour_label(t: Time, k: int) -> Seq<char> {
    match t {
        Time::am_pm => if k == 0 { "¹²˙⁰⁰ₐₘ"@ } else if k == 1 { "³˙⁰⁰ₐₘ"@ } else if k == 2 { "⁶˙⁰⁰ₐₘ"@ }
            else if k == 3 { "⁹˙⁰⁰ₐₘ"@ } else if k == 4 { "¹²˙⁰⁰ₚₘ"@ } else if k == 5 { "³˙⁰⁰ₚₘ"@ }
            else if k == 6 { "⁶˙⁰⁰ₚₘ"@ } else { "⁹˙⁰⁰ₚₘ"@ },
        Time::military => if k == 0 { "⁰⁰˙⁰⁰"@ } else if k == 1 { "⁰³˙⁰⁰"@ } else if k == 2 { "⁰⁶˙⁰⁰"@ }
            else if k == 3 { "⁰⁹˙⁰⁰"@ } else if k == 4 { "¹²˙⁰⁰"@ } else if k == 5 { "¹⁵˙⁰⁰"@ }
            else if k == 6 { "¹⁸˙⁰⁰"@ } else { "²¹˙⁰⁰"@ },
    }
}

/// The hours under a graph are 0, 3, 6, ... 21 o'clock, in superscript with a
/// raised dot before the minutes: on the 24-hour clock with two digits, on the
/// twelve-hour clock as 12, 3, 6, 9 before noon (subscript `ₐₘ`) and again
/// after it (subscript `ₚₘ`).
pub proof fn lemma_hour_labels(k: int)
    requires
        0 <= k < 8,
    ensures
        hour_label(Time::military, k) == seq![digit_glyph((3 * k / 10) as nat, false), digit_glyph(
            (3 * k % 10) as nat,
            false,
        )] + "˙⁰⁰"@,
        hour_label(Time::am_pm, k) == styled_number(if 3 * k % 12 == 0 { 12 } else { 3 * k % 12 }, false) + "˙⁰⁰"@
            + if k < 4 { "ₐₘ"@ } else { "ₚₘ"@ },
{
    reveal_strlit("˙⁰⁰");
    reveal_strlit("ₐₘ");
    reveal_strlit("ₚₘ");
    reveal_strlit("¹²˙⁰⁰ₐₘ");
    reveal_strlit("³˙⁰⁰ₐₘ");
    reveal_strlit("⁶˙⁰⁰ₐₘ");
    reveal_strlit("⁹˙⁰⁰ₐₘ");
    reveal_strlit("¹²˙⁰⁰ₚₘ");
    reveal_strlit("³˙⁰⁰ₚₘ");
    reveal_strlit("⁶˙⁰⁰ₚₘ");
    reveal_strlit("⁹˙⁰⁰ₚₘ");
    reveal_strlit("⁰⁰˙⁰⁰");
    reveal_strlit("⁰³˙⁰⁰");
    reveal_strlit("⁰⁶˙⁰⁰");
    reveal_strlit("⁰⁹˙⁰⁰");
    reveal_strlit("¹²˙⁰⁰");
    reveal_strlit("¹⁵˙⁰⁰");
    reveal_strlit("¹⁸˙⁰⁰");
    reveal_strlit("²¹˙⁰⁰");
    lemma_styled_number_digits(1, 2, false);
    let h = if 3 * k % 12 == 0 { 12 } else { 3 * k % 12 };
    if h < 10 {
        assert(decimal_digits(h as nat) =~= decimal_digits(0).push(h as nat));
        assert(styled_number(h, false) =~= seq![digit_glyph(h as nat, false)]);
    }
    assert(styled_number(1, false) =~= seq![digit_glyph(1, false)]) by {
        assert(decimal_digits(1) =~= decimal_digits(0).push(1));
    }
    assert(k == 0 || k == 1 || k == 2 || k == 3 || k == 4 || k == 5 || k == 6 || k == 7);
    assert(hour_label(Time::military, k) =~= seq![digit_glyph((3 * k / 10) as nat, false), digit_glyph(
        (3 * k % 10) as nat,
        false,
    )] + "˙⁰⁰"@);
    assert(hour_label(Time::am_pm, k) =~= styled_number(h, false) + "˙⁰⁰"@ + if k < 4 { "ₐₘ"@ } else { "ₚₘ"@ });
}

/// The unit glyphs beside a graph: the thermometer of degrees Celsius or
/// Fahrenheit, and the rain drop with subscript `mm` or `in` for amounts, or
/// the umbrella (and a blank) for probabilities.
pub proof fn lemma_unit_glyphs()
    ensures
        temperature_unit_glyph(Temperature::celsius) == seq!['\u{e339}'],
        temperature_unit_glyph(Temperature::fahrenheit) == seq!['\u{e341}'],
        precipitation_unit_glyph(Precipitation::mm) == seq!['\u{e34a}', 'ₘ', 'ₘ'],
        precipitation_unit_glyph(Precipitation::inch) == seq!['\u{e34a}', 'ᵢ', 'ₙ'],
        precipitation_unit_glyph(Precipitation::probability) == seq!['\u{f058e}', ' '],
{
    reveal_strlit("\u{e339}");
    reveal_strlit("\u{e341}");
    reveal_strlit("\u{e34a}ₘₘ");
    reveal_strlit("\u{e34a}ᵢₙ");
    reveal_strlit("\u{f058e} ");
}

/// The labels of the first `k` labelled hours, each in 9 columns.
pub open spec fn hours_text(t: Time, k: nat) -> Seq<char>
    decreases k,
{
    if k == 0 {
        Seq::empty()
    } else {
        hours_text(t, (k - 1) as nat) + left_aligned(hour_label(t, k - 1), 9)
    }
}

fn hour_label_str(t: Time, k: usize) -> (r: &'static str)
    requires
        k < 8,
    ensures
        r@ == hour_label(t, k as int),
{
    match t {
        Time::am_pm => if k == 0 { "¹²˙⁰⁰ₐₘ" } else if k == 1 { "³˙⁰⁰ₐₘ" } else if k == 2 { "⁶˙⁰⁰ₐₘ" }
            else if k == 3 { "⁹˙⁰⁰ₐₘ" } else if k == 4 { "¹²˙⁰⁰ₚₘ" } else if k == 5 { "³˙⁰⁰ₚₘ" }
            else if k == 6 { "⁶˙⁰⁰ₚₘ" } else { "⁹˙⁰⁰ₚₘ" },
        Time::military => if k == 0 { "⁰⁰˙⁰⁰" } else if k == 1 { "⁰³˙⁰⁰" } else if k == 2 { "⁰⁶˙⁰⁰" }
            else if k == 3 { "⁰⁹˙⁰⁰" } else if k == 4 { "¹²˙⁰⁰" } else if k == 5 { "¹⁵˙⁰⁰" }
            else if k == 6 { "¹⁸˙⁰⁰" } else { "²¹˙⁰⁰" },
    }
}

fn hours_row_text(t: Time) -> (r: String)
    ensures
        r@ == hours_text(t, 8),
{
    let mut r = String::new();
    let mut k: usize = 0;
    while k < 8
        invariant
            k <= 8,
            r@ == hours_text(t, k as nat),
        decreases 8 - k,
    {
        push_left_aligned(&mut r, hour_label_str(t, k), 9);
        k = k + 1;
    }
    r
}

/// The border above or below the graph: marked at the current time, or dashed.
pub open spec fn graph_border(indicator: Option<int>, style: BorderStyle, glyph: char) -> Seq<SegmentView> {
    match indicator {
        Some(col) => seq![tinted(indicator_separator(col as nat, style, WIDTH as nat, glyph), Tint::Dim)],
        None => separator_line(Separator::Dashed, WIDTH as nat, style),
    }
}

/// The lines from the border above the graph to the row of hours.
pub open spec fn graph_section(
    gui: Gui,
    units: Units,
    temps: Seq<i32>,
    codes: Seq<u8>,
    sunrise_sunset: (int, int),
    levels: Seq<usize>,
    prec: Seq<u8>,
    indicator: Option<int>,
) -> Seq<Seq<SegmentView>> {
    let style = gui.border;
    let upper = upper_row(levels, gui.graph.style, gui.graph.rowspan);
    let lower = lower_row(levels, gui.graph.style, gui.graph.rowspan);
    let unit = precipitation_unit_glyph(units.precipitation);
    seq![
        graph_border(indicator, style, '╤'),
        boxed(style, seq![
            (left_aligned(temperatures_text(temps, codes, sunrise_sunset, 8), (WIDTH - 3) as nat), Tint::Yellow, true),
            (temperature_unit_glyph(units.temperature), Tint::Yellow, true),
        ]),
        separator_line(Separator::Blank, WIDTH as nat, style),
    ] + (if upper.len() > 0 { seq![tight(style, seq![tinted(upper, Tint::Yellow)])] } else { Seq::empty() })
      + seq![
        tight(style, seq![tinted(lower, Tint::Yellow)]),
        seq![
            frame(Border::L, style),
            plain(" "@),
            (left_aligned(precipitation_text(prec, 8), (WIDTH - 1 - unit.len()) as nat), Tint::Blue, true),
            (unit, Tint::Blue, units.precipitation == Precipitation::probability),
            frame(Border::R, style),
        ],
        graph_border(indicator, style, '╧'),
        tight(style, seq![plain(hours_text(units.time, 8))]),
    ]
}

fn graph_border_line(indicator: Option<usize>, style: &BorderStyle, glyph: char) -> (r: Line)
    requires
        indicator matches Some(c) ==> c <= WIDTH,
    ensures
        r@ == graph_border(
            match indicator {
                Some(c) => Some(c as int),
                None => None,
            },
            *style,
            glyph,
        ),
{
    match indicator {
        Some(col) => Line::single(prepare_separator(col, style, WIDTH, glyph), Tint::Dim, false),
        None => separator(Separator::Dashed, WIDTH, style),
    }
}

/// Draws the lines from the border above the graph to the row of hours.
fn prepare_graph_section(
    gui: &Gui,
    units: &Units,
    temperatures: &[i32],
    weather_codes: &[u8],
    sunrise_sunset: (usize, usize),
    levels: &[usize],
    precipitation: &[u8],
    indicator: Option<usize>,
    t: &WeatherCodeLocales,
) -> (r: Result<Vec<Line>, Error>)
    requires
        temperatures@.len() >= 22,
        weather_codes@.len() >= 22,
        precipitation@.len() >= 22,
        labelled_temperatures_fit(temperatures@),
        valid_levels(levels@, gui.graph.style, gui.graph.rowspan),
        indicator matches Some(c) ==> c <= WIDTH,
    ensures
        codes_known(weather_codes@, 8) <==> r is Ok,
        r matches Ok(lines) ==> lines_view(lines@) == graph_section(
            *gui,
            *units,
            temperatures@,
            weather_codes@,
            (sunrise_sunset.0 as int, sunrise_sunset.1 as int),
            levels@,
            precipitation@,
            match indicator {
                Some(c) => Some(c as int),
                None => None,
            },
        ),
        r matches Err(e) ==> e == Error::UnknownWeatherCode,
{
    let style = &gui.border;
    let mut result: Vec<Line> = Vec::new();
    // Graph border top with the time indicator, if any
    result.push(graph_border_line(indicator, style, '╤'));
    // Temperatures
    let temps = prepare_temperatures(temperatures, weather_codes, sunrise_sunset, t)?;
    let mut inner = Line::new();
    let mut padded_temps = String::new();
    push_left_aligned(&mut padded_temps, temps.as_str(), WIDTH - 3);
    inner.add(padded_temps, Tint::Yellow, true);
    inner.add(temperature_unit_str(units.temperature).to_string(), Tint::Yellow, true);
    result.push(Line::boxed(style, inner));
    // Blank line
    result.push(separator(Separator::Blank, WIDTH, style));
    let graph = Graph::prepare_graph(levels, &gui.graph);
    // Graph row 1
    if graph.1.as_str().unicode_len() > 0 {
        let mut row = Line::new();
        row.add_frame(Border::L, style);
        row.add(graph.1, Tint::Yellow, false);
        row.add_frame(Border::R, style);
        result.push(row);
    }
    // Graph row 2
    let mut row = Line::new();
    row.add_frame(Border::L, style);
    row.add(graph.0, Tint::Yellow, false);
    row.add_frame(Border::R, style);
    result.push(row);
    // Precipitation
    let precipitation_text = prepare_precipitation(precipitation);
    let precipitation_unit = precipitation_unit_str(units.precipitation);
    let mut row = Line::new();
    row.add_frame(Border::L, style);
    row.add_plain(" ");
    let mut padded_prec = String::new();
    push_left_aligned(&mut padded_prec, precipitation_text.as_str(), WIDTH - 1 - precipitation_unit.unicode_len());
    row.add(padded_prec, Tint::Blue, true);
    // to enlarge the water percent icon we use bold as a hack
    row.add(precipitation_unit.to_string(), Tint::Blue, units.precipitation == Precipitation::probability);
    row.add_frame(Border::R, style);
    result.push(row);
    // Graph border bottom with the time indicator, if any
    result.push(graph_border_line(indicator, style, '╧'));
    // Graph hours row
    let mut hours_row = Line::new();
    hours_row.add_frame(Border::L, style);
    hours_row.add(hours_row_text(units.time), Tint::Plain, false);
    hours_row.add_frame(Border::R, style);
    result.push(hours_row);
    proof {
        let ind = match indicator {
            Some(c) => Some(c as int),
            None => None,
        };
        let ss = (sunrise_sunset.0 as int, sunrise_sunset.1 as int);
        let sec = graph_section(*gui, *units, temperatures@, weather_codes@, ss, levels@, precipitation@, ind);
        let v = lines_view(result@);
        let up = upper_row(levels@, gui.graph.style, gui.graph.rowspan);
        let off: int = if up.len() > 0 { 1 } else { 0 };
        assert(v.len() == sec.len());
        assert(v[0] == sec[0]);
        assert(v[1] == sec[1]);
        assert(v[2] == sec[2]);
        if off == 1 {
            assert(v[3] == sec[3]);
        }
        assert(v[3 + off] == sec[3 + off]);
        assert(v[4 + off] == sec[4 + off]);
        assert(v[5 + off] == sec[5 + off]);
        assert(v[6 + off] == sec[6 + off]);
        assert(lines_view(result@) =~= graph_section(
            *gui,
            *units,
            temperatures@,
            weather_codes@,
            (sunrise_sunset.0 as int, sunrise_sunset.1 as int),
            levels@,
            precipitation@,
            match indicator {
                Some(c) => Some(c as int),
                None => None,
            },
        ));
    }
    Ok(result)
}

/// The hours of the hourly arrays a day's graph covers: (start, end, whether
/// the last value is drawn twice). A day covers its own 25 hours from
/// midnight; in the last hour of the current day, the next day is shown; the
/// seventh day, the last one in the arrays, covers what is left and draws its
/// last value twice.
pub open spec fn window(day_index: int, current_hour: int, len: int) -> (int, int, bool) {
    let day_start = day_index * 24;
    let day_end = day_start + 24;
    if day_index == 6 {
        (day_start, len, true)
    } else if current_hour == day_end - 1 {
        (day_end + 1, day_end + 26, false)
    } else {
        (day_start, day_end + 1, false)
    }
}

/// The values of `s` in a window, the last one twice if `extend`.
pub open spec fn windowed<T>(s: Seq<T>, w: (int, int, bool)) -> Seq<T> {
    s.subrange(w.0, w.1) + if w.2 { seq![s[w.1 - 1]] } else { Seq::empty() }
}

/// The hours of the hourly arrays a day's graph covers.
pub struct HourlyWindow {
    pub start: usize,
    pub end: usize,
    pub extend: bool,
}

pub fn hourly_window(day_index: usize, current_hour: usize, len: usize) -> (r: HourlyWindow)
    requires
        day_index <= 6,
        current_hour < 24,
    ensures
        (r.start as int, r.end as int, r.extend) == window(day_index as int, current_hour as int, len as int),
{
    let day_start_idx = day_index * 24;
    let day_end_idx = day_start_idx + 24;
    let next_day_start_idx = day_end_idx + 1;
    let next_day_end_idx = next_day_start_idx + 24;
    if day_index == 6 {
        HourlyWindow { start: day_start_idx, end: len, extend: true }
    } else if current_hour == day_end_idx - 1 {
        HourlyWindow { start: next_day_start_idx, end: next_day_end_idx + 1, extend: false }
    } else {
        HourlyWindow { start: day_start_idx, end: day_end_idx + 1, extend: false }
    }
}

/// The values of a vector in a window.
pub fn take_window<T: Copy>(v: &Vec<T>, start: usize, end: usize, extend: bool) -> (r: Vec<T>)
    requires
        start <= end <= v@.len(),
        extend ==> end >= 1,
    ensures
        r@ == windowed(v@, (start as int, end as int, extend)),
{
    let mut r: Vec<T> = Vec::new();
    let mut i = start;
    while i < end
        invariant
            start <= i <= end,
            end <= v@.len(),
            r@ == v@.subrange(start as int, i as int),
        decreases end - i,
    {
        r.push(v[i]);
        proof {
            assert(v@.subrange(start as int, i + 1) =~= v@.subrange(start as int, i as int).push(v@[i as int]));
        }
        i = i + 1;
    }
    if extend {
        r.push(v[end - 1]);
    }
    assert(r@ =~= windowed(v@, (start as int, end as int, extend)));
    r
}

/// The hour of the current weather's time, as chrono reads it with the
/// API's format; none where it cannot be read.
pub open spec fn parsed_hour(p: &Product) -> Option<int> {
    match chrono_parse_time(p.weather.current_weather.time@, "%Y-%m-%dT%H:%M"@) {
        Some((h, _)) => Some(h as int),
        None => None,
    }
}

/// The length the hourly arrays need for a day at the current hour `hour`:
/// the last day reads to the end of the week; the current day, in its last
/// hour, reads the next day; any other day reads its own hours and the one
/// after.
pub open spec fn hours_needed(day_index: int, hour: Option<int>) -> int {
    if day_index == 6 {
        168
    } else if day_index == 0 && hour == Some(23int) {
        50
    } else {
        day_index * 24 + 25
    }
}

/// Whether the hourly arrays a day's graph reads hold `n` hours: the
/// temperatures, the weather codes and the precipitation of the configured
/// unit (probabilities, or amounts).
pub open spec fn hours_cover(p: &Product, params: &Params, n: int) -> bool {
    let h = p.weather.hourly;
    &&& h.temperature_2m@.len() >= n
    &&& h.weathercode@.len() >= n
    &&& if params.config.units.precipitation == Precipitation::probability {
        h.precipitation_probability@.len() >= n
    } else {
        h.precipitation@.len() >= n
    }
}

/// A time text of the API: ASCII, with the hour at characters 11 and 12 and
/// the minute at 14 and 15.
pub open spec fn time_text_ok(s: Seq<char>) -> bool {
    vstd::utf8::is_ascii_chars(s) && s.len() >= 16
}

/// A time text whose hour can be read: its first 13 characters are ASCII, so
/// that characters 11 and 12 are its bytes 11 and 12.
pub open spec fn hour_text_ok(s: Seq<char>) -> bool {
    s.len() >= 13 && vstd::utf8::is_ascii_chars(s.subrange(0, 13))
}

/// The hour written in a time text.
pub open spec fn hour_of(s: Seq<char>) -> int {
    two_char_number(s.subrange(11, 13)) as int
}

/// The maximum and minimum temperature of a day, with the unit.
pub open spec fn temp_max_min_text(max: Seq<char>, min: Seq<char>, unit: Seq<char>) -> Seq<char> {
    max + "/"@ + min + unit
}

/// Whether a day's hourly panel can be drawn when the current hour is
/// `hour` (`None`: not known).
#[verifier::opaque]
pub open spec fn hourly_ready_at(p: &Product, params: &Params, day_index: int, levels: Seq<usize>, hour: Option<int>) -> bool {
    let w = &p.weather;
    let gui = params.config.gui;
    &&& 0 <= day_index <= 6
    &&& hours_cover(p, params, hours_needed(day_index, hour))
    &&& forall|i: int| 0 <= i < w.hourly.temperature_2m@.len() ==> #[trigger] w.hourly.temperature_2m@[i] != i32::MIN
    &&& levels.len() == if day_index == 6 { w.hourly.temperature_2m@.len() - 143 } else { 25 }
    &&& valid_levels(levels, gui.graph.style, gui.graph.rowspan)
    &&& w.daily.sunrise@.len() > day_index
    &&& w.daily.sunset@.len() > day_index
    &&& hour_text_ok(w.daily.sunrise@[day_index]@)
    &&& hour_text_ok(w.daily.sunset@[day_index]@)
    &&& day_index == 0 ==> {
        &&& w.daily.temperature_2m_max@.len() >= 1
        &&& w.daily.temperature_2m_min@.len() >= 1
        &&& w.daily.precipitation_probability_max@.len() >= 1
        &&& encode_utf8(temp_max_min_text(
            w.daily.temperature_2m_max@[0]@,
            w.daily.temperature_2m_min@[0]@,
            w.daily_units.temperature_2m_max@,
        )).len() + encode_utf8(decimal_text(w.daily.precipitation_probability_max@[0] as nat)).len() <= WIDTH - 5
    }
}

/// Whether a day's hourly panel can be drawn at the current hour.
pub open spec fn hourly_ready(p: &Product, params: &Params, day_index: int, levels: Seq<usize>) -> bool {
    hourly_ready_at(p, params, day_index, levels, parsed_hour(p))
}

/// The current day's arrays stop short of the next day's hours, which its
/// graph reads in the last hour of the day.
pub open spec fn hours_short(p: &Product, params: &Params) -> bool {
    parsed_hour(p) == Some(23int) && !hours_cover(p, params, hours_needed(0, Some(23int)))
}

/// Readiness without a known hour is readiness at any hour, but the last
/// hour of the current day where the arrays stop short of the next day.
pub proof fn lemma_hourly_ready_at_hour(p: &Product, params: &Params, day_index: int, levels: Seq<usize>, hour: Option<int>)
    requires
        hourly_ready_at(p, params, day_index, levels, None),
        !(day_index == 0 && hour == Some(23int) && !hours_cover(p, params, hours_needed(0, Some(23int)))),
    ensures
        hourly_ready_at(p, params, day_index, levels, hour),
{
    reveal(hourly_ready_at);
}

/// The line with the day's maximum and minimum temperature and its highest
/// probability of precipitation.
pub open spec fn summary_line(style: BorderStyle, temp_max_min: Seq<char>, probability_max: u8) -> Seq<SegmentView> {
    let digits = decimal_text(probability_max as nat);
    seq![
        frame(Border::L, style),
        plain(" "@ + temp_max_min + " ❲"@ + digits),
        bold("\u{f058e}"@),
        plain("❳"@ + spaces((WIDTH - 5 - encode_utf8(temp_max_min).len() - encode_utf8(digits).len()) as nat) + " "@),
        frame(Border::R, style),
    ]
}

/// The blank line and the heading that open an hourly panel.
pub open spec fn panel_head(style: BorderStyle, heading: Seq<char>) -> Seq<Seq<SegmentView>> {
    seq![
        separator_line(Separator::Blank, WIDTH as nat, style),
        boxed(style, seq![bold(padded(heading, (WIDTH - TOTAL_BORDER_PADDING) as nat))]),
    ]
}

/// The summary of the current day; none for the other days.
pub open spec fn summary_part(p: &Product, style: BorderStyle, day_index: int) -> Seq<Seq<SegmentView>> {
    let w = &p.weather;
    if day_index == 0 {
        seq![summary_line(
            style,
            temp_max_min_text(
                w.daily.temperature_2m_max@[0]@,
                w.daily.temperature_2m_min@[0]@,
                w.daily_units.temperature_2m_max@,
            ),
            w.daily.precipitation_probability_max@[0],
        )]
    } else {
        Seq::empty()
    }
}

/// The hourly panel of a day: heading, the summary for the current day, then
/// the temperature labels, the graph, the precipitation and the hours.
pub open spec fn hourly_lines(p: &Product, params: &Params, day_index: int, levels: Seq<usize>) -> Result<Seq<Seq<SegmentView>>, Error> {
    let w = &p.weather;
    let gui = params.config.gui;
    let units = params.config.units;
    match chrono_parse_time(w.current_weather.time@, "%Y-%m-%dT%H:%M"@) {
        None => Err(Error::InvalidDate),
        Some((h, m)) => {
            let hour = h as int;
            let temps = windowed(w.hourly.temperature_2m@, window(day_index, hour, w.hourly.temperature_2m@.len() as int));
            let codes = windowed(w.hourly.weathercode@, window(day_index, hour, w.hourly.weathercode@.len() as int));
            let prec = if units.precipitation == Precipitation::probability {
                windowed(w.hourly.precipitation_probability@, window(day_index, hour, w.hourly.precipitation_probability@.len() as int))
            } else {
                let pw = window(day_index, hour, w.hourly.precipitation@.len() as int);
                windowed(w.hourly.precipitation@, (pw.0, pw.1, false))
            };
            let indicator = if day_index == 0 && gui.graph.time_indicator {
                Some((if hour == day_index * 24 + 23 { 1 } else { hour * 3 + 3 }) + m / 20)
            } else {
                None
            };
            let ss = (hour_of(w.daily.sunrise@[day_index]@), hour_of(w.daily.sunset@[day_index]@));
            if !codes_known(codes, 8) {
                Err(Error::UnknownWeatherCode)
            } else {
                Ok(panel_head(gui.border, params.texts.weather.hourly_forecast@) + summary_part(p, gui.border, day_index)
                    + graph_section(gui, units, temps, codes, ss, levels, prec, indicator))
            }
        },
    }
}

fn panel_head_lines(style: &BorderStyle, heading: &str) -> (r: Vec<Line>)
    ensures
        lines_view(r@) == panel_head(*style, heading@),
{
    let mut result: Vec<Line> = Vec::new();
    // Blank line
    result.push(separator(Separator::Blank, WIDTH, style));
    // Heading
    let mut inner = Line::new();
    inner.add(pad_string_to_width(heading, WIDTH - TOTAL_BORDER_PADDING), Tint::Plain, true);
    result.push(Line::boxed(style, inner));
    assert(lines_view(result@) =~= panel_head(*style, heading@));
    result
}

fn summary_row(style: &BorderStyle, temp_max_min: &str, precipitation_probability_max: u8) -> (r: Line)
    requires
        encode_utf8(temp_max_min@).len() + encode_utf8(decimal_text(precipitation_probability_max as nat)).len()
            <= WIDTH - 5,
    ensures
        r@ == summary_line(*style, temp_max_min@, precipitation_probability_max),
{
    let mut digits = String::new();
    push_decimal(&mut digits, precipitation_probability_max as u64);
    assert(digits@ =~= decimal_text(precipitation_probability_max as nat));
    let mut row = Line::new();
    row.add_frame(Border::L, style);
    let mut first = " ".to_string();
    first.append(temp_max_min);
    first.append(" ❲");
    first.append(digits.as_str());
    row.add(first, Tint::Plain, false);
    row.add("\u{f058e}".to_string(), Tint::Plain, true);
    let mut last = "❳".to_string();
    push_spaces(&mut last, WIDTH - 5 - temp_max_min.len() - digits.as_str().len());
    last.append(" ");
    row.add(last, Tint::Plain, false);
    row.add_frame(Border::R, style);
    assert(row@ =~= summary_line(*style, temp_max_min@, precipitation_probability_max));
    row
}

/// The hour written at characters 11 and 12 of a time text.
pub fn hour_in(s: &str) -> (r: usize)
    requires
        hour_text_ok(s@),
    ensures
        r == hour_of(s@),
        r < 100,
{
    parse_two_chars(s, 11)
}

#[verifier::rlimit(40)]
pub fn prep(product: &Product, params: &Params, day_index: usize, levels: &[usize]) -> (r: Result<Vec<Line>, Error>)
    requires
        hourly_ready(product, params, day_index as int, levels@),
    ensures
        match hourly_lines(product, params, day_index as int, levels@) {
            Ok(lines) => r matches Ok(v) && lines_view(v@) == lines,
            Err(e) => r matches Err(e2) && e2 == e,
        },
{
    proof {
        reveal(hourly_ready_at);
    }
    let weather = &product.weather;
    let (current_hour, current_minute) = match parse_time(weather.current_weather.time.as_str(), "%Y-%m-%dT%H:%M") {
        Some((h, m)) => (h as usize, m as usize),
        None => return Err(Error::InvalidDate),
    };

    // The graph splits one hour into three "levels": last, current and next.
    // We slice 25 items to use the 25th in the last "next"-level of a graph.
    let tw = hourly_window(day_index, current_hour, weather.hourly.temperature_2m.len());
    let temperatures = take_window(&weather.hourly.temperature_2m, tw.start, tw.end, tw.extend);
    let cw = hourly_window(day_index, current_hour, weather.hourly.weathercode.len());
    let weather_codes = take_window(&weather.hourly.weathercode, cw.start, cw.end, cw.extend);
    let precipitation = match params.config.units.precipitation {
        Precipitation::probability => {
            let pw = hourly_window(day_index, current_hour, weather.hourly.precipitation_probability.len());
            take_window(&weather.hourly.precipitation_probability, pw.start, pw.end, pw.extend)
        },
        _ => {
            let pw = hourly_window(day_index, current_hour, weather.hourly.precipitation.len());
            take_window(&weather.hourly.precipitation, pw.start, pw.end, false)
        },
    };
    proof {
        assert forall|j: int| 0 <= j < 8 implies #[trigger] temperatures@[display_hour(j)] != i32::MIN by {
            let k = display_hour(j);
            if k < tw.end - tw.start {
                assert(temperatures@[k] == weather.hourly.temperature_2m@[tw.start + k]);
            } else {
                assert(temperatures@[k] == weather.hourly.temperature_2m@[tw.end - 1]);
            }
        }
    }

    let gui = &params.config.gui;
    let day_end_idx = day_index * 24 + 24;
    let time_indicator_col = if day_index == 0 && gui.graph.time_indicator {
        let col_adjustment = if current_hour == day_end_idx - 1 {
            // if it's the last hour of the day, the time idicator will be placed at the beginning of the graph
            1
        } else {
            // add 3 cols to adjust to the multiple chars used to display the current hour below the chart
            (current_hour * 3) + 3
        };
        Some(col_adjustment + current_minute / 20)
    } else {
        None
    };

    let sunrise_sunset = (hour_in(weather.daily.sunrise[day_index].as_str()), hour_in(weather.daily.sunset[day_index].as_str()));

    let mut result = panel_head_lines(&gui.border, params.texts.weather.hourly_forecast.as_str());
    // Future or historical forecasts already include a weather max/min summary in the top part of the display.
    if day_index == 0 {
        let mut temp_max_min = weather.daily.temperature_2m_max[0].clone();
        temp_max_min.append("/");
        temp_max_min.append(weather.daily.temperature_2m_min[0].as_str());
        temp_max_min.append(weather.daily_units.temperature_2m_max.as_str());
        result.push(summary_row(&gui.border, temp_max_min.as_str(), weather.daily.precipitation_probability_max[0]));
    }
    let ghost top = lines_view(result@);

    let section = prepare_graph_section(
        gui,
        &params.config.units,
        temperatures.as_slice(),
        weather_codes.as_slice(),
        sunrise_sunset,
        levels,
        precipitation.as_slice(),
        time_indicator_col,
        &params.texts.weather.weather_code,
    )?;
    let mut section = section;
    let ghost sec = lines_view(section@);
    result.append(&mut section);
    proof {
        assert(lines_view(result@) =~= top + sec);
        assert(top =~= panel_head(gui.border, params.texts.weather.hourly_forecast@) + summary_part(product, gui.border, day_index as int));
        assert(lines_view(result@) =~= hourly_lines(product, params, day_index as int, levels@)->Ok_0);
    }
    Ok(result)
}


/// The values of a past day's hours with the last one drawn twice, as the
/// graph needs the hour after the last.
pub open spec fn extended<T>(s: Seq<T>) -> Seq<T> {
    s.push(s.last())
}

/// Whether the overview of a past day can be drawn.
#[verifier::opaque]
pub open spec fn historical_ready(day: &HistoricalDay, params: &Params, levels: Seq<usize>) -> bool {
    let gui = params.config.gui;
    &&& day.temperature_2m@.len() >= 21
    &&& day.weathercode@.len() >= 21
    &&& day.precipitation@.len() >= 21
    &&& forall|i: int| 0 <= i < day.temperature_2m@.len() ==> #[trigger] day.temperature_2m@[i] != i32::MIN
    &&& levels.len() == day.temperature_2m@.len() + 1
    &&& valid_levels(levels, gui.graph.style, gui.graph.rowspan)
    &&& hour_text_ok(day.sunrise@)
    &&& hour_text_ok(day.sunset@)
}

/// The units of a past day's overview: those configured, but for the
/// precipitation, which is always shown in millimetres.
pub open spec fn past_day_units(units: Units) -> Units {
    Units { precipitation: Precipitation::mm, ..units }
}

/// The overview panel of a past day: heading, then the temperature labels,
/// the graph, the precipitation in millimetres and the hours, with no time
/// marked.
pub open spec fn historical_lines(day: &HistoricalDay, params: &Params, levels: Seq<usize>) -> Result<Seq<Seq<SegmentView>>, Error> {
    let gui = params.config.gui;
    let codes = extended(day.weathercode@);
    if !codes_known(codes, 8) {
        Err(Error::UnknownWeatherCode)
    } else {
        Ok(panel_head(gui.border, params.texts.weather.daily_overview@) + graph_section(
            gui,
            past_day_units(params.config.units),
            extended(day.temperature_2m@),
            codes,
            (hour_of(day.sunrise@), hour_of(day.sunset@)),
            levels,
            extended(day.precipitation@),
            None,
        ))
    }
}

fn extend_last<T: Copy>(v: &Vec<T>) -> (r: Vec<T>)
    requires
        v@.len() >= 1,
    ensures
        r@ == extended(v@),
{
    let r = take_window(v, 0, v.len(), true);
    assert(v@.subrange(0, v@.len() as int) =~= v@);
    r
}

/// Draws the overview of a past day.
pub fn prep_historical(day: &HistoricalDay, params: &Params, levels: &[usize]) -> (r: Result<Vec<Line>, Error>)
    requires
        historical_ready(day, params, levels@),
    ensures
        match historical_lines(day, params, levels@) {
            Ok(lines) => r matches Ok(v) && lines_view(v@) == lines,
            Err(e) => r matches Err(e2) && e2 == e,
        },
{
    proof {
        reveal(historical_ready);
    }
    // The graph needs the hour after the last one; the last value stands in for it.
    let temperatures = extend_last(&day.temperature_2m);
    let weather_codes = extend_last(&day.weathercode);
    let precipitation = extend_last(&day.precipitation);
    proof {
        assert forall|j: int| 0 <= j < 8 implies #[trigger] temperatures@[display_hour(j)] != i32::MIN by {
            let k = display_hour(j);
            if k < day.temperature_2m@.len() {
                assert(temperatures@[k] == day.temperature_2m@[k]);
            } else {
                assert(temperatures@[k] == day.temperature_2m@.last());
            }
        }
    }
    let sunrise_sunset = (hour_in(day.sunrise.as_str()), hour_in(day.sunset.as_str()));
    let gui = &params.config.gui;
    let mut result = panel_head_lines(&gui.border, params.texts.weather.daily_overview.as_str());
    let ghost top = lines_view(result@);
    let units = Units { precipitation: Precipitation::mm, ..params.config.units };
    let section = prepare_graph_section(
        gui,
        &units,
        temperatures.as_slice(),
        weather_codes.as_slice(),
        sunrise_sunset,
        levels,
        precipitation.as_slice(),
        None,
        &params.texts.weather.weather_code,
    )?;
    let mut section = section;
    let ghost sec = lines_view(section@);
    result.append(&mut section);
    proof {
        assert(lines_view(result@) =~= top + sec);
    }
    Ok(result)
}

} // verus!
