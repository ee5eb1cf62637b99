use vstd::prelude::*;

use crate::text::push_char;

verus! {

/// How the temperature graph is drawn.
#[derive(Debug, Clone, Copy)]
pub struct GraphOpts {
    pub style: GraphStyle,
    pub rowspan: GraphRows,
    pub time_indicator: bool,
}

impl Default for GraphOpts {
    fn default() -> (r: Self)
        ensures
            r.style == GraphStyle::lines(LineVariant::solid),
            r.rowspan == GraphRows::double,
            r.time_indicator,
    {
        Self {
            style: GraphStyle::lines(LineVariant::solid),
            rowspan: GraphRows::double,
            time_indicator: true,
        }
    }
}

/// The glyphs of the graph: lines, dots, or eight glyphs of the user's choice.
#[derive(Debug, Clone, Copy)]
#[allow(non_camel_case_types)]
pub enum GraphStyle {
    lines(LineVariant),
    dotted,
    custom([char; 8]),
}

#[derive(PartialEq, Eq, Structural, Debug, Clone, Copy)]
#[allow(non_camel_case_types)]
pub enum LineVariant {
    slim,
    solid,
    dotted,
}

impl Default for GraphStyle {
    fn default() -> (r: Self)
        ensures
            r == GraphStyle::lines(LineVariant::solid),
    {
        Self::lines(LineVariant::solid)
    }
}

/// Whether the graph takes one or two rows.
#[derive(PartialEq, Eq, Structural, Debug, Clone, Copy)]
#[allow(non_camel_case_types)]
pub enum GraphRows {
    single,
    double,
}

/// The two rows of a graph: the lower row, and the upper row (empty for a single-row graph).
pub struct Graph(pub String, pub String);

/// How one level compares with another.
#[derive(PartialEq, Eq, Structural, Debug, Clone, Copy)]
pub enum Slope {
    Less,
    Equal,
    Greater,
}

pub open spec fn slope(a: int, b: int) -> Slope {
    if a < b {
        Slope::Less
    } else if a == b {
        Slope::Equal
    } else {
        Slope::Greater
    }
}

fn compare(a: usize, b: usize) -> (r: Slope)
    ensures
        r == slope(a as int, b as int),
{
    if a < b {
        Slope::Less
    } else if a == b {
        Slope::Equal
    } else {
        Slope::Greater
    }
}

/// The glyphs of one row, from the lowest level to the highest.
pub open spec fn base_glyphs(style: GraphStyle) -> Seq<char> {
    match style {
        GraphStyle::lines(v) => match v {
            LineVariant::solid => seq!['▁', '🭻', '🭺', '🭹', '🭸', '🭷', '🭶', '▔'],
            LineVariant::slim => seq!['⎽', '⎼', '⎻', '⎺'],
            LineVariant::dotted => seq!['⣀', '⠤', '⠒', '⠉'],
        },
        GraphStyle::dotted => seq!['⣀', '⣤', '⣶', '⣿'],
        GraphStyle::custom(a) => a@,
    }
}

/// The glyphs of every level: the glyphs of one row, twice over for a two-row graph.
pub open spec fn level_glyphs(style: GraphStyle, rows: GraphRows) -> Seq<char> {
    if rows == GraphRows::double {
        base_glyphs(style) + base_glyphs(style)
    } else {
        base_glyphs(style)
    }
}

/// The glyphs of each style, from the lowest level to the highest: the line
/// styles run from the bottom of a cell to its top (solid `▁` up to `▔`, slim
/// `⎽` up to `⎺`, dotted `⣀` up to `⠉`), the dotted style fills a cell from
/// `⣀` up to `⣿`, and a custom style uses its eight glyphs in the order
/// given. A two-row graph uses the same glyphs for the lower row, then again
/// for the upper one.
pub proof fn lemma_glyphs_rise_with_the_level(style: GraphStyle, rows: GraphRows)
    ensures
        base_glyphs(GraphStyle::lines(LineVariant::solid)) == seq!['▁', '🭻', '🭺', '🭹', '🭸', '🭷', '🭶', '▔'],
        base_glyphs(GraphStyle::lines(LineVariant::slim)) == seq!['⎽', '⎼', '⎻', '⎺'],
        base_glyphs(GraphStyle::lines(LineVariant::dotted)) == seq!['⣀', '⠤', '⠒', '⠉'],
        base_glyphs(GraphStyle::dotted) == seq!['⣀', '⣤', '⣶', '⣿'],
        style matches GraphStyle::custom(a) ==> base_glyphs(style) == a@,
        rows == GraphRows::single ==> level_glyphs(style, rows) == base_glyphs(style),
        rows == GraphRows::double ==> level_glyphs(style, rows) == base_glyphs(style) + base_glyphs(style),
{
}

/// The glyph a one-row graph uses at a level that is `current` and goes to
/// `next`, for a comparison still to be drawn.
pub open spec fn idx_single(s: Slope, current: int, next: int, len: int) -> int {
    match s {
        Slope::Less => if next < current - 1 && current > 1 {
            current - 2
        } else {
            current - 1
        },
        Slope::Equal => if next > current + 1 && current < len {
            current + 1
        } else if next < current && current > 0 {
            current - 1
        } else {
            current
        },
        Slope::Greater => if next > current + 1 && current + 1 < len {
            current + 2
        } else {
            current + 1
        },
    }
}

/// The glyph a two-row graph uses; `max1` is the highest level of the lower row.
pub open spec fn idx_double(s: Slope, current: int, next: int, len: int) -> int {
    let max1 = (len - 1) / 2;
    match s {
        Slope::Less => if next < current - 1 && current > 1 {
            if current - 2 > max1 || current <= max1 {
                current - 2
            } else if current - 1 > max1 || current <= max1 {
                current - 1
            } else {
                current
            }
        } else {
            current
        },
        Slope::Equal => if next > current + 1 && current < len {
            if current != max1 {
                current + 1
            } else {
                current
            }
        } else {
            current
        },
        Slope::Greater => if next > current + 1 && current + 1 < len {
            if current + 2 <= max1 || current > max1 {
                current + 2
            } else if current != max1 {
                current + 1
            } else {
                current
            }
        } else if current != max1 {
            current + 1
        } else {
            current
        },
    }
}

/// The level the hour before hour `h` left off at: none for the first hour; the
/// level of hour `h` for a one-row graph; for a two-row graph, the level of hour
/// `h` unless it is more than one level away from the hour before, in which case
/// two levels from the hour before toward it.
pub open spec fn last_level(levels: Seq<usize>, double: bool, h: int) -> Option<int> {
    if h == 0 {
        None
    } else if !double {
        Some(levels[h] as int)
    } else {
        let c = levels[h - 1] as int;
        let n = levels[h] as int;
        if n < c - 1 {
            Some(c - 2)
        } else if n > c + 1 {
            Some(c + 2)
        } else {
            Some(n)
        }
    }
}

/// The comparison drawn in column `pos` (0, 1 or 2) of hour `h`: with the level
/// before, with itself, with the level after.
pub open spec fn cell_slope(levels: Seq<usize>, double: bool, h: int, pos: int) -> Slope {
    let current = levels[h] as int;
    if pos == 0 {
        match last_level(levels, double, h) {
            Some(l) => slope(l, current),
            None => Slope::Equal,
        }
    } else if pos == 1 {
        Slope::Equal
    } else {
        slope(levels[h + 1] as int, current)
    }
}

/// The characters of column `pos` of hour `h`: (lower row, upper row).
pub open spec fn cell(levels: Seq<usize>, style: GraphStyle, rows: GraphRows, h: int, pos: int) -> (char, char) {
    let glyphs = level_glyphs(style, rows);
    let len = glyphs.len() as int;
    let current = levels[h] as int;
    let next = levels[h + 1] as int;
    let s = cell_slope(levels, rows == GraphRows::double, h, pos);
    if rows == GraphRows::single {
        (glyphs[idx_single(s, current, next, len)], ' ')
    } else {
        let g = glyphs[idx_double(s, current, next, len)];
        if current > (len - 1) / 2 {
            (if style is dotted { '⣿' } else { ' ' }, g)
        } else {
            (g, ' ')
        }
    }
}

/// A one-row graph whose hours all stay at one level is drawn with the glyph
/// of that level from end to end, and has no upper row.
pub proof fn lemma_flat_graph(levels: Seq<usize>, style: GraphStyle, k: usize)
    requires
        levels.len() >= 25,
        forall|i: int| 0 <= i < levels.len() ==> levels[i] == k,
        k < base_glyphs(style).len(),
    ensures
        lower_row(levels, style, GraphRows::single) == Seq::new(72, |i: int| base_glyphs(style)[k as int]),
        upper_row(levels, style, GraphRows::single) == Seq::<char>::empty(),
{
    assert forall|i: int| 0 <= i < 72 implies #[trigger] lower_row(levels, style, GraphRows::single)[i]
        == base_glyphs(style)[k as int] by {
        let h = i / 3;
        assert(0 <= h < 24);
        assert(levels[h] == k && levels[h + 1] == k);
    }
    assert(lower_row(levels, style, GraphRows::single) =~= Seq::new(72, |i: int| base_glyphs(style)[k as int]));
}

/// The number of hours a graph shows for that many levels.
pub open spec fn graph_hours(n: nat) -> nat {
    if n == 0 { 0 } else { 24 }
}

/// The lower row of the graph: three columns per hour.
pub open spec fn lower_row(levels: Seq<usize>, style: GraphStyle, rows: GraphRows) -> Seq<char> {
    Seq::new(3 * graph_hours(levels.len()), |k: int| cell(levels, style, rows, k / 3, k % 3).0)
}

/// The upper row of the graph: empty for a one-row graph.
pub open spec fn upper_row(levels: Seq<usize>, style: GraphStyle, rows: GraphRows) -> Seq<char> {
    if rows == GraphRows::single {
        Seq::empty()
    } else {
        Seq::new(3 * graph_hours(levels.len()), |k: int| cell(levels, style, rows, k / 3, k % 3).1)
    }
}

/// Whether levels fit a graph: none, or at least 25 (24 hours and the hour
/// after them), each below the number of glyphs.
pub open spec fn valid_levels(levels: Seq<usize>, style: GraphStyle, rows: GraphRows) -> bool {
    &&& levels.len() == 0 || levels.len() >= 25
    &&& forall|i: int| 0 <= i < levels.len() ==> levels[i] < level_glyphs(style, rows).len()
}

struct GraphLvls {
    glyphs: Vec<char>,
    current: usize,
    next: usize,
    last: Option<usize>,
}

impl GraphLvls {
    fn get_glyphs(graph_style: &GraphStyle, graph_rows: &GraphRows) -> (r: Vec<char>)
        ensures
            r@ == level_glyphs(*graph_style, *graph_rows),
    {
        let mut glyphs: Vec<char> = match graph_style {
            GraphStyle::lines(style) => match style {
                LineVariant::solid => vec!['▁', '🭻', '🭺', '🭹', '🭸', '🭷', '🭶', '▔'],
                LineVariant::slim => vec!['⎽', '⎼', '⎻', '⎺'],
                LineVariant::dotted => vec!['⣀', '⠤', '⠒', '⠉'],
            },
            GraphStyle::dotted => vec!['⣀', '⣤', '⣶', '⣿'],
            GraphStyle::custom(chars) => {
                let mut custom_glyphs: Vec<char> = Vec::new();
                let mut i: usize = 0;
                while i < 8
                    invariant
                        i <= 8,
                        custom_glyphs@ == chars@.subrange(0, i as int),
                    decreases 8 - i,
                {
                    custom_glyphs.push(chars[i]);
                    proof {
                        assert(chars@.subrange(0, i + 1) =~= chars@.subrange(0, i as int).push(chars@[i as int]));
                    }
                    i = i + 1;
                }
                assert(chars@.subrange(0, 8) =~= chars@);
                custom_glyphs
            },
        };
        assert(glyphs@ =~= base_glyphs(*graph_style));
        if *graph_rows == GraphRows::double {
            let mut copy = glyphs.clone();
            glyphs.append(&mut copy);
        }
        glyphs
    }

    fn get_idx_single(&self, pending_comparison: Slope) -> (r: usize)
        requires
            pending_comparison == Slope::Less ==> self.current >= 1,
            pending_comparison == Slope::Greater ==> self.current + 1 < self.glyphs.len(),
            self.current < self.glyphs.len(),
            self.next < self.glyphs.len(),
        ensures
            r == idx_single(pending_comparison, self.current as int, self.next as int, self.glyphs.len() as int),
            r < self.glyphs.len(),
    {
        match pending_comparison {
            Slope::Less => {
                if self.next < self.current - 1 && self.current > 1 {
                    self.current - 2
                } else {
                    self.current - 1
                }
            },
            Slope::Equal => {
                if self.next > self.current + 1 && self.current < self.glyphs.len() {
                    self.current + 1
                } else if self.next < self.current && self.current > 0 {
                    self.current - 1
                } else {
                    self.current
                }
            },
            Slope::Greater => {
                if self.next > self.current + 1 && self.current + 1 < self.glyphs.len() {
                    self.current + 2
                } else {
                    self.current + 1
                }
            },
        }
    }

    fn get_idx_double(&self, pending_comparison: Slope) -> (r: usize)
        requires
            pending_comparison == Slope::Less ==> self.current >= 1,
            pending_comparison == Slope::Greater ==> self.current + 1 < self.glyphs.len(),
            self.current < self.glyphs.len(),
            self.next < self.glyphs.len(),
        ensures
            r == idx_double(pending_comparison, self.current as int, self.next as int, self.glyphs.len() as int),
            r < self.glyphs.len(),
    {
        let graph_one_max_idx = (self.glyphs.len() - 1) / 2;
        match pending_comparison {
            Slope::Less => {
                if self.next < self.current - 1 && self.current > 1 {
                    if self.current - 2 > graph_one_max_idx || self.current <= graph_one_max_idx {
                        self.current - 2
                    } else if self.current - 1 > graph_one_max_idx || self.current <= graph_one_max_idx {
                        self.current - 1
                    } else {
                        self.current
                    }
                } else {
                    self.current
                }
            },
            Slope::Equal => {
                if self.next > self.current + 1 && self.current < self.glyphs.len() {
                    if self.current != graph_one_max_idx {
                        self.current + 1
                    } else {
                        self.current
                    }
                } else {
                    self.current
                }
            },
            Slope::Greater => {
                if self.next > self.current + 1 && self.current + 1 < self.glyphs.len() {
                    if self.current + 2 <= graph_one_max_idx || self.current > graph_one_max_idx {
                        self.current + 2
                    } else if self.current != graph_one_max_idx {
                        self.current + 1
                    } else {
                        self.current
                    }
                } else if self.current != graph_one_max_idx {
                    self.current + 1
                } else {
                    self.current
                }
            },
        }
    }
}

/// The glyphs a graph with these options draws with, one per level.
pub fn graph_glyphs(graph_opts: &GraphOpts) -> (r: Vec<char>)
    ensures
        r@ == level_glyphs(graph_opts.style, graph_opts.rowspan),
{
    GraphLvls::get_glyphs(&graph_opts.style, &graph_opts.rowspan)
}

impl GraphLvls {
    /// The characters of one column: (lower row, upper row).
    fn column(&self, s: Slope, double: bool, dotted: bool) -> (r: (char, char))
        requires
            s == Slope::Less ==> self.current >= 1,
            s == Slope::Greater ==> self.current + 1 < self.glyphs.len(),
            self.current < self.glyphs.len(),
            self.next < self.glyphs.len(),
        ensures
            !double ==> r == (self.glyphs@[idx_single(s, self.current as int, self.next as int, self.glyphs.len() as int)], ' '),
            double ==> r == ({
                let len = self.glyphs.len() as int;
                let g = self.glyphs@[idx_double(s, self.current as int, self.next as int, len)];
                if self.current > (len - 1) / 2 {
                    (if dotted { '⣿' } else { ' ' }, g)
                } else {
                    (g, ' ')
                }
            }),
    {
        if !double {
            (self.glyphs[self.get_idx_single(s)], ' ')
        } else {
            let graph_one_idx_sum = (self.glyphs.len() - 1) / 2;
            let g = self.glyphs[self.get_idx_double(s)];
            if self.current > graph_one_idx_sum {
                (if dotted { '⣿' } else { ' ' }, g)
            } else {
                (g, ' ')
            }
        }
    }
}

impl Graph {
    /// Draws the graph of 24 hours from the level of each hour (and of the hour
    /// after them): three columns per hour, comparing each level with the one
    /// before and the one after.
    pub fn prepare_graph(levels: &[usize], graph_opts: &GraphOpts) -> (r: Graph)
        requires
            valid_levels(levels@, graph_opts.style, graph_opts.rowspan),
        ensures
            r.0@ == lower_row(levels@, graph_opts.style, graph_opts.rowspan),
            r.1@ == upper_row(levels@, graph_opts.style, graph_opts.rowspan),
    {
        let mut graph = Graph(String::new(), String::new());
        let style = graph_opts.style;
        let rowspan = graph_opts.rowspan;
        let double = rowspan == GraphRows::double;
        let dotted = match style {
            GraphStyle::dotted => true,
            _ => false,
        };
        let mut graph_lvls = GraphLvls { glyphs: GraphLvls::get_glyphs(&style, &rowspan), current: 0, next: 0, last: None };
        let ghost glyphs = graph_lvls.glyphs@;
        let ghost lv = levels@;
        let ghost f = |k: int| cell(lv, style, rowspan, k / 3, k % 3);
        let hours: usize = if levels.len() == 0 { 0 } else { 24 };
        let mut i: usize = 0;
        while i < hours
            invariant
                i <= hours,
                hours == graph_hours(lv.len()),
                lv == levels@,
                valid_levels(lv, style, rowspan),
                glyphs == level_glyphs(style, rowspan),
                graph_lvls.glyphs@ == glyphs,
                double == (rowspan == GraphRows::double),
                dotted == (style is dotted),
                f == (|k: int| cell(lv, style, rowspan, k / 3, k % 3)),
                graph.0@ == Seq::new(3 * i as nat, |k: int| f(k).0),
                graph.1@ == (if double { Seq::new(3 * i as nat, |k: int| f(k).1) } else { Seq::empty() }),
                i == 0 ==> graph_lvls.last is None,
                i > 0 ==> (graph_lvls.last matches Some(l) && last_level(lv, double, i as int) == Some(l as int)
                    && l < glyphs.len()),
            decreases hours - i,
        {
            graph_lvls.current = levels[i];
            graph_lvls.next = levels[i + 1];
            let ghost h = i as int;

            // Column 1 of 3: compared with the level before
            let s0 = match graph_lvls.last {
                Some(last_lvl) => compare(last_lvl, graph_lvls.current),
                None => Slope::Equal,
            };
            assert(s0 == cell_slope(lv, double, h, 0));
            let c0 = graph_lvls.column(s0, double, dotted);
            // Column 2 of 3
            let c1 = graph_lvls.column(Slope::Equal, double, dotted);
            // Column 3 of 3: compared with the level after
            let s2 = compare(graph_lvls.next, graph_lvls.current);
            let c2 = graph_lvls.column(s2, double, dotted);
            proof {
                assert(c0 == cell(lv, style, rowspan, h, 0));
                assert(c1 == cell(lv, style, rowspan, h, 1));
                assert(c2 == cell(lv, style, rowspan, h, 2));
                assert((3 * h) / 3 == h && (3 * h) % 3 == 0);
                assert((3 * h + 1) / 3 == h && (3 * h + 1) % 3 == 1);
                assert((3 * h + 2) / 3 == h && (3 * h + 2) % 3 == 2);
                assert(Seq::new(3 * (i + 1) as nat, |k: int| f(k).0)
                    =~= Seq::new(3 * i as nat, |k: int| f(k).0).push(c0.0).push(c1.0).push(c2.0));
                assert(Seq::new(3 * (i + 1) as nat, |k: int| f(k).1)
                    =~= Seq::new(3 * i as nat, |k: int| f(k).1).push(c0.1).push(c1.1).push(c2.1));
            }
            push_char(&mut graph.0, c0.0);
            push_char(&mut graph.0, c1.0);
            push_char(&mut graph.0, c2.0);
            if double {
                push_char(&mut graph.1, c0.1);
                push_char(&mut graph.1, c1.1);
                push_char(&mut graph.1, c2.1);
            }

            // The level the next hour starts from
            graph_lvls.last = if !double {
                Some(graph_lvls.next)
            } else if graph_lvls.next + 1 < graph_lvls.current {
                Some(graph_lvls.current - 2)
            } else if graph_lvls.next > graph_lvls.current + 1 {
                Some(graph_lvls.current + 2)
            } else {
                Some(graph_lvls.next)
            };
            i = i + 1;
        }
        graph
    }
}

/// Whether a character is one the graph may draw in its lower row: a glyph
/// of the style, a blank, or the full block that fills a dotted two-row graph.
pub open spec fn lower_glyph(c: char, style: GraphStyle, rows: GraphRows) -> bool {
    level_glyphs(style, rows).contains(c) || c == ' ' || c == '⣿'
}

/// The glyph chosen for a column is one of the style's.
proof fn lemma_cell_in_range(levels: Seq<usize>, style: GraphStyle, rows: GraphRows, h: int, pos: int)
    requires
        valid_levels(levels, style, rows),
        levels.len() > 0,
        0 <= h < 24,
        0 <= pos < 3,
    ensures
        ({
            let len = level_glyphs(style, rows).len() as int;
            let s = cell_slope(levels, rows == GraphRows::double, h, pos);
            let current = levels[h] as int;
            let next = levels[h + 1] as int;
            &&& 0 <= idx_single(s, current, next, len) < len
            &&& 0 <= idx_double(s, current, next, len) < len
        }),
{
    let len = level_glyphs(style, rows).len() as int;
    let double = rows == GraphRows::double;
    let current = levels[h] as int;
    let next = levels[h + 1] as int;
    assert(current < len && next < len);
    if h > 0 {
        assert(levels[h - 1] < len);
    }
    let s = cell_slope(levels, double, h, pos);
    // A slope down starts above the lowest level, a slope up below the highest.
    assert(s == Slope::Less ==> current >= 1);
    assert(s == Slope::Greater ==> current + 1 < len);
}

/// Every column of a graph shows one of the style's glyphs (or a blank, or in
/// the lower row of a dotted two-row graph the full block); a graph of 24
/// hours is 72 columns wide; a one-row graph has no upper row.
pub proof fn lemma_graph_draws_style_glyphs(levels: Seq<usize>, style: GraphStyle, rows: GraphRows, k: int)
    requires
        valid_levels(levels, style, rows),
        levels.len() > 0,
        0 <= k < 72,
    ensures
        lower_row(levels, style, rows).len() == 72,
        upper_row(levels, style, rows).len() == (if rows == GraphRows::single { 0int } else { 72int }),
        lower_glyph(lower_row(levels, style, rows)[k], style, rows),
        rows == GraphRows::double ==> level_glyphs(style, rows).contains(upper_row(levels, style, rows)[k])
            || upper_row(levels, style, rows)[k] == ' ',
{
    let h = k / 3;
    let pos = k % 3;
    lemma_cell_in_range(levels, style, rows, h, pos);
    let glyphs = level_glyphs(style, rows);
    let len = glyphs.len() as int;
    let s = cell_slope(levels, rows == GraphRows::double, h, pos);
    let current = levels[h] as int;
    let next = levels[h + 1] as int;
    if rows == GraphRows::single {
        let i = idx_single(s, current, next, len);
        assert(glyphs[i] == cell(levels, style, rows, h, pos).0);
    } else {
        let i = idx_double(s, current, next, len);
        assert(glyphs[i] == glyphs[idx_double(s, current, next, len)]);
        if current > (len - 1) / 2 {
            assert(cell(levels, style, rows, h, pos).1 == glyphs[i]);
        } else {
            assert(cell(levels, style, rows, h, pos).0 == glyphs[i]);
        }
    }
}

} // verus!
