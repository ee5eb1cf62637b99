use vstd::prelude::*;

use crate::text::{push_char, repeat_str, seq_repeat};

verus! {

/// One piece of the frame drawn around every panel.
pub enum Border {
    TL,
    T,
    TR,
    R,
    BR,
    B,
    BL,
    L,
}

/// The four frame styles a user can configure.
#[derive(PartialEq, Eq, Structural, Debug, Clone, Copy)]
#[allow(non_camel_case_types)]
pub enum BorderStyle {
    rounded,
    single,
    solid,
    double,
}

impl Default for BorderStyle {
    fn default() -> (r: Self)
        ensures
            r == BorderStyle::rounded,
    {
        BorderStyle::rounded
    }
}

impl Border {
    /// The glyph of this frame piece in the given style.
    pub open spec fn glyph(self, style: BorderStyle) -> char {
        match self {
            Border::TL => match style {
                BorderStyle::single => '┌',
                BorderStyle::solid => '┏',
                BorderStyle::double => '╔',
                BorderStyle::rounded => '╭',
            },
            Border::T | Border::B => match style {
                BorderStyle::double => '═',
                BorderStyle::solid => '━',
                _ => '─',
            },
            Border::TR => match style {
                BorderStyle::single => '┐',
                BorderStyle::solid => '┓',
                BorderStyle::double => '╗',
                BorderStyle::rounded => '╮',
            },
            Border::R | Border::L => match style {
                BorderStyle::double => '║',
                BorderStyle::solid => '┃',
                _ => '│',
            },
            Border::BR => match style {
                BorderStyle::single => '┘',
                BorderStyle::solid => '┛',
                BorderStyle::double => '╝',
                BorderStyle::rounded => '╯',
            },
            Border::BL => match style {
                BorderStyle::single => '└',
                BorderStyle::solid => '┗',
                BorderStyle::double => '╚',
                BorderStyle::rounded => '╰',
            },
        }
    }

    /// The text of this frame piece: its one glyph.
    pub fn fmt<'a>(&self, style: &BorderStyle) -> (r: &'a str)
        ensures
            r@ == seq![self.glyph(*style)],
    {
        match self {
            Border::TL => match style {
                BorderStyle::single => { proof { reveal_strlit("┌"); } "┌" },
                BorderStyle::solid => { proof { reveal_strlit("┏"); } "┏" },
                BorderStyle::double => { proof { reveal_strlit("╔"); } "╔" },
                BorderStyle::rounded => { proof { reveal_strlit("╭"); } "╭" },
            },
            Border::T | Border::B => match style {
                BorderStyle::double => { proof { reveal_strlit("═"); } "═" },
                BorderStyle::solid => { proof { reveal_strlit("━"); } "━" },
                _ => { proof { reveal_strlit("─"); } "─" },
            },
            Border::TR => match style {
                BorderStyle::single => { proof { reveal_strlit("┐"); } "┐" },
                BorderStyle::solid => { proof { reveal_strlit("┓"); } "┓" },
                BorderStyle::double => { proof { reveal_strlit("╗"); } "╗" },
                BorderStyle::rounded => { proof { reveal_strlit("╮"); } "╮" },
            },
            Border::R | Border::L => match style {
                BorderStyle::double => { proof { reveal_strlit("║"); } "║" },
                BorderStyle::solid => { proof { reveal_strlit("┃"); } "┃" },
                _ => { proof { reveal_strlit("│"); } "│" },
            },
            Border::BR => match style {
                BorderStyle::single => { proof { reveal_strlit("┘"); } "┘" },
                BorderStyle::solid => { proof { reveal_strlit("┛"); } "┛" },
                BorderStyle::double => { proof { reveal_strlit("╝"); } "╝" },
                BorderStyle::rounded => { proof { reveal_strlit("╯"); } "╯" },
            },
            Border::BL => match style {
                BorderStyle::single => { proof { reveal_strlit("└"); } "└" },
                BorderStyle::solid => { proof { reveal_strlit("┗"); } "┗" },
                BorderStyle::double => { proof { reveal_strlit("╚"); } "╚" },
                BorderStyle::rounded => { proof { reveal_strlit("╰"); } "╰" },
            },
        }
    }
}

/// The top or bottom edge of a panel.
pub enum Edge {
    Top,
    Bottom,
}

impl Edge {
    /// The corners and the horizontal piece that make up this edge.
    pub open spec fn pieces(self) -> (Border, Border, Border) {
        match self {
            Edge::Top => (Border::TL, Border::T, Border::TR),
            Edge::Bottom => (Border::BL, Border::B, Border::BR),
        }
    }

    /// The text of this edge: a corner, `width` horizontal pieces and the other corner.
    pub open spec fn text(self, width: nat, style: BorderStyle) -> Seq<char> {
        let (left, mid, right) = self.pieces();
        seq![left.glyph(style)] + seq_repeat(seq![mid.glyph(style)], width) + seq![right.glyph(style)]
    }

    pub fn fmt(self, width: usize, style: &BorderStyle) -> (r: String)
        ensures
            r@ == self.text(width as nat, *style),
    {
        let (left, mid, right) = match self {
            Edge::Top => (Border::TL, Border::T, Border::TR),
            Edge::Bottom => (Border::BL, Border::B, Border::BR),
        };
        let mut r = String::new();
        r.append(left.fmt(style));
        let line = repeat_str(mid.fmt(style), width);
        r.append(line.as_str());
        r.append(right.fmt(style));
        r
    }
}

/// A horizontal line inside a panel.
pub enum Separator {
    Blank,
    Single,
    Solid,
    Double,
    Dashed,
}

impl Separator {
    /// The left end, the filling and the right end of this separator.
    pub open spec fn pieces(self, style: BorderStyle) -> (char, char, char) {
        match self {
            Separator::Blank => (Border::L.glyph(style), ' ', Border::R.glyph(style)),
            Separator::Dashed => ('├', '┈', '┤'),
            Separator::Single => ('├', '─', '┤'),
            Separator::Solid => ('┠', '─', '┨'),
            Separator::Double => ('╟', '─', '╢'),
        }
    }

    /// The text of this separator: its left end, `width` fill characters and its right end.
    pub open spec fn text(self, width: nat, style: BorderStyle) -> Seq<char> {
        let (left, fill, right) = self.pieces(style);
        seq![left] + seq_repeat(seq![fill], width) + seq![right]
    }

    pub fn fmt(self, width: usize, style: &BorderStyle) -> (r: String)
        ensures
            r@ == self.text(width as nat, *style),
    {
        let (left, fill, right): (char, &str, char) = match self {
            Separator::Blank => (border_char(&Border::L, style), " ", border_char(&Border::R, style)),
            Separator::Dashed => ('├', "┈", '┤'),
            Separator::Single => ('├', "─", '┤'),
            Separator::Solid => ('┠', "─", '┨'),
            Separator::Double => ('╟', "─", '╢'),
        };
        proof {
            reveal_strlit(" ");
            reveal_strlit("┈");
            reveal_strlit("─");
            assert(fill@ == seq![self.pieces(*style).1]);
        }
        let mut r = String::new();
        push_char(&mut r, left);
        let line = repeat_str(fill, width);
        r.append(line.as_str());
        push_char(&mut r, right);
        r
    }
}

/// Each style draws its frame with its own set of box-drawing glyphs:
/// single `┌─┐│└┘`, rounded `╭─╮│╰╯`, solid `┏━┓┃┗┛` and double `╔═╗║╚╝`.
/// An edge is its left corner, `width` horizontal pieces and its right
/// corner; a separator is its left end, `width` fill glyphs and its right
/// end: a blank line between the frame's sides, or a dashed, single, solid
/// or double line that meets the frame.
pub proof fn lemma_frame_glyphs(style: BorderStyle, width: nat)
    ensures
        Border::TL.glyph(BorderStyle::single) == '┌' && Border::T.glyph(BorderStyle::single) == '─' && Border::TR.glyph(BorderStyle::single) == '┐',
        Border::L.glyph(BorderStyle::single) == '│' && Border::R.glyph(BorderStyle::single) == '│' && Border::B.glyph(BorderStyle::single) == '─',
        Border::BL.glyph(BorderStyle::single) == '└' && Border::BR.glyph(BorderStyle::single) == '┘',
        Border::TL.glyph(BorderStyle::rounded) == '╭' && Border::T.glyph(BorderStyle::rounded) == '─' && Border::TR.glyph(BorderStyle::rounded) == '╮',
        Border::L.glyph(BorderStyle::rounded) == '│' && Border::R.glyph(BorderStyle::rounded) == '│' && Border::B.glyph(BorderStyle::rounded) == '─',
        Border::BL.glyph(BorderStyle::rounded) == '╰' && Border::BR.glyph(BorderStyle::rounded) == '╯',
        Border::TL.glyph(BorderStyle::solid) == '┏' && Border::T.glyph(BorderStyle::solid) == '━' && Border::TR.glyph(BorderStyle::solid) == '┓',
        Border::L.glyph(BorderStyle::solid) == '┃' && Border::R.glyph(BorderStyle::solid) == '┃' && Border::B.glyph(BorderStyle::solid) == '━',
        Border::BL.glyph(BorderStyle::solid) == '┗' && Border::BR.glyph(BorderStyle::solid) == '┛',
        Border::TL.glyph(BorderStyle::double) == '╔' && Border::T.glyph(BorderStyle::double) == '═' && Border::TR.glyph(BorderStyle::double) == '╗',
        Border::L.glyph(BorderStyle::double) == '║' && Border::R.glyph(BorderStyle::double) == '║' && Border::B.glyph(BorderStyle::double) == '═',
        Border::BL.glyph(BorderStyle::double) == '╚' && Border::BR.glyph(BorderStyle::double) == '╝',
        Edge::Top.text(width, style) == seq![Border::TL.glyph(style)] + seq_repeat(seq![Border::T.glyph(style)], width)
            + seq![Border::TR.glyph(style)],
        Edge::Bottom.text(width, style) == seq![Border::BL.glyph(style)] + seq_repeat(seq![Border::B.glyph(style)], width)
            + seq![Border::BR.glyph(style)],
        Separator::Blank.text(width, style) == seq![Border::L.glyph(style)] + seq_repeat(seq![' '], width) + seq![
            Border::R.glyph(style),
        ],
        Separator::Dashed.text(width, style) == seq!['├'] + seq_repeat(seq!['┈'], width) + seq!['┤'],
        Separator::Single.text(width, style) == seq!['├'] + seq_repeat(seq!['─'], width) + seq!['┤'],
        Separator::Solid.text(width, style) == seq!['┠'] + seq_repeat(seq!['─'], width) + seq!['┨'],
        Separator::Double.text(width, style) == seq!['╟'] + seq_repeat(seq!['─'], width) + seq!['╢'],
{
}

/// The glyph of a frame piece as a character.
pub fn border_char(b: &Border, style: &BorderStyle) -> (c: char)
    ensures
        c == b.glyph(*style),
{
    match b {
        Border::TL => match style {
            BorderStyle::single => '┌',
            BorderStyle::solid => '┏',
            BorderStyle::double => '╔',
            BorderStyle::rounded => '╭',
        },
        Border::T | Border::B => match style {
            BorderStyle::double => '═',
            BorderStyle::solid => '━',
            _ => '─',
        },
        Border::TR => match style {
            BorderStyle::single => '┐',
            BorderStyle::solid => '┓',
            BorderStyle::double => '╗',
            BorderStyle::rounded => '╮',
        },
        Border::R | Border::L => match style {
            BorderStyle::double => '║',
            BorderStyle::solid => '┃',
            _ => '│',
        },
        Border::BR => match style {
            BorderStyle::single => '┘',
            BorderStyle::solid => '┛',
            BorderStyle::double => '╝',
            BorderStyle::rounded => '╯',
        },
        Border::BL => match style {
            BorderStyle::single => '└',
            BorderStyle::solid => '┗',
            BorderStyle::double => '╚',
            BorderStyle::rounded => '╰',
        },
    }
}

/// Repeating one character `n` times gives `n` of them.
proof fn lemma_repeat_len(c: char, n: nat)
    ensures
        seq_repeat(seq![c], n).len() == n,
        forall|i: int| 0 <= i < n ==> #[trigger] seq_repeat(seq![c], n)[i] == c,
    decreases n,
{
    if n > 0 {
        lemma_repeat_len(c, (n - 1) as nat);
    }
}

/// The frame of a panel lines up: its top and bottom edges and each of its
/// separators are `width + 2` characters long, ends included, and the edges
/// run between the corners of the style.
pub proof fn lemma_frame_lines_align(width: nat, style: BorderStyle, sep: Separator)
    ensures
        Edge::Top.text(width, style).len() == width + 2,
        Edge::Bottom.text(width, style).len() == width + 2,
        sep.text(width, style).len() == width + 2,
        Edge::Top.text(width, style)[0] == Border::TL.glyph(style),
        Edge::Top.text(width, style)[width + 1int] == Border::TR.glyph(style),
        Edge::Bottom.text(width, style)[0] == Border::BL.glyph(style),
        Edge::Bottom.text(width, style)[width + 1int] == Border::BR.glyph(style),
{
    lemma_repeat_len(Border::T.glyph(style), width);
    lemma_repeat_len(Border::B.glyph(style), width);
    lemma_repeat_len(sep.pieces(style).1, width);
}

} // verus!
