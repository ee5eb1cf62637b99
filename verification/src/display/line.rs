use vstd::prelude::*;

use crate::border::{Border, BorderStyle, Edge, Separator};

verus! {

/// The colour a piece of text is drawn in, where colours are on.
#[derive(PartialEq, Eq, Structural, Debug, Clone, Copy)]
pub enum Tint {
    /// No colour.
    Plain,
    /// Bright black, for frames and small print.
    Dim,
    /// Yellow, for temperatures.
    Yellow,
    /// Blue, for precipitation.
    Blue,
}

/// A piece of a line: its text and how it is drawn.
pub struct Segment {
    pub text: String,
    pub tint: Tint,
    pub bold: bool,
}

/// What a segment shows: (text, tint, bold).
pub type SegmentView = (Seq<char>, Tint, bool);

impl View for Segment {
    type V = SegmentView;

    open spec fn view(&self) -> SegmentView {
        (self.text@, self.tint, self.bold)
    }
}

/// One line of output, made of segments.
pub struct Line {
    pub segments: Vec<Segment>,
}

impl View for Line {
    type V = Seq<SegmentView>;

    open spec fn view(&self) -> Seq<SegmentView> {
        self.segments@.map_values(|s: Segment| s@)
    }
}

/// What lines show.
pub open spec fn lines_view(lines: Seq<Line>) -> Seq<Seq<SegmentView>> {
    lines.map_values(|l: Line| l@)
}

/// The text of a line without its styles.
pub open spec fn plain_text(line: Seq<SegmentView>) -> Seq<char>
    decreases line.len(),
{
    if line.len() == 0 {
        Seq::empty()
    } else {
        plain_text(line.drop_last()) + line.last().0
    }
}

/// A segment in a tint, not bold.
pub open spec fn tinted(text: Seq<char>, tint: Tint) -> SegmentView {
    (text, tint, false)
}

/// A segment without style.
pub open spec fn plain(text: Seq<char>) -> SegmentView {
    (text, Tint::Plain, false)
}

/// A bold segment without colour.
pub open spec fn bold(text: Seq<char>) -> SegmentView {
    (text, Tint::Plain, true)
}

/// A frame piece, dimmed.
pub open spec fn frame(b: Border, style: BorderStyle) -> SegmentView {
    tinted(seq![b.glyph(style)], Tint::Dim)
}

/// A line between the frame's sides, with a blank on each side.
pub open spec fn boxed(style: BorderStyle, inner: Seq<SegmentView>) -> Seq<SegmentView> {
    seq![frame(Border::L, style), plain(" "@)] + inner + seq![plain(" "@), frame(Border::R, style)]
}

/// A line between the frame's sides, without blanks.
pub open spec fn tight(style: BorderStyle, inner: Seq<SegmentView>) -> Seq<SegmentView> {
    seq![frame(Border::L, style)] + inner + seq![frame(Border::R, style)]
}

/// An edge of the frame, as one dimmed segment.
pub open spec fn edge_line(e: Edge, width: nat, style: BorderStyle) -> Seq<SegmentView> {
    seq![tinted(e.text(width, style), Tint::Dim)]
}

/// A separator, as one dimmed segment.
pub open spec fn separator_line(s: Separator, width: nat, style: BorderStyle) -> Seq<SegmentView> {
    seq![tinted(s.text(width, style), Tint::Dim)]
}

/// The separator below a title: as heavy as the frame.
pub open spec fn title_separator(style: BorderStyle) -> Separator {
    match style {
        BorderStyle::double => Separator::Double,
        BorderStyle::solid => Separator::Solid,
        _ => Separator::Single,
    }
}

pub fn title_separator_of(style: &BorderStyle) -> (r: Separator)
    ensures
        r == title_separator(*style),
{
    match style {
        BorderStyle::double => Separator::Double,
        BorderStyle::solid => Separator::Solid,
        _ => Separator::Single,
    }
}

impl Line {
    pub fn new() -> (r: Line)
        ensures
            r@ == Seq::<SegmentView>::empty(),
    {
        Line { segments: Vec::new() }
    }

    /// Adds a segment at the end.
    pub fn add(&mut self, text: String, tint: Tint, bold: bool)
        ensures
            final(self)@ == old(self)@.push((text@, tint, bold)),
    {
        self.segments.push(Segment { text, tint, bold });
        assert(self@ =~= old(self)@.push((text@, tint, bold)));
    }

    /// Adds unstyled text at the end.
    pub fn add_plain(&mut self, text: &str)
        ensures
            final(self)@ == old(self)@.push(plain(text@)),
    {
        self.add(text.to_string(), Tint::Plain, false);
    }

    /// Adds a dimmed frame piece at the end.
    pub fn add_frame(&mut self, b: Border, style: &BorderStyle)
        ensures
            final(self)@ == old(self)@.push(frame(b, *style)),
    {
        let g = b.fmt(style);
        self.add(g.to_string(), Tint::Dim, false);
    }

    /// A line of one segment.
    pub fn single(text: String, tint: Tint, bold: bool) -> (r: Line)
        ensures
            r@ == seq![(text@, tint, bold)],
    {
        let mut l = Line::new();
        l.add(text, tint, bold);
        l
    }

    /// A line between the frame's sides, with a blank on each side.
    pub fn boxed(style: &BorderStyle, inner: Line) -> (r: Line)
        ensures
            r@ == boxed(*style, inner@),
    {
        let mut l = Line::new();
        l.add_frame(Border::L, style);
        l.add_plain(" ");
        let mut i: usize = 0;
        let ghost start = l@;
        let mut segs = inner.segments;
        let ghost inner_view = segs@.map_values(|s: Segment| s@);
        let n = segs.len();
        // Move the inner segments over, first to last.
        while i < n
            invariant
                i <= n,
                n == inner_view.len(),
                segs.len() == n - i,
                segs@.map_values(|s: Segment| s@) == inner_view.subrange(i as int, n as int),
                l@ == start + inner_view.subrange(0, i as int),
            decreases n - i,
        {
            assert(segs@.map_values(|s: Segment| s@)[0] == inner_view[i as int]);
            let ghost before = segs@;
            let s = segs.remove(0);
            assert forall|k: int| 0 <= k < segs.len() implies #[trigger] segs@[k]@ == inner_view[i + 1 + k] by {
                assert(segs@[k] == before[k + 1]);
                assert(before.map_values(|s: Segment| s@)[k + 1] == inner_view.subrange(i as int, n as int)[k + 1]);
            }
            assert(segs@.map_values(|s: Segment| s@) =~= inner_view.subrange(i + 1, n as int));
            l.add(s.text, s.tint, s.bold);
            proof {
                assert(start + inner_view.subrange(0, i + 1) =~= (start + inner_view.subrange(0, i as int)).push(
                    inner_view[i as int],
                ));
            }
            i = i + 1;
        }
        assert(inner_view.subrange(0, n as int) =~= inner_view);
        l.add_plain(" ");
        l.add_frame(Border::R, style);
        assert(l@ =~= boxed(*style, inner@));
        l
    }
}

/// An edge of the frame as a line.
pub fn edge(e: Edge, width: usize, style: &BorderStyle) -> (r: Line)
    ensures
        r@ == edge_line(e, width as nat, *style),
{
    Line::single(e.fmt(width, style), Tint::Dim, false)
}

/// A separator as a line.
pub fn separator(s: Separator, width: usize, style: &BorderStyle) -> (r: Line)
    ensures
        r@ == separator_line(s, width as nat, *style),
{
    Line::single(s.fmt(width, style), Tint::Dim, false)
}

} // verus!
