//! What a screen asks to have drawn.
//!
//! A description is a list of regions stacked from top to bottom.  Each region
//! says how much room it wants and holds lines of text; a line is cut into
//! spans, and a span may ask for emphasis.  How emphasis looks is left to
//! whoever draws.

use vstd::prelude::*;

verus! {

/// The room a region asks for along the stacking direction.
#[derive(Clone, Copy, PartialEq, Eq, Structural, Debug)]
pub enum RegionSize {
    /// A share of the whole, in percent.
    Percentage(u16),
    /// A fixed number of rows.
    Length(u16),
}

/// A piece of text, with or without emphasis.
#[derive(Clone, Debug)]
pub struct Span {
    pub text: String,
    pub emphasis: bool,
}

/// The model of a [`Span`].
pub struct SpanView {
    pub text: Seq<char>,
    pub emphasis: bool,
}

impl View for Span {
    type V = SpanView;

    open spec fn view(&self) -> SpanView {
        SpanView { text: self.text@, emphasis: self.emphasis }
    }
}

/// A span without emphasis.
pub open spec fn plain(text: Seq<char>) -> SpanView {
    SpanView { text, emphasis: false }
}

/// The spans of a stored line.
pub open spec fn line_view(line: Seq<Span>) -> Seq<SpanView> {
    Seq::new(line.len(), |i: int| line[i]@)
}

/// The lines of a stored text.
pub open spec fn lines_view(lines: Seq<Vec<Span>>) -> Seq<Seq<SpanView>> {
    Seq::new(lines.len(), |i: int| line_view(lines[i]@))
}

/// One region of a description.
#[derive(Clone, Debug)]
pub struct Region {
    pub size: RegionSize,
    pub lines: Vec<Vec<Span>>,
}

/// The model of a [`Region`].
pub struct RegionView {
    pub size: RegionSize,
    pub lines: Seq<Seq<SpanView>>,
}

impl View for Region {
    type V = RegionView;

    open spec fn view(&self) -> RegionView {
        RegionView { size: self.size, lines: lines_view(self.lines@) }
    }
}

/// A region that holds the single line of the single span `span`.
pub open spec fn one_span_region(size: RegionSize, span: SpanView) -> RegionView {
    RegionView { size, lines: seq![seq![span]] }
}

/// What a screen asks to have drawn: its regions, from top to bottom.
#[derive(Clone, Debug)]
pub struct RenderDescription {
    pub regions: Vec<Region>,
}

impl View for RenderDescription {
    type V = Seq<RegionView>;

    open spec fn view(&self) -> Seq<RegionView> {
        Seq::new(self.regions@.len(), |i: int| self.regions@[i]@)
    }
}

/// The line view of a line that has got one more span.
pub proof fn lemma_line_view_push(line: Seq<Span>, span: Span)
    ensures
        line_view(line.push(span)) == line_view(line).push(span@),
{
}

/// The lines view of a text that has got one more line.
pub proof fn lemma_lines_view_push(lines: Seq<Vec<Span>>, line: Vec<Span>)
    ensures
        lines_view(lines.push(line)) == lines_view(lines).push(line_view(line@)),
{
}

/// A region of one line that holds one span.
pub fn single_span_region(size: RegionSize, text: String, emphasis: bool) -> (region: Region)
    ensures
        region@ == one_span_region(size, SpanView { text: text@, emphasis }),
{
    let mut line: Vec<Span> = Vec::new();
    line.push(Span { text, emphasis });
    let mut lines: Vec<Vec<Span>> = Vec::new();
    lines.push(line);
    let region = Region { size, lines };
    assert(region@.lines =~= seq![seq![SpanView { text: text@, emphasis }]]) by {
        assert(lines_view(region.lines@)[0] =~= seq![SpanView { text: text@, emphasis }]);
    }
    region
}

} // verus!
