//! Text for the terminal, cut into spans that each carry one style.

use vstd::prelude::*;

verus! {

/// How a span of text is shown.
#[derive(Clone, Copy, Debug, PartialEq, Eq, Structural)]
pub enum Style {
    Plain,
    Bold,
    Dimmed,
    Blue,
    Green,
    Yellow,
    Cyan,
    Red,
}

/// A piece of text in one style.
#[derive(Debug, PartialEq, Eq)]
pub struct Span {
    pub text: String,
    pub style: Style,
}

impl View for Span {
    type V = (Seq<char>, Style);

    open spec fn view(&self) -> (Seq<char>, Style) {
        (self.text@, self.style)
    }
}

/// The texts and styles of a run of spans.
pub open spec fn spans_of(spans: Seq<Span>) -> Seq<(Seq<char>, Style)> {
    spans.map_values(|s: Span| s@)
}

impl Span {
    /// A span of `text` in `style`.
    pub fn new(text: String, style: Style) -> (r: Span)
        ensures
            r@ == (text@, style),
    {
        Span { text, style }
    }

    /// A span in the plain style.
    pub fn plain(text: &str) -> (r: Span)
        ensures
            r@ == (text@, Style::Plain),
    {
        Span { text: text.to_owned(), style: Style::Plain }
    }

    /// A span of `text` in `style`.
    pub fn styled(text: &str, style: Style) -> (r: Span)
        ensures
            r@ == (text@, style),
    {
        Span { text: text.to_owned(), style }
    }
}

/// A line of one span.
pub fn line1(a: Span) -> (r: Vec<Span>)
    ensures
        spans_of(r@) == seq![a@],
{
    let mut line: Vec<Span> = Vec::new();
    line.push(a);
    assert(spans_of(line@) =~= seq![a@]);
    line
}

/// A line of two spans.
pub fn line2(a: Span, b: Span) -> (r: Vec<Span>)
    ensures
        spans_of(r@) == seq![a@, b@],
{
    let mut line: Vec<Span> = Vec::new();
    line.push(a);
    line.push(b);
    assert(spans_of(line@) =~= seq![a@, b@]);
    line
}

/// A line of three spans.
pub fn line3(a: Span, b: Span, c: Span) -> (r: Vec<Span>)
    ensures
        spans_of(r@) == seq![a@, b@, c@],
{
    let mut line: Vec<Span> = Vec::new();
    line.push(a);
    line.push(b);
    line.push(c);
    assert(spans_of(line@) =~= seq![a@, b@, c@]);
    line
}

} // verus!
