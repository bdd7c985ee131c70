//! Styled text fragments and a builder that collects them.

use vstd::prelude::*;

verus! {

/// A symbolic style. The rendering surface maps each to actual colors.
#[derive(Debug, Clone, Copy, PartialEq, Eq, Structural)]
pub enum Style {
    /// No styling.
    Plain,
    /// Emphasis: prompts, sign indicators, a checked box.
    Accent,
    /// De-emphasis: annotations next to a value.
    Muted,
    /// An unchecked box.
    Warning,
    /// Something is wrong.
    Error,
}

/// A piece of text with one style.
#[derive(Debug)]
pub struct Span {
    pub content: String,
    pub style: Style,
}

impl View for Span {
    type V = (Seq<char>, Style);

    open spec fn view(&self) -> (Seq<char>, Style) {
        (self.content@, self.style)
    }
}

impl Span {
    /// A span without styling.
    pub fn raw(content: String) -> (span: Span)
        ensures
            span@ == (content@, Style::Plain),
    {
        Span { content, style: Style::Plain }
    }

    /// A span with the given style.
    pub fn styled(content: String, style: Style) -> (span: Span)
        ensures
            span@ == (content@, style),
    {
        Span { content, style }
    }
}

/// A line of text made of spans, in reading order.
#[derive(Debug)]
pub struct Spans(pub Vec<Span>);

impl View for Spans {
    type V = Seq<(Seq<char>, Style)>;

    open spec fn view(&self) -> Seq<(Seq<char>, Style)> {
        Seq::new(self.0@.len(), |i: int| self.0@[i]@)
    }
}

impl Spans {
    /// A line without any span.
    pub fn new() -> (spans: Spans)
        ensures
            spans@ == Seq::<(Seq<char>, Style)>::empty(),
    {
        Spans(Vec::new())
    }

    /// Appends one span to the line.
    pub fn push(&mut self, span: Span)
        ensures
            final(self)@ == old(self)@.push(span@),
    {
        self.0.push(span);
    }
}

/// Collects pairs of text and style and turns them into a line of spans.
#[derive(Debug, Clone)]
pub struct SpanBuilder(Vec<(String, Style)>);

impl View for SpanBuilder {
    type V = Seq<(Seq<char>, Style)>;

    closed spec fn view(&self) -> Seq<(Seq<char>, Style)> {
        Seq::new(self.0@.len(), |i: int| (self.0@[i].0@, self.0@[i].1))
    }
}

impl Default for SpanBuilder {
    fn default() -> (builder: SpanBuilder)
        ensures
            builder@ == Seq::<(Seq<char>, Style)>::empty(),
    {
        SpanBuilder(Vec::new())
    }
}

impl SpanBuilder {
    /// Appends one fragment.
    pub fn push(&mut self, string: String, style: Style)
        ensures
            final(self)@ == old(self)@.push((string@, style)),
    {
        self.0.push((string, style));
    }

    /// The collected fragments as a line of spans, in the order they were pushed.
    pub fn get_spans(self) -> (spans: Spans)
        ensures
            spans@ == self@,
    {
        let mut pairs = self.0;
        let ghost all = pairs@;
        let mut reversed: Vec<Span> = Vec::new();
        while pairs.len() > 0
            invariant
                pairs@.len() + reversed@.len() == all.len(),
                pairs@ == all.take(pairs@.len() as int),
                forall|j: int|
                    0 <= j < reversed@.len() ==> (#[trigger] reversed@[j])@ == (
                        all[all.len() - 1 - j].0@,
                        all[all.len() - 1 - j].1,
                    ),
            decreases pairs@.len(),
        {
            match pairs.pop() {
                Some((string, style)) => {
                    reversed.push(Span::styled(string, style));
                },
                None => {},
            }
        }
        let mut spans = Spans::new();
        while reversed.len() > 0
            invariant
                spans@.len() + reversed@.len() == all.len(),
                forall|j: int|
                    0 <= j < reversed@.len() ==> (#[trigger] reversed@[j])@ == (
                        all[all.len() - 1 - j].0@,
                        all[all.len() - 1 - j].1,
                    ),
                forall|j: int|
                    0 <= j < spans@.len() ==> #[trigger] spans@[j] == (all[j].0@, all[j].1),
            decreases reversed@.len(),
        {
            match reversed.pop() {
                Some(span) => {
                    spans.push(span);
                },
                None => {},
            }
        }
        spans
    }
}

} // verus!
