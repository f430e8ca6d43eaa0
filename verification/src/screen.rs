//! Styled text, line by line.

use vstd::prelude::*;

verus! {

/// A colour of the theme.
#[derive(Clone, Copy, Debug, PartialEq, Eq, Structural)]
pub enum Color {
    Orange,
    Success,
    TextDefault,
    DarkGray,
    SoftPurple,
}

/// How text is drawn.
#[derive(Clone, Copy, Debug, PartialEq, Eq, Structural)]
pub struct Style {
    /// The colour; the terminal's own where there is none.
    pub fg: Option<Color>,
    pub bold: bool,
}

/// A piece of a line that is drawn in one style.
#[derive(Clone, Debug)]
pub struct Span {
    pub text: String,
    pub style: Style,
}

/// A line, drawn in its own style where its pieces have none.
#[derive(Clone, Debug)]
pub struct Line {
    pub spans: Vec<Span>,
    pub style: Style,
}

/// What a piece of a line says and how.
pub struct SpanView {
    pub text: Seq<char>,
    pub style: Style,
}

/// What a line says and how.
pub struct LineView {
    pub spans: Seq<SpanView>,
    pub style: Style,
}

impl View for Span {
    type V = SpanView;

    open spec fn view(&self) -> SpanView {
        SpanView { text: self.text@, style: self.style }
    }
}

impl View for Line {
    type V = LineView;

    open spec fn view(&self) -> LineView {
        LineView { spans: self.spans@.map_values(|s: Span| s@), style: self.style }
    }
}

/// No style of its own.
pub open spec fn unstyled() -> Style {
    Style { fg: None, bold: false }
}

/// A colour.
pub open spec fn colored(color: Color) -> Style {
    Style { fg: Some(color), bold: false }
}

/// A colour, in bold.
pub open spec fn bold(color: Color) -> Style {
    Style { fg: Some(color), bold: true }
}

/// A line of one piece, drawn in the line's style.
pub open spec fn text_line(text: Seq<char>, style: Style) -> LineView {
    LineView { spans: seq![SpanView { text, style: unstyled() }], style }
}

/// A line of pieces that bring their own style.
pub open spec fn span_line(spans: Seq<SpanView>) -> LineView {
    LineView { spans, style: unstyled() }
}

/// A piece in a style.
pub open spec fn span(text: Seq<char>, style: Style) -> SpanView {
    SpanView { text, style }
}

/// A line without text.
pub open spec fn blank() -> LineView {
    text_line(Seq::empty(), unstyled())
}

/// What a list of lines says.
pub open spec fn shown(lines: Seq<Line>) -> Seq<LineView> {
    lines.map_values(|l: Line| l@)
}

impl Style {
    /// No style of its own.
    pub fn none() -> (style: Style)
        ensures
            style == unstyled(),
    {
        Style { fg: None, bold: false }
    }

    /// A colour.
    pub fn color(color: Color) -> (style: Style)
        ensures
            style == colored(color),
    {
        Style { fg: Some(color), bold: false }
    }

    /// A colour, in bold.
    pub fn bold_color(color: Color) -> (style: Style)
        ensures
            style == bold(color),
    {
        Style { fg: Some(color), bold: true }
    }
}

impl Line {
    /// A line of one piece, drawn in the line's style.
    pub fn text(text: String, style: Style) -> (line: Line)
        ensures
            line@ == text_line(text@, style),
    {
        let mut spans: Vec<Span> = Vec::new();
        spans.push(Span { text, style: Style::none() });
        let line = Line { spans, style };
        proof {
            assert(line@.spans =~= seq![span(text@, unstyled())]);
        }
        line
    }

    /// A line of one piece that brings its own style.
    pub fn styled(text: String, style: Style) -> (line: Line)
        ensures
            line@ == span_line(seq![span(text@, style)]),
    {
        let mut spans: Vec<Span> = Vec::new();
        spans.push(Span { text, style });
        let line = Line { spans, style: Style::none() };
        proof {
            assert(line@.spans =~= seq![span(text@, style)]);
        }
        line
    }

    /// A line of two pieces.
    pub fn pair(first: Span, second: Span) -> (line: Line)
        ensures
            line@ == span_line(seq![first@, second@]),
    {
        let mut spans: Vec<Span> = Vec::new();
        spans.push(first);
        spans.push(second);
        let line = Line { spans, style: Style::none() };
        proof {
            assert(line@.spans =~= seq![first@, second@]);
        }
        line
    }

    /// A line of four pieces.
    pub fn four(first: Span, second: Span, third: Span, fourth: Span) -> (line: Line)
        ensures
            line@ == span_line(seq![first@, second@, third@, fourth@]),
    {
        let mut spans: Vec<Span> = Vec::new();
        spans.push(first);
        spans.push(second);
        spans.push(third);
        spans.push(fourth);
        let line = Line { spans, style: Style::none() };
        proof {
            assert(line@.spans =~= seq![first@, second@, third@, fourth@]);
        }
        line
    }

    /// What the line says, without how.
    pub fn plain_text(&self) -> (text: String)
        ensures
            text@ == plain_words(self@.spans),
    {
        let mut text = String::new();
        let mut i: usize = 0;
        proof {
            assert(self@.spans.take(0) =~= Seq::<SpanView>::empty());
        }
        while i < self.spans.len()
            invariant
                i <= self.spans@.len(),
                text@ == plain_words(self@.spans.take(i as int)),
            decreases self.spans@.len() - i,
        {
            proof {
                let next = self@.spans.take(i + 1);
                assert(next.drop_last() =~= self@.spans.take(i as int));
                assert(next.last() == self.spans@[i as int]@);
            }
            text.append(self.spans[i].text.as_str());
            i = i + 1;
        }
        proof {
            assert(self@.spans.take(i as int) =~= self@.spans);
        }
        text
    }
}

/// The text of a list of pieces, one after the other.
pub open spec fn plain_words(spans: Seq<SpanView>) -> Seq<char>
    decreases spans.len(),
{
    if spans.len() == 0 {
        Seq::empty()
    } else {
        plain_words(spans.drop_last()) + spans.last().text
    }
}

/// Adds a line at the end.
pub fn add_line(lines: &mut Vec<Line>, line: Line)
    ensures
        shown(final(lines)@) == shown(old(lines)@).push(line@),
{
    lines.push(line);
    proof {
        assert(shown(lines@) =~= shown(old(lines)@).push(line@));
    }
}

/// Adds a line without text at the end.
pub fn add_blank(lines: &mut Vec<Line>)
    ensures
        shown(final(lines)@) == shown(old(lines)@).push(blank()),
{
    add_line(lines, Line::text(String::new(), Style::none()));
}

proof fn pieces_are_shown(line: Line)
    ensures
        line@.spans.len() == line.spans@.len(),
        forall|i: int| 0 <= i < line.spans@.len() ==> (#[trigger] line@.spans[i]) == line.spans@[i]@,
{
}

/// A style is what it is called: nothing at all, a colour, or a colour in bold.
pub proof fn styles_are_what_they_are_called(color: Color, none: Style, plain: Style, heavy: Style)
    requires
        call_ensures(Style::none, (), none),
        call_ensures(Style::color, (color,), plain),
        call_ensures(Style::bold_color, (color,), heavy),
    ensures
        none.fg is None && !none.bold,
        plain.fg == Some(color) && !plain.bold,
        heavy.fg == Some(color) && heavy.bold,
{
}

/// A line of one piece says what it was given, in the style it was given: as the
/// line's own, or as the piece's.
pub proof fn a_line_says_what_it_was_given(text: String, style: Style, whole: Line, piece: Line)
    requires
        call_ensures(Line::text, (text, style), whole),
        call_ensures(Line::styled, (text, style), piece),
    ensures
        whole.spans@.len() == 1 && whole.spans@[0].text@ == text@ && whole.spans@[0].style.fg is None
            && !whole.spans@[0].style.bold && whole.style == style,
        piece.spans@.len() == 1 && piece.spans@[0].text@ == text@ && piece.spans@[0].style == style
            && piece.style.fg is None && !piece.style.bold,
{
    pieces_are_shown(whole);
    pieces_are_shown(piece);
    assert(whole@.spans[0] == whole.spans@[0]@);
    assert(piece@.spans[0] == piece.spans@[0]@);
}

/// A line of several pieces has them in the order they were given.
pub proof fn pieces_keep_their_order(a: Span, b: Span, c: Span, d: Span, two: Line, all: Line)
    requires
        call_ensures(Line::pair, (a, b), two),
        call_ensures(Line::four, (a, b, c, d), all),
    ensures
        two.spans@.len() == 2 && two.spans@[0]@ == a@ && two.spans@[1]@ == b@,
        all.spans@.len() == 4 && all.spans@[0]@ == a@ && all.spans@[1]@ == b@ && all.spans@[2]@
            == c@ && all.spans@[3]@ == d@,
        a@.text == a.text@ && a@.style == a.style,
        two.style.fg is None && all.style.fg is None,
{
    pieces_are_shown(two);
    pieces_are_shown(all);
    assert(two@.spans[0] == two.spans@[0]@);
    assert(two@.spans[1] == two.spans@[1]@);
    assert(all@.spans[0] == all.spans@[0]@);
    assert(all@.spans[1] == all.spans@[1]@);
    assert(all@.spans[2] == all.spans@[2]@);
    assert(all@.spans[3] == all.spans@[3]@);
}

/// A line that is added stands last, and what stood there before it stands as it
/// did.
pub proof fn an_added_line_stands_last(lines: &mut Vec<Line>, line: Line)
    ensures
        call_ensures(add_line, (lines, line), ()) ==> {
            &&& final(lines)@.len() == old(lines)@.len() + 1
            &&& final(lines)@.last()@ == line@
            &&& forall|i: int|
                0 <= i < old(lines)@.len() ==> (#[trigger] final(lines)@[i])@ == old(lines)@[i]@
        },
        call_ensures(add_blank, (lines,), ()) ==> {
            &&& final(lines)@.len() == old(lines)@.len() + 1
            &&& final(lines)@.last()@.spans.len() == 1
            &&& final(lines)@.last()@.spans[0].text.len() == 0
            &&& forall|i: int|
                0 <= i < old(lines)@.len() ==> (#[trigger] final(lines)@[i])@ == old(lines)@[i]@
        },
{
    let after = shown(final(lines)@);
    let before = shown(old(lines)@);
    assert(after.len() == final(lines)@.len());
    assert(before.len() == old(lines)@.len());
    if call_ensures(add_line, (lines, line), ()) || call_ensures(add_blank, (lines,), ()) {
        let n = before.len() as int;
        assert(after[n] == final(lines)@[n]@);
        assert forall|i: int| 0 <= i < n implies (#[trigger] final(lines)@[i])@
            == old(lines)@[i]@ by {
            assert(after[i] == final(lines)@[i]@);
            assert(before[i] == old(lines)@[i]@);
        }
    }
}

/// The words of pieces one after the other are the words of the first ones and
/// then of the rest; those of one piece are its text.
pub proof fn words_run_on(first: Seq<SpanView>, second: Seq<SpanView>, piece: SpanView)
    ensures
        plain_words(first + second) == plain_words(first) + plain_words(second),
        plain_words(seq![piece]) == piece.text,
    decreases second.len(),
{
    reveal_with_fuel(plain_words, 2);
    assert(seq![piece].drop_last() =~= Seq::<SpanView>::empty());
    assert(Seq::<char>::empty() + piece.text =~= piece.text);
    if second.len() == 0 {
        assert(first + second =~= first);
        assert(plain_words(first) + Seq::<char>::empty() =~= plain_words(first));
    } else {
        words_run_on(first, second.drop_last(), piece);
        assert((first + second).drop_last() =~= first + second.drop_last());
        assert((first + second).last() == second.last());
        assert(plain_words(first + second) =~= plain_words(first) + plain_words(second));
    }
}

} // verus!
