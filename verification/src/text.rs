//! Styled text: lines of spans, each span a run of characters with one style.
//!
//! The types here are independent of any rendering backend. Contracts speak of
//! them through their views: a span is seen as a [`SpanView`], a line as a
//! sequence of span views, a text as a sequence of lines.

use vstd::prelude::*;
use vstd::string::StringExecFns;
use ratatui::style::Color;

verus! {

/// A terminal colour, as `ratatui` has it. The library carries colours
/// through and never looks inside one.
#[verifier::external_type_specification]
#[verifier::external_body]
pub struct ExColor(ratatui::style::Color);

/// What a span looks like: colours that are set, and the attribute bits that
/// the span switches on and off.
#[derive(Clone, Copy, Debug, PartialEq, Eq)]
pub struct TextStyle {
    pub fg: Option<Color>,
    pub bg: Option<Color>,
    pub underline_color: Option<Color>,
    pub add_modifier: u16,
    pub sub_modifier: u16,
}

impl TextStyle {
    /// The style that changes nothing.
    pub open spec fn plain_spec() -> TextStyle {
        TextStyle { fg: None, bg: None, underline_color: None, add_modifier: 0, sub_modifier: 0 }
    }

    /// The style that changes nothing.
    pub fn plain() -> (style: TextStyle)
        ensures
            style == TextStyle::plain_spec(),
    {
        TextStyle { fg: None, bg: None, underline_color: None, add_modifier: 0, sub_modifier: 0 }
    }
}

/// The mathematical value of a span.
pub struct SpanView {
    pub content: Seq<char>,
    pub style: TextStyle,
}

/// A run of characters that share one style.
#[derive(Debug, PartialEq, Eq)]
pub struct StyledSpan {
    pub content: String,
    pub style: TextStyle,
}

impl View for StyledSpan {
    type V = SpanView;

    open spec fn view(&self) -> SpanView {
        SpanView { content: self.content@, style: self.style }
    }
}

impl StyledSpan {
    /// A span of `content` in the plain style.
    pub fn raw(content: &str) -> (span: StyledSpan)
        ensures
            span@ == raw_span(content@),
    {
        StyledSpan { content: String::from_str(content), style: TextStyle::plain() }
    }
}

impl Clone for StyledSpan {
    fn clone(&self) -> (copy: StyledSpan)
        ensures
            copy@ == self@,
    {
        StyledSpan { content: self.content.clone(), style: self.style }
    }
}

/// The value of a span of `content` in the plain style.
pub open spec fn raw_span(content: Seq<char>) -> SpanView {
    SpanView { content, style: TextStyle::plain_spec() }
}

/// The characters of a line, styles set aside.
pub open spec fn line_chars(line: Seq<SpanView>) -> Seq<char>
    decreases line.len(),
{
    if line.len() == 0 {
        Seq::empty()
    } else {
        line_chars(line.drop_last()) + line.last().content
    }
}

/// One line of styled text.
#[derive(Debug, PartialEq, Eq)]
pub struct StyledLine {
    pub spans: Vec<StyledSpan>,
}

impl View for StyledLine {
    type V = Seq<SpanView>;

    open spec fn view(&self) -> Seq<SpanView> {
        self.spans@.map_values(|span: StyledSpan| span@)
    }
}

impl StyledLine {
    /// A line of one plain span, or of no span where `content` is empty.
    pub fn raw(content: &str) -> (line: StyledLine)
        ensures
            line@ == raw_line(content@),
    {
        let mut spans: Vec<StyledSpan> = Vec::new();
        if content.unicode_len() != 0 {
            spans.push(StyledSpan::raw(content));
        }
        let line = StyledLine { spans };
        assert(line@ =~= raw_line(content@));
        line
    }

    /// The characters of the line, styles set aside.
    pub fn plain_text(&self) -> (chars: String)
        ensures
            chars@ == line_chars(self@),
    {
        let mut chars = String::new();
        let mut i: usize = 0;
        while i < self.spans.len()
            invariant
                i <= self.spans.len(),
                chars@ == line_chars(self@.take(i as int)),
            decreases self.spans.len() - i,
        {
            proof {
                let next = self@.take(i + 1);
                assert(next.drop_last() =~= self@.take(i as int));
                assert(next.last() == self.spans@[i as int]@);
            }
            chars.append(self.spans[i].content.as_str());
            i += 1;
        }
        assert(self@.take(i as int) =~= self@);
        chars
    }
}

impl Clone for StyledLine {
    fn clone(&self) -> (copy: StyledLine)
        ensures
            copy@ == self@,
    {
        let mut spans: Vec<StyledSpan> = Vec::new();
        let mut i: usize = 0;
        while i < self.spans.len()
            invariant
                i <= self.spans.len(),
                spans@.len() == i,
                forall|j: int| 0 <= j < i ==> (#[trigger] spans@[j])@ == self.spans@[j]@,
            decreases self.spans.len() - i,
        {
            spans.push(self.spans[i].clone());
            i += 1;
        }
        let copy = StyledLine { spans };
        assert(copy@ =~= self@);
        copy
    }
}

/// The value of a line of one plain span, or of no span where `content` is empty.
pub open spec fn raw_line(content: Seq<char>) -> Seq<SpanView> {
    if content.len() == 0 {
        Seq::empty()
    } else {
        seq![raw_span(content)]
    }
}

/// Styled text: an ordered sequence of lines.
#[derive(Debug, PartialEq, Eq)]
pub struct StyledText {
    pub lines: Vec<StyledLine>,
}

impl View for StyledText {
    type V = Seq<Seq<SpanView>>;

    open spec fn view(&self) -> Seq<Seq<SpanView>> {
        self.lines@.map_values(|line: StyledLine| line@)
    }
}

impl StyledText {
    /// The text without any line.
    pub fn empty() -> (text: StyledText)
        ensures
            text@ == Seq::<Seq<SpanView>>::empty(),
    {
        let text = StyledText { lines: Vec::new() };
        assert(text@ =~= Seq::<Seq<SpanView>>::empty());
        text
    }

    /// How many lines the text has.
    pub fn line_count(&self) -> (count: usize)
        ensures
            count == self@.len(),
    {
        self.lines.len()
    }

    /// The lines from index `from` up to, not including, index `to`.
    pub fn window(&self, from: usize, to: usize) -> (part: StyledText)
        requires
            from <= to <= self@.len(),
        ensures
            part@ == self@.subrange(from as int, to as int),
    {
        let mut lines: Vec<StyledLine> = Vec::new();
        let mut i: usize = from;
        while i < to
            invariant
                from <= i <= to <= self.lines.len(),
                lines@.len() == i - from,
                forall|j: int| 0 <= j < i - from ==> (#[trigger] lines@[j])@ == self.lines@[from + j]@,
            decreases to - i,
        {
            lines.push(self.lines[i].clone());
            i += 1;
        }
        let part = StyledText { lines };
        assert(part@ =~= self@.subrange(from as int, to as int));
        part
    }
}

/// Where the first line feed of `text` stands, or the length of `text`
/// where it has none.
pub open spec fn first_break(text: Seq<char>) -> nat
    decreases text.len(),
{
    if text.len() == 0 || text[0] == '\n' {
        0
    } else {
        1 + first_break(text.drop_first())
    }
}

/// The lines of `text`: a line feed ends a line, and what follows the last
/// line feed is a line of its own unless nothing follows it. The empty text
/// is one empty line.
pub open spec fn plain_lines(text: Seq<char>) -> Seq<Seq<char>>
    decreases text.len(),
{
    let end = first_break(text) as int;
    if end + 1 >= text.len() {
        seq![text.take(end)]
    } else {
        seq![text.take(end)] + plain_lines(text.skip(end + 1))
    }
}

/// The lines of `text`, each as a plain line.
pub open spec fn unstyled(text: Seq<char>) -> Seq<Seq<SpanView>> {
    plain_lines(text).map_values(|line: Seq<char>| raw_line(line))
}

/// `first_break` finds the first line feed.
pub proof fn lemma_first_break(text: Seq<char>)
    ensures
        first_break(text) <= text.len(),
        forall|k: int| 0 <= k < first_break(text) ==> text[k] != '\n',
        first_break(text) < text.len() ==> text[first_break(text) as int] == '\n',
    decreases text.len(),
{
    if text.len() == 0 || text[0] == '\n' {
    } else {
        let rest = text.drop_first();
        lemma_first_break(rest);
        assert forall|k: int| 0 <= k < first_break(text) implies text[k] != '\n' by {
            if k > 0 {
                assert(text[k] == rest[k - 1]);
            }
        }
        let at = first_break(rest) as int;
        assert(at < rest.len() ==> text[at + 1] == rest[at]);
    }
}

/// A position before which no line feed stands, and which holds one or is
/// the end of `text`, is the first break.
pub proof fn lemma_first_break_at(text: Seq<char>, at: int)
    requires
        0 <= at <= text.len(),
        forall|k: int| 0 <= k < at ==> text[k] != '\n',
        at < text.len() ==> text[at] == '\n',
    ensures
        first_break(text) == at,
{
    lemma_first_break(text);
}

/// The lines one after the other, with a line feed between each two.
pub open spec fn joined_lines(lines: Seq<Seq<char>>) -> Seq<char>
    decreases lines.len(),
{
    if lines.len() == 0 {
        Seq::empty()
    } else if lines.len() == 1 {
        lines[0]
    } else {
        lines[0] + seq!['\n'] + joined_lines(lines.drop_first())
    }
}

/// `text` without the line feed at its very end, if it has one there.
pub open spec fn without_final_break(text: Seq<char>) -> Seq<char> {
    if text.len() > 0 && text.last() == '\n' {
        text.drop_last()
    } else {
        text
    }
}

/// Splitting a text into its lines loses nothing but a line feed at its
/// very end: the lines, joined by line feeds, are the text again. No line
/// holds a line feed, and there is always at least one line.
pub proof fn lemma_plain_lines_keep_the_text(text: Seq<char>)
    ensures
        plain_lines(text).len() >= 1,
        joined_lines(plain_lines(text)) == without_final_break(text),
        forall|line: int, at: int|
            0 <= line < plain_lines(text).len() && 0 <= at < plain_lines(text)[line].len()
                ==> plain_lines(text)[line][at] != '\n',
    decreases text.len(),
{
    lemma_first_break(text);
    let end = first_break(text) as int;
    let head = text.take(end);
    if end + 1 >= text.len() {
        assert(plain_lines(text) =~= seq![head]);
        if end == text.len() {
            assert(head =~= text);
        } else {
            assert(head =~= text.drop_last());
        }
    } else {
        let rest = text.skip(end + 1);
        lemma_plain_lines_keep_the_text(rest);
        let lines = seq![head] + plain_lines(rest);
        assert(plain_lines(text) == lines);
        assert(lines.drop_first() =~= plain_lines(rest));
        assert(lines[0] == head);
        assert(rest.last() == text.last());
        if rest.last() == '\n' {
            assert(head + seq!['\n'] + rest.drop_last() =~= text.drop_last());
        } else {
            assert(head + seq!['\n'] + rest =~= text);
        }
        assert forall|line: int, at: int|
            0 <= line < lines.len() && 0 <= at < lines[line].len() implies lines[line][at]
            != '\n' by {
            if line > 0 {
                assert(lines[line] == plain_lines(rest)[line - 1]);
            }
        }
    }
}

/// A text shown without styles keeps its characters: each of its lines
/// reads as the line of the text that it stands for.
pub proof fn lemma_unstyled_keeps_the_characters(text: Seq<char>)
    ensures
        unstyled(text).len() == plain_lines(text).len(),
        forall|line: int|
            0 <= line < plain_lines(text).len() ==> line_chars(#[trigger] unstyled(text)[line])
                == plain_lines(text)[line],
        joined_lines(plain_lines(text)) == without_final_break(text),
{
    lemma_plain_lines_keep_the_text(text);
    assert forall|line: int| 0 <= line < plain_lines(text).len() implies line_chars(
        #[trigger] unstyled(text)[line],
    ) == plain_lines(text)[line] by {
        assert(unstyled(text)[line] == raw_line(plain_lines(text)[line]));
        lemma_raw_line_chars(plain_lines(text)[line]);
    }
}

/// Tells the characters that are no line feed.
pub open spec fn not_a_break() -> spec_fn(char) -> bool {
    |letter: char| letter != '\n'
}

/// `text` with every line feed taken out.
pub open spec fn without_breaks(text: Seq<char>) -> Seq<char> {
    text.filter(not_a_break())
}

/// The characters of all lines, line after line, styles set aside.
pub open spec fn text_chars(lines: Seq<Seq<SpanView>>) -> Seq<char>
    decreases lines.len(),
{
    if lines.len() == 0 {
        Seq::empty()
    } else {
        line_chars(lines[0]) + text_chars(lines.drop_first())
    }
}

/// Every span of every line has the plain style.
pub open spec fn all_plain(lines: Seq<Seq<SpanView>>) -> bool {
    forall|line: int, span: int|
        0 <= line < lines.len() && 0 <= span < lines[line].len() ==> (#[trigger] lines[line][span]).style
            == TextStyle::plain_spec()
}

/// A plain line reads as the characters that it was made of.
pub proof fn lemma_raw_line_chars(chars: Seq<char>)
    ensures
        line_chars(raw_line(chars)) == chars,
{
    let styled = raw_line(chars);
    if chars.len() == 0 {
        assert(line_chars(styled) =~= chars);
    } else {
        assert(styled.drop_last() =~= Seq::<SpanView>::empty());
        assert(line_chars(styled.drop_last()) =~= Seq::<char>::empty());
        assert(line_chars(styled) =~= chars);
    }
}

/// Taking the line feeds out of a text that has none leaves it as it is.
proof fn lemma_nothing_to_take_out(text: Seq<char>)
    requires
        forall|at: int| 0 <= at < text.len() ==> text[at] != '\n',
    ensures
        without_breaks(text) == text,
    decreases text.len(),
{
    reveal(Seq::filter);
    if text.len() > 0 {
        lemma_nothing_to_take_out(text.drop_last());
        assert(text.drop_last().push(text.last()) =~= text);
    }
}

/// The characters of a first line and of the lines after it.
proof fn lemma_text_chars_of_first_and_rest(first: Seq<SpanView>, rest: Seq<Seq<SpanView>>)
    ensures
        text_chars(seq![first] + rest) == line_chars(first) + text_chars(rest),
{
    let lines = seq![first] + rest;
    assert(lines[0] == first);
    assert(lines.drop_first() =~= rest);
}

/// Taking the line feeds out of a single line feed leaves nothing.
proof fn lemma_a_break_is_taken_out()
    ensures
        without_breaks(seq!['\n']) == Seq::<char>::empty(),
{
    reveal_with_fuel(Seq::filter, 2);
    let feed = seq!['\n'];
    assert(feed.drop_last() =~= Seq::<char>::empty());
    assert(feed.last() == '\n');
}

/// The unstyled lines of a text are its first line and, where more
/// follows the first line feed, the unstyled lines of what follows.
proof fn lemma_unstyled_unfolds(text: Seq<char>)
    ensures
        first_break(text) + 1 >= text.len() ==> unstyled(text) == seq![
            raw_line(text.take(first_break(text) as int)),
        ] + Seq::<Seq<SpanView>>::empty(),
        first_break(text) + 1 < text.len() ==> unstyled(text) == seq![
            raw_line(text.take(first_break(text) as int)),
        ] + unstyled(text.skip(first_break(text) as int + 1)),
{
    let end = first_break(text) as int;
    let head = text.take(end);
    if end + 1 >= text.len() {
        assert(unstyled(text) =~= seq![raw_line(head)] + Seq::<Seq<SpanView>>::empty());
    } else {
        assert(unstyled(text) =~= seq![raw_line(head)] + unstyled(text.skip(end + 1)));
    }
}

/// Every span of a text shown without styles is plain.
pub proof fn lemma_unstyled_is_plain(text: Seq<char>)
    ensures
        all_plain(unstyled(text)),
{
    assert forall|line: int, span: int|
        0 <= line < unstyled(text).len() && 0 <= span < unstyled(text)[line].len() implies (
    #[trigger] unstyled(text)[line][span]).style == TextStyle::plain_spec() by {
        assert(unstyled(text)[line] == raw_line(plain_lines(text)[line]));
    }
}

/// A text shown without styles keeps all of its characters but the line
/// feeds, in their order.
pub proof fn lemma_unstyled_is_the_text_without_breaks(text: Seq<char>)
    ensures
        text_chars(unstyled(text)) == without_breaks(text),
    decreases text.len(),
{
    lemma_first_break(text);
    lemma_unstyled_unfolds(text);
    lemma_a_break_is_taken_out();
    let end = first_break(text) as int;
    let head = text.take(end);
    let feed = seq!['\n'];
    lemma_raw_line_chars(head);
    lemma_nothing_to_take_out(head);
    if end + 1 >= text.len() {
        lemma_text_chars_of_first_and_rest(raw_line(head), Seq::<Seq<SpanView>>::empty());
        assert(text_chars(unstyled(text)) =~= head);
        if end == text.len() {
            assert(head =~= text);
        } else {
            assert(text =~= head + feed);
            Seq::filter_distributes_over_add(head, feed, not_a_break());
            assert(without_breaks(text) =~= head);
        }
    } else {
        let rest = text.skip(end + 1);
        lemma_unstyled_is_the_text_without_breaks(rest);
        lemma_text_chars_of_first_and_rest(raw_line(head), unstyled(rest));
        assert(text =~= (head + feed) + rest);
        Seq::filter_distributes_over_add(head + feed, rest, not_a_break());
        Seq::filter_distributes_over_add(head, feed, not_a_break());
        assert(without_breaks(text) =~= head + without_breaks(rest));
    }
}

impl StyledText {
    /// The lines of `text` without any style.
    pub fn unstyled(text: &str) -> (lines: StyledText)
        ensures
            lines@ == unstyled(text@),
    {
        let total = text.unicode_len();
        let mut lines: Vec<StyledLine> = Vec::new();
        let mut start: usize = 0;
        let mut i: usize = 0;
        let mut open_line = true;
        assert(text@.skip(0) =~= text@);
        assert(lines@.map_values(|line: StyledLine| line@) + unstyled(text@) =~= unstyled(text@));
        while i < total
            invariant
                total == text@.len(),
                start <= i <= total,
                open_line <==> (start < total || start == 0),
                forall|k: int| start <= k < i ==> text@[k] != '\n',
                open_line ==> unstyled(text@) == lines@.map_values(|line: StyledLine| line@)
                    + unstyled(text@.skip(start as int)),
                !open_line ==> unstyled(text@) == lines@.map_values(|line: StyledLine| line@),
            decreases total - i,
        {
            if text.get_char(i) == '\n' {
                let piece = text.substring_char(start, i);
                let ghost rest = text@.skip(start as int);
                proof {
                    lemma_first_break_at(rest, i - start);
                    assert(rest.take(i - start) =~= text@.subrange(start as int, i as int));
                    assert(rest.skip(i - start + 1) =~= text@.skip(i + 1));
                    if i + 1 < total {
                        assert(unstyled(rest) =~= seq![raw_line(piece@)] + unstyled(
                            text@.skip(i + 1),
                        ));
                    } else {
                        assert(unstyled(rest) =~= seq![raw_line(piece@)]);
                    }
                }
                let ghost before = lines@.map_values(|line: StyledLine| line@);
                lines.push(StyledLine::raw(piece));
                assert(lines@.map_values(|line: StyledLine| line@) =~= before + seq![
                    raw_line(piece@),
                ]);
                start = i + 1;
                open_line = start < total;
            }
            i += 1;
        }
        if open_line {
            let piece = text.substring_char(start, total);
            let ghost rest = text@.skip(start as int);
            proof {
                lemma_first_break_at(rest, total - start);
                assert(rest.take(total - start) =~= text@.subrange(start as int, total as int));
                assert(unstyled(rest) =~= seq![raw_line(piece@)]);
            }
            let ghost before = lines@.map_values(|line: StyledLine| line@);
            lines.push(StyledLine::raw(piece));
            assert(lines@.map_values(|line: StyledLine| line@) =~= before + seq![
                raw_line(piece@),
            ]);
        }
        StyledText { lines }
    }
}

impl Clone for StyledText {
    fn clone(&self) -> (copy: StyledText)
        ensures
            copy@ == self@,
    {
        let copy = self.window(0, self.lines.len());
        assert(self@.subrange(0, self@.len() as int) =~= self@);
        copy
    }
}

} // verus!
