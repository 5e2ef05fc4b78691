//! Decoding of raw command output into styled text.
//!
//! Bytes that are not valid UTF-8 are dropped, the valid pieces are joined in
//! their order, and the SGR escape sequences in the joined text become span
//! styles. Decoding never fails.

use vstd::prelude::*;
use vstd::string::StringExecFns;
use vstd::utf8::{decode_utf8, valid_utf8};
use ansi_to_tui::IntoText;
use crate::text::{
    all_plain, lemma_unstyled_is_plain, lemma_unstyled_is_the_text_without_breaks, text_chars,
    unstyled, without_breaks, SpanView, StyledLine, StyledSpan, StyledText, TextStyle,
};

verus! {

/// The valid UTF-8 pieces of `bytes`, in their order, as
/// `<[u8]>::utf8_chunks` of std yields them.
pub uninterp spec fn utf8_valid_chunks(bytes: Seq<u8>) -> Seq<Seq<char>>;

/// What `ansi_to_tui` makes of `text`: its lines of styled spans, or `None`
/// where it reports an error.
pub uninterp spec fn ansi_styled(text: Seq<char>) -> Option<Seq<Seq<SpanView>>>;

/// The pieces taken as sequences of characters.
pub open spec fn chunk_texts(chunks: Seq<String>) -> Seq<Seq<char>> {
    chunks.map_values(|chunk: String| chunk@)
}

/// The pieces one after the other.
pub open spec fn joined(chunks: Seq<Seq<char>>) -> Seq<char>
    decreases chunks.len(),
{
    if chunks.len() == 0 {
        Seq::empty()
    } else {
        joined(chunks.drop_last()) + chunks.last()
    }
}

/// The value of an optional text.
pub open spec fn parsed_view(parsed: Option<StyledText>) -> Option<Seq<Seq<SpanView>>> {
    match parsed {
        Some(text) => Some(text@),
        None => None,
    }
}

/// Calls `<[u8]>::utf8_chunks` and keeps the valid part of each chunk. The
/// contract names what std yields, for which bytes count as broken is std's
/// matter, and states the one case that needs no such knowledge: the
/// chunks are the valid ranges of the slice with the broken fragments
/// between them left out, so where the whole slice is valid UTF-8 they
/// hold all of its text.
#[verifier::external_body]
fn valid_chunks(data: &[u8]) -> (chunks: Vec<String>)
    ensures
        chunk_texts(chunks@) == utf8_valid_chunks(data@),
        valid_utf8(data@) ==> joined(chunk_texts(chunks@)) == decode_utf8(data@),
{
    data.utf8_chunks().map(|chunk| chunk.valid().to_owned()).collect()
}

/// No character of `text` starts an escape sequence, and none is a
/// carriage return.
pub open spec fn escape_free(text: Seq<char>) -> bool {
    forall|at: int| 0 <= at < text.len() ==> text[at] != '\u{1b}' && text[at] != '\r'
}

/// Calls `ansi_to_tui::IntoText::into_text` on `text` and copies the lines,
/// spans, contents and styles of the `Text` it returns. The parser leaves the
/// style and alignment of the text and of each line at their defaults, so
/// nothing else is there to copy.
///
/// The contract names the result, and states the one case in which the
/// parser has no escape sequence to read. It ends a line at a line feed or
/// a carriage return, makes one span of the characters up to the next
/// escape character or the line's end, drops a span without characters,
/// and starts with the style that sets nothing. So a text without escape
/// characters and carriage returns comes back as its lines, each one plain
/// span or none.
#[verifier::external_body]
fn parse_ansi(text: &str) -> (parsed: Option<StyledText>)
    ensures
        parsed_view(parsed) == ansi_styled(text@),
        escape_free(text@) ==> parsed_view(parsed) == Some(unstyled(text@)),
{
    let parsed = text.into_text().ok()?;
    let lines = parsed.lines.into_iter().map(|line| StyledLine {
        spans: line.spans.into_iter().map(|span| StyledSpan {
            content: span.content.into_owned(),
            style: TextStyle {
                fg: span.style.fg,
                bg: span.style.bg,
                underline_color: span.style.underline_color,
                add_modifier: span.style.add_modifier.bits(),
                sub_modifier: span.style.sub_modifier.bits(),
            },
        }).collect(),
    }).collect();
    Some(StyledText { lines })
}

/// Joins the pieces in their order; empty pieces add nothing.
pub fn join_chunks(chunks: &Vec<String>) -> (text: String)
    ensures
        text@ == joined(chunk_texts(chunks@)),
{
    let mut text = String::new();
    let mut i: usize = 0;
    while i < chunks.len()
        invariant
            i <= chunks.len(),
            text@ == joined(chunk_texts(chunks@).take(i as int)),
        decreases chunks.len() - i,
    {
        proof {
            let next = chunk_texts(chunks@).take(i + 1);
            assert(next.drop_last() =~= chunk_texts(chunks@).take(i as int));
            assert(next.last() == chunks@[i as int]@);
        }
        if chunks[i].as_str().unicode_len() != 0 {
            text.append(chunks[i].as_str());
        } else {
            assert(text@ + chunks@[i as int]@ =~= text@);
        }
        i += 1;
    }
    assert(chunk_texts(chunks@).take(i as int) =~= chunk_texts(chunks@));
    text
}

/// The text that survives in `bytes`: its valid pieces, joined.
pub open spec fn valid_text(bytes: Seq<u8>) -> Seq<char> {
    joined(utf8_valid_chunks(bytes))
}

/// The styled text for `text`, given what the parser made of it: the
/// parser's lines, or the unstyled lines of `text` where it gave none.
pub open spec fn styled_or_plain(parsed: Option<Seq<Seq<SpanView>>>, text: Seq<char>) -> Seq<
    Seq<SpanView>,
> {
    match parsed {
        Some(lines) => lines,
        None => unstyled(text),
    }
}

/// What `bytes` decode to.
pub open spec fn decoded(bytes: Seq<u8>) -> Seq<Seq<SpanView>> {
    styled_or_plain(ansi_styled(valid_text(bytes)), valid_text(bytes))
}

/// Settles on the styled text for `text` once the parser has answered: a
/// parse is taken as it is, and a text that the parser gave up on is shown
/// without styles rather than lost.
pub fn text_or_unstyled(parsed: Option<StyledText>, text: &str) -> (styled: StyledText)
    ensures
        styled@ == styled_or_plain(parsed_view(parsed), text@),
{
    match parsed {
        Some(lines) => lines,
        None => StyledText::unstyled(text),
    }
}

/// Decodes raw command output. Invalid bytes are dropped and the valid
/// pieces joined; escape sequences become styles, line breaks line
/// boundaries. Every input decodes to some text, and of an input that is
/// valid UTF-8 throughout no character is dropped before the escape
/// sequences are read. Plain text comes back as it went in: where the
/// input is valid UTF-8 without escape characters and carriage returns,
/// the result is its lines, every span plain, and the characters of the
/// result read in order are those of the input without its line feeds.
pub fn text_from_ansi_bytes(data: &[u8]) -> (text: StyledText)
    ensures
        text@ == decoded(data@),
        valid_utf8(data@) ==> text@ == styled_or_plain(
            ansi_styled(decode_utf8(data@)),
            decode_utf8(data@),
        ),
        valid_utf8(data@) && escape_free(decode_utf8(data@)) ==> {
            &&& text@ == unstyled(decode_utf8(data@))
            &&& text_chars(text@) == without_breaks(decode_utf8(data@))
            &&& all_plain(text@)
        },
{
    let chunks = valid_chunks(data);
    let string = join_chunks(&chunks);
    let parsed = parse_ansi(string.as_str());
    proof {
        lemma_unstyled_is_the_text_without_breaks(string@);
        lemma_unstyled_is_plain(string@);
    }
    text_or_unstyled(parsed, string.as_str())
}

} // verus!
