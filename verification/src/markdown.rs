use vstd::prelude::*;

use pulldown_cmark::{Event, Parser, Tag};

verus! {

/// The kinds of Markdown parser events that matter to find escaped text.
#[derive(Clone, Copy, Debug, PartialEq, Eq, Structural)]
pub enum MarkdownEventKind {
    /// The start of a code block.
    StartCodeBlock,
    /// The start of a link.
    StartLink,
    /// The start of an image.
    StartImage,
    /// The start of any other element.
    StartOther,
    /// The end of an element.
    End,
    /// Inline code.
    Code,
    /// A text node.
    Text,
    /// Any other event.
    Other,
}

/// A Markdown parser event with the byte range of the source that it covers.
#[derive(Clone, Copy, Debug, PartialEq, Eq, Structural)]
pub struct MarkdownEvent {
    pub kind: MarkdownEventKind,
    pub start: usize,
    pub end: usize,
}

/// The events, with their source ranges, that the CommonMark parser of
/// `pulldown_cmark` produces for a text, with the default options.
pub uninterp spec fn markdown_events(text: Seq<char>) -> Seq<MarkdownEvent>;

/// `pulldown_cmark::Parser::new(text).into_offset_iter()`: the events that the
/// parser produces for the text with the default options, each with its byte
/// range in the text. The contract only names the result.
#[verifier::external_body]
fn parse_markdown_events(text: &str) -> (res: Vec<MarkdownEvent>)
    ensures
        res@ == markdown_events(text@),
{
    let mut res = Vec::new();
    for (event, range) in Parser::new(text).into_offset_iter() {
        let kind = match event {
            Event::Start(Tag::CodeBlock(_)) => MarkdownEventKind::StartCodeBlock,
            Event::Start(Tag::Link { .. }) => MarkdownEventKind::StartLink,
            Event::Start(Tag::Image { .. }) => MarkdownEventKind::StartImage,
            Event::Start(_) => MarkdownEventKind::StartOther,
            Event::End(_) => MarkdownEventKind::End,
            Event::Code(_) => MarkdownEventKind::Code,
            Event::Text(_) => MarkdownEventKind::Text,
            _ => MarkdownEventKind::Other,
        };
        res.push(MarkdownEvent { kind, start: range.start, end: range.end });
    }
    res
}

/// Whether an event's range contains the byte index.
pub open spec fn range_contains(e: MarkdownEvent, index: int) -> bool {
    e.start <= index < e.end
}

/// Walk the events from `i`, `in_escaped_tag` telling whether the last start
/// tag was a code block, a link or an image: inline code that contains the
/// word start, or text inside an escaped tag that contains it, makes the word
/// escaped. The walk stops after the first event that ends at or before the
/// word end.
pub open spec fn escaped_from(
    events: Seq<MarkdownEvent>,
    i: int,
    in_escaped_tag: bool,
    word_start_index: int,
    word_end_index: int,
) -> bool
    decreases events.len() - i,
{
    if i < 0 || i >= events.len() {
        false
    } else {
        let e = events[i];
        let in_tag = match e.kind {
            MarkdownEventKind::StartCodeBlock => true,
            MarkdownEventKind::StartLink => true,
            MarkdownEventKind::StartImage => true,
            MarkdownEventKind::StartOther => false,
            MarkdownEventKind::End => false,
            _ => in_escaped_tag,
        };
        if e.kind == MarkdownEventKind::Code && range_contains(e, word_start_index) {
            true
        } else if e.kind == MarkdownEventKind::Text && in_tag && range_contains(e, word_start_index) {
            true
        } else if e.end <= word_end_index {
            false
        } else {
            escaped_from(events, i + 1, in_tag, word_start_index, word_end_index)
        }
    }
}

/// Whether the word between the given byte indexes is in Markdown that would
/// be escaped, according to the given parser events.
pub fn escaped_in_events(
    events: &Vec<MarkdownEvent>,
    word_start_index: usize,
    word_end_index: usize,
) -> (res: bool)
    ensures
        res == escaped_from(events@, 0, false, word_start_index as int, word_end_index as int),
{
    let n = events.len();
    let mut i: usize = 0;
    let mut in_escaped_tag = false;
    while i < n
        invariant
            n == events@.len(),
            0 <= i <= n,
            escaped_from(events@, 0, false, word_start_index as int, word_end_index as int)
                == escaped_from(
                events@,
                i as int,
                in_escaped_tag,
                word_start_index as int,
                word_end_index as int,
            ),
        decreases n - i,
    {
        let e = events[i];
        in_escaped_tag = match e.kind {
            MarkdownEventKind::StartCodeBlock => true,
            MarkdownEventKind::StartLink => true,
            MarkdownEventKind::StartImage => true,
            MarkdownEventKind::StartOther => false,
            MarkdownEventKind::End => false,
            _ => in_escaped_tag,
        };
        let contains = e.start <= word_start_index && word_start_index < e.end;
        if e.kind == MarkdownEventKind::Code && contains {
            return true;
        }
        if e.kind == MarkdownEventKind::Text && in_escaped_tag && contains {
            return true;
        }
        if e.end <= word_end_index {
            return false;
        }
        i = i + 1;
    }
    false
}

/// Whether the word between the character offsets `word_start` and `word_end`
/// of `text` is in Markdown that would be escaped: inline code, a code block,
/// a link or an image.
///
/// A word at the start or at the end of the text cannot be escaped; otherwise
/// the character offsets are turned into byte indexes and the parser events of
/// the text are walked.
pub open spec fn spec_in_escaped_markdown(text: Seq<char>, word_start: int, word_end: int) -> bool {
    if word_start == 0 || word_end == text.len() {
        false
    } else {
        escaped_from(
            markdown_events(text),
            0,
            false,
            crate::text::byte_index(text, word_start),
            crate::text::byte_index(text, word_end),
        )
    }
}

/// Whether the word between the character offsets `word_start` and
/// `word_end` of `text` is in Markdown that would be escaped.
pub fn in_escaped_markdown(text: &str, chars: &[char], word_start: usize, word_end: usize) -> (res: bool)
    requires
        chars@ == text@,
        word_start <= word_end <= chars@.len(),
        4 * chars@.len() <= usize::MAX,
    ensures
        res == spec_in_escaped_markdown(text@, word_start as int, word_end as int),
{
    if word_start == 0 || word_end == chars.len() {
        return false;
    }
    let start_index = crate::text::char_to_byte_index(chars, word_start);
    let end_index = crate::text::char_to_byte_index(chars, word_end);
    let events = parse_markdown_events(text);
    escaped_in_events(&events, start_index, end_index)
}

} // verus!
