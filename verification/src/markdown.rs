//! The structural markdown parse behind the statistics engine.
//!
//! The parse itself is done by an outside CommonMark parser; this module
//! reduces its event stream to the closed set of start events the statistics
//! engine tallies, and gives that stream a name the contracts can speak of.

use pulldown_cmark::{Event, Options, Parser, Tag};
use vstd::prelude::*;

verus! {

/// A structural signal from the markdown parse: the start of a construct the
/// statistics engine counts, or anything else.
#[derive(Debug, Clone, Copy, PartialEq, Eq, Structural)]
pub enum MarkdownEvent {
    /// A heading starts.
    HeadingStart,
    /// A fenced or indented code block starts.
    CodeBlockStart,
    /// A link starts.
    LinkStart,
    /// An image starts.
    ImageStart,
    /// A list starts (once per list, not per item).
    ListStart,
    /// A table starts (once per table, not per row or cell).
    TableStart,
    /// Any other event.
    Other,
}

/// The stream of structural events that parsing markdown text with the
/// task-list, strikethrough and table extensions yields. The parse is total:
/// malformed constructs match no known start event and appear as
/// [`MarkdownEvent::Other`].
pub uninterp spec fn markdown_events(s: Seq<char>) -> Seq<MarkdownEvent>;

/// Relies on `pulldown_cmark::Parser::new_ext`: parsing CommonMark with the
/// task-list, strikethrough and table extensions never fails, and the event
/// stream is a function of the text alone.
#[verifier::external_body]
pub(crate) fn parse_markdown_events(content: &str) -> (events: Vec<MarkdownEvent>)
    ensures
        events@ == markdown_events(content@),
{
    let options = Options::ENABLE_TASKLISTS | Options::ENABLE_STRIKETHROUGH
        | Options::ENABLE_TABLES;
    Parser::new_ext(content, options).map(|event| match event {
        Event::Start(Tag::Heading { .. }) => MarkdownEvent::HeadingStart,
        Event::Start(Tag::CodeBlock(_)) => MarkdownEvent::CodeBlockStart,
        Event::Start(Tag::Link { .. }) => MarkdownEvent::LinkStart,
        Event::Start(Tag::Image { .. }) => MarkdownEvent::ImageStart,
        Event::Start(Tag::List(_)) => MarkdownEvent::ListStart,
        Event::Start(Tag::Table(_)) => MarkdownEvent::TableStart,
        _ => MarkdownEvent::Other,
    }).collect()
}

/// The number of occurrences of `kind` among the first `n` events.
pub open spec fn count_events_upto(events: Seq<MarkdownEvent>, kind: MarkdownEvent, n: int) -> nat
    decreases n,
{
    if n <= 0 {
        0
    } else {
        count_events_upto(events, kind, n - 1) + (if events[n - 1] == kind {
            1nat
        } else {
            0nat
        })
    }
}

/// The number of occurrences of `kind` in an event stream.
pub open spec fn count_events(events: Seq<MarkdownEvent>, kind: MarkdownEvent) -> nat {
    count_events_upto(events, kind, events.len() as int)
}

/// Count the events of one kind in a parsed stream.
pub fn count_kind(events: &Vec<MarkdownEvent>, kind: MarkdownEvent) -> (n: usize)
    ensures
        n as nat == count_events(events@, kind),
{
    let mut n: usize = 0;
    let mut i: usize = 0;
    while i < events.len()
        invariant
            i <= events@.len(),
            n <= i,
            n as nat == count_events_upto(events@, kind, i as int),
        decreases events@.len() - i,
    {
        if events[i] == kind {
            n = n + 1;
        }
        i = i + 1;
    }
    n
}

} // verus!
