use vstd::prelude::*;
use crate::events::MdEvent;
use pulldown_cmark::{CodeBlockKind, Event, Parser, Tag};

verus! {

/// The event sequence that the Markdown parser yields for the given text.
/// The parser reads nothing but the text, so the sequence is a function of the
/// text alone; the translation's contracts are exact in terms of it.
pub uninterp spec fn parsed_events(text: Seq<char>) -> Seq<MdEvent>;

#[verifier::external_type_specification]
#[verifier::external_body]
pub struct ExTag<'a>(Tag<'a>);

/// Relies on pulldown_cmark::Tag: turns the start of a tagged region into the
/// matching event, field for field; tags outside the mapping table become
/// `Other`. An indented code block carries no language tag.
#[verifier::external_body]
fn start_event(t: Tag<'_>) -> MdEvent {
    match t {
        Tag::Heading(level, _, _) => MdEvent::HeadingStart(level as u8),
        Tag::Emphasis => MdEvent::EmphasisStart,
        Tag::Strong => MdEvent::StrongStart,
        Tag::List(None) => MdEvent::UnorderedListStart,
        Tag::List(Some(_)) => MdEvent::OrderedListStart,
        Tag::Item => MdEvent::ItemStart,
        Tag::Link(_, url, _) => MdEvent::LinkStart(url.into_string()),
        Tag::Image(_, path, title) => MdEvent::ImageStart { path: path.into_string(), caption: title.into_string() },
        Tag::CodeBlock(CodeBlockKind::Fenced(lang)) => MdEvent::CodeBlockStart(lang.into_string()),
        Tag::CodeBlock(CodeBlockKind::Indented) => MdEvent::CodeBlockStart(String::new()),
        _ => MdEvent::Other,
    }
}

/// Relies on pulldown_cmark::Tag: turns the end of a tagged region into the
/// matching event. The end of an image region is outside the mapping table —
/// the whole figure is emitted at the start — so it becomes `Other`, as does
/// every other unmapped tag.
#[verifier::external_body]
fn end_event(t: Tag<'_>) -> MdEvent {
    match t {
        Tag::Heading(_, _, _) => MdEvent::HeadingEnd,
        Tag::Emphasis => MdEvent::EmphasisEnd,
        Tag::Strong => MdEvent::StrongEnd,
        Tag::List(None) => MdEvent::UnorderedListEnd,
        Tag::List(Some(_)) => MdEvent::OrderedListEnd,
        Tag::Item => MdEvent::ItemEnd,
        Tag::Link(_, _, _) => MdEvent::LinkEnd,
        Tag::CodeBlock(_) => MdEvent::CodeBlockEnd,
        _ => MdEvent::Other,
    }
}

/// Relies on pulldown_cmark::Parser: parses the text into its event sequence,
/// in document order. The parser is deterministic — it reads only the text —
/// so the result is `parsed_events` of the text.
#[verifier::external_body]
pub(crate) fn parse_markdown(text: &str) -> (r: Vec<MdEvent>)
    ensures
        r@ == parsed_events(text@),
{
    let mut out = Vec::new();
    for ev in Parser::new(text) {
        out.push(match ev {
            Event::Start(t) => start_event(t),
            Event::End(t) => end_event(t),
            Event::Text(t) => MdEvent::Text(t.into_string()),
            Event::SoftBreak => MdEvent::SoftBreak,
            _ => MdEvent::Other,
        });
    }
    out
}

} // verus!
