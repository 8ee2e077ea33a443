use vstd::prelude::*;

verus! {

/// One structural event of a parsed Markdown document.
///
/// Events come in a linear, well-nested sequence: every start of a region is
/// followed, possibly after nested events, by its matching end. The translator
/// does not depend on that nesting; it maps each event to its markup fragment
/// in the order given. Kinds outside the mapping table (block quotes, tables,
/// hard line breaks, ...) all appear as `Other` and emit nothing.
#[derive(Debug)]
pub enum MdEvent {
    /// Start of a heading at the given level; level 1 is a top-level heading.
    HeadingStart(u8),
    /// End of a heading.
    HeadingEnd,
    /// Start of an emphasis span.
    EmphasisStart,
    /// End of an emphasis span.
    EmphasisEnd,
    /// Start of a strong-emphasis span.
    StrongStart,
    /// End of a strong-emphasis span.
    StrongEnd,
    /// Start of an unordered (bulleted) list.
    UnorderedListStart,
    /// End of an unordered list.
    UnorderedListEnd,
    /// Start of an ordered (numbered) list.
    OrderedListStart,
    /// End of an ordered list.
    OrderedListEnd,
    /// Start of a list item.
    ItemStart,
    /// End of a list item.
    ItemEnd,
    /// Start of a link region; the field is the destination URL.
    LinkStart(String),
    /// End of a link region.
    LinkEnd,
    /// An image, with the path to the picture and its caption text.
    ImageStart { path: String, caption: String },
    /// Start of a code block; the field is the language tag, empty when the
    /// block carries none.
    CodeBlockStart(String),
    /// End of a code block.
    CodeBlockEnd,
    /// A leaf unit of literal text, copied into the output verbatim.
    Text(String),
    /// A soft line break.
    SoftBreak,
    /// Any event kind outside the mapping table; it maps to no fragment.
    Other,
}

} // verus!
