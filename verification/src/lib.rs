use vstd::prelude::*;

pub mod events;
pub mod latex;
pub mod parse;
pub mod translate;

pub use events::MdEvent;
pub use latex::LATEX_FOOTER;
pub use latex::LATEX_HEADER;
pub use translate::translate_events;

verus! {

/// Converts a Markdown text into a complete LaTeX document string: the fixed
/// header, then the markup fragment of each event the parser yields for the
/// text, in order, then the fixed footer. The conversion is total and returns
/// the identical string on every run over the same input.
pub fn markdown_to_latex(markdown: String) -> (r: String)
    ensures
        r@ == latex::latex_of(parse::parsed_events(markdown@)),
{
    let events = parse::parse_markdown(markdown.as_str());
    translate::translate_events(&events)
}

} // verus!
