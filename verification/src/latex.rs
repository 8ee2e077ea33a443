use vstd::prelude::*;
use crate::events::MdEvent;

verus! {

/// Fixed preamble that opens every generated document: document class, the
/// packages for graphics, hyperlinks, listings and color, the color and
/// listing-style declarations, and the opening of the document body.
pub const LATEX_HEADER: &'static str = "\\documentclass{scrartcl}\n\\usepackage{graphicx}\n\\usepackage{hyperref}\n\\usepackage{listings}\n\\usepackage{xcolor}\n\\definecolor{colKeys}{rgb}{0,0.5,0}\n\\definecolor{colIdentifier}{rgb}{0,0,0}\n\\definecolor{colComments}{rgb}{0,0.5,1}\n\\definecolor{colString}{rgb}{0.6,0.1,0.1}\n\\definecolor{colBackground}{rgb}{0.95,0.95,1}\n\\lstset{%configuration de listings\n   float=hbp,%\n   basicstyle=\\ttfamily\\small,%\n   %\n   identifierstyle=\\color{colIdentifier}, %\n   keywordstyle=\\color{colKeys}, %\n   stringstyle=\\color{colString}, %\n   commentstyle=\\color{colComments}\\textit, %\n   %\n   backgroundcolor=\\color{colBackground},%\n   %\n   columns=flexible, %\n   tabsize=2, %\n   frame=trbl, %\n   %frameround=tttt,%\n   extendedchars=true, %\n   showspaces=false, %\n   showstringspaces=false, %\n   numbers=left, %\n   numberstyle=\\tiny, %\n   breaklines=true, %\n   breakautoindent=true, %\n   captionpos=b,%\n   xrightmargin=0.2cm, %\n   xleftmargin=0.2cm\n}\n\\begin{document}\n";

/// Fixed closing marker appended after the document body.
pub const LATEX_FOOTER: &'static str = "\n\\end{document}\n";

/// The fixed header, as the sequence of characters it is made of.
pub open spec fn header_text() -> Seq<char> {
    LATEX_HEADER@
}

/// The fixed footer, as the sequence of characters it is made of.
pub open spec fn footer_text() -> Seq<char> {
    LATEX_FOOTER@
}

/// `n` copies of the heading nesting prefix `sub`, one after another.
pub open spec fn sub_prefixes(n: nat) -> Seq<char>
    decreases n,
{
    if n == 0 {
        Seq::empty()
    } else {
        sub_prefixes((n - 1) as nat) + "sub"@
    }
}

/// How many nesting prefixes a heading of the given level carries: one fewer
/// than the level. A level below one never comes out of a parser; it is mapped
/// as level one, so the translation stays total.
pub open spec fn nesting_count(level: u8) -> nat {
    if level >= 1 {
        (level - 1) as nat
    } else {
        0
    }
}

/// The opening fragment of a heading: a backslash, the nesting prefixes, then
/// the sectioning command opener.
pub open spec fn heading_open(level: u8) -> Seq<char> {
    "\\"@ + sub_prefixes(nesting_count(level)) + "section{"@
}

/// The opening fragment of a code block: with a nonempty language tag the tag
/// is named in a language clause; with an empty tag the clause is absent.
pub open spec fn code_block_open(lang: Seq<char>) -> Seq<char> {
    if lang.len() > 0 {
        "\\begin{lstlisting}[language="@ + lang + "]\n"@
    } else {
        "\\begin{lstlisting}\n"@
    }
}

/// The markup fragment a single event maps to. Literal text passes through
/// unescaped, as do link targets, image parameters and language tags; event
/// kinds outside the table map to the empty fragment.
pub open spec fn fragment_of(e: MdEvent) -> Seq<char> {
    match e {
        MdEvent::HeadingStart(level) => heading_open(level),
        MdEvent::HeadingEnd => "}\n"@,
        MdEvent::EmphasisStart => "\\emph{"@,
        MdEvent::EmphasisEnd => "}"@,
        MdEvent::StrongStart => "\\textbf{"@,
        MdEvent::StrongEnd => "}"@,
        MdEvent::UnorderedListStart => "\\begin{itemize}\n"@,
        MdEvent::UnorderedListEnd => "\\end{itemize}\n"@,
        MdEvent::OrderedListStart => "\\begin{enumerate}\n"@,
        MdEvent::OrderedListEnd => "\\end{enumerate}\n"@,
        MdEvent::ItemStart => "\\item "@,
        MdEvent::ItemEnd => "\n"@,
        MdEvent::LinkStart(url) => "\\href{"@ + url@ + "}{"@,
        MdEvent::LinkEnd => "}"@,
        MdEvent::ImageStart { path, caption } => "\\begin{figure}\n\\centering\n\\includegraphics[width=\\textwidth]{"@
            + path@ + "}\n\\caption{"@ + caption@ + "}\n\\end{figure}\n"@,
        MdEvent::CodeBlockStart(lang) => code_block_open(lang@),
        MdEvent::CodeBlockEnd => "\n\\end{lstlisting}\n"@,
        MdEvent::Text(t) => t@,
        MdEvent::SoftBreak => "\n"@,
        MdEvent::Other => Seq::empty(),
    }
}

/// The concatenation of each event's fragment, in sequence order.
pub open spec fn fragments_of(events: Seq<MdEvent>) -> Seq<char>
    decreases events.len(),
{
    if events.len() == 0 {
        Seq::empty()
    } else {
        fragment_of(events[0]) + fragments_of(events.drop_first())
    }
}

/// A whole document: the fixed header, the events' fragments in order, then
/// the fixed footer.
pub open spec fn latex_of(events: Seq<MdEvent>) -> Seq<char> {
    header_text() + fragments_of(events) + footer_text()
}

/// Mapping events fragment by fragment distributes over splitting the
/// sequence anywhere.
pub proof fn lemma_fragments_of_concat(a: Seq<MdEvent>, b: Seq<MdEvent>)
    ensures
        fragments_of(a + b) == fragments_of(a) + fragments_of(b),
    decreases a.len(),
{
    if a.len() == 0 {
        assert(a + b =~= b);
        assert(fragments_of(a) + fragments_of(b) =~= fragments_of(b));
    } else {
        assert((a + b).drop_first() =~= a.drop_first() + b);
        assert((a + b)[0] == a[0]);
        lemma_fragments_of_concat(a.drop_first(), b);
        assert(fragments_of(a + b) =~= fragments_of(a) + fragments_of(b));
    }
}

/// A one-event sequence maps to exactly that event's fragment.
pub proof fn lemma_fragments_of_single(e: MdEvent)
    ensures
        fragments_of(seq![e]) == fragment_of(e),
{
    assert(seq![e].drop_first() =~= Seq::<MdEvent>::empty());
    assert(seq![e][0] == e);
    assert(fragments_of(Seq::<MdEvent>::empty()) == Seq::<char>::empty());
    assert(fragments_of(seq![e]) == fragment_of(e) + Seq::<char>::empty());
    assert(fragment_of(e) + Seq::<char>::empty() =~= fragment_of(e));
}

/// Extending the translated prefix by one event appends that event's fragment.
pub proof fn lemma_fragments_of_take_succ(events: Seq<MdEvent>, i: int)
    requires
        0 <= i < events.len(),
    ensures
        fragments_of(events.take(i + 1)) == fragments_of(events.take(i)) + fragment_of(events[i]),
{
    assert(events.take(i + 1) =~= events.take(i) + seq![events[i]]);
    lemma_fragments_of_concat(events.take(i), seq![events[i]]);
    lemma_fragments_of_single(events[i]);
}

/// The translation is a pure function of the event sequence: two documents
/// built from the same events are byte-identical. There is no hidden state and
/// no nondeterminism to observe.
pub proof fn lemma_translation_deterministic(
    events: Seq<MdEvent>,
    out1: Seq<char>,
    out2: Seq<char>,
)
    requires
        out1 == latex_of(events),
        out2 == latex_of(events),
    ensures
        out1 == out2,
{
}

/// The nesting prefixes of a heading take three characters each.
pub proof fn lemma_sub_prefixes_len(n: nat)
    ensures
        sub_prefixes(n).len() == 3 * n,
    decreases n,
{
    reveal_strlit("sub");
    if n > 0 {
        lemma_sub_prefixes_len((n - 1) as nat);
    }
}

/// A heading of level `N` (with `N >= 1`) opens with a sectioning command that
/// carries exactly `N - 1` nesting prefixes: a backslash, then the prefixes,
/// then the command opener.
pub proof fn lemma_heading_nesting(level: u8)
    requires
        level >= 1,
    ensures
        fragment_of(MdEvent::HeadingStart(level)) == "\\"@ + sub_prefixes((level - 1) as nat)
            + "section{"@,
        sub_prefixes((level - 1) as nat).len() == 3 * (level - 1),
{
    lemma_sub_prefixes_len((level - 1) as nat);
}

/// An unordered list emits a paired wrapper around its items: whatever stands
/// between the list's start and end lands, translated, between the opening and
/// the closing of the itemized environment.
pub proof fn lemma_unordered_list_wraps(inner: Seq<MdEvent>)
    ensures
        fragments_of(seq![MdEvent::UnorderedListStart] + inner + seq![MdEvent::UnorderedListEnd])
            == "\\begin{itemize}\n"@ + fragments_of(inner) + "\\end{itemize}\n"@,
{
    lemma_fragments_of_concat(seq![MdEvent::UnorderedListStart] + inner, seq![MdEvent::UnorderedListEnd]);
    lemma_fragments_of_concat(seq![MdEvent::UnorderedListStart], inner);
    lemma_fragments_of_single(MdEvent::UnorderedListStart);
    lemma_fragments_of_single(MdEvent::UnorderedListEnd);
    assert(fragments_of(seq![MdEvent::UnorderedListStart] + inner + seq![MdEvent::UnorderedListEnd])
        =~= "\\begin{itemize}\n"@ + fragments_of(inner) + "\\end{itemize}\n"@);
}

/// An ordered list emits its own paired wrapper around its items, the
/// enumerated environment.
pub proof fn lemma_ordered_list_wraps(inner: Seq<MdEvent>)
    ensures
        fragments_of(seq![MdEvent::OrderedListStart] + inner + seq![MdEvent::OrderedListEnd])
            == "\\begin{enumerate}\n"@ + fragments_of(inner) + "\\end{enumerate}\n"@,
{
    lemma_fragments_of_concat(seq![MdEvent::OrderedListStart] + inner, seq![MdEvent::OrderedListEnd]);
    lemma_fragments_of_concat(seq![MdEvent::OrderedListStart], inner);
    lemma_fragments_of_single(MdEvent::OrderedListStart);
    lemma_fragments_of_single(MdEvent::OrderedListEnd);
    assert(fragments_of(seq![MdEvent::OrderedListStart] + inner + seq![MdEvent::OrderedListEnd])
        =~= "\\begin{enumerate}\n"@ + fragments_of(inner) + "\\end{enumerate}\n"@);
}

/// The two list wrappers are distinct markup, opening and closing alike.
pub proof fn lemma_list_wrappers_distinct()
    ensures
        fragment_of(MdEvent::UnorderedListStart) != fragment_of(MdEvent::OrderedListStart),
        fragment_of(MdEvent::UnorderedListEnd) != fragment_of(MdEvent::OrderedListEnd),
{
    reveal_strlit("\\begin{itemize}\n");
    reveal_strlit("\\begin{enumerate}\n");
    reveal_strlit("\\end{itemize}\n");
    reveal_strlit("\\end{enumerate}\n");
    assert("\\begin{itemize}\n"@.len() == 16);
    assert("\\begin{enumerate}\n"@.len() == 18);
    assert("\\end{itemize}\n"@.len() == 14);
    assert("\\end{enumerate}\n"@.len() == 16);
}

/// A list item wraps its content: whatever stands between the item's start and
/// end — a whole nested list included — lands, translated, inside the item's
/// own marker and terminator. Together with the list lemmas this gives the
/// composition of nested lists: the inner list's wrapper is fully contained in
/// the outer item's fragment.
pub proof fn lemma_item_wraps(inner: Seq<MdEvent>)
    ensures
        fragments_of(seq![MdEvent::ItemStart] + inner + seq![MdEvent::ItemEnd]) == "\\item "@
            + fragments_of(inner) + "\n"@,
{
    lemma_fragments_of_concat(seq![MdEvent::ItemStart] + inner, seq![MdEvent::ItemEnd]);
    lemma_fragments_of_concat(seq![MdEvent::ItemStart], inner);
    lemma_fragments_of_single(MdEvent::ItemStart);
    lemma_fragments_of_single(MdEvent::ItemEnd);
    assert(fragments_of(seq![MdEvent::ItemStart] + inner + seq![MdEvent::ItemEnd]) =~= "\\item "@
        + fragments_of(inner) + "\n"@);
}

/// A code block with a nonempty language tag names that tag in its opening
/// fragment; a code block with an empty tag omits the language clause
/// entirely.
pub proof fn lemma_code_block_tag(lang: String)
    ensures
        lang@.len() > 0 ==> fragment_of(MdEvent::CodeBlockStart(lang))
            == "\\begin{lstlisting}[language="@ + lang@ + "]\n"@,
        lang@.len() == 0 ==> fragment_of(MdEvent::CodeBlockStart(lang))
            == "\\begin{lstlisting}\n"@,
{
}

} // verus!
