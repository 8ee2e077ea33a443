use vstd::prelude::*;
use crate::events::MdEvent;
use crate::latex::{
    LATEX_FOOTER, LATEX_HEADER, code_block_open, footer_text, fragment_of, fragments_of,
    header_text, heading_open, latex_of, lemma_fragments_of_take_succ, nesting_count,
    sub_prefixes,
};

verus! {

/// Appends the opening fragment of a heading: a backslash, one `sub` prefix
/// per nesting step beyond the first level, then the sectioning command opener.
fn append_heading_open(out: &mut String, level: u8)
    ensures
        final(out)@ == old(out)@ + heading_open(level),
{
    out.append("\\");
    proof {
        assert(out@ =~= old(out)@ + "\\"@ + sub_prefixes(0));
    }
    let mut k: u8 = 1;
    while k < level
        invariant
            1 <= k,
            level >= 1 ==> k <= level,
            level < 1 ==> k == 1,
            out@ == old(out)@ + "\\"@ + sub_prefixes((k - 1) as nat),
        decreases level - k,
    {
        out.append("sub");
        proof {
            assert(out@ =~= old(out)@ + "\\"@ + sub_prefixes(k as nat));
        }
        k = k + 1;
    }
    out.append("section{");
    proof {
        assert(sub_prefixes((k - 1) as nat) == sub_prefixes(nesting_count(level)));
        assert(out@ =~= old(out)@ + heading_open(level));
    }
}

/// Appends the fragment a single event maps to; an event outside the mapping
/// table appends nothing.
fn append_fragment(out: &mut String, e: &MdEvent)
    ensures
        final(out)@ == old(out)@ + fragment_of(*e),
{
    match e {
        MdEvent::HeadingStart(level) => {
            append_heading_open(out, *level);
        },
        MdEvent::HeadingEnd => {
            out.append("}\n");
        },
        MdEvent::EmphasisStart => {
            out.append("\\emph{");
        },
        MdEvent::EmphasisEnd => {
            out.append("}");
        },
        MdEvent::StrongStart => {
            out.append("\\textbf{");
        },
        MdEvent::StrongEnd => {
            out.append("}");
        },
        MdEvent::UnorderedListStart => {
            out.append("\\begin{itemize}\n");
        },
        MdEvent::UnorderedListEnd => {
            out.append("\\end{itemize}\n");
        },
        MdEvent::OrderedListStart => {
            out.append("\\begin{enumerate}\n");
        },
        MdEvent::OrderedListEnd => {
            out.append("\\end{enumerate}\n");
        },
        MdEvent::ItemStart => {
            out.append("\\item ");
        },
        MdEvent::ItemEnd => {
            out.append("\n");
        },
        MdEvent::LinkStart(url) => {
            out.append("\\href{");
            out.append(url.as_str());
            out.append("}{");
            proof {
                assert(out@ =~= old(out)@ + fragment_of(*e));
            }
        },
        MdEvent::LinkEnd => {
            out.append("}");
        },
        MdEvent::ImageStart { path, caption } => {
            out.append("\\begin{figure}\n\\centering\n\\includegraphics[width=\\textwidth]{");
            out.append(path.as_str());
            out.append("}\n\\caption{");
            out.append(caption.as_str());
            out.append("}\n\\end{figure}\n");
            proof {
                assert(out@ =~= old(out)@ + fragment_of(*e));
            }
        },
        MdEvent::CodeBlockStart(lang) => {
            if lang.as_str().is_empty() {
                out.append("\\begin{lstlisting}\n");
                proof {
                    assert(out@ =~= old(out)@ + code_block_open(lang@));
                }
            } else {
                out.append("\\begin{lstlisting}[language=");
                out.append(lang.as_str());
                out.append("]\n");
                proof {
                    assert(out@ =~= old(out)@ + code_block_open(lang@));
                }
            }
        },
        MdEvent::CodeBlockEnd => {
            out.append("\n\\end{lstlisting}\n");
        },
        MdEvent::Text(t) => {
            out.append(t.as_str());
        },
        MdEvent::SoftBreak => {
            out.append("\n");
        },
        MdEvent::Other => {
            proof {
                assert(out@ =~= old(out)@ + Seq::<char>::empty());
            }
        },
    }
}

/// Translates an event sequence into a complete LaTeX document string: the
/// fixed header, then each event's mapped fragment in sequence order, then the
/// fixed footer. The translation is total and cannot fail; it is a pure
/// function of the events, so repeating it on the same sequence returns the
/// identical string.
pub fn translate_events(events: &Vec<MdEvent>) -> (r: String)
    ensures
        r@ == latex_of(events@),
{
    let mut out = String::from_str(LATEX_HEADER);
    proof {
        assert(events@.take(0) =~= Seq::<MdEvent>::empty());
        assert(out@ =~= header_text() + fragments_of(events@.take(0)));
    }
    let mut i: usize = 0;
    while i < events.len()
        invariant
            i <= events.len(),
            out@ == header_text() + fragments_of(events@.take(i as int)),
        decreases events.len() - i,
    {
        append_fragment(&mut out, &events[i]);
        proof {
            lemma_fragments_of_take_succ(events@, i as int);
            assert(out@ =~= header_text() + fragments_of(events@.take(i as int + 1)));
        }
        i = i + 1;
    }
    proof {
        assert(events@.take(events@.len() as int) =~= events@);
    }
    out.append(LATEX_FOOTER);
    proof {
        assert(out@ =~= latex_of(events@));
    }
    out
}

} // verus!
