use md2pdf::{translate_events, MdEvent, LATEX_FOOTER, LATEX_HEADER};

fn body_of(events: Vec<MdEvent>) -> String {
    let out = translate_events(&events);
    let without_header = out.strip_prefix(LATEX_HEADER).expect("output starts with the header");
    without_header.strip_suffix(LATEX_FOOTER).expect("output ends with the footer").to_string()
}

#[test]
fn empty_sequence_is_header_and_footer() {
    let events: Vec<MdEvent> = Vec::new();
    let out = translate_events(&events);
    assert_eq!(out, format!("{}{}", LATEX_HEADER, LATEX_FOOTER));
}

#[test]
fn output_is_header_fragments_footer() {
    let events = vec![
        MdEvent::HeadingStart(1),
        MdEvent::Text(String::from("Title")),
        MdEvent::HeadingEnd,
        MdEvent::Text(String::from("body")),
    ];
    let out = translate_events(&events);
    assert_eq!(out, format!("{}\\section{{Title}}\nbody{}", LATEX_HEADER, LATEX_FOOTER));
}

#[test]
fn translation_is_repeatable() {
    let events = vec![
        MdEvent::HeadingStart(2),
        MdEvent::Text(String::from("Twice")),
        MdEvent::HeadingEnd,
        MdEvent::EmphasisStart,
        MdEvent::Text(String::from("same")),
        MdEvent::EmphasisEnd,
        MdEvent::SoftBreak,
    ];
    let first = translate_events(&events);
    let second = translate_events(&events);
    assert_eq!(first, second);
}

#[test]
fn heading_levels_nest() {
    assert_eq!(
        body_of(vec![MdEvent::HeadingStart(1), MdEvent::Text(String::from("a")), MdEvent::HeadingEnd]),
        "\\section{a}\n"
    );
    assert_eq!(
        body_of(vec![MdEvent::HeadingStart(2), MdEvent::Text(String::from("b")), MdEvent::HeadingEnd]),
        "\\subsection{b}\n"
    );
    assert_eq!(
        body_of(vec![MdEvent::HeadingStart(3), MdEvent::Text(String::from("c")), MdEvent::HeadingEnd]),
        "\\subsubsection{c}\n"
    );
    assert_eq!(
        body_of(vec![MdEvent::HeadingStart(6), MdEvent::Text(String::from("f")), MdEvent::HeadingEnd]),
        "\\subsubsubsubsubsection{f}\n"
    );
}

#[test]
fn emphasis_and_strong_wrap_text() {
    let body = body_of(vec![
        MdEvent::EmphasisStart,
        MdEvent::Text(String::from("soft")),
        MdEvent::EmphasisEnd,
        MdEvent::StrongStart,
        MdEvent::Text(String::from("loud")),
        MdEvent::StrongEnd,
    ]);
    assert_eq!(body, "\\emph{soft}\\textbf{loud}");
}

#[test]
fn unordered_list_wraps_items() {
    let body = body_of(vec![
        MdEvent::UnorderedListStart,
        MdEvent::ItemStart,
        MdEvent::Text(String::from("a")),
        MdEvent::ItemEnd,
        MdEvent::ItemStart,
        MdEvent::Text(String::from("b")),
        MdEvent::ItemEnd,
        MdEvent::UnorderedListEnd,
    ]);
    assert_eq!(body, "\\begin{itemize}\n\\item a\n\\item b\n\\end{itemize}\n");
}

#[test]
fn ordered_list_wraps_items() {
    let body = body_of(vec![
        MdEvent::OrderedListStart,
        MdEvent::ItemStart,
        MdEvent::Text(String::from("a")),
        MdEvent::ItemEnd,
        MdEvent::OrderedListEnd,
    ]);
    assert_eq!(body, "\\begin{enumerate}\n\\item a\n\\end{enumerate}\n");
}

#[test]
fn nested_list_stays_inside_outer_item() {
    let body = body_of(vec![
        MdEvent::UnorderedListStart,
        MdEvent::ItemStart,
        MdEvent::Text(String::from("outer")),
        MdEvent::OrderedListStart,
        MdEvent::ItemStart,
        MdEvent::Text(String::from("inner")),
        MdEvent::ItemEnd,
        MdEvent::OrderedListEnd,
        MdEvent::ItemEnd,
        MdEvent::UnorderedListEnd,
    ]);
    assert_eq!(
        body,
        "\\begin{itemize}\n\\item outer\\begin{enumerate}\n\\item inner\n\\end{enumerate}\n\n\\end{itemize}\n"
    );
    let inner_open = body.find("\\begin{enumerate}").expect("inner list opens");
    let inner_close = body.find("\\end{enumerate}").expect("inner list closes");
    let outer_open = body.find("\\begin{itemize}").expect("outer list opens");
    let outer_close = body.find("\\end{itemize}").expect("outer list closes");
    assert!(outer_open < inner_open && inner_open < inner_close && inner_close < outer_close);
}

#[test]
fn code_block_with_language_tag() {
    let body = body_of(vec![
        MdEvent::CodeBlockStart(String::from("rust")),
        MdEvent::Text(String::from("let x = 1;")),
        MdEvent::CodeBlockEnd,
    ]);
    assert_eq!(body, "\\begin{lstlisting}[language=rust]\nlet x = 1;\n\\end{lstlisting}\n");
}

#[test]
fn code_block_without_language_tag() {
    let body = body_of(vec![
        MdEvent::CodeBlockStart(String::new()),
        MdEvent::Text(String::from("plain")),
        MdEvent::CodeBlockEnd,
    ]);
    assert_eq!(body, "\\begin{lstlisting}\nplain\n\\end{lstlisting}\n");
}

#[test]
fn image_emits_figure_with_path_then_caption() {
    let body = body_of(vec![MdEvent::ImageStart {
        path: String::from("fig.png"),
        caption: String::from("Result"),
    }]);
    assert_eq!(
        body,
        "\\begin{figure}\n\\centering\n\\includegraphics[width=\\textwidth]{fig.png}\n\\caption{Result}\n\\end{figure}\n"
    );
    let path_at = body.find("fig.png").expect("path appears");
    let caption_at = body.find("Result").expect("caption appears");
    assert!(path_at < caption_at);
}

#[test]
fn link_wraps_target_and_label() {
    let body = body_of(vec![
        MdEvent::LinkStart(String::from("https://example.com")),
        MdEvent::Text(String::from("here")),
        MdEvent::LinkEnd,
    ]);
    assert_eq!(body, "\\href{https://example.com}{here}");
}

#[test]
fn unmapped_event_emits_nothing() {
    let body = body_of(vec![
        MdEvent::Text(String::from("A")),
        MdEvent::Other,
        MdEvent::Text(String::from("B")),
    ]);
    assert_eq!(body, "AB");
}

#[test]
fn literal_text_passes_unescaped() {
    let body = body_of(vec![MdEvent::Text(String::from("100% of a_b & \\today"))]);
    assert_eq!(body, "100% of a_b & \\today");
}
