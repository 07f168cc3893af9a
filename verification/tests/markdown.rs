use muldex::markdown::{
    markdown_code_blocks, render_markdown, render_markdown_events, MdEvent, MdLine, MdSpan, MdStyle,
};

// The events the markdown parser reads from these texts.
fn plain_text() -> Vec<MdEvent> {
    vec![MdEvent::StartParagraph, MdEvent::Text("hello world".to_string()), MdEvent::EndParagraph]
}

fn heading() -> Vec<MdEvent> {
    vec![MdEvent::StartHeading(1), MdEvent::Text("Title".to_string()), MdEvent::EndHeading]
}

fn rust_block() -> Vec<MdEvent> {
    vec![
        MdEvent::StartCodeBlock("rust".to_string()),
        MdEvent::Text("let x = 1;\n".to_string()),
        MdEvent::EndCodeBlock,
    ]
}

fn link() -> Vec<MdEvent> {
    vec![
        MdEvent::StartParagraph,
        MdEvent::StartLink("https://example.com".to_string()),
        MdEvent::Text("muldex".to_string()),
        MdEvent::EndLink,
        MdEvent::EndParagraph,
    ]
}

fn joined(lines: &[MdLine]) -> String {
    lines
        .iter()
        .map(|l| l.spans.iter().map(|s| s.text.as_str()).collect::<String>())
        .collect::<Vec<_>>()
        .join("\n")
}

#[test]
fn renders_plain_text_as_single_line() {
    let lines = render_markdown("hello world");
    assert!(joined(&lines).contains("hello world"));
}

#[test]
fn renders_heading_with_marker() {
    let lines = render_markdown("# Title");
    assert!(joined(&lines).contains("# Title"));
}

#[test]
fn renders_code_block_with_border() {
    let lines = render_markdown("```rust\nlet x = 1;\n```");
    let text = joined(&lines);
    assert!(text.contains("rust"));
    assert!(text.contains("let x = 1;"));
}

#[test]
fn renders_link_with_visible_url() {
    let lines = render_markdown("[muldex](https://example.com)");
    let text = joined(&lines);
    assert!(text.contains("muldex"));
    assert!(text.contains("https://example.com"));
}

#[test]
fn renders_link_as_osc8_hyperlink() {
    let lines = render_markdown("[muldex](https://example.com)");
    let text = joined(&lines);
    assert!(text.contains("\x1b]8;;https://example.com\x1b\\"));
    assert!(text.contains("\x1b]8;;\x1b\\"));
}

#[test]
fn highlights_rust_code_block_with_colors() {
    let lines = render_markdown("```rust\nlet x = 1;\n```");
    let has_color = lines
        .iter()
        .any(|l| l.spans.iter().any(|s| matches!(s.style, MdStyle::Colored(_, _, _))));
    assert!(has_color, "expected at least one colored span from syntax highlighting");
}

#[test]
fn parsed_text_matches_the_events_it_stands_for() {
    assert_eq!(render_markdown("hello world"), render_markdown_events("hello world", &plain_text(), &[]));
    assert_eq!(render_markdown("# Title"), render_markdown_events("# Title", &heading(), &[]));
    let link_text = "[muldex](https://example.com)";
    assert_eq!(render_markdown(link_text), render_markdown_events(link_text, &link(), &[]));
}

#[test]
fn unknown_language_is_shown_without_colors() {
    let lines = render_markdown("```nosuchlang\nlet x = 1;\n```");
    let text = joined(&lines);
    assert_eq!(text, "── nosuchlang \n│ let x = 1;\n──\n");
    assert!(lines
        .iter()
        .all(|l| l.spans.iter().all(|s| !matches!(s.style, MdStyle::Colored(_, _, _)))));
}

#[test]
fn events_render_code_block_with_border() {
    let lines = render_markdown_events("```rust\nlet x = 1;\n```", &rust_block(), &[None]);
    assert_eq!(joined(&lines), "── rust \n│ let x = 1;\n──\n");
}

#[test]
fn events_place_highlighted_spans_after_the_gutter() {
    let colored = vec![MdLine {
        spans: vec![
            MdSpan { text: "let".to_string(), style: MdStyle::Colored(180, 142, 173) },
            MdSpan { text: " x = 1;".to_string(), style: MdStyle::Colored(192, 197, 206) },
        ],
    }];
    let lines = render_markdown_events("```rust\nlet x = 1;\n```", &rust_block(), &[Some(colored)]);
    assert_eq!(lines[1].spans[0].text, "│ ");
    assert_eq!(lines[1].spans[1].text, "let");
    assert_eq!(lines[1].spans[1].style, MdStyle::Colored(180, 142, 173));
}

#[test]
fn code_blocks_are_listed_for_highlighting() {
    let mut events = rust_block();
    events.push(MdEvent::StartCodeBlock(String::new()));
    events.push(MdEvent::Text("a\n".to_string()));
    events.push(MdEvent::SoftBreak);
    events.push(MdEvent::Text("b\n".to_string()));
    events.push(MdEvent::EndCodeBlock);
    assert_eq!(
        markdown_code_blocks(&events),
        vec![
            ("rust".to_string(), "let x = 1;".to_string()),
            (String::new(), "a\n\nb".to_string()),
        ]
    );
    let lines = render_markdown_events("", &events, &[]);
    let text = joined(&lines);
    assert!(text.contains("── code \n│ a\n│ \n│ b\n──"));
}

#[test]
fn lists_quotes_and_emphasis() {
    let events = vec![
        MdEvent::StartList,
        MdEvent::StartItem,
        MdEvent::Text("one".to_string()),
        MdEvent::StartList,
        MdEvent::StartItem,
        MdEvent::Text("nested".to_string()),
        MdEvent::EndItem,
        MdEvent::EndList,
        MdEvent::EndItem,
        MdEvent::EndList,
        MdEvent::StartQuote,
        MdEvent::StartStrong,
        MdEvent::Text("quoted".to_string()),
        MdEvent::Other,
        MdEvent::Code("x".to_string()),
        MdEvent::EndQuote,
    ];
    let lines = render_markdown_events("", &events, &[]);
    let text = joined(&lines);
    assert_eq!(text, "- one\n  - nested\n> quotedx\n");
    assert_eq!(lines[2].spans[1].style, MdStyle::Strong);
    assert_eq!(lines[2].spans[3].style, MdStyle::InlineCode);
}

#[test]
fn text_without_blocks_is_kept_whole() {
    let lines = render_markdown_events("raw", &[MdEvent::Other], &[]);
    assert_eq!(lines.len(), 1);
    assert_eq!(lines[0].spans[0].text, "raw");
    assert_eq!(lines[0].spans[0].style, MdStyle::Plain);
}
