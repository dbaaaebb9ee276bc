use knotty::client::{
    frame_header, missing_length_error, rpc_error, ClientErrorKind, FrameHeaders, HeaderStep, KnotdClient,
    RequestIds,
};
use knotty::ui::automation_protocol::{
    check_jsonrpc_envelope, require_active_window, route_ui_automation_tool, UiAutomationProtocolError,
    UiAutomationTool,
};
use knotty::ui::block_editor::parser::{
    document_from_events, parse_inline, parse_markdown, post_process_blocks, try_extract_image_block, BlockAccumulator,
    MdEvent,
};
use knotty::ui::block_editor::types::{
    Block, DiagramType, Document, DocumentCursor, DocumentSelection, ImageWidth, Inline, SourcePos,
};

fn text_of(inlines: &[Inline]) -> Vec<String> {
    inlines
        .iter()
        .map(|i| match i {
            Inline::Text(t) => format!("T:{t}"),
            Inline::Code(t) => format!("C:{t}"),
            Inline::SoftBreak => "soft".to_string(),
            Inline::LineBreak => "hard".to_string(),
            other => format!("{:?}", other),
        })
        .collect()
}

#[test]
fn markdown_headings_and_paragraphs_become_blocks() {
    let doc = parse_markdown("# Title\n\nSome `code` here\nnext line");
    assert_eq!(doc.blocks.len(), 2);
    match &doc.blocks[0] {
        Block::Header(level, inlines) => {
            assert_eq!(*level, 1);
            assert_eq!(text_of(inlines), vec!["T:Title".to_string()]);
        }
        other => panic!("unexpected {:?}", other),
    }
    match &doc.blocks[1] {
        Block::Paragraph(inlines) => assert_eq!(
            text_of(inlines),
            vec!["T:Some ", "C:code", "T: here", "soft", "T:next line"]
                .into_iter()
                .map(String::from)
                .collect::<Vec<_>>()
        ),
        other => panic!("unexpected {:?}", other),
    }
    assert!(doc.metadata.is_empty());
}

#[test]
fn fenced_diagram_languages_become_diagram_blocks() {
    let doc = parse_markdown("```Mermaid\ngraph TD\n```\n\n```rust\nfn x() {}\n```\n\n---\n");
    assert!(matches!(
        &doc.blocks[0],
        Block::Diagram { diagram_type: DiagramType::Mermaid, width: ImageWidth::Full, .. }
    ));
    match &doc.blocks[1] {
        Block::CodeBlock { language, .. } => assert_eq!(language.as_deref(), Some("rust")),
        other => panic!("unexpected {:?}", other),
    }
    assert!(matches!(doc.blocks[2], Block::HorizontalRule));
}

#[test]
fn event_fold_finishes_blocks_and_skips_empty_ones() {
    let events = vec![
        MdEvent::StartParagraph,
        MdEvent::End,
        MdEvent::StartList(Some(3)),
        MdEvent::Text("ignored".to_string()),
        MdEvent::End,
        MdEvent::Html("<div>".to_string()),
        MdEvent::StartHeading(2),
        MdEvent::Text("tail".to_string()),
    ];
    let doc = document_from_events(&events);
    assert_eq!(doc.blocks.len(), 3);
    assert!(matches!(&doc.blocks[0], Block::OrderedList { start: 3, items } if items.is_empty()));
    assert!(matches!(&doc.blocks[1], Block::RawBlock(h) if h == "<div>"));
    assert!(matches!(&doc.blocks[2], Block::Header(2, _)));
}

#[test]
fn accumulators_only_collect_inline_text_in_text_blocks() {
    let mut acc = BlockAccumulator::BlockQuote(Vec::new());
    acc.push_inline(Inline::Text("x".to_string()));
    assert!(matches!(acc.finish(), Some(Block::BlockQuote(v)) if v.is_empty()));
    let mut acc = BlockAccumulator::Heading(3, Vec::new());
    assert!(acc.finish().is_none());
    acc = BlockAccumulator::Paragraph(Vec::new());
    acc.push_inline(Inline::SoftBreak);
    assert!(matches!(acc.finish(), Some(Block::Paragraph(v)) if v.len() == 1));
    let list = BlockAccumulator::List { ordered: false, start: 1, items: Vec::new(), current_item: Vec::new() };
    assert!(matches!(list.finish(), Some(Block::BulletList(v)) if v.is_empty()));
}

#[test]
fn block_helpers_behave_as_documented() {
    assert_eq!(DiagramType::from_language("DOT"), Some(DiagramType::Graphviz));
    assert_eq!(DiagramType::from_language("puml"), Some(DiagramType::Plantuml));
    assert_eq!(DiagramType::from_language("python"), None);
    assert_eq!(DiagramType::D2.as_str(), "d2");
    assert_eq!(SourcePos::new(3, 9), SourcePos { start_byte: 3, end_byte: 9, start_line: 0, end_line: 0 });
    let a = DocumentCursor::new(1, 2);
    assert!(DocumentSelection::new(a, DocumentCursor::new(1, 2)).is_collapsed());
    assert!(!DocumentSelection::new(a, DocumentCursor::new(2, 2)).is_collapsed());
    let inl = parse_inline("raw *text*");
    assert_eq!(text_of(&inl), vec!["T:raw *text*".to_string()]);
    assert!(Document::new().blocks.is_empty());
    let blocks = post_process_blocks(vec![Block::Spacer, Block::Paragraph(vec![Inline::Nbsp])]);
    assert!(matches!(blocks[0], Block::Spacer));
    assert!(matches!(&blocks[1], Block::Paragraph(v) if v.len() == 1));
}

#[test]
fn protocol_adapter_rejects_unknown_tools_and_bad_arguments() {
    let unknown = route_ui_automation_tool("unsupported").unwrap_err();
    assert_eq!(unknown.code(), "unknown_tool");
    assert_eq!(unknown.message(), "unknown GTK automation tool: unsupported");
    assert_eq!(route_ui_automation_tool("get_ui_snapshot"), Ok(UiAutomationTool::Snapshot));
    let invalid = UiAutomationProtocolError::InvalidArguments("bad depth".to_string());
    assert_eq!(invalid.code(), "invalid_arguments");
    assert_eq!(invalid.message(), "invalid GTK automation arguments: bad depth");
}

#[test]
fn protocol_adapter_reports_missing_active_window_explicitly() {
    let error = require_active_window::<u32>(None).unwrap_err();
    assert_eq!(error.code(), "no_active_window");
    assert_eq!(error.message(), "no active GTK window is registered for automation");
    assert_eq!(require_active_window(Some(3)), Ok(3));
}

#[test]
fn jsonrpc_protocol_reports_stable_error_codes_for_bad_requests() {
    let version = check_jsonrpc_envelope("1.0", "tools/call").unwrap_err();
    assert_eq!(version.code(), "invalid_request");
    assert_eq!(version.message(), "invalid GTK automation request: unsupported jsonrpc version 1.0");
    let method = check_jsonrpc_envelope("2.0", "tools/list").unwrap_err();
    assert_eq!(method.message(), "invalid GTK automation request: unsupported method tools/list");
    assert_eq!(check_jsonrpc_envelope("2.0", "tools/call"), Ok(()));
}

#[test]
fn frame_headers_find_content_length_case_insensitively() {
    let mut h = FrameHeaders::new();
    assert_eq!(h.accept_line("content-length:  42 \r\n"), HeaderStep::Continue);
    assert_eq!(h.accept_line("X-Other: 1\r\n"), HeaderStep::Continue);
    assert_eq!(h.accept_line("\r\n"), HeaderStep::Body(42));
    let mut bad = FrameHeaders::new();
    bad.accept_line("Content-Length: nope\n");
    assert_eq!(bad.accept_line("\n"), HeaderStep::MissingLength);
    assert_eq!(frame_header(17), "Content-Length: 17\r\n\r\n");
    assert_eq!(missing_length_error().message(), "RPC error: Missing Content-Length");
}

#[test]
fn rpc_errors_are_classified() {
    assert_eq!(rpc_error(Some("Error: No vault is open right now")).kind, ClientErrorKind::NoVaultOpen);
    let e = rpc_error(None);
    assert_eq!((e.kind, e.detail.as_str()), (ClientErrorKind::Rpc, "knotd RPC error"));
    assert_eq!(rpc_error(Some("boom")).message(), "RPC error: boom");
}

#[test]
fn client_sockets_and_request_ids() {
    assert_eq!(KnotdClient::new(Some("/x.sock"), Some("/run")).socket_path, "/x.sock");
    assert_eq!(KnotdClient::new(None, Some("/run")).socket_path, "/run/knot/knotd.sock");
    assert_eq!(KnotdClient::new(None, None).socket_path, "$XDG_RUNTIME_DIR/knot/knotd.sock");
    let mut ids = RequestIds::new();
    assert_eq!(KnotdClient::next_id(&mut ids), 1000);
    assert_eq!(KnotdClient::next_id(&mut ids), 1001);
    let mut top = RequestIds { next: u64::MAX };
    assert_eq!(top.take(), u64::MAX);
    assert_eq!(top.next, 0);
    let c = KnotdClient::with_socket_path("/s");
    assert_eq!(
        c.connect_failure("refused").message(),
        "Connection error: Failed to connect to knotd at /s: refused. Is knotd running?"
    );
}

#[test]
fn image_only_paragraph_becomes_image_block() {
    let link = Inline::Link {
        text: vec![Inline::Text("A ".to_string()), Inline::Emph(vec![Inline::Text("cat".to_string())])],
        url: "img/cat.png".to_string(),
    };
    match try_extract_image_block(&vec![link]) {
        Some(Block::Image { path, alt, width }) => {
            assert_eq!(path, "img/cat.png");
            assert_eq!(alt, "A cat");
            assert_eq!(width, ImageWidth::Full);
        }
        _ => panic!("expected an image block"),
    }
    assert!(try_extract_image_block(&vec![Inline::Text("x".to_string())]).is_none());
    let two = vec![
        Inline::Link { text: Vec::new(), url: "a".to_string() },
        Inline::Text("b".to_string()),
    ];
    assert!(try_extract_image_block(&two).is_none());
}

#[test]
fn post_process_replaces_only_image_paragraphs() {
    let blocks = post_process_blocks(vec![
        Block::Paragraph(vec![Inline::Link { text: vec![Inline::Text("alt".to_string())], url: "p.png".to_string() }]),
        Block::Paragraph(vec![Inline::Text("plain".to_string())]),
        Block::HorizontalRule,
    ]);
    assert_eq!(blocks.len(), 3);
    assert!(matches!(&blocks[0], Block::Image { path, alt, .. } if path == "p.png" && alt == "alt"));
    assert!(matches!(&blocks[1], Block::Paragraph(v) if v.len() == 1));
    assert!(matches!(blocks[2], Block::HorizontalRule));
}

#[test]
fn diagram_names_read_back_in_any_ascii_case() {
    for t in [DiagramType::Mermaid, DiagramType::D2, DiagramType::Graphviz, DiagramType::Plantuml] {
        assert_eq!(DiagramType::from_language(t.as_str()), Some(t));
        assert_eq!(DiagramType::from_language(&t.as_str().to_uppercase()), Some(t));
    }
    assert_eq!(DiagramType::from_language("DOT"), Some(DiagramType::Graphviz));
    assert_eq!(DiagramType::from_language("PUML"), Some(DiagramType::Plantuml));
    assert_eq!(DiagramType::from_language("rust"), None);
}

fn item_texts(items: &[Vec<Block>]) -> Vec<Vec<String>> {
    items
        .iter()
        .map(|item| {
            item.iter()
                .map(|b| match b {
                    Block::Paragraph(v) => text_of(v).join("|"),
                    Block::BulletList(inner) => format!("list{:?}", item_texts(inner)),
                    other => format!("{:?}", other),
                })
                .collect()
        })
        .collect()
}

#[test]
fn bullet_list_keeps_one_entry_per_item() {
    let doc = parse_markdown("- a\n- b");
    assert_eq!(doc.blocks.len(), 1);
    match &doc.blocks[0] {
        Block::BulletList(items) => {
            assert_eq!(items.len(), 2);
            assert_eq!(item_texts(items), vec![vec!["T:a".to_string()], vec!["T:b".to_string()]]);
        }
        other => panic!("unexpected {:?}", other),
    }
}

#[test]
fn ordered_and_nested_lists_keep_their_items() {
    let doc = parse_markdown("3. one\n4. two\n   - inner\n");
    match &doc.blocks[0] {
        Block::OrderedList { start, items } => {
            assert_eq!(*start, 3);
            assert_eq!(items.len(), 2);
            assert_eq!(
                item_texts(items),
                vec![
                    vec!["T:one".to_string()],
                    vec!["T:two".to_string(), "list[[\"T:inner\"]]".to_string()]
                ]
            );
        }
        other => panic!("unexpected {:?}", other),
    }
}

#[test]
fn block_quote_keeps_its_blocks() {
    let doc = parse_markdown("> quoted *text*\n>\n> - x\n\nafter");
    assert_eq!(doc.blocks.len(), 2);
    match &doc.blocks[0] {
        Block::BlockQuote(inner) => {
            assert_eq!(inner.len(), 2);
            match &inner[0] {
                Block::Paragraph(v) => assert_eq!(text_of(v), vec!["T:quoted ", "T:text"]),
                other => panic!("unexpected {:?}", other),
            }
            assert!(matches!(&inner[1], Block::BulletList(items) if items.len() == 1));
        }
        other => panic!("unexpected {:?}", other),
    }
    assert!(matches!(&doc.blocks[1], Block::Paragraph(_)));
}

#[test]
fn code_blocks_keep_their_text() {
    let doc = parse_markdown("```rust\nfn x() {}\n```\n");
    match &doc.blocks[0] {
        Block::CodeBlock { language, content } => {
            assert_eq!(language.as_deref(), Some("rust"));
            assert_eq!(content, "fn x() {}\n");
        }
        other => panic!("unexpected {:?}", other),
    }
}

#[test]
fn items_collect_loose_text_and_blocks() {
    let acc = BlockAccumulator::Item { blocks: Vec::new(), pending: vec![Inline::Text("a".to_string())] };
    let acc = acc.with_block(Block::HorizontalRule);
    match acc {
        BlockAccumulator::Item { blocks, pending } => {
            assert_eq!(blocks.len(), 2);
            assert!(matches!(&blocks[0], Block::Paragraph(v) if v.len() == 1));
            assert!(matches!(blocks[1], Block::HorizontalRule));
            assert!(pending.is_empty());
        }
        other => panic!("unexpected {:?}", other),
    }
    let list = BlockAccumulator::List { ordered: true, start: 2, items: Vec::new(), current_item: Vec::new() };
    let list = list.with_item(vec![Block::HorizontalRule]);
    assert!(matches!(list.finish(), Some(Block::OrderedList { start: 2, items }) if items.len() == 1));
    assert!(BlockAccumulator::Other.finish().is_none());
    assert!(BlockAccumulator::Item { blocks: Vec::new(), pending: Vec::new() }.finish().is_none());
}
