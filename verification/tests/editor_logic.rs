use knotty::client::{Backlink, Heading, NoteData, NoteModeAvailability, NoteType};
use knotty::ui::editor::{
    available_modes_for_note, default_editor_mode, default_mode_for_note, loaded_note_content,
    EditorDocumentState, EditorMode, SaveRequest,
};
use knotty::ui::editor_commands::{
    apply_markdown_command, expand_selection_to_lines, insert_at_selection, split_lines, transform_selected_lines,
    wrap_selection, wrap_selection_or_placeholder, MarkdownCommand,
};
use knotty::ui::frontmatter::{
    extract_title_from_markdown, field_lookup, frontmatter_lines, latest_fields, metadata_form_from_fields,
    parse_frontmatter_fields, parse_inline_tag_list, preferred_note_title, preview_markup_lines,
    rebuild_content_with_metadata, sort_pairs_by_key, split_frontmatter, MetadataForm,
};

fn test_note(note_type: Option<NoteType>, available_modes: Option<NoteModeAvailability>) -> NoteData {
    NoteData {
        id: "note-1".to_string(),
        path: "notes/example.md".to_string(),
        title: "Example".to_string(),
        content: "# Example".to_string(),
        created_at: 1,
        modified_at: 2,
        word_count: 2,
        headings: vec![Heading { level: 1, text: "Example".to_string(), slug: "example".to_string() }],
        backlinks: vec![Backlink { path: "other.md".to_string(), title: "Other".to_string(), excerpt: None }],
        note_type,
        available_modes,
        metadata: None,
        embed: None,
        media: None,
        type_badge: None,
        is_dimmed: false,
    }
}

fn chars(s: &str) -> Vec<char> {
    s.chars().collect()
}

/// Reads front matter into a form the way the editor does: fields become
/// their text values (here every raw value is already plain text).
fn form_from_content(note: Option<&NoteData>, content: &str) -> MetadataForm {
    let (frontmatter, _) = split_frontmatter(content);
    match frontmatter {
        Some(f) => {
            let fields = parse_frontmatter_fields(&f);
            let typed: Vec<(String, Option<String>)> =
                fields.entries.iter().map(|(k, v)| (k.clone(), Some(v.clone()))).collect();
            let entries = latest_fields(&typed);
            metadata_form_from_fields(
                note.map(|n| n.title.as_str()),
                None,
                &entries,
                fields.tags,
                fields.preserved_lines,
            )
        }
        None => metadata_form_from_fields(note.map(|n| n.title.as_str()), None, &Vec::new(), Vec::new(), Vec::new()),
    }
}

#[test]
fn markdown_note_enables_all_modes_by_default() {
    let note = test_note(Some(NoteType::Markdown), None);
    assert_eq!(
        available_modes_for_note(&note),
        NoteModeAvailability { meta: true, source: true, edit: true, view: true }
    );
}

#[test]
fn pdf_note_only_allows_view_mode_by_default() {
    let note = test_note(Some(NoteType::Pdf), None);
    assert_eq!(
        available_modes_for_note(&note),
        NoteModeAvailability { meta: false, source: false, edit: false, view: true }
    );
}

#[test]
fn note_available_modes_override_note_type_defaults() {
    let note = test_note(
        Some(NoteType::Pdf),
        Some(NoteModeAvailability { meta: true, source: false, edit: false, view: true }),
    );
    assert_eq!(
        available_modes_for_note(&note),
        NoteModeAvailability { meta: true, source: false, edit: false, view: true }
    );
}

#[test]
fn default_mode_prefers_edit_then_view_then_source_then_meta() {
    let m = |meta, source, edit, view| NoteModeAvailability { meta, source, edit, view };
    assert_eq!(default_mode_for_note(&test_note(Some(NoteType::Markdown), Some(m(true, true, true, true)))), EditorMode::Edit);
    assert_eq!(default_mode_for_note(&test_note(Some(NoteType::Markdown), Some(m(true, true, false, true)))), EditorMode::View);
    assert_eq!(default_mode_for_note(&test_note(Some(NoteType::Markdown), Some(m(true, true, false, false)))), EditorMode::Source);
    assert_eq!(default_mode_for_note(&test_note(Some(NoteType::Markdown), Some(m(true, false, false, false)))), EditorMode::Meta);
    assert_eq!(default_editor_mode(&m(false, false, false, false)), EditorMode::Source);
}

#[test]
fn content_change_marks_document_state_dirty() {
    let mut state = EditorDocumentState::default();
    state.load_note(test_note(Some(NoteType::Markdown), None));
    assert!(!state.is_modified());
    assert!(state.mark_dirty());
    assert!(state.is_modified());
    assert!(!state.mark_dirty());
}

#[test]
fn save_request_uses_note_path_and_current_content_when_dirty() {
    let mut state = EditorDocumentState::default();
    let note = test_note(Some(NoteType::Markdown), None);
    state.load_note(note.clone());
    state.mark_dirty();
    assert_eq!(
        state.save_request("# Updated").unwrap(),
        Some(SaveRequest { path: note.path, content: "# Updated".to_string() })
    );
}

#[test]
fn save_request_needs_changes_and_a_note() {
    let mut state = EditorDocumentState::default();
    assert_eq!(state.save_request("x"), Ok(None));
    state.mark_dirty();
    assert_eq!(state.save_request("x"), Err("Cannot save without an active note".to_string()));
}

#[test]
fn successful_save_clears_document_state_dirty() {
    let mut state = EditorDocumentState::default();
    state.load_note(test_note(Some(NoteType::Markdown), None));
    state.mark_dirty();
    assert!(state.set_clean());
    assert!(!state.is_modified());
    assert!(!state.set_clean());
}

#[test]
fn failed_save_keeps_document_state_dirty() {
    let mut state = EditorDocumentState::default();
    state.load_note(test_note(Some(NoteType::Markdown), None));
    state.mark_dirty();
    let result: Result<(), String> = Err("save failed".to_string());
    assert!(result.is_err());
    assert!(state.is_modified());
}

#[test]
fn successful_save_updates_loaded_note_content_baseline() {
    let mut state = EditorDocumentState::default();
    state.load_note(test_note(Some(NoteType::Markdown), None));
    state.mark_dirty();
    state.apply_saved_content("# Saved\n\nBody", "Saved");
    state.set_clean();
    assert_eq!(loaded_note_content(state.note.as_ref()), "# Saved\n\nBody".to_string());
    assert_eq!(state.note.as_ref().map(|note| note.title.as_str()), Some("Saved"));
    assert!(!state.is_modified());
}

#[test]
fn preview_markup_skips_frontmatter() {
    let preview = preview_markup_lines("---\ntitle: Demo\n---\n# Heading\n\nBody");
    assert_eq!(preview.first().unwrap(), "<span size='large' weight='bold'>Heading</span>");
    assert!(preview.iter().all(|line| !line.contains("title: Demo")));
}

#[test]
fn preview_markup_escapes_and_marks_lists() {
    let preview = preview_markup_lines("## A & B\n- <item>\n* \"q\"\nplain");
    assert_eq!(
        preview,
        vec![
            "<span weight='bold'>A &amp; B</span>".to_string(),
            "  • &lt;item&gt;".to_string(),
            "  • &quot;q&quot;".to_string(),
            "plain".to_string(),
        ]
    );
}

#[test]
fn metadata_round_trip_builds_frontmatter_and_preserves_body() {
    let form = MetadataForm {
        title: "Example".to_string(),
        description: "Demo".to_string(),
        tags: vec!["rust".to_string(), "gtk".to_string()],
        extra_fields: vec![
            ("published".to_string(), "true".to_string()),
            ("rating".to_string(), "5".to_string()),
        ],
        preserved_lines: Vec::new(),
    };
    let content = rebuild_content_with_metadata("# Heading\n\nBody", &form);
    let parsed = form_from_content(None, &content);
    assert_eq!(parsed.title, "Example");
    assert_eq!(parsed.description, "Demo");
    assert_eq!(parsed.tags, vec!["rust".to_string(), "gtk".to_string()]);
    assert!(parsed.extra_fields.contains(&(String::from("published"), String::from("true"))));
    assert!(content.ends_with("# Heading\n\nBody"));
}

#[test]
fn metadata_round_trip_preserves_unsupported_frontmatter_lines() {
    let content = "---\ntitle: Example\nnested:\n  child: value\nlist:\n  - one\n---\n# Heading\n";
    let mut form = form_from_content(None, content);
    form.description = "Demo".to_string();
    let rebuilt = rebuild_content_with_metadata("# Heading\n", &form);
    assert!(rebuilt.contains("description: Demo"));
    assert!(rebuilt.contains("nested:"));
    assert!(rebuilt.contains("  child: value"));
    assert!(rebuilt.contains("list:"));
    assert!(rebuilt.contains("  - one"));
}

#[test]
fn frontmatter_lines_sort_extra_fields_and_skip_blank_ones() {
    let form = MetadataForm {
        title: "  T ".to_string(),
        description: "   ".to_string(),
        tags: Vec::new(),
        extra_fields: vec![
            ("zeta".to_string(), "1".to_string()),
            ("alpha".to_string(), " 2 ".to_string()),
            ("empty".to_string(), "  ".to_string()),
        ],
        preserved_lines: vec!["keep: me".to_string()],
    };
    assert_eq!(
        frontmatter_lines(&form),
        vec!["title: T".to_string(), "alpha: 2".to_string(), "zeta: 1".to_string(), "keep: me".to_string()]
    );
    let empty = MetadataForm {
        title: String::new(),
        description: String::new(),
        tags: Vec::new(),
        extra_fields: Vec::new(),
        preserved_lines: Vec::new(),
    };
    assert_eq!(rebuild_content_with_metadata("body", &empty), "body");
}

#[test]
fn sorting_pairs_is_stable_by_key() {
    let pairs = vec![
        ("b".to_string(), "1".to_string()),
        ("a".to_string(), "2".to_string()),
        ("b".to_string(), "3".to_string()),
        ("ab".to_string(), "4".to_string()),
    ];
    let sorted = sort_pairs_by_key(&pairs);
    let keys: Vec<(&str, &str)> = sorted.iter().map(|(k, v)| (k.as_str(), v.as_str())).collect();
    assert_eq!(keys, vec![("a", "2"), ("ab", "4"), ("b", "1"), ("b", "3")]);
}

#[test]
fn inline_tag_lists_are_trimmed_and_unquoted() {
    assert_eq!(parse_inline_tag_list(" [rust, \"gtk\", , \"\"] "), vec!["rust".to_string(), "gtk".to_string()]);
    assert_eq!(parse_inline_tag_list("solo"), vec!["solo".to_string()]);
    assert!(parse_inline_tag_list("[]").is_empty());
}

#[test]
fn frontmatter_fields_classify_lines() {
    let fields = parse_frontmatter_fields("title: A\n  indented\nnocolon\nempty:\ntags: [x, y]\n\nkey: value  ");
    assert_eq!(
        fields.entries,
        vec![("title".to_string(), "A".to_string()), ("key".to_string(), "value".to_string())]
    );
    assert_eq!(fields.tags, vec!["x".to_string(), "y".to_string()]);
    assert_eq!(
        fields.preserved_lines,
        vec!["  indented".to_string(), "nocolon".to_string(), "empty:".to_string()]
    );
}

#[test]
fn split_frontmatter_needs_both_markers() {
    assert_eq!(split_frontmatter("---\na: b\n---\nbody"), (Some("a: b".to_string()), "body".to_string()));
    assert_eq!(split_frontmatter("---\nno end"), (None, "---\nno end".to_string()));
    assert_eq!(split_frontmatter("plain"), (None, "plain".to_string()));
}

#[test]
fn preferred_title_uses_frontmatter_before_heading() {
    let note = test_note(Some(NoteType::Markdown), None);
    let content = "---\ntitle: Frontmatter Title\n---\n# Heading Title\n\nBody";
    let (frontmatter, _) = split_frontmatter(content);
    let fields = parse_frontmatter_fields(&frontmatter.unwrap());
    let title = fields.entries.iter().find(|(k, _)| k == "title").map(|(_, v)| v.clone());
    assert_eq!(
        preferred_note_title(Some(note.title.as_str()), content, title.as_deref()),
        "Frontmatter Title"
    );
    assert_eq!(preferred_note_title(Some("Stored"), "no heading", None), "Stored");
    assert_eq!(preferred_note_title(None, "text\n  #  Spaced  \n", None), "Spaced");
    assert_eq!(extract_title_from_markdown("nothing"), "Untitled");
}

#[test]
fn heading_command_prefixes_selected_line() {
    let edit = apply_markdown_command("Body", (0, 4), MarkdownCommand::Heading1);
    assert_eq!(edit.text, "# Body");
    assert_eq!(edit.selection, (0, 6));
}

#[test]
fn ordered_list_command_numbers_selected_lines() {
    let edit = apply_markdown_command(
        "First\nSecond",
        (0, "First\nSecond".chars().count()),
        MarkdownCommand::OrderedList,
    );
    assert_eq!(edit.text, "1. First\n2. Second");
}

#[test]
fn task_toggle_command_toggles_existing_checkbox() {
    let edit = apply_markdown_command("- [ ] Task", (0, "- [ ] Task".chars().count()), MarkdownCommand::TaskToggle);
    assert_eq!(edit.text, "- [x] Task");
}

#[test]
fn link_and_wikilink_commands_wrap_selection() {
    let link = apply_markdown_command("Note", (0, 4), MarkdownCommand::Link);
    let wiki = apply_markdown_command("Note", (0, 4), MarkdownCommand::WikiLink);
    assert_eq!(link.text, "[Note](https://example.com)");
    assert_eq!(wiki.text, "[[Note]]");
}

#[test]
fn quote_code_and_rule_commands_insert_expected_markdown() {
    let quote = apply_markdown_command("Line", (0, 4), MarkdownCommand::BlockQuote);
    let code = apply_markdown_command("fn main() {}", (0, 12), MarkdownCommand::CodeBlock);
    let rule = apply_markdown_command("Body", (4, 4), MarkdownCommand::HorizontalRule);
    assert_eq!(quote.text, "> Line");
    assert_eq!(code.text, "```\nfn main() {}\n```");
    assert_eq!(rule.text, "Body\n\n---\n\n");
}

#[test]
fn line_commands_cover_whole_lines_and_keep_trailing_newline() {
    let edit = apply_markdown_command("intro\n  item\nrest", (8, 8), MarkdownCommand::BulletList);
    assert_eq!(edit.text, "intro\n- item\nrest");
    assert_eq!(edit.selection, (6, 13));
    let toggled = apply_markdown_command("- [x] done", (3, 3), MarkdownCommand::TaskToggle);
    assert_eq!(toggled.text, "- [ ] done");
    let placeholder = apply_markdown_command("ab", (1, 1), MarkdownCommand::Link);
    assert_eq!(placeholder.text, "a[link text](https://example.com)b");
    assert_eq!(placeholder.selection, (1, 33));
    let reversed = apply_markdown_command("abcd", (9, 2), MarkdownCommand::WikiLink);
    assert_eq!(reversed.text, "ab[[cd]]");
    assert_eq!(expand_selection_to_lines(&chars("a\nbc\nd"), (3, 3)), (2, 5));
    let lines = split_lines(&chars("x\r\ny\n"));
    assert_eq!(lines, vec![chars("x"), chars("y")]);
}

#[test]
fn loaded_note_content_uses_active_note_source() {
    let mut note = test_note(Some(NoteType::Markdown), None);
    note.content = "# Original\n\nBody".to_string();
    assert_eq!(loaded_note_content(Some(&note)), "# Original\n\nBody".to_string());
    assert_eq!(loaded_note_content(None), String::new());
}

#[test]
fn wrap_selection_surrounds_the_selected_text() {
    let edit = wrap_selection(&chars("hello"), (3, 1), "**", "**");
    assert_eq!(edit.text, "h**el**lo");
    assert_eq!(edit.selection, (1, 7));
}

#[test]
fn wrap_selection_or_placeholder_uses_placeholder_when_empty() {
    let edit = wrap_selection_or_placeholder(&chars("ab"), (1, 1), "[[", "]]", "Note");
    assert_eq!(edit.text, "a[[Note]]b");
    assert_eq!(edit.selection, (1, 9));
    let edit = wrap_selection_or_placeholder(&chars("ab"), (0, 2), "[[", "]]", "Note");
    assert_eq!(edit.text, "[[ab]]");
    assert_eq!(edit.selection, (0, 6));
}

#[test]
fn insert_at_selection_replaces_the_selection() {
    let edit = insert_at_selection(&chars("one two"), (3, 99), "!");
    assert_eq!(edit.text, "one!");
    assert_eq!(edit.selection, (3, 4));
}

#[test]
fn transform_selected_lines_numbers_each_touched_line() {
    let edit = transform_selected_lines(&chars("a\nb\nc\n"), (2, 4), MarkdownCommand::OrderedList);
    assert_eq!(edit.text, "a\n1. b\n2. c\n");
    assert_eq!(edit.selection, (2, 12));
}

#[test]
fn rebuilt_content_splits_back_into_lines_and_body() {
    let form = MetadataForm {
        title: "Example".to_string(),
        description: String::new(),
        tags: vec!["a".to_string()],
        extra_fields: vec![("rating".to_string(), "5".to_string())],
        preserved_lines: vec!["  - one".to_string()],
    };
    let body = "# Heading\n---\nmore";
    let content = rebuild_content_with_metadata(body, &form);
    let (front, rest) = split_frontmatter(&content);
    assert_eq!(front, Some("title: Example\ntags: [a]\nrating: 5\n  - one".to_string()));
    assert_eq!(rest, body);
}

#[test]
fn latest_fields_keep_each_key_once_with_its_last_value() {
    let f = |k: &str, v: Option<&str>| (k.to_string(), v.map(|x| x.to_string()));
    let fields = vec![f("a", Some("1")), f("b", None), f("a", Some("2")), f("c", Some("3")), f("b", Some("4"))];
    assert_eq!(latest_fields(&fields), vec![f("a", Some("2")), f("c", Some("3")), f("b", Some("4"))]);
    assert_eq!(field_lookup(&fields, "a"), Some(Some("2".to_string())));
    assert_eq!(field_lookup(&vec![f("t", None)], "t"), Some(None));
    assert_eq!(field_lookup(&fields, "z"), None);
}

#[test]
fn title_is_the_first_field_read_back() {
    let form = MetadataForm {
        title: "  My Note ".to_string(),
        description: "d".to_string(),
        tags: Vec::new(),
        extra_fields: vec![("a".to_string(), "1".to_string())],
        preserved_lines: Vec::new(),
    };
    let content = rebuild_content_with_metadata("body", &form);
    let (front, _) = split_frontmatter(&content);
    let fields = parse_frontmatter_fields(&front.unwrap());
    assert_eq!(fields.entries[0], ("title".to_string(), "My Note".to_string()));
}
