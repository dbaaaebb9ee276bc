use knotty::client::{
    Backlink, Heading, NoteData, NoteEmbedDescriptor, NoteMediaData, NoteModeAvailability, NoteType,
};
use knotty::ui::note_types::{
    available_modes_for_note, available_modes_for_note_type, effective_note_type,
    note_type_from_hint, note_type_from_mime_type, note_type_indicator,
};
use knotty::ui::request_state::RequestState;

fn test_note(
    note_type: Option<NoteType>,
    available_modes: Option<NoteModeAvailability>,
) -> NoteData {
    NoteData {
        id: "note-1".to_string(),
        path: "note.md".to_string(),
        title: "Note".to_string(),
        content: "# Note".to_string(),
        created_at: 0,
        modified_at: 0,
        word_count: 1,
        headings: vec![Heading { level: 1, text: "Note".to_string(), slug: "note".to_string() }],
        backlinks: vec![Backlink {
            path: "other.md".to_string(),
            title: "Other".to_string(),
            excerpt: None,
        }],
        note_type,
        available_modes,
        metadata: None,
        embed: None,
        media: None,
        type_badge: None,
        is_dimmed: false,
    }
}

#[test]
fn image_note_is_view_only_by_default() {
    assert_eq!(
        available_modes_for_note_type(NoteType::Image),
        NoteModeAvailability { meta: false, source: false, edit: false, view: true }
    );
}

#[test]
fn youtube_note_allows_meta_and_view_by_default() {
    assert_eq!(
        available_modes_for_note_type(NoteType::Youtube),
        NoteModeAvailability { meta: true, source: false, edit: false, view: true }
    );
}

#[test]
fn explicit_available_modes_override_type_defaults() {
    let note = test_note(
        Some(NoteType::Pdf),
        Some(NoteModeAvailability { meta: true, source: false, edit: false, view: true }),
    );
    assert_eq!(
        available_modes_for_note(&note),
        NoteModeAvailability { meta: true, source: false, edit: false, view: true }
    );
}

#[test]
fn note_type_indicator_uses_expected_pdf_and_youtube_badges() {
    let pdf = note_type_indicator(Some("pdf"));
    let youtube = note_type_indicator(Some("youtube"));
    assert_eq!(pdf.icon_name, "application-pdf");
    assert_eq!(pdf.badge, "PDF");
    assert_eq!(youtube.icon_name, "video-x-generic");
    assert_eq!(youtube.badge, "YT");
}

#[test]
fn note_type_indicator_lowercases_and_uppercases_badges() {
    let png = note_type_indicator(Some("PNG"));
    assert_eq!(png.icon_name, "image-x-generic");
    assert_eq!(png.badge, "");
    let other = note_type_indicator(Some("Csv"));
    assert_eq!(other.icon_name, "text-x-generic");
    assert_eq!(other.badge, "CSV");
    let none = note_type_indicator(None);
    assert_eq!(none.icon_name, "text-x-markdown");
    assert_eq!(none.badge, "");
}

#[test]
fn effective_note_type_uses_payload_hints_when_explicit_type_is_missing() {
    let mut image_note = test_note(None, None);
    image_note.type_badge = Some("image".to_string());

    let mut pdf_note = test_note(None, None);
    pdf_note.media = Some(NoteMediaData {
        mime_type: "application/pdf".to_string(),
        file_path: Some("/tmp/example.pdf".to_string()),
        thumbnail_path: None,
    });

    let mut youtube_note = test_note(None, None);
    youtube_note.embed = Some(NoteEmbedDescriptor {
        kind: "youtube".to_string(),
        source: "https://www.youtube.com/watch?v=test".to_string(),
        title: None,
    });

    assert_eq!(effective_note_type(&image_note), NoteType::Image);
    assert_eq!(effective_note_type(&pdf_note), NoteType::Pdf);
    assert_eq!(effective_note_type(&youtube_note), NoteType::Youtube);
}

#[test]
fn effective_note_type_falls_back_to_unknown_for_untyped_media_payloads() {
    let mut note = test_note(None, None);
    note.media = Some(NoteMediaData {
        mime_type: "application/octet-stream".to_string(),
        file_path: Some("/tmp/blob.bin".to_string()),
        thumbnail_path: None,
    });
    assert_eq!(effective_note_type(&note), NoteType::Unknown);
}

#[test]
fn hints_and_mime_types_are_trimmed_and_case_insensitive() {
    assert_eq!(note_type_from_hint("  YT "), Some(NoteType::Youtube));
    assert_eq!(note_type_from_hint("JPEG"), Some(NoteType::Image));
    assert_eq!(note_type_from_hint("Markdown"), Some(NoteType::Markdown));
    assert_eq!(note_type_from_hint("   "), None);
    assert_eq!(note_type_from_hint("csv"), None);
    assert_eq!(note_type_from_mime_type(" Image/PNG"), Some(NoteType::Image));
    assert_eq!(note_type_from_mime_type("APPLICATION/PDF"), Some(NoteType::Pdf));
    assert_eq!(note_type_from_mime_type("text/plain"), None);
    assert_eq!(note_type_from_mime_type(""), None);
    assert_eq!(effective_note_type(&test_note(None, None)), NoteType::Markdown);
}

#[test]
fn request_state_builds_loading_and_idle_variants() {
    assert_eq!(RequestState::<u32, String>::idle(), RequestState::Idle);
    assert_eq!(RequestState::<u32, String>::loading(), RequestState::Loading);
}

#[test]
fn request_state_wraps_success_values() {
    assert_eq!(RequestState::<u32, String>::success(42), RequestState::Success(42));
}

#[test]
fn request_state_wraps_error_values() {
    assert_eq!(
        RequestState::<u32, String>::error("daemon failed".to_string()),
        RequestState::Error("daemon failed".to_string())
    );
}
