//! What kind of note a payload holds, and what that allows.
use vstd::prelude::*;
use vstd::string::*;
use crate::client::{NoteData, NoteModeAvailability, NoteType};
use crate::text::{
    ascii_lower_seq, chars_of, eq_ignore_case, has_prefix_at, seq_eq, str_eq, str_eq_ignore_case,
    to_ascii_lower, to_lowercase, to_uppercase, trim, trim_str, unicode_lower, unicode_upper,
};

verus! {

/// The icon and badge text that mark a note's type in lists.
#[derive(Debug, Clone)]
pub struct NoteTypeIndicator {
    pub icon_name: String,
    pub badge: String,
}

/// The modes each note type allows when the daemon names none.
pub open spec fn modes_for(t: NoteType) -> NoteModeAvailability {
    match t {
        NoteType::Markdown => NoteModeAvailability { meta: true, source: true, edit: true, view: true },
        NoteType::Pdf | NoteType::Image => NoteModeAvailability {
            meta: false,
            source: false,
            edit: false,
            view: true,
        },
        NoteType::Youtube => NoteModeAvailability { meta: true, source: false, edit: false, view: true },
        NoteType::Unknown => NoteModeAvailability { meta: true, source: true, edit: false, view: true },
    }
}

/// The modes a note type allows by default.
pub fn available_modes_for_note_type(note_type: NoteType) -> (r: NoteModeAvailability)
    ensures
        r == modes_for(note_type),
{
    match note_type {
        NoteType::Markdown => NoteModeAvailability { meta: true, source: true, edit: true, view: true },
        NoteType::Pdf | NoteType::Image => NoteModeAvailability {
            meta: false,
            source: false,
            edit: false,
            view: true,
        },
        NoteType::Youtube => NoteModeAvailability { meta: true, source: false, edit: false, view: true },
        NoteType::Unknown => NoteModeAvailability { meta: true, source: true, edit: false, view: true },
    }
}

/// Whether `l` names one of the image formats.
pub open spec fn is_image_word(l: Seq<char>) -> bool {
    l == "png"@ || l == "jpg"@ || l == "jpeg"@ || l == "gif"@ || l == "webp"@ || l == "svg"@ || l
        == "image"@
}

/// The note type a free-form hint (a badge or an embed kind) names.
pub open spec fn hint_type(hint: Seq<char>) -> Option<NoteType> {
    let t = trim(hint);
    if t.len() == 0 {
        None
    } else if eq_ignore_case(t, "youtube"@) || eq_ignore_case(t, "yt"@) {
        Some(NoteType::Youtube)
    } else if eq_ignore_case(t, "pdf"@) {
        Some(NoteType::Pdf)
    } else if is_image_word(ascii_lower_seq(t)) {
        Some(NoteType::Image)
    } else if eq_ignore_case(t, "markdown"@) || eq_ignore_case(t, "md"@) {
        Some(NoteType::Markdown)
    } else {
        None
    }
}

/// The note type a hint names, if any.
pub fn note_type_from_hint(hint: &str) -> (r: Option<NoteType>)
    ensures
        r == hint_type(hint@),
{
    let t = trim_str(hint);
    let ts = t.as_str();
    if chars_of(ts).len() == 0 {
        return None;
    }
    if str_eq_ignore_case(ts, "youtube") || str_eq_ignore_case(ts, "yt") {
        return Some(NoteType::Youtube);
    }
    if str_eq_ignore_case(ts, "pdf") {
        return Some(NoteType::Pdf);
    }
    let l = to_ascii_lower(&chars_of(ts));
    if seq_eq(&l, &chars_of("png")) || seq_eq(&l, &chars_of("jpg")) || seq_eq(&l, &chars_of("jpeg"))
        || seq_eq(&l, &chars_of("gif")) || seq_eq(&l, &chars_of("webp")) || seq_eq(
        &l,
        &chars_of("svg"),
    ) || seq_eq(&l, &chars_of("image")) {
        return Some(NoteType::Image);
    }
    if str_eq_ignore_case(ts, "markdown") || str_eq_ignore_case(ts, "md") {
        return Some(NoteType::Markdown);
    }
    None
}

/// The note type a MIME type names, if any.
pub open spec fn mime_type(m: Seq<char>) -> Option<NoteType> {
    let t = trim(m);
    let l = ascii_lower_seq(t);
    if t.len() == 0 {
        None
    } else if eq_ignore_case(t, "application/pdf"@) {
        Some(NoteType::Pdf)
    } else if l.len() >= 6 && l.subrange(0, 6) == "image/"@ {
        Some(NoteType::Image)
    } else {
        None
    }
}

/// The note type a MIME type names, if any.
pub fn note_type_from_mime_type(mime: &str) -> (r: Option<NoteType>)
    ensures
        r == mime_type(mime@),
{
    let t = trim_str(mime);
    let ts = t.as_str();
    if chars_of(ts).len() == 0 {
        return None;
    }
    if str_eq_ignore_case(ts, "application/pdf") {
        return Some(NoteType::Pdf);
    }
    let l = to_ascii_lower(&chars_of(ts));
    let prefix = chars_of("image/");
    proof {
        reveal_strlit("image/");
    }
    if has_prefix_at(&l, 0, &prefix) {
        return Some(NoteType::Image);
    }
    None
}

/// The note type a payload suggests when the daemon gives none.
pub open spec fn inferred_type(note: NoteData) -> NoteType {
    let from_badge = match note.type_badge {
        Some(b) => hint_type(b@),
        None => None,
    };
    let from_embed = match note.embed {
        Some(e) => hint_type(e.kind@),
        None => None,
    };
    let from_media = match note.media {
        Some(m) => mime_type(m.mime_type@),
        None => None,
    };
    if from_badge is Some {
        from_badge->0
    } else if from_embed is Some {
        from_embed->0
    } else if from_media is Some {
        from_media->0
    } else if note.media is Some || note.embed is Some {
        NoteType::Unknown
    } else {
        NoteType::Markdown
    }
}

fn infer_note_type_from_payload(note: &NoteData) -> (r: NoteType)
    ensures
        r == inferred_type(*note),
{
    if let Some(b) = &note.type_badge {
        if let Some(t) = note_type_from_hint(b.as_str()) {
            return t;
        }
    }
    if let Some(e) = &note.embed {
        if let Some(t) = note_type_from_hint(e.kind.as_str()) {
            return t;
        }
    }
    if let Some(m) = &note.media {
        if let Some(t) = note_type_from_mime_type(m.mime_type.as_str()) {
            return t;
        }
    }
    if note.media.is_some() || note.embed.is_some() {
        NoteType::Unknown
    } else {
        NoteType::Markdown
    }
}

/// The type a note is treated as: the one the daemon names, else the one
/// its payload suggests.
pub open spec fn effective_type(note: NoteData) -> NoteType {
    match note.note_type {
        Some(t) => t,
        None => inferred_type(note),
    }
}

/// The type a note is treated as.
pub fn effective_note_type(note: &NoteData) -> (r: NoteType)
    ensures
        r == effective_type(*note),
{
    match note.note_type {
        Some(t) => t,
        None => infer_note_type_from_payload(note),
    }
}

/// The modes a note can be shown in: those the daemon names, else the
/// defaults of its effective type.
pub fn available_modes_for_note(note: &NoteData) -> (r: NoteModeAvailability)
    ensures
        r == match note.available_modes {
            Some(m) => m,
            None => modes_for(effective_type(*note)),
        },
{
    match note.available_modes {
        Some(m) => m,
        None => available_modes_for_note_type(effective_note_type(note)),
    }
}

/// The icon for a lower-cased badge, and the badge text before it is
/// upper-cased.
pub open spec fn indicator_for(lowered: Option<Seq<char>>) -> (Seq<char>, Seq<char>) {
    match lowered {
        None => ("text-x-markdown"@, Seq::empty()),
        Some(l) => if l == "youtube"@ {
            ("video-x-generic"@, "YT"@)
        } else if l == "pdf"@ {
            ("application-pdf"@, "PDF"@)
        } else if is_image_word(l) {
            ("image-x-generic"@, Seq::empty())
        } else if l == "md"@ || l == "markdown"@ {
            ("text-x-markdown"@, Seq::empty())
        } else {
            ("text-x-generic"@, l)
        },
    }
}

/// Picks the icon and badge text for a badge that was already lower-cased.
pub fn indicator_parts(lowered: Option<&str>) -> (r: (String, String))
    ensures
        (r.0@, r.1@) == indicator_for(
            match lowered {
                Some(l) => Some(l@),
                None => None,
            },
        ),
{
    match lowered {
        None => (String::from_str("text-x-markdown"), String::new()),
        Some(l) => {
            if str_eq(l, "youtube") {
                (String::from_str("video-x-generic"), String::from_str("YT"))
            } else if str_eq(l, "pdf") {
                (String::from_str("application-pdf"), String::from_str("PDF"))
            } else if str_eq(l, "png") || str_eq(l, "jpg") || str_eq(l, "jpeg") || str_eq(l, "gif")
                || str_eq(l, "webp") || str_eq(l, "svg") || str_eq(l, "image") {
                (String::from_str("image-x-generic"), String::new())
            } else if str_eq(l, "md") || str_eq(l, "markdown") {
                (String::from_str("text-x-markdown"), String::new())
            } else {
                (String::from_str("text-x-generic"), String::from_str(l))
            }
        },
    }
}

/// The icon and badge for a note's type badge: the badge is lower-cased to
/// pick the entry, and the entry's text is shown upper-cased.
pub fn note_type_indicator(type_badge: Option<&str>) -> (r: NoteTypeIndicator)
    ensures
        ({
            let parts = indicator_for(
                match type_badge {
                    Some(b) => Some(unicode_lower(b@)),
                    None => None,
                },
            );
            r.icon_name@ == parts.0 && r.badge@ == unicode_upper(parts.1)
        }),
{
    let lowered = match type_badge {
        Some(b) => Some(to_lowercase(b)),
        None => None,
    };
    let (icon, badge) = match &lowered {
        Some(l) => indicator_parts(Some(l.as_str())),
        None => indicator_parts(None),
    };
    NoteTypeIndicator { icon_name: icon, badge: to_uppercase(badge.as_str()) }
}

/// Only Markdown notes offer the rich editor by default, and every type
/// can at least be viewed.
pub proof fn law_only_markdown_is_edited(t: NoteType)
    ensures
        modes_for(t).edit <==> t == NoteType::Markdown,
        modes_for(t).view,
{
}

/// A hint names an image exactly when its trimmed text, lower-cased, is
/// one of the image formats `png`, `jpg`, `jpeg`, `gif`, `webp`, `svg` or
/// the word `image`, in any ASCII case and with any surrounding white
/// space; and the explorer's row indicator shows those same words as
/// images.
pub proof fn law_image_hints(h: Seq<char>)
    ensures
        ({
            let l = ascii_lower_seq(trim(h));
            l == "png"@ || l == "jpg"@ || l == "jpeg"@ || l == "gif"@ || l == "webp"@ || l == "svg"@ || l
                == "image"@
        }) <==> hint_type(h) == Some(NoteType::Image),
        hint_type(h) == Some(NoteType::Image) <==> indicator_for(Some(ascii_lower_seq(trim(h)))).0
            == "image-x-generic"@,
{
    reveal_strlit("png");
    reveal_strlit("jpg");
    reveal_strlit("jpeg");
    reveal_strlit("gif");
    reveal_strlit("webp");
    reveal_strlit("svg");
    reveal_strlit("image");
    reveal_strlit("youtube");
    reveal_strlit("yt");
    reveal_strlit("pdf");
    reveal_strlit("image-x-generic");
    reveal_strlit("video-x-generic");
    reveal_strlit("application-pdf");
    reveal_strlit("text-x-markdown");
    reveal_strlit("text-x-generic");
    assert("image-x-generic"@ != "video-x-generic"@) by {
        assert("image-x-generic"@[0] != "video-x-generic"@[0]);
    }
    assert("image-x-generic"@ != "application-pdf"@) by {
        assert("image-x-generic"@[0] != "application-pdf"@[0]);
    }
    assert("image-x-generic"@ != "text-x-markdown"@) by {
        assert("image-x-generic"@[0] != "text-x-markdown"@[0]);
    }
    assert("image-x-generic"@ != "text-x-generic"@) by {
        assert("image-x-generic"@[0] != "text-x-generic"@[0]);
    }
    let t = trim(h);
    let l = ascii_lower_seq(t);
    assert(ascii_lower_seq("youtube"@) =~= "youtube"@);
    assert(ascii_lower_seq("yt"@) =~= "yt"@);
    assert(ascii_lower_seq("pdf"@) =~= "pdf"@);
    assert(l.len() == t.len());
    if is_image_word(l) {
        assert(l != "youtube"@ && l != "yt"@ && l != "pdf"@) by {
            if l == "pdf"@ {
                assert(l[1] == 'd');
            }
        }
        assert(t.len() > 0);
        assert(!eq_ignore_case(t, "youtube"@));
        assert(!eq_ignore_case(t, "yt"@));
        assert(!eq_ignore_case(t, "pdf"@));
        assert(hint_type(h) == Some(NoteType::Image));
    }
}

} // verus!
