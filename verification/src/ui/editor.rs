//! The note editor's modes, document state, and the text edits its
//! formatting commands make.
//!
//! Texts are character sequences and selections are character offsets, as
//! the text buffer counts them.
use vstd::prelude::*;
use vstd::string::*;
use crate::client::{NoteData, NoteModeAvailability, NoteType};
use crate::ui::note_types::{available_modes_for_note_type, modes_for};

verus! {

/// How the editor shows a note.
#[derive(Debug, Clone, Copy, PartialEq, Eq, Structural)]
pub enum EditorMode {
    Meta,
    Source,
    Edit,
    View,
}

/// A request to store a note's text.
#[derive(Debug, Clone, PartialEq, Eq)]
pub struct SaveRequest {
    pub path: String,
    pub content: String,
}

/// The note being edited and whether it has unsaved changes.
#[derive(Debug, Clone)]
pub struct EditorDocumentState {
    pub note: Option<NoteData>,
    pub modified: bool,
}

impl Default for EditorDocumentState {
    /// No note, nothing modified.
    fn default() -> (r: Self)
        ensures
            r.note is None,
            !r.modified,
    {
        EditorDocumentState { note: None, modified: false }
    }
}

impl EditorDocumentState {
    /// Starts editing `note`, with no unsaved changes.
    pub fn load_note(&mut self, note: NoteData)
        ensures
            final(self).note == Some(note),
            !final(self).modified,
    {
        self.note = Some(note);
        self.modified = false;
    }

    /// Stops editing.
    pub fn clear(&mut self)
        ensures
            final(self).note is None,
            !final(self).modified,
    {
        self.note = None;
        self.modified = false;
    }

    /// Records an edit; says whether the state changed (it was clean).
    pub fn mark_dirty(&mut self) -> (changed: bool)
        ensures
            (changed, final(self).modified) == after_mark(old(self).modified),
            final(self).note == old(self).note,
    {
        if self.modified {
            return false;
        }
        self.modified = true;
        true
    }

    /// Records a save; says whether the state changed (it was dirty).
    pub fn set_clean(&mut self) -> (changed: bool)
        ensures
            (changed, final(self).modified) == after_clean(old(self).modified),
            final(self).note == old(self).note,
    {
        if !self.modified {
            return false;
        }
        self.modified = false;
        true
    }

    /// Makes the saved text and title the new baseline of the open note.
    pub fn apply_saved_content(&mut self, content: &str, title: &str)
        ensures
            final(self).modified == old(self).modified,
            match old(self).note {
                None => final(self).note is None,
                Some(n) => final(self).note matches Some(m) && m.content@ == content@ && m.title@
                    == title@ && m == (NoteData { content: m.content, title: m.title, ..n }),
            },
    {
        match &mut self.note {
            Some(note) => {
                note.content = String::from_str(content);
                note.title = String::from_str(title);
            },
            None => {},
        }
    }

    /// Whether there are unsaved changes.
    pub fn is_modified(&self) -> (r: bool)
        ensures
            r == self.modified,
    {
        self.modified
    }

    /// What to store when saving the current text `content`: nothing when
    /// there are no unsaved changes, an error when changes exist without a
    /// note, else the note's path with `content`.
    pub fn save_request(&self, content: &str) -> (r: Result<Option<SaveRequest>, String>)
        ensures
            !self.modified ==> r == Ok::<Option<SaveRequest>, String>(None),
            self.modified && self.note is None ==> (r matches Err(e) && e@
                == "Cannot save without an active note"@),
            self.modified && self.note is Some ==> (r matches Ok(Some(q)) && q.path@
                == self.note->0.path@ && q.content@ == content@),
    {
        if !self.modified {
            return Ok(None);
        }
        match &self.note {
            None => Err(String::from_str("Cannot save without an active note")),
            Some(note) => Ok(
                Some(SaveRequest { path: note.path.clone(), content: String::from_str(content) }),
            ),
        }
    }
}

/// What marking an edit does to the dirty flag: (changed, modified after).
pub open spec fn after_mark(modified: bool) -> (bool, bool) {
    (!modified, true)
}

/// What recording a save does to the dirty flag: (changed, modified after).
pub open spec fn after_clean(modified: bool) -> (bool, bool) {
    (modified, false)
}

/// The dirty flag is a two-state switch: marking reports a change exactly
/// when the note was clean, a second mark never does, and a save after an
/// edit always reports a change and leaves the note clean; the two undo
/// each other.
pub proof fn law_dirty_flag_toggles(modified: bool)
    ensures
        after_mark(modified).0 == !modified,
        !after_mark(after_mark(modified).1).0,
        after_clean(after_mark(modified).1) == (true, false),
        after_mark(after_clean(modified).1).1 == true,
        after_clean(after_clean(modified).1).0 == false,
{
}

/// The text of the open note, or nothing.
pub fn loaded_note_content(note: Option<&NoteData>) -> (r: String)
    ensures
        match note {
            Some(n) => r@ == n.content@,
            None => r@ == Seq::<char>::empty(),
        },
{
    match note {
        Some(n) => n.content.clone(),
        None => String::new(),
    }
}

/// The modes the editor offers for a note: those the daemon names, else the
/// defaults of its declared type (markdown when none is declared).
pub fn available_modes_for_note(note: &NoteData) -> (r: NoteModeAvailability)
    ensures
        r == match note.available_modes {
            Some(m) => m,
            None => modes_for(
                match note.note_type {
                    Some(t) => t,
                    None => NoteType::Markdown,
                },
            ),
        },
{
    match note.available_modes {
        Some(m) => m,
        None => available_modes_for_note_type(
            match note.note_type {
                Some(t) => t,
                None => NoteType::Markdown,
            },
        ),
    }
}

/// The mode a note opens in: edit, else view, else source, else meta,
/// whichever is first available; source when none is.
pub open spec fn default_mode(m: NoteModeAvailability) -> EditorMode {
    if m.edit {
        EditorMode::Edit
    } else if m.view {
        EditorMode::View
    } else if m.source {
        EditorMode::Source
    } else if m.meta {
        EditorMode::Meta
    } else {
        EditorMode::Source
    }
}

/// The mode a note opens in, given the modes it allows.
pub fn default_editor_mode(modes: &NoteModeAvailability) -> (r: EditorMode)
    ensures
        r == default_mode(*modes),
{
    if modes.edit {
        EditorMode::Edit
    } else if modes.view {
        EditorMode::View
    } else if modes.source {
        EditorMode::Source
    } else if modes.meta {
        EditorMode::Meta
    } else {
        EditorMode::Source
    }
}

/// The mode a note opens in.
pub fn default_mode_for_note(note: &NoteData) -> (r: EditorMode)
    ensures
        r == default_mode(
            match note.available_modes {
                Some(m) => m,
                None => modes_for(
                    match note.note_type {
                        Some(t) => t,
                        None => NoteType::Markdown,
                    },
                ),
            },
        ),
{
    default_editor_mode(&available_modes_for_note(note))
}

/// A note always opens in a mode it allows, unless it allows none.
pub proof fn law_default_mode_is_available(m: NoteModeAvailability)
    ensures
        (m.meta || m.source || m.edit || m.view) ==> match default_mode(m) {
            EditorMode::Meta => m.meta,
            EditorMode::Source => m.source,
            EditorMode::Edit => m.edit,
            EditorMode::View => m.view,
        },
{
}

} // verus!
