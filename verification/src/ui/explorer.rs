//! The folder and note tree beside the editor: its rows, where new notes
//! and folders go, renames, and what the unsaved-changes guard allows.
use vstd::prelude::*;
use vstd::string::*;
use crate::client::{slice_chars, ExplorerFolderNode, ExplorerNoteNode};
use crate::text::{
    chars_of, concat, contains, push_char, str_contains, str_eq, string_from_chars, to_lowercase,
    to_uppercase, trim, trim_str, unicode_lower, unicode_upper,
};
use crate::ui::note_types::is_image_word;

verus! {

/// What is selected in the tree.
#[derive(Debug, Clone, PartialEq, Eq)]
pub enum ExplorerSelection {
    Folder { path: String },
    Note { path: String },
}

/// The path of a selection.
pub open spec fn selection_path(s: ExplorerSelection) -> Seq<char> {
    match s {
        ExplorerSelection::Folder { path } => path@,
        ExplorerSelection::Note { path } => path@,
    }
}

impl ExplorerSelection {
    /// The selected item's path.
    pub fn path(&self) -> (r: &str)
        ensures
            r@ == selection_path(*self),
    {
        match self {
            ExplorerSelection::Folder { path } => path.as_str(),
            ExplorerSelection::Note { path } => path.as_str(),
        }
    }
}

/// What the editor allows when another note is about to be opened.
#[derive(Debug, Clone, Copy, PartialEq, Eq, Structural)]
pub enum NoteSwitchDecision {
    Allow,
    Deny,
    SaveThenAllow,
}

/// Whether a row is a folder (and whether it is open) or a note.
#[derive(Debug, Clone, Copy, PartialEq, Eq, Structural)]
pub enum ExplorerRowKind {
    Folder { expanded: bool },
    Note,
}

/// What one row of the tree shows.
#[derive(Debug, Clone, PartialEq, Eq)]
pub struct ExplorerRowData {
    pub icon_name: String,
    pub display_name: String,
    pub path: String,
    pub badge: String,
    pub kind: ExplorerRowKind,
}

/// The icon and badge of a note row for a lower-cased type badge.
pub open spec fn row_indicator(lowered: Option<Seq<char>>) -> (Seq<char>, Seq<char>) {
    match lowered {
        None => ("text-x-markdown"@, Seq::empty()),
        Some(l) => if l == "youtube"@ {
            ("video-x-generic"@, "YT"@)
        } else if l == "pdf"@ {
            ("application-pdf"@, "PDF"@)
        } else if is_image_word(l) {
            ("image-x-generic"@, Seq::empty())
        } else {
            ("text-x-generic"@, unicode_upper(l))
        },
    }
}

/// The icon and badge of a note row, from its type badge.
pub fn note_type_indicator(type_badge: Option<&str>) -> (r: (String, String))
    ensures
        (r.0@, r.1@) == row_indicator(
            match type_badge {
                Some(b) => Some(unicode_lower(b@)),
                None => None,
            },
        ),
{
    match type_badge {
        None => (String::from_str("text-x-markdown"), String::new()),
        Some(b) => {
            let lowered = to_lowercase(b);
            let l = lowered.as_str();
            if str_eq(l, "youtube") {
                (String::from_str("video-x-generic"), String::from_str("YT"))
            } else if str_eq(l, "pdf") {
                (String::from_str("application-pdf"), String::from_str("PDF"))
            } else if str_eq(l, "png") || str_eq(l, "jpg") || str_eq(l, "jpeg") || str_eq(l, "gif")
                || str_eq(l, "webp") || str_eq(l, "svg") || str_eq(l, "image") {
                (String::from_str("image-x-generic"), String::new())
            } else {
                (String::from_str("text-x-generic"), to_uppercase(l))
            }
        },
    }
}

impl ExplorerRowData {
    /// The row of a folder.
    pub fn from_folder(folder: &ExplorerFolderNode) -> (r: Self)
        ensures
            r.icon_name@ == "folder"@,
            r.display_name@ == folder.name@,
            r.path@ == folder.path@,
            r.badge@ == Seq::<char>::empty(),
            r.kind == (ExplorerRowKind::Folder { expanded: folder.expanded }),
    {
        ExplorerRowData {
            icon_name: String::from_str("folder"),
            display_name: folder.name.clone(),
            path: folder.path.clone(),
            badge: String::new(),
            kind: ExplorerRowKind::Folder { expanded: folder.expanded },
        }
    }

    /// The row of a note: its title, followed by its badge in brackets when
    /// it has one.
    pub fn from_note(note: &ExplorerNoteNode) -> (r: Self)
        ensures
            ({
                let (icon, badge) = row_indicator(
                    match note.type_badge {
                        Some(b) => Some(unicode_lower(b@)),
                        None => None,
                    },
                );
                &&& r.icon_name@ == icon
                &&& r.badge@ == badge
                &&& r.display_name@ == if badge.len() == 0 {
                    note.display_title@
                } else {
                    note.display_title@ + "  ["@ + badge + "]"@
                }
            }),
            r.path@ == note.path@,
            r.kind == ExplorerRowKind::Note,
    {
        let (icon_name, badge) = match &note.type_badge {
            Some(b) => note_type_indicator(Some(b.as_str())),
            None => note_type_indicator(None),
        };
        let display_name = if chars_of(badge.as_str()).len() == 0 {
            note.display_title.clone()
        } else {
            let mut d = note.display_title.clone();
            d.append("  [");
            d.append(badge.as_str());
            d.append("]");
            d
        };
        ExplorerRowData {
            icon_name,
            display_name,
            path: note.path.clone(),
            badge,
            kind: ExplorerRowKind::Note,
        }
    }

    /// What selecting this row selects.
    pub fn selection(&self) -> (r: ExplorerSelection)
        ensures
            match self.kind {
                ExplorerRowKind::Folder { .. } => r matches ExplorerSelection::Folder { path } && path@
                    == self.path@,
                ExplorerRowKind::Note => r matches ExplorerSelection::Note { path } && path@ == self.path@,
            },
    {
        match self.kind {
            ExplorerRowKind::Folder { .. } => ExplorerSelection::Folder { path: self.path.clone() },
            ExplorerRowKind::Note => ExplorerSelection::Note { path: self.path.clone() },
        }
    }
}

/// The note a row asks to open: only note rows open notes.
pub fn note_selection_request(row: &ExplorerRowData) -> (r: Option<String>)
    ensures
        match row.kind {
            ExplorerRowKind::Note => r matches Some(p) && p@ == row.path@,
            ExplorerRowKind::Folder { .. } => r is None,
        },
{
    match row.kind {
        ExplorerRowKind::Note => Some(row.path.clone()),
        ExplorerRowKind::Folder { .. } => None,
    }
}

/// The folder state a row asks to store: only folder rows fold.
pub fn folder_toggle_request(row: &ExplorerRowData, expanded: bool) -> (r: Option<(String, bool)>)
    ensures
        match row.kind {
            ExplorerRowKind::Folder { .. } => r matches Some((p, e)) && p@ == row.path@ && e == expanded,
            ExplorerRowKind::Note => r is None,
        },
{
    match row.kind {
        ExplorerRowKind::Folder { .. } => Some((row.path.clone(), expanded)),
        ExplorerRowKind::Note => None,
    }
}

/// The decision the unsaved-changes guard gave, or `Allow` without a guard.
pub fn note_switch_decision(guard_answer: Option<NoteSwitchDecision>) -> (r: NoteSwitchDecision)
    ensures
        r == match guard_answer {
            Some(d) => d,
            None => NoteSwitchDecision::Allow,
        },
{
    match guard_answer {
        Some(d) => d,
        None => NoteSwitchDecision::Allow,
    }
}

/// Whether a note selection goes ahead: only when the guard allows it.
pub fn should_emit_note_selection(decision: NoteSwitchDecision) -> (r: bool)
    ensures
        r == (decision == NoteSwitchDecision::Allow),
{
    decision == NoteSwitchDecision::Allow
}

/// The complaint when the guard blocks an action.
pub open spec fn block_message(decision: NoteSwitchDecision, action: Seq<char>) -> Option<Seq<char>> {
    match decision {
        NoteSwitchDecision::Allow => None,
        NoteSwitchDecision::Deny => Some(action + " is blocked by unsaved note changes."@),
        NoteSwitchDecision::SaveThenAllow => Some(
            action + " requires save-then-switch, which is not implemented yet."@,
        ),
    }
}

/// The complaint when the guard blocks an action (none when it allows it).
pub fn guard_block_message(decision: NoteSwitchDecision, action: &str) -> (r: Option<String>)
    ensures
        match r {
            Some(m) => block_message(decision, action@) == Some(m@),
            None => block_message(decision, action@) is None,
        },
{
    match decision {
        NoteSwitchDecision::Allow => None,
        NoteSwitchDecision::Deny => Some(concat(action, " is blocked by unsaved note changes.")),
        NoteSwitchDecision::SaveThenAllow => Some(
            concat(action, " requires save-then-switch, which is not implemented yet."),
        ),
    }
}

/// Whether a tree mutation may go ahead, with the complaint when not.
pub fn mutation_guard_allows(decision: NoteSwitchDecision, action: &str) -> (r: Result<(), String>)
    ensures
        match r {
            Ok(()) => block_message(decision, action@) is None,
            Err(m) => block_message(decision, action@) == Some(m@),
        },
{
    match guard_block_message(decision, action) {
        Some(message) => Err(message),
        None => Ok(()),
    }
}

/// A name typed by the user, trimmed; empty names are refused.
pub open spec fn input_name(name: Seq<char>) -> Result<Seq<char>, Seq<char>> {
    if trim(name).len() == 0 {
        Err("Name cannot be empty."@)
    } else {
        Ok(trim(name))
    }
}

/// The view of a text result.
pub open spec fn result_view(r: Result<String, String>) -> Result<Seq<char>, Seq<char>> {
    match r {
        Ok(s) => Ok(s@),
        Err(e) => Err(e@),
    }
}

/// A name typed by the user, trimmed; empty names are refused.
pub fn normalized_input_name(name: &str) -> (r: Result<String, String>)
    ensures
        result_view(r) == input_name(name@),
{
    let trimmed = trim_str(name);
    if chars_of(trimmed.as_str()).len() == 0 {
        Err(String::from_str("Name cannot be empty."))
    } else {
        Ok(trimmed)
    }
}

/// The position of the last `/` in `p` (`-1` when there is none).
pub open spec fn last_slash(p: Seq<char>) -> int
    decreases p.len(),
{
    if p.len() == 0 {
        -1
    } else if p.last() == '/' {
        p.len() - 1
    } else {
        last_slash(p.drop_last())
    }
}

/// The directory part of a path: everything before its last `/`, or
/// nothing when it has none.
pub open spec fn parent_dir(p: Seq<char>) -> Seq<char> {
    if last_slash(p) < 0 {
        Seq::empty()
    } else {
        p.subrange(0, last_slash(p))
    }
}

/// The directory part of a path.
pub fn parent_directory(path: &str) -> (r: String)
    ensures
        r@ == parent_dir(path@),
{
    let v = chars_of(path);
    let mut j: usize = v.len();
    assert(v@.subrange(0, v.len() as int) =~= v@);
    while j > 0 && v[j - 1] != '/'
        invariant
            j <= v.len(),
            last_slash(v@.subrange(0, j as int)) == last_slash(v@),
        decreases j,
    {
        assert(v@.subrange(0, j as int).drop_last() =~= v@.subrange(0, j - 1));
        j = j - 1;
    }
    if j == 0 {
        String::new()
    } else {
        string_from_chars(&slice_chars(&v, 0, j - 1))
    }
}

/// A child path under `parent` (the child itself under the root).
pub open spec fn join_container(parent: Seq<char>, child: Seq<char>) -> Seq<char> {
    if parent.len() == 0 {
        child
    } else {
        parent + "/"@ + child
    }
}

/// A child path under `parent`.
pub fn join_container_path(parent: &str, child: &str) -> (r: String)
    ensures
        r@ == join_container(parent@, child@),
{
    if chars_of(parent).len() == 0 {
        String::from_str(child)
    } else {
        let mut r = String::from_str(parent);
        r.append("/");
        r.append(child);
        r
    }
}

/// The last `/` lies within the path, or is -1.
pub proof fn lemma_last_slash_bound(p: Seq<char>)
    ensures
        -1 <= last_slash(p) < p.len(),
    decreases p.len(),
{
    if p.len() > 0 && p.last() != '/' {
        lemma_last_slash_bound(p.drop_last());
    }
}

/// The file name `std::path::Path::file_name` reads from a Unix path: its
/// last component, skipping trailing separators and `.` components; none
/// when no component is left or the last one is `..`.
pub open spec fn path_file_name(p: Seq<char>) -> Option<Seq<char>>
    decreases p.len(),
{
    if p.len() == 0 {
        None
    } else if p.last() == '/' {
        path_file_name(p.drop_last())
    } else {
        let k = last_slash(p);
        let seg = p.subrange(k + 1, p.len() as int);
        if seg == "."@ {
            proof {
                lemma_last_slash_bound(p);
                reveal_strlit(".");
                assert(seg.len() == 1);
            }
            path_file_name(p.subrange(0, k + 1))
        } else if seg == ".."@ {
            None
        } else {
            Some(seg)
        }
    }
}

/// Whether `std::path::Path::extension` finds an extension on a Unix path:
/// its file name has a `.` after the first character.
pub open spec fn path_has_extension(path: Seq<char>) -> bool {
    match path_file_name(path) {
        Some(n) => exists|i: int| 0 < i < n.len() && n[i] == '.',
        None => false,
    }
}

/// Asks `std::path::Path::extension` whether `path` has an extension. On a
/// Unix path it has one when the file name (the last component, trailing
/// separators and `.` components skipped, `..` giving none) holds a `.`
/// after its first character.
#[verifier::external_body]
fn has_extension(path: &str) -> (r: bool)
    ensures
        r == path_has_extension(path@),
{
    std::path::Path::new(path).extension().is_some()
}

/// A note name: trimmed, refused when empty, `.md` added when it has no
/// extension.
pub open spec fn note_name(name: Seq<char>) -> Result<Seq<char>, Seq<char>> {
    match input_name(name) {
        Err(e) => Err(e),
        Ok(t) => Ok(if path_has_extension(t) {
            t
        } else {
            t + ".md"@
        }),
    }
}

/// A note name: trimmed, refused when empty, `.md` added when it has no
/// extension.
pub fn normalize_note_name(name: &str) -> (r: Result<String, String>)
    ensures
        result_view(r) == note_name(name@),
{
    let trimmed = normalized_input_name(name)?;
    if has_extension(trimmed.as_str()) {
        Ok(trimmed)
    } else {
        let mut r = trimmed;
        r.append(".md");
        Ok(r)
    }
}

/// The folder new items go into: the selected folder, the selected note's
/// folder, or the root.
pub open spec fn container_of(selection: Option<ExplorerSelection>) -> Seq<char> {
    match selection {
        Some(ExplorerSelection::Folder { path }) => path@,
        Some(ExplorerSelection::Note { path }) => parent_dir(path@),
        None => Seq::empty(),
    }
}

/// The folder new items go into.
pub fn selected_container_path(selection: Option<&ExplorerSelection>) -> (r: String)
    ensures
        r@ == container_of(
            match selection {
                Some(s) => Some(*s),
                None => None,
            },
        ),
{
    match selection {
        Some(ExplorerSelection::Folder { path }) => path.clone(),
        Some(ExplorerSelection::Note { path }) => parent_directory(path.as_str()),
        None => String::new(),
    }
}

/// The view of an optional selection reference.
pub open spec fn sel_opt(selection: Option<&ExplorerSelection>) -> Option<ExplorerSelection> {
    match selection {
        Some(s) => Some(*s),
        None => None,
    }
}

/// Where a new note with the requested name goes.
pub fn note_creation_target(selection: Option<&ExplorerSelection>, requested_name: &str) -> (r: Result<
    String,
    String,
>)
    ensures
        result_view(r) == match note_name(requested_name@) {
            Ok(n) => Ok(join_container(container_of(sel_opt(selection)), n)),
            Err(e) => Err(e),
        },
{
    let name = normalize_note_name(requested_name)?;
    let container = selected_container_path(selection);
    Ok(join_container_path(container.as_str(), name.as_str()))
}

/// Where a new folder with the requested name goes.
pub fn directory_creation_target(selection: Option<&ExplorerSelection>, requested_name: &str) -> (r:
    Result<String, String>)
    ensures
        result_view(r) == match input_name(requested_name@) {
            Ok(n) => Ok(join_container(container_of(sel_opt(selection)), n)),
            Err(e) => Err(e),
        },
{
    let name = normalized_input_name(requested_name)?;
    let container = selected_container_path(selection);
    Ok(join_container_path(container.as_str(), name.as_str()))
}

/// The new path a rename asks for: a name holding `/` is a full target
/// path; otherwise the item keeps its folder. Notes get `.md` when the name
/// has no extension.
pub open spec fn rename_spec(selection: ExplorerSelection, requested: Seq<char>) -> Result<
    Seq<char>,
    Seq<char>,
> {
    let t = trim(requested);
    let leaf = match selection {
        ExplorerSelection::Folder { .. } => input_name(t),
        ExplorerSelection::Note { .. } => note_name(t),
    };
    if contains(t, "/"@) {
        leaf
    } else {
        match leaf {
            Ok(l) => Ok(join_container(parent_dir(selection_path(selection)), l)),
            Err(e) => Err(e),
        }
    }
}

/// The new path a rename asks for.
pub fn rename_target(selection: &ExplorerSelection, requested_name: &str) -> (r: Result<String, String>)
    ensures
        result_view(r) == rename_spec(*selection, requested_name@),
{
    let trimmed = trim_str(requested_name);
    let t = trimmed.as_str();
    let leaf = match selection {
        ExplorerSelection::Folder { .. } => normalized_input_name(t),
        ExplorerSelection::Note { .. } => normalize_note_name(t),
    };
    if str_contains(t, "/") {
        return leaf;
    }
    let leaf = leaf?;
    let parent = parent_directory(selection.path());
    Ok(join_container_path(parent.as_str(), leaf.as_str()))
}

/// Whether a selection can be renamed: the root folder (empty path) cannot.
pub fn can_rename_selection(selection: &ExplorerSelection) -> (r: bool)
    ensures
        r == (trim(selection_path(*selection)).len() > 0),
{
    chars_of(trim_str(selection.path()).as_str()).len() > 0
}

/// What the tree does after it reloads.
#[derive(Debug, Clone, PartialEq, Eq)]
pub enum RefreshFollowUp {
    PreserveCurrent(Option<ExplorerSelection>),
    Focus(ExplorerSelection),
    ActivateNote(String),
    ClearSelection,
    FocusAndClear(ExplorerSelection),
}

/// What to select once an item is removed: its folder, unless it was at
/// the root.
pub fn fallback_selection_after_removal(selection: &ExplorerSelection) -> (r: Option<ExplorerSelection>)
    ensures
        parent_dir(selection_path(*selection)).len() == 0 ==> r is None,
        parent_dir(selection_path(*selection)).len() > 0 ==> (r matches Some(ExplorerSelection::Folder { path })
            && path@ == parent_dir(selection_path(*selection))),
{
    let parent = parent_directory(selection.path());
    if chars_of(parent.as_str()).len() == 0 {
        None
    } else {
        Some(ExplorerSelection::Folder { path: parent })
    }
}

/// What follows removing a folder: focus its parent and clear the active
/// note, or just clear the selection when it was at the root.
pub fn folder_removal_follow_up(path: &str) -> (r: RefreshFollowUp)
    ensures
        parent_dir(path@).len() == 0 ==> r == RefreshFollowUp::ClearSelection,
        parent_dir(path@).len() > 0 ==> (r matches RefreshFollowUp::FocusAndClear(
            ExplorerSelection::Folder { path: p },
        ) && p@ == parent_dir(path@)),
{
    let selection = ExplorerSelection::Folder { path: String::from_str(path) };
    match fallback_selection_after_removal(&selection) {
        Some(s) => RefreshFollowUp::FocusAndClear(s),
        None => RefreshFollowUp::ClearSelection,
    }
}

/// A new note or folder always lands inside the selected container: its
/// path is the container's path, a `/`, then the new name (or just the name
/// at the root).
pub proof fn law_created_items_land_in_container(selection: Option<ExplorerSelection>, name: Seq<char>)
    requires
        trim(name).len() > 0,
    ensures
        input_name(name) == Ok::<Seq<char>, Seq<char>>(trim(name)),
        container_of(selection).len() > 0 ==> join_container(container_of(selection), trim(name)).subrange(
            0,
            container_of(selection).len() as int,
        ) == container_of(selection),
        container_of(selection).len() == 0 ==> join_container(container_of(selection), trim(name))
            == trim(name),
{
    let c = container_of(selection);
    if c.len() > 0 {
        assert(join_container(c, trim(name)).subrange(0, c.len() as int) =~= c);
    }
}

// ===== Cursor changes in the tree =====

/// What the tree does to its own selection after a cursor change.
#[derive(Debug, Clone, PartialEq, Eq)]
pub enum CursorRestore {
    /// Leave the tree as it is.
    Keep,
    /// Select this earlier item again, silently; if it is no longer in the
    /// tree, clear the selection as `Clear` does.
    SelectPrevious(ExplorerSelection),
    /// Clear the tree's selection and announce that nothing is selected.
    Clear,
}

/// The effects of one cursor change, in the order they happen: the item
/// announced as selected, the note asked for, the status shown as an
/// error, the tree's own restoring; and the selected item and the
/// activation flag afterwards.
#[derive(Debug, Clone, PartialEq, Eq)]
pub struct CursorOutcome {
    pub announced: Option<ExplorerSelection>,
    pub open_note: Option<String>,
    pub status: Option<String>,
    pub restore: CursorRestore,
    pub selected: Option<ExplorerSelection>,
    pub suppress_activation: bool,
}

/// The selection a row stands for.
pub open spec fn row_selection(row: ExplorerRowData) -> ExplorerSelection {
    match row.kind {
        ExplorerRowKind::Folder { .. } => ExplorerSelection::Folder { path: row.path },
        ExplorerRowKind::Note => ExplorerSelection::Note { path: row.path },
    }
}

/// The note whose opening the switch guard must first be asked about after
/// a cursor change: the row's note, unless the row is a folder, there is no
/// row, or activation is suppressed (the tree moved its own cursor).
pub fn cursor_guard_request(row: &Option<ExplorerRowData>, suppress_activation: bool) -> (r: Option<String>)
    ensures
        match row {
            Some(x) => if !suppress_activation && x.kind == ExplorerRowKind::Note {
                r matches Some(p) && p == x.path
            } else {
                r is None
            },
            None => r is None,
        },
{
    match row {
        Some(x) => if !suppress_activation && x.kind == ExplorerRowKind::Note {
            Some(x.path.clone())
        } else {
            None
        },
        None => None,
    }
}

/// The selection a row stands for, built afresh.
fn selection_of(x: &ExplorerRowData) -> (r: ExplorerSelection)
    ensures
        r == row_selection(*x),
{
    match x.kind {
        ExplorerRowKind::Folder { .. } => ExplorerSelection::Folder { path: x.path.clone() },
        ExplorerRowKind::Note => ExplorerSelection::Note { path: x.path.clone() },
    }
}

/// One cursor change in the tree. With no row, nothing is selected and the
/// activation flag is cleared. With a row, its item is selected and
/// announced; a suppressed activation only clears the flag; a folder does
/// nothing more; a note is opened when the switch guard (`guard_answer`,
/// none when no guard is set) allows it. Otherwise the block is reported
/// and the previous selection comes back, or, with none, the selection is
/// cleared with activation suppressed.
pub fn explorer_cursor_step(
    previous: Option<ExplorerSelection>,
    row: Option<ExplorerRowData>,
    suppress_activation: bool,
    guard_answer: Option<NoteSwitchDecision>,
) -> (r: CursorOutcome)
    ensures
        match row {
            None => r == CursorOutcome {
                announced: None,
                open_note: None,
                status: None,
                restore: CursorRestore::Keep,
                selected: None,
                suppress_activation: false,
            },
            Some(x) => {
                let sel = row_selection(x);
                let d = match guard_answer {
                    Some(a) => a,
                    None => NoteSwitchDecision::Allow,
                };
                &&& r.announced == Some(sel)
                &&& if suppress_activation || x.kind != ExplorerRowKind::Note {
                    &&& r.open_note is None
                    &&& r.status is None
                    &&& r.restore == CursorRestore::Keep
                    &&& r.selected == Some(sel)
                    &&& !r.suppress_activation
                } else if d == NoteSwitchDecision::Allow {
                    &&& r.open_note == Some(x.path)
                    &&& r.status is None
                    &&& r.restore == CursorRestore::Keep
                    &&& r.selected == Some(sel)
                    &&& !r.suppress_activation
                } else {
                    &&& r.open_note is None
                    &&& r.status matches Some(m) && Some(m@) == block_message(d, "Switching notes"@)
                    &&& match previous {
                        Some(p) => r.restore == CursorRestore::SelectPrevious(p) && r.selected == Some(sel)
                            && !r.suppress_activation,
                        None => r.restore == CursorRestore::Clear && r.selected is None
                            && r.suppress_activation,
                    }
                }
            },
        },
{
    match row {
        None => CursorOutcome {
            announced: None,
            open_note: None,
            status: None,
            restore: CursorRestore::Keep,
            selected: None,
            suppress_activation: false,
        },
        Some(x) => {
            let is_note = x.kind == ExplorerRowKind::Note;
            let sel = selection_of(&x);
            if suppress_activation || !is_note {
                return CursorOutcome {
                    announced: Some(selection_of(&x)),
                    open_note: None,
                    status: None,
                    restore: CursorRestore::Keep,
                    selected: Some(sel),
                    suppress_activation: false,
                };
            }
            let d = note_switch_decision(guard_answer);
            match guard_block_message(d, "Switching notes") {
                None => CursorOutcome {
                    announced: Some(selection_of(&x)),
                    open_note: Some(x.path),
                    status: None,
                    restore: CursorRestore::Keep,
                    selected: Some(sel),
                    suppress_activation: false,
                },
                Some(message) => match previous {
                    Some(p) => CursorOutcome {
                        announced: Some(selection_of(&x)),
                        open_note: None,
                        status: Some(message),
                        restore: CursorRestore::SelectPrevious(p),
                        selected: Some(sel),
                        suppress_activation: false,
                    },
                    None => CursorOutcome {
                        announced: Some(sel),
                        open_note: None,
                        status: Some(message),
                        restore: CursorRestore::Clear,
                        selected: None,
                        suppress_activation: true,
                    },
                },
            }
        },
    }
}

} // verus!
