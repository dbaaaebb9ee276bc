//! Client side of the `knotd` JSON-RPC protocol.
//!
//! The transport (a Unix socket) and the JSON encoding are driven by the
//! application; this module holds the data the daemon sends, the framing
//! rules of the wire format, the request numbering, and how replies are
//! turned into errors.
use vstd::prelude::*;
use vstd::string::*;
use crate::text::{
    all_digits, chars_of, concat, contains, decimal, digit_char, digits_value, eq_ignore_case, is_digit,
    is_space, lead_spaces, parse_usize, parse_usize_str, seq_eq, str_contains, to_ascii_lower, trail_spaces,
    trim, trim_bounds, trim_start, u64_to_string, unsigned_body,
};

verus! {

/// A JSON value as the daemon sent it, carried through unread.
#[verifier::external_type_specification]
#[verifier::external_body]
pub struct ExJsonValue(serde_json::Value);

/// Ways a call to the daemon can fail.
#[derive(Debug, Clone, PartialEq, Eq, Structural)]
pub enum ClientErrorKind {
    Io,
    Json,
    Utf8,
    Rpc,
    Connection,
    MissingResult,
    NoVaultOpen,
}

/// A failed call to the daemon: its kind and the detail text that goes with it.
#[derive(Debug, Clone)]
pub struct ClientError {
    pub kind: ClientErrorKind,
    pub detail: String,
}

/// The text shown for an error of kind `kind` with detail `detail`.
pub open spec fn client_error_text(kind: ClientErrorKind, detail: Seq<char>) -> Seq<char> {
    match kind {
        ClientErrorKind::Io => "IO error: "@ + detail,
        ClientErrorKind::Json => "JSON error: "@ + detail,
        ClientErrorKind::Utf8 => "UTF-8 error: "@ + detail,
        ClientErrorKind::Rpc => "RPC error: "@ + detail,
        ClientErrorKind::Connection => "Connection error: "@ + detail,
        ClientErrorKind::MissingResult => "Missing result in response"@,
        ClientErrorKind::NoVaultOpen => "No vault is open"@,
    }
}

impl ClientError {
    /// An error of the given kind carrying `detail`.
    pub fn new(kind: ClientErrorKind, detail: &str) -> (r: Self)
        ensures
            r.kind == kind,
            r.detail@ == detail@,
    {
        ClientError { kind, detail: String::from_str(detail) }
    }

    /// The text shown for this error.
    pub fn message(&self) -> (r: String)
        ensures
            r@ == client_error_text(self.kind, self.detail@),
    {
        match self.kind {
            ClientErrorKind::Io => concat("IO error: ", self.detail.as_str()),
            ClientErrorKind::Json => concat("JSON error: ", self.detail.as_str()),
            ClientErrorKind::Utf8 => concat("UTF-8 error: ", self.detail.as_str()),
            ClientErrorKind::Rpc => concat("RPC error: ", self.detail.as_str()),
            ClientErrorKind::Connection => concat("Connection error: ", self.detail.as_str()),
            ClientErrorKind::MissingResult => String::from_str("Missing result in response"),
            ClientErrorKind::NoVaultOpen => String::from_str("No vault is open"),
        }
    }
}

/// A connection target for the daemon.
#[derive(Debug, Clone)]
pub struct KnotdClient {
    pub socket_path: String,
}

impl KnotdClient {
    /// A client for the configured socket when there is one, else for the
    /// default socket under `XDG_RUNTIME_DIR`, else for the documented
    /// default location itself.
    pub fn new(configured: Option<&str>, xdg_runtime_dir: Option<&str>) -> (r: Self)
        ensures
            match configured {
                Some(p) => r.socket_path@ == p@,
                None => match xdg_runtime_dir {
                    Some(d) => r.socket_path@ == crate::runtime_contract::socket_under(d@),
                    None => r.socket_path@ == "$XDG_RUNTIME_DIR/knot/knotd.sock"@,
                },
            },
    {
        match configured {
            Some(p) => KnotdClient { socket_path: String::from_str(p) },
            None => KnotdClient { socket_path: default_socket_path(xdg_runtime_dir) },
        }
    }

    /// A client for the socket at `socket_path`.
    pub fn with_socket_path(socket_path: &str) -> (r: Self)
        ensures
            r.socket_path@ == socket_path@,
    {
        KnotdClient { socket_path: String::from_str(socket_path) }
    }

    /// Takes the next request id from `ids`.
    pub fn next_id(ids: &mut RequestIds) -> (r: u64)
        ensures
            r == old(ids).next,
            final(ids).next == (if old(ids).next == u64::MAX {
                0
            } else {
                old(ids).next + 1
            }),
    {
        ids.take()
    }

    /// The complaint when the socket cannot be reached.
    pub fn connect_failure(&self, reason: &str) -> (r: ClientError)
        ensures
            r.kind == ClientErrorKind::Connection,
            r.detail@ == "Failed to connect to knotd at "@ + self.socket_path@ + ": "@ + reason@
                + ". Is knotd running?"@,
    {
        let mut d = String::from_str("Failed to connect to knotd at ");
        d.append(self.socket_path.as_str());
        d.append(": ");
        d.append(reason);
        d.append(". Is knotd running?");
        ClientError { kind: ClientErrorKind::Connection, detail: d }
    }
}

/// The socket path used when none is configured.
fn default_socket_path(xdg_runtime_dir: Option<&str>) -> (r: String)
    ensures
        match xdg_runtime_dir {
            Some(d) => r@ == crate::runtime_contract::socket_under(d@),
            None => r@ == "$XDG_RUNTIME_DIR/knot/knotd.sock"@,
        },
{
    match crate::runtime_contract::default_socket_path(xdg_runtime_dir) {
        Some(p) => p,
        None => String::from_str(crate::runtime_contract::default_socket_help()),
    }
}

/// The counter that numbers requests to the daemon.
#[derive(Debug)]
pub struct RequestIds {
    pub next: u64,
}

impl RequestIds {
    /// A counter whose first id is 1000.
    pub fn new() -> (r: Self)
        ensures
            r.next == 1000,
    {
        RequestIds { next: 1000 }
    }

    /// Hands out the current id and advances, wrapping at the top of `u64`.
    pub fn take(&mut self) -> (r: u64)
        ensures
            r == old(self).next,
            final(self).next == (if old(self).next == u64::MAX {
                0
            } else {
                old(self).next + 1
            }),
    {
        let id = self.next;
        self.next = id.wrapping_add(1);
        id
    }
}

/// `line` without its trailing carriage returns and line feeds.
pub open spec fn strip_line_end(line: Seq<char>) -> Seq<char>
    decreases line.len(),
{
    if line.len() > 0 && (line.last() == '\r' || line.last() == '\n') {
        strip_line_end(line.drop_last())
    } else {
        line
    }
}

/// What one header line says about the body length.
pub enum HeaderLine {
    /// The blank line that ends the headers.
    End,
    /// A `Content-Length` header, with the length it gives if it parses.
    Length(Option<nat>),
    /// Any other line.
    Other,
}

/// The position of the first `:` in `s`, if any.
pub open spec fn first_colon(s: Seq<char>) -> Option<int> {
    if exists|i: int| 0 <= i < s.len() && s[i] == ':' {
        Some(choose|i: int| 0 <= i < s.len() && s[i] == ':' && forall|j: int| 0 <= j < i ==> s[j] != ':')
    } else {
        None
    }
}

/// How a raw header line is read.
pub open spec fn classify_header(line: Seq<char>) -> HeaderLine {
    let t = strip_line_end(line);
    if t.len() == 0 {
        HeaderLine::End
    } else {
        match first_colon(t) {
            Some(c) => if eq_ignore_case(t.subrange(0, c), "Content-Length"@) {
                HeaderLine::Length(parse_usize(trim(t.subrange(c + 1, t.len() as int))))
            } else {
                HeaderLine::Other
            },
            None => HeaderLine::Other,
        }
    }
}

/// The state of reading a frame's headers.
#[derive(Debug, Clone, Copy, PartialEq, Eq, Structural)]
pub struct FrameHeaders {
    pub content_length: Option<usize>,
}

/// What to do after a header line.
#[derive(Debug, Clone, Copy, PartialEq, Eq, Structural)]
pub enum HeaderStep {
    /// Read another header line.
    Continue,
    /// The headers are done; read a body of this many bytes.
    Body(usize),
    /// The headers are done but named no length.
    MissingLength,
}

impl FrameHeaders {
    /// The state before any header line.
    pub fn new() -> (r: Self)
        ensures
            r.content_length is None,
    {
        FrameHeaders { content_length: None }
    }

    /// Takes in one raw header line (with its line ending).
    pub fn accept_line(&mut self, line: &str) -> (r: HeaderStep)
        ensures
            match classify_header(line@) {
                HeaderLine::End => *final(self) == *old(self) && match old(self).content_length {
                    Some(n) => r == HeaderStep::Body(n),
                    None => r == HeaderStep::MissingLength,
                },
                HeaderLine::Length(v) => r == HeaderStep::Continue && final(self).content_length
                    == match v {
                    Some(n) => Some(n as usize),
                    None => None::<usize>,
                },
                HeaderLine::Other => r == HeaderStep::Continue && *final(self) == *old(self),
            },
    {
        let v = chars_of(line);
        let end = strip_end_bound(&v);
        let ghost t = strip_line_end(line@);
        assert(v@.subrange(0, end as int) == t);
        if end == 0 {
            return match self.content_length {
                Some(n) => HeaderStep::Body(n),
                None => HeaderStep::MissingLength,
            };
        }
        let t_vec = slice_chars(&v, 0, end);
        let mut c: usize = 0;
        while c < end && t_vec[c] != ':'
            invariant
                c <= end,
                t_vec@ == t,
                t.len() == end,
                forall|j: int| 0 <= j < c ==> t[j] != ':',
            decreases end - c,
        {
            c = c + 1;
        }
        if c == end {
            assert(!(exists|i: int| 0 <= i < t.len() && t[i] == ':'));
            return HeaderStep::Continue;
        }
        proof {
            assert(t[c as int] == ':');
            let k = choose|i: int| 0 <= i < t.len() && t[i] == ':' && forall|j: int| 0 <= j < i ==> t[j] != ':';
            assert(k == c);
        }
        let name = slice_chars(&t_vec, 0, c);
        let name_lower = to_ascii_lower(&name);
        let key = to_ascii_lower(&chars_of("Content-Length"));
        if !seq_eq(&name_lower, &key) {
            return HeaderStep::Continue;
        }
        let value = slice_chars(&t_vec, c + 1, end);
        let (a, b) = trim_bounds(&value);
        let trimmed = slice_chars(&value, a, b);
        self.content_length = parse_usize_str(&trimmed);
        HeaderStep::Continue
    }
}

/// The bound `e` with `v[..e]` equal to `v` stripped of line endings.
fn strip_end_bound(v: &Vec<char>) -> (e: usize)
    ensures
        e <= v.len(),
        v@.subrange(0, e as int) == strip_line_end(v@),
{
    let mut e: usize = v.len();
    assert(v@.subrange(0, e as int) =~= v@);
    while e > 0 && (v[e - 1] == '\r' || v[e - 1] == '\n')
        invariant
            e <= v.len(),
            strip_line_end(v@) == strip_line_end(v@.subrange(0, e as int)),
        decreases e,
    {
        assert(v@.subrange(0, e as int).drop_last() =~= v@.subrange(0, e - 1));
        e = e - 1;
    }
    e
}

/// The characters `v[from..to]` as a new vector.
pub fn slice_chars(v: &Vec<char>, from: usize, to: usize) -> (r: Vec<char>)
    requires
        from <= to <= v.len(),
    ensures
        r@ == v@.subrange(from as int, to as int),
{
    let mut r: Vec<char> = Vec::new();
    let mut i: usize = from;
    while i < to
        invariant
            from <= i <= to <= v.len(),
            r@ == v@.subrange(from as int, i as int),
        decreases to - i,
    {
        r.push(v[i]);
        i = i + 1;
        assert(r@ =~= v@.subrange(from as int, i as int));
    }
    r
}


proof fn lemma_decimal_digits(n: nat)
    ensures
        decimal(n).len() > 0,
        all_digits(decimal(n)),
        digits_value(decimal(n)) == n,
    decreases n,
{
    let c = digit_char(n % 10);
    assert((c as u32) == 48 + n % 10);
    if n >= 10 {
        lemma_decimal_digits(n / 10);
        let d = decimal(n / 10);
        assert(decimal(n) == d.push(c));
        assert(decimal(n).drop_last() =~= d);
        assert(decimal(n).last() == c);
        vstd::arithmetic::div_mod::lemma_fundamental_div_mod(n as int, 10);
        assert(digits_value(decimal(n)) == digits_value(d) * 10 + n % 10);
        assert forall|i: int| 0 <= i < decimal(n).len() implies is_digit(#[trigger] decimal(n)[i]) by {
            if i < d.len() {
                assert(decimal(n)[i] == d[i]);
            }
        }
    } else {
        assert(decimal(n) =~= seq![c]);
        assert(decimal(n).drop_last() =~= Seq::<char>::empty());
        assert(decimal(n).last() == c);
        assert(digits_value(decimal(n)) == digits_value(Seq::<char>::empty()) * 10 + n % 10);
    }
}

proof fn lemma_strip_line_end_crlf(x: Seq<char>)
    requires
        x.len() > 0,
        x.last() != '\r' && x.last() != '\n',
    ensures
        strip_line_end(x + "\r\n"@) == x,
{
    reveal_strlit("\r\n");
    let y = x + "\r\n"@;
    assert(y.last() == '\n');
    assert(y.drop_last() =~= x.push('\r'));
    assert(strip_line_end(y) == strip_line_end(x.push('\r')));
    assert(x.push('\r').last() == '\r');
    assert(x.push('\r').drop_last() =~= x);
    assert(strip_line_end(x.push('\r')) == strip_line_end(x));
}

/// What a writer frames, a reader reads back: the header line written for a
/// body of `n` bytes is read as a `Content-Length` of exactly `n`, and the
/// blank line after it ends the headers.
pub proof fn law_frame_header_read_back(n: usize)
    ensures
        classify_header("Content-Length: "@ + decimal(n as nat) + "\r\n"@) == HeaderLine::Length(
            Some(n as nat),
        ),
        classify_header("\r\n"@) == HeaderLine::End,
{
    reveal_strlit("Content-Length: ");
    reveal_strlit("Content-Length");
    reveal_strlit("\r\n");
    let d = decimal(n as nat);
    lemma_decimal_digits(n as nat);
    let x = "Content-Length: "@ + d;
    assert(x.last() == d.last());
    assert(is_digit(d[d.len() - 1]));
    lemma_strip_line_end_crlf(x);
    let t = strip_line_end(x + "\r\n"@);
    assert(t == x);
    assert(t[14] == ':');
    assert forall|j: int| 0 <= j < 14 implies t[j] != ':' by {
        assert(t[j] == "Content-Length: "@[j]);
    }
    let c = choose|i: int| 0 <= i < t.len() && t[i] == ':' && forall|j: int| 0 <= j < i ==> t[j] != ':';
    if c < 14 {
        assert(t[c] != ':');
    } else if c > 14 {
        assert(t[14] != ':');
    }
    assert(c == 14);
    assert(t.subrange(0, 14) =~= "Content-Length"@);
    let rest = t.subrange(15, t.len() as int);
    assert(rest =~= seq![' '] + d);
    assert(rest.drop_first() =~= d);
    assert(is_space(rest[0]));
    assert(!is_space(d[0]));
    assert(lead_spaces(rest.drop_first()) == 0);
    assert(lead_spaces(rest) == 1);
    assert(trim_start(rest) =~= d);
    assert(!is_space(d.last()));
    assert(trail_spaces(d) == 0);
    assert(trim(rest) =~= d);
    assert(unsigned_body(d) == d) by {
        assert(is_digit(d[0]));
    }
    let e = "\r\n"@;
    assert(e.last() == '\n');
    assert(e.drop_last() =~= seq!['\r']);
    assert(strip_line_end(e) == strip_line_end(seq!['\r']));
    assert(seq!['\r'].drop_last() =~= Seq::<char>::empty());
    assert(strip_line_end(seq!['\r']) == strip_line_end(Seq::<char>::empty()));
}

/// The error for a frame whose headers gave no length.
pub fn missing_length_error() -> (r: ClientError)
    ensures
        r.kind == ClientErrorKind::Rpc,
        r.detail@ == "Missing Content-Length"@,
{
    ClientError::new(ClientErrorKind::Rpc, "Missing Content-Length")
}

/// The error for a connection that closed inside the headers.
pub fn closed_in_headers_error() -> (r: ClientError)
    ensures
        r.kind == ClientErrorKind::Connection,
        r.detail@ == "Connection closed while reading headers"@,
{
    ClientError::new(ClientErrorKind::Connection, "Connection closed while reading headers")
}

/// The header that precedes a body of `len` bytes.
pub fn frame_header(len: usize) -> (r: String)
    ensures
        r@ == "Content-Length: "@ + decimal(len as nat) + "\r\n\r\n"@,
{
    let mut r = String::from_str("Content-Length: ");
    let n = u64_to_string(len as u64);
    r.append(n.as_str());
    r.append("\r\n\r\n");
    r
}

/// The error a reply's `error` member stands for, given its `message`
/// member when that is a string.
pub open spec fn rpc_error_matches(r: ClientError, message: Option<Seq<char>>) -> bool {
    let m = match message {
        Some(m) => m,
        None => "knotd RPC error"@,
    };
    if contains(m, "No vault is open"@) {
        r.kind == ClientErrorKind::NoVaultOpen
    } else {
        r.kind == ClientErrorKind::Rpc && r.detail@ == m
    }
}

/// Turns the `error` member of a reply into a client error.
pub fn rpc_error(message: Option<&str>) -> (r: ClientError)
    ensures
        rpc_error_matches(
            r,
            match message {
                Some(m) => Some(m@),
                None => None,
            },
        ),
{
    let m = match message {
        Some(m) => m,
        None => "knotd RPC error",
    };
    if str_contains(m, "No vault is open") {
        ClientError::new(ClientErrorKind::NoVaultOpen, "")
    } else {
        ClientError::new(ClientErrorKind::Rpc, m)
    }
}

/// The error when a tool's reply carries no text payload.
pub fn missing_tool_text_error(name: &str) -> (r: ClientError)
    ensures
        r.kind == ClientErrorKind::Rpc,
        r.detail@ == "Tool "@ + name@ + " returned no text payload"@,
{
    let mut d = String::from_str("Tool ");
    d.append(name);
    d.append(" returned no text payload");
    ClientError { kind: ClientErrorKind::Rpc, detail: d }
}

// ===== Data the daemon sends =====

/// The open vault.
#[derive(Debug, Clone, PartialEq)]
pub struct VaultInfo {
    pub path: String,
    pub name: String,
    pub note_count: usize,
    pub last_modified: i64,
}

/// Settings stored in the vault.
#[derive(Debug, Clone, PartialEq)]
pub struct VaultSettings {
    pub name: String,
    pub plugins_enabled: bool,
    pub file_visibility: String,
    pub editor: VaultEditorSettings,
}

/// Editor settings stored in the vault.
#[derive(Debug, Clone, Copy, PartialEq, Eq, Structural)]
pub struct VaultEditorSettings {
    pub font_size: i32,
    pub tab_size: i32,
}

/// A plugin known to the vault.
#[derive(Debug, Clone, PartialEq)]
pub struct VaultPluginInfo {
    pub id: String,
    pub title: String,
    pub enabled: bool,
    pub effective_enabled: Option<bool>,
}

/// The reply to a maintenance request, in any of the shapes the daemon uses.
#[derive(Debug, Clone, PartialEq)]
pub enum MaintenanceResult {
    Message(String),
    Count(i64),
    Object { message: Option<String>, count: Option<i64>, reindexed: Option<i64> },
}

/// A note as the daemon sends it.
#[derive(Debug, Clone, PartialEq)]
pub struct NoteData {
    pub id: String,
    pub path: String,
    pub title: String,
    pub content: String,
    pub created_at: i64,
    pub modified_at: i64,
    pub word_count: usize,
    pub headings: Vec<Heading>,
    pub backlinks: Vec<Backlink>,
    pub note_type: Option<NoteType>,
    pub available_modes: Option<NoteModeAvailability>,
    pub metadata: Option<NoteMetadata>,
    pub embed: Option<NoteEmbedDescriptor>,
    pub media: Option<NoteMediaData>,
    pub type_badge: Option<String>,
    pub is_dimmed: bool,
}

/// The kind of content a note holds.
#[derive(Debug, Clone, Copy, PartialEq, Eq, Structural)]
pub enum NoteType {
    Markdown,
    Youtube,
    Pdf,
    Image,
    Unknown,
}

/// Which editor modes a note can be shown in.
#[derive(Debug, Clone, Copy, PartialEq, Eq, Structural)]
pub struct NoteModeAvailability {
    pub meta: bool,
    pub source: bool,
    pub edit: bool,
    pub view: bool,
}

/// Parsed front matter and tags of a note; front-matter entries keep their
/// JSON values, in the order the daemon sent them.
#[derive(Debug, Clone, PartialEq)]
pub struct NoteMetadata {
    pub frontmatter: Vec<(String, serde_json::Value)>,
    pub tags: Vec<String>,
}

/// An embedded outside resource (a video, say).
#[derive(Debug, Clone, PartialEq)]
pub struct NoteEmbedDescriptor {
    pub kind: String,
    pub source: String,
    pub title: Option<String>,
}

/// A media file backing a note.
#[derive(Debug, Clone, PartialEq)]
pub struct NoteMediaData {
    pub mime_type: String,
    pub file_path: Option<String>,
    pub thumbnail_path: Option<String>,
}

/// A heading inside a note.
#[derive(Debug, Clone, PartialEq)]
pub struct Heading {
    pub level: u8,
    pub text: String,
    pub slug: String,
}

/// A note that links to the current one.
#[derive(Debug, Clone, PartialEq)]
pub struct Backlink {
    pub path: String,
    pub title: String,
    pub excerpt: Option<String>,
}

/// The vault's folder tree.
#[derive(Debug)]
pub struct ExplorerTree {
    pub root: ExplorerFolderNode,
    pub hidden_policy: String,
}

/// A folder in the explorer tree.
#[derive(Debug)]
pub struct ExplorerFolderNode {
    pub path: String,
    pub name: String,
    pub expanded: bool,
    pub folders: Vec<ExplorerFolderNode>,
    pub notes: Vec<ExplorerNoteNode>,
}

/// A note in the explorer tree.
#[derive(Debug, Clone)]
pub struct ExplorerNoteNode {
    pub path: String,
    pub title: String,
    pub display_title: String,
    pub modified_at: i64,
    pub word_count: usize,
    pub type_badge: Option<String>,
    pub is_dimmed: bool,
}

/// A link between two notes.
#[derive(Debug, Clone, PartialEq)]
pub struct GraphEdge {
    pub source: String,
    pub target: String,
}

/// The notes around one note and the links among them.
#[derive(Debug, Clone, PartialEq)]
pub struct GraphNeighborhood {
    pub nodes: Vec<String>,
    pub edges: Vec<GraphEdge>,
}

} // verus!
