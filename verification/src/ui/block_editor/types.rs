//! Block-based document model.
//!
//! A document is a sequence of blocks; images and diagrams are always
//! blocks of their own, never inline.
use vstd::prelude::*;
use std::collections::HashMap;
use crate::text::{all_ascii, ascii_lower, ascii_lower_seq, ascii_upper, ascii_upper_seq, str_eq};
use vstd::string::*;

verus! {

/// A document: its blocks and free-form metadata.
#[derive(Debug)]
pub struct Document {
    pub blocks: Vec<Block>,
    pub metadata: HashMap<String, String>,
}

impl Document {
    /// An empty document.
    pub fn new() -> (r: Self)
        ensures
            r.blocks@.len() == 0,
            r.metadata@ == Map::<String, String>::empty(),
    {
        Document { blocks: Vec::new(), metadata: HashMap::new() }
    }

    /// A document of the given blocks, with no metadata.
    pub fn from_blocks(blocks: Vec<Block>) -> (r: Self)
        ensures
            r.blocks == blocks,
            r.metadata@ == Map::<String, String>::empty(),
    {
        Document { blocks, metadata: HashMap::new() }
    }
}

/// Block-level elements.
#[derive(Debug)]
pub enum Block {
    /// A heading of level 1 to 6.
    Header(u8, Vec<Inline>),
    Paragraph(Vec<Inline>),
    CodeBlock { language: Option<String>, content: String },
    BlockQuote(Vec<Block>),
    OrderedList { start: u32, items: Vec<Vec<Block>> },
    BulletList(Vec<Vec<Block>>),
    /// An image, shown at one of the fixed widths.
    Image { path: String, alt: String, width: ImageWidth },
    /// A diagram in one of the supported languages.
    Diagram { content: String, diagram_type: DiagramType, width: ImageWidth },
    HorizontalRule,
    Table { headers: Vec<Vec<Inline>>, rows: Vec<Vec<Vec<Inline>>> },
    /// Display-mode mathematics.
    MathBlock(String),
    /// Raw HTML or other content passed through.
    RawBlock(String),
    Spacer,
    /// A grid of cells; `rows` is `None` when it follows the content.
    Grid { columns: u32, rows: Option<u32>, gap: u32, cells: Vec<GridCell> },
    /// A side note in the margin.
    MarginNote { id: String, content: Vec<Inline> },
    /// A figure across main column and margin.
    FullWidthFigure { content: Box<Block>, caption: Vec<Inline>, margin_note: Option<Vec<Inline>> },
    /// A quotation at the start of a chapter.
    Epigraph { quote: Vec<Inline>, attribution: Option<Vec<Inline>> },
}

/// How a document is laid out.
#[derive(Debug, Clone, Copy, PartialEq, Eq, Structural)]
pub enum DocumentStyle {
    Standard,
    Tufte,
    TwoColumn,
}

/// A cell of a grid, with its position and span.
#[derive(Debug)]
pub struct GridCell {
    pub col: u32,
    pub row: u32,
    pub col_span: u32,
    pub row_span: u32,
    pub content: Vec<Block>,
}

/// The fixed widths an image or diagram can take.
#[derive(Debug, Clone, Copy, PartialEq, Eq, Structural)]
pub enum ImageWidth {
    Full,
    Large,
    Medium,
    Small,
}

/// The diagram languages that are drawn rather than shown as code.
#[derive(Debug, Clone, Copy, PartialEq, Eq, Structural)]
pub enum DiagramType {
    Mermaid,
    D2,
    Graphviz,
    Plantuml,
}

/// The diagram type a lower-cased language name names.
pub open spec fn diagram_for(lower: Seq<char>) -> Option<DiagramType> {
    if lower == "mermaid"@ {
        Some(DiagramType::Mermaid)
    } else if lower == "d2"@ {
        Some(DiagramType::D2)
    } else if lower == "graphviz"@ || lower == "dot"@ {
        Some(DiagramType::Graphviz)
    } else if lower == "plantuml"@ || lower == "puml"@ {
        Some(DiagramType::Plantuml)
    } else {
        None
    }
}

/// The name each diagram type is written with.
pub open spec fn diagram_name(t: DiagramType) -> Seq<char> {
    match t {
        DiagramType::Mermaid => "mermaid"@,
        DiagramType::D2 => "d2"@,
        DiagramType::Graphviz => "graphviz"@,
        DiagramType::Plantuml => "plantuml"@,
    }
}

impl DiagramType {
    /// The diagram type a code block's language names, compared after
    /// lower-casing.
    pub fn from_language(lang: &str) -> (r: Option<Self>)
        ensures
            r == diagram_for(crate::text::unicode_lower(lang@)),
            all_ascii(lang@) ==> r == diagram_for(ascii_lower_seq(lang@)),
    {
        let lower = crate::text::to_lowercase(lang);
        Self::from_lowered(lower.as_str())
    }

    /// The diagram type an already lower-cased language name names.
    pub fn from_lowered(lower: &str) -> (r: Option<Self>)
        ensures
            r == diagram_for(lower@),
    {
        if str_eq(lower, "mermaid") {
            Some(DiagramType::Mermaid)
        } else if str_eq(lower, "d2") {
            Some(DiagramType::D2)
        } else if str_eq(lower, "graphviz") || str_eq(lower, "dot") {
            Some(DiagramType::Graphviz)
        } else if str_eq(lower, "plantuml") || str_eq(lower, "puml") {
            Some(DiagramType::Plantuml)
        } else {
            None
        }
    }

    /// The name this diagram type is written with.
    pub fn as_str(&self) -> (r: &'static str)
        ensures
            r@ == diagram_name(*self),
    {
        match self {
            DiagramType::Mermaid => "mermaid",
            DiagramType::D2 => "d2",
            DiagramType::Graphviz => "graphviz",
            DiagramType::Plantuml => "plantuml",
        }
    }
}

/// Every diagram type's name reads back as that type, written as it is or
/// in capitals: the name is ASCII, and lower-casing it, or its upper-cased
/// form, gives a name that names the type.
pub proof fn law_diagram_names_read_back(t: DiagramType)
    ensures
        all_ascii(diagram_name(t)),
        all_ascii(ascii_upper_seq(diagram_name(t))),
        diagram_for(ascii_lower_seq(diagram_name(t))) == Some(t),
        diagram_for(ascii_lower_seq(ascii_upper_seq(diagram_name(t)))) == Some(t),
{
    reveal_strlit("mermaid");
    reveal_strlit("d2");
    reveal_strlit("graphviz");
    reveal_strlit("plantuml");
    reveal_strlit("dot");
    reveal_strlit("puml");
    let n = diagram_name(t);
    assert forall|i: int| 0 <= i < n.len() implies 'a' <= #[trigger] n[i] <= 'z' || '0' <= n[i] <= '9' by {
        match t {
            DiagramType::Mermaid => {},
            DiagramType::D2 => {},
            DiagramType::Graphviz => {},
            DiagramType::Plantuml => {},
        }
    }
    assert forall|i: int| 0 <= i < n.len() implies #[trigger] ascii_lower(ascii_upper(n[i])) == n[i] && (
    ascii_upper(n[i]) as u32) < 0x80 by {
        lemma_ascii_case_round_trip(n[i]);
    }
    assert(ascii_lower_seq(n) =~= n);
    assert(ascii_lower_seq(ascii_upper_seq(n)) =~= n);
    assert(diagram_for(n) == Some(t)) by {
        match t {
            DiagramType::Mermaid => {},
            DiagramType::D2 => {
                assert(n.len() != "mermaid"@.len());
            },
            DiagramType::Graphviz => {
                assert(n.len() != "mermaid"@.len() && n.len() != "d2"@.len());
            },
            DiagramType::Plantuml => {
                assert(n.len() != "mermaid"@.len() && n.len() != "d2"@.len() && n.len() != "dot"@.len());
                assert(n[0] != "graphviz"@[0]);
            },
        }
    }
}

/// Upper-casing a lower-case letter or digit and lower-casing it again
/// gives it back, and stays ASCII.
proof fn lemma_ascii_case_round_trip(c: char)
    requires
        'a' <= c <= 'z' || '0' <= c <= '9',
    ensures
        ascii_lower(ascii_upper(c)) == c,
        (ascii_upper(c) as u32) < 0x80,
{
    let u = c as u32;
    vstd::utf8::char_u32_cast(c, u);
    if 'a' <= c && c <= 'z' {
        let d = ((u - 32) as u32) as char;
        assert(d as u32 == u - 32);
        assert('A' <= d && d <= 'Z');
        assert(((d as u32) + 32) as char == c);
    }
}

/// Inline elements inside a block.
#[derive(Debug)]
pub enum Inline {
    Text(String),
    Emph(Vec<Inline>),
    Strong(Vec<Inline>),
    Code(String),
    Strikeout(Vec<Inline>),
    Superscript(Vec<Inline>),
    Subscript(Vec<Inline>),
    Link { text: Vec<Inline>, url: String },
    LineBreak,
    SoftBreak,
    Nbsp,
}

/// Where a block came from in the source text.
#[derive(Debug, Clone, Copy, PartialEq, Eq, Structural)]
pub struct SourcePos {
    pub start_byte: usize,
    pub end_byte: usize,
    pub start_line: usize,
    pub end_line: usize,
}

impl SourcePos {
    /// A byte range with no line information yet.
    pub fn new(start_byte: usize, end_byte: usize) -> (r: Self)
        ensures
            r == (SourcePos { start_byte, end_byte, start_line: 0, end_line: 0 }),
    {
        SourcePos { start_byte, end_byte, start_line: 0, end_line: 0 }
    }
}

/// A block with where it came from.
#[derive(Debug)]
pub struct PositionedBlock {
    pub block: Block,
    pub position: SourcePos,
}

/// A cursor: a block and an offset inside it.
#[derive(Debug, Clone, Copy, PartialEq, Eq, Structural)]
pub struct DocumentCursor {
    pub block_index: usize,
    pub offset: usize,
}

impl DocumentCursor {
    /// The cursor at `offset` inside block `block_index`.
    pub fn new(block_index: usize, offset: usize) -> (r: Self)
        ensures
            r == (DocumentCursor { block_index, offset }),
    {
        DocumentCursor { block_index, offset }
    }
}

/// A selection between two cursors.
#[derive(Debug, Clone, Copy, PartialEq, Eq, Structural)]
pub struct DocumentSelection {
    pub start: DocumentCursor,
    pub end: DocumentCursor,
}

impl DocumentSelection {
    /// The selection from `start` to `end`.
    pub fn new(start: DocumentCursor, end: DocumentCursor) -> (r: Self)
        ensures
            r == (DocumentSelection { start, end }),
    {
        DocumentSelection { start, end }
    }

    /// Whether the selection is empty: both ends at the same place.
    pub fn is_collapsed(&self) -> (r: bool)
        ensures
            r == (self.start == self.end),
    {
        self.start.block_index == self.end.block_index && self.start.offset == self.end.offset
    }
}

} // verus!
