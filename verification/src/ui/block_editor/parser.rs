//! Markdown read into the block model.
//!
//! The markdown itself is tokenised by `pulldown-cmark`; the tokens are then
//! folded into blocks here, with a stack of the elements still open: a quote
//! collects the blocks inside it, a list one entry per item, a paragraph or
//! heading its text. Inline styling (emphasis, links) is read as its text.
use vstd::prelude::*;
use vstd::string::*;
use super::types::{diagram_for, Block, DiagramType, Document, ImageWidth, Inline};
use crate::text::{string_from_chars, unicode_lower};
use crate::ui::frontmatter::push_str_chars;

verus! {

#[verifier::external_type_specification]
#[verifier::external_body]
pub struct ExCmarkEvent<'a>(pulldown_cmark::Event<'a>);

#[verifier::external_type_specification]
#[verifier::external_body]
pub struct ExCmarkTag<'a>(pulldown_cmark::Tag<'a>);

/// One markdown token, with what the block fold reads of it.
#[derive(Debug, Clone)]
pub enum MdEvent {
    StartParagraph,
    /// Start of a heading of the given level.
    StartHeading(u8),
    StartBlockQuote,
    /// Start of a code block; fenced blocks carry their info string.
    StartCodeBlock(Option<String>),
    /// Start of a list; ordered lists carry their first number.
    StartList(Option<u64>),
    /// Start of one item of a list.
    StartItem,
    /// Start of any other element.
    StartOther,
    /// End of any element.
    End,
    Text(String),
    Code(String),
    Html(String),
    SoftBreak,
    HardBreak,
    Rule,
    /// Any other token.
    Other,
}

/// The value of a markdown token.
pub enum MdEventView {
    StartParagraph,
    StartHeading(u8),
    StartBlockQuote,
    StartCodeBlock(Option<Seq<char>>),
    StartList(Option<u64>),
    StartItem,
    StartOther,
    End,
    Text(Seq<char>),
    Code(Seq<char>),
    Html(Seq<char>),
    SoftBreak,
    HardBreak,
    Rule,
    Other,
}

impl View for MdEvent {
    type V = MdEventView;

    open spec fn view(&self) -> MdEventView {
        match self {
            MdEvent::StartParagraph => MdEventView::StartParagraph,
            MdEvent::StartHeading(l) => MdEventView::StartHeading(*l),
            MdEvent::StartBlockQuote => MdEventView::StartBlockQuote,
            MdEvent::StartCodeBlock(info) => MdEventView::StartCodeBlock(
                match info {
                    Some(s) => Some(s@),
                    None => None,
                },
            ),
            MdEvent::StartList(s) => MdEventView::StartList(*s),
            MdEvent::StartItem => MdEventView::StartItem,
            MdEvent::StartOther => MdEventView::StartOther,
            MdEvent::End => MdEventView::End,
            MdEvent::Text(t) => MdEventView::Text(t@),
            MdEvent::Code(t) => MdEventView::Code(t@),
            MdEvent::Html(t) => MdEventView::Html(t@),
            MdEvent::SoftBreak => MdEventView::SoftBreak,
            MdEvent::HardBreak => MdEventView::HardBreak,
            MdEvent::Rule => MdEventView::Rule,
            MdEvent::Other => MdEventView::Other,
        }
    }
}

/// The tokens `pulldown-cmark` reads from `input` with its default options.
pub uninterp spec fn cmark_events(input: Seq<char>) -> Seq<MdEventView>;

/// The views of a token list.
pub open spec fn event_views(v: Seq<MdEvent>) -> Seq<MdEventView> {
    v.map_values(|e: MdEvent| e@)
}

/// Whether every heading a token list opens has a level from 1 to 6.
pub open spec fn heading_levels_in_range(evs: Seq<MdEventView>) -> bool {
    forall|i: int| 0 <= i < evs.len() ==> (#[trigger] evs[i] matches MdEventView::StartHeading(l) ==> 1 <= l <= 6)
}

/// Runs `pulldown_cmark::Parser::new` over `input` and keeps each token's
/// kind and text; the token list is named, not stated, except that heading
/// levels are those of `pulldown_cmark::HeadingLevel`, 1 to 6.
#[verifier::external_body]
pub fn markdown_events(input: &str) -> (r: Vec<MdEvent>)
    ensures
        event_views(r@) == cmark_events(input@),
        heading_levels_in_range(event_views(r@)),
{
    pulldown_cmark::Parser::new(input).map(md_event).collect()
}

/// Copies one `pulldown_cmark::Event` into an [`MdEvent`].
#[verifier::external_body]
fn md_event(e: pulldown_cmark::Event<'_>) -> MdEvent {
    match e {
        pulldown_cmark::Event::Start(tag) => md_start(tag),
        pulldown_cmark::Event::End(_) => MdEvent::End,
        pulldown_cmark::Event::Text(t) => MdEvent::Text(t.to_string()),
        pulldown_cmark::Event::Code(t) => MdEvent::Code(t.to_string()),
        pulldown_cmark::Event::Html(t) => MdEvent::Html(t.to_string()),
        pulldown_cmark::Event::SoftBreak => MdEvent::SoftBreak,
        pulldown_cmark::Event::HardBreak => MdEvent::HardBreak,
        pulldown_cmark::Event::Rule => MdEvent::Rule,
        _ => MdEvent::Other,
    }
}

/// Copies one `pulldown_cmark::Tag` that opens an element into an [`MdEvent`].
#[verifier::external_body]
fn md_start(tag: pulldown_cmark::Tag<'_>) -> MdEvent {
    match tag {
        pulldown_cmark::Tag::Paragraph => MdEvent::StartParagraph,
        pulldown_cmark::Tag::Heading { level, .. } => MdEvent::StartHeading(level as u8),
        pulldown_cmark::Tag::BlockQuote(_) => MdEvent::StartBlockQuote,
        pulldown_cmark::Tag::CodeBlock(pulldown_cmark::CodeBlockKind::Fenced(info)) => {
            MdEvent::StartCodeBlock(Some(info.to_string()))
        },
        pulldown_cmark::Tag::CodeBlock(_) => MdEvent::StartCodeBlock(None),
        pulldown_cmark::Tag::List(start) => MdEvent::StartList(start),
        pulldown_cmark::Tag::Item => MdEvent::StartItem,
        _ => MdEvent::StartOther,
    }
}

// ===== Models of what the fold produces =====

/// An inline element as the fold sees it.
pub enum InlineModel {
    Text(Seq<char>),
    Code(Seq<char>),
    SoftBreak,
    LineBreak,
    Nbsp,
    /// An element with nested inlines or a link.
    Composite,
}

/// The model of an inline element.
pub open spec fn inline_model(i: Inline) -> InlineModel {
    match i {
        Inline::Text(s) => InlineModel::Text(s@),
        Inline::Code(s) => InlineModel::Code(s@),
        Inline::SoftBreak => InlineModel::SoftBreak,
        Inline::LineBreak => InlineModel::LineBreak,
        Inline::Nbsp => InlineModel::Nbsp,
        _ => InlineModel::Composite,
    }
}

/// The models of a list of inlines.
pub open spec fn inlines_model(v: Seq<Inline>) -> Seq<InlineModel> {
    v.map_values(|i: Inline| inline_model(i))
}

/// A block as the fold sees it, nested blocks included.
pub enum BlockModel {
    Header(u8, Seq<InlineModel>),
    Paragraph(Seq<InlineModel>),
    Code { language: Option<Seq<char>>, content: Seq<char> },
    Diagram { content: Seq<char>, diagram_type: DiagramType, width: ImageWidth },
    BlockQuote(Seq<BlockModel>),
    OrderedList { start: u32, items: Seq<Seq<BlockModel>> },
    BulletList(Seq<Seq<BlockModel>>),
    Raw(Seq<char>),
    Rule,
    /// Any other block.
    Other,
}

/// The view of an optional string.
pub open spec fn opt_view(s: Option<String>) -> Option<Seq<char>> {
    match s {
        Some(x) => Some(x@),
        None => None,
    }
}

/// The model of a block.
pub open spec fn block_model(b: Block) -> BlockModel
    decreases b,
{
    match b {
        Block::Header(l, v) => BlockModel::Header(l, inlines_model(v@)),
        Block::Paragraph(v) => BlockModel::Paragraph(inlines_model(v@)),
        Block::CodeBlock { language, content } => BlockModel::Code {
            language: opt_view(language),
            content: content@,
        },
        Block::Diagram { content, diagram_type, width } => BlockModel::Diagram {
            content: content@,
            diagram_type,
            width,
        },
        Block::BlockQuote(v) => BlockModel::BlockQuote(blocks_model(v@)),
        Block::OrderedList { start, items } => BlockModel::OrderedList { start, items: items_model(items@) },
        Block::BulletList(items) => BlockModel::BulletList(items_model(items@)),
        Block::RawBlock(s) => BlockModel::Raw(s@),
        Block::HorizontalRule => BlockModel::Rule,
        _ => BlockModel::Other,
    }
}

/// The models of a list of blocks.
pub open spec fn blocks_model(v: Seq<Block>) -> Seq<BlockModel>
    decreases v,
{
    if v.len() == 0 {
        Seq::empty()
    } else {
        blocks_model(v.drop_last()).push(block_model(v.last()))
    }
}

/// The models of the items of a list.
pub open spec fn items_model(v: Seq<Vec<Block>>) -> Seq<Seq<BlockModel>>
    decreases v,
{
    if v.len() == 0 {
        Seq::empty()
    } else {
        items_model(v.drop_last()).push(blocks_model(v.last()@))
    }
}

/// An element being read: a block under construction, one item of a list,
/// or another element (such as emphasis) that holds no blocks of its own.
#[derive(Debug)]
pub enum BlockAccumulator {
    Paragraph(Vec<Inline>),
    Heading(u8, Vec<Inline>),
    BlockQuote(Vec<Block>),
    CodeBlock { language: Option<String>, content: String },
    List { ordered: bool, start: u32, items: Vec<Vec<Block>>, current_item: Vec<Block> },
    /// A list item: its blocks so far, and text not yet in a block (a tight
    /// item holds its text directly).
    Item { blocks: Vec<Block>, pending: Vec<Inline> },
    Other,
}

/// An element being read, as the fold sees it.
pub enum AccModel {
    Paragraph(Seq<InlineModel>),
    Heading(u8, Seq<InlineModel>),
    BlockQuote(Seq<BlockModel>),
    CodeBlock { language: Option<Seq<char>>, content: Seq<char> },
    List { ordered: bool, start: u32, items: Seq<Seq<BlockModel>>, current: Seq<BlockModel> },
    Item { blocks: Seq<BlockModel>, pending: Seq<InlineModel> },
    Other,
}

/// The model of an accumulator.
pub open spec fn acc_model(a: BlockAccumulator) -> AccModel {
    match a {
        BlockAccumulator::Paragraph(v) => AccModel::Paragraph(inlines_model(v@)),
        BlockAccumulator::Heading(l, v) => AccModel::Heading(l, inlines_model(v@)),
        BlockAccumulator::BlockQuote(v) => AccModel::BlockQuote(blocks_model(v@)),
        BlockAccumulator::CodeBlock { language, content } => AccModel::CodeBlock {
            language: opt_view(language),
            content: content@,
        },
        BlockAccumulator::List { ordered, start, items, current_item } => AccModel::List {
            ordered,
            start,
            items: items_model(items@),
            current: blocks_model(current_item@),
        },
        BlockAccumulator::Item { blocks, pending } => AccModel::Item {
            blocks: blocks_model(blocks@),
            pending: inlines_model(pending@),
        },
        BlockAccumulator::Other => AccModel::Other,
    }
}

/// An item's blocks with its loose text, if any, as a final paragraph.
pub open spec fn flushed(blocks: Seq<BlockModel>, pending: Seq<InlineModel>) -> Seq<BlockModel> {
    if pending.len() > 0 {
        blocks.push(BlockModel::Paragraph(pending))
    } else {
        blocks
    }
}

/// An element after an inline element arrives: paragraphs, headings and
/// items take it, a code block takes the characters of text, the others
/// ignore it.
pub open spec fn push_inline_model(a: AccModel, i: InlineModel) -> AccModel {
    match a {
        AccModel::Paragraph(v) => AccModel::Paragraph(v.push(i)),
        AccModel::Heading(l, v) => AccModel::Heading(l, v.push(i)),
        AccModel::Item { blocks, pending } => AccModel::Item { blocks, pending: pending.push(i) },
        AccModel::CodeBlock { language, content } => match i {
            InlineModel::Text(t) => AccModel::CodeBlock { language, content: content + t },
            _ => a,
        },
        _ => a,
    }
}

/// An element after a finished block arrives: quotes take it; items take it
/// after their loose text; the others ignore it.
pub open spec fn push_block_model(a: AccModel, b: BlockModel) -> AccModel {
    match a {
        AccModel::BlockQuote(v) => AccModel::BlockQuote(v.push(b)),
        AccModel::Item { blocks, pending } => AccModel::Item {
            blocks: flushed(blocks, pending).push(b),
            pending: Seq::empty(),
        },
        _ => a,
    }
}

/// An element after a finished item arrives: lists take it, the others
/// ignore it.
pub open spec fn push_item_model(a: AccModel, item: Seq<BlockModel>) -> AccModel {
    match a {
        AccModel::List { ordered, start, items, current } => AccModel::List {
            ordered,
            start,
            items: items.push(item),
            current,
        },
        _ => a,
    }
}

/// The block an element yields when it ends: empty paragraphs and headings
/// yield none, code blocks in a diagram language become full-width
/// diagrams, and items and other elements are not blocks.
pub open spec fn finish_model(a: AccModel) -> Option<BlockModel> {
    match a {
        AccModel::Paragraph(v) => if v.len() == 0 {
            None
        } else {
            Some(BlockModel::Paragraph(v))
        },
        AccModel::Heading(l, v) => if v.len() == 0 {
            None
        } else {
            Some(BlockModel::Header(l, v))
        },
        AccModel::BlockQuote(v) => Some(BlockModel::BlockQuote(v)),
        AccModel::CodeBlock { language, content } => match language {
            Some(l) => match diagram_for(unicode_lower(l)) {
                Some(t) => Some(BlockModel::Diagram { content, diagram_type: t, width: ImageWidth::Full }),
                None => Some(BlockModel::Code { language, content }),
            },
            None => Some(BlockModel::Code { language, content }),
        },
        AccModel::List { ordered, start, items, current } => {
            let all = if current.len() > 0 {
                items.push(current)
            } else {
                items
            };
            if ordered {
                Some(BlockModel::OrderedList { start, items: all })
            } else {
                Some(BlockModel::BulletList(all))
            }
        },
        AccModel::Item { .. } => None,
        AccModel::Other => None,
    }
}

/// The blocks of an item when it ends.
pub open spec fn item_of_model(a: AccModel) -> Option<Seq<BlockModel>> {
    match a {
        AccModel::Item { blocks, pending } => Some(flushed(blocks, pending)),
        _ => None,
    }
}

/// An item's blocks with its loose text, if any, as a final paragraph.
fn flush_item(blocks: Vec<Block>, pending: Vec<Inline>) -> (r: Vec<Block>)
    ensures
        blocks_model(r@) == flushed(blocks_model(blocks@), inlines_model(pending@)),
{
    let mut blocks = blocks;
    if pending.len() > 0 {
        let ghost before = blocks@;
        let p = Block::Paragraph(pending);
        blocks.push(p);
        assert(blocks@.drop_last() =~= before);
        assert(blocks@.last() == p);
        assert(blocks_model(blocks@) == blocks_model(before).push(block_model(p)));
    } else {
        assert(inlines_model(pending@).len() == 0);
    }
    blocks
}

impl BlockAccumulator {
    /// Adds an inline element: paragraphs, headings and items keep it, a
    /// code block keeps the characters of text, the others ignore it.
    pub fn push_inline(&mut self, inline: Inline)
        ensures
            acc_model(*final(self)) == push_inline_model(acc_model(*old(self)), inline_model(inline)),
            (*old(self)) matches BlockAccumulator::Paragraph(v) ==> ((*final(self)) matches BlockAccumulator::Paragraph(w)
                && w@ == v@.push(inline)),
            (*old(self)) matches BlockAccumulator::Heading(l, v) ==> ((*final(self)) matches BlockAccumulator::Heading(
                m,
                w,
            ) && m == l && w@ == v@.push(inline)),
            (*old(self)) matches BlockAccumulator::Item { blocks, pending } ==> ((*final(self)) matches BlockAccumulator::Item {
                blocks: b2,
                pending: p2,
            } && b2 == blocks && p2@ == pending@.push(inline)),
            (*old(self)) matches BlockAccumulator::CodeBlock { language, content } ==> ((*final(self)) matches BlockAccumulator::CodeBlock {
                language: l2,
                content: c2,
            } && l2 == language && c2@ == match inline {
                Inline::Text(t) => content@ + t@,
                _ => content@,
            }),
            !((*old(self)) is Paragraph || (*old(self)) is Heading || (*old(self)) is Item || (*old(self)) is CodeBlock)
                ==> *final(self) == *old(self),
    {
        match self {
            BlockAccumulator::Paragraph(inlines) => {
                inlines.push(inline);
                assert(inlines_model(inlines@) =~= inlines_model(old(self)->Paragraph_0@).push(
                    inline_model(inline),
                ));
            },
            BlockAccumulator::Heading(_, inlines) => {
                inlines.push(inline);
                assert(inlines_model(inlines@) =~= inlines_model(old(self)->Heading_1@).push(
                    inline_model(inline),
                ));
            },
            BlockAccumulator::Item { blocks: _, pending } => {
                let ghost before = pending@;
                pending.push(inline);
                assert(inlines_model(pending@) =~= inlines_model(before).push(inline_model(inline)));
            },
            BlockAccumulator::CodeBlock { language: _, content } => {
                match inline {
                    Inline::Text(t) => content.append(t.as_str()),
                    _ => {},
                }
            },
            _ => {},
        }
    }

    /// Adds a finished block: a quote keeps it; an item keeps it after its
    /// loose text; the others ignore it.
    pub fn with_block(self, b: Block) -> (r: Self)
        ensures
            acc_model(r) == push_block_model(acc_model(self), block_model(b)),
    {
        match self {
            BlockAccumulator::BlockQuote(v) => {
                let mut v = v;
                let ghost before = v@;
                v.push(b);
                assert(v@.drop_last() =~= before);
                BlockAccumulator::BlockQuote(v)
            },
            BlockAccumulator::Item { blocks, pending } => {
                let mut blocks = flush_item(blocks, pending);
                let ghost before = blocks@;
                blocks.push(b);
                assert(blocks@.drop_last() =~= before);
                let empty: Vec<Inline> = Vec::new();
                assert(inlines_model(empty@) =~= Seq::empty());
                BlockAccumulator::Item { blocks, pending: empty }
            },
            other => other,
        }
    }

    /// Adds a finished item: a list keeps it; the others ignore it.
    pub fn with_item(self, item: Vec<Block>) -> (r: Self)
        ensures
            acc_model(r) == push_item_model(acc_model(self), blocks_model(item@)),
    {
        match self {
            BlockAccumulator::List { ordered, start, items, current_item } => {
                let mut items = items;
                let ghost before = items@;
                items.push(item);
                assert(items@.drop_last() =~= before);
                BlockAccumulator::List { ordered, start, items, current_item }
            },
            other => other,
        }
    }

    /// The block this element yields when it ends.
    pub fn finish(self) -> (r: Option<Block>)
        ensures
            match r {
                Some(b) => finish_model(acc_model(self)) == Some(block_model(b)),
                None => finish_model(acc_model(self)) is None,
            },
            self matches BlockAccumulator::Paragraph(v) ==> (v@.len() > 0 ==> r == Some(
                Block::Paragraph(v),
            )),
            self matches BlockAccumulator::Heading(l, v) ==> (v@.len() > 0 ==> r == Some(
                Block::Header(l, v),
            )),
            self matches BlockAccumulator::BlockQuote(v) ==> r == Some(Block::BlockQuote(v)),
            self matches BlockAccumulator::List { ordered, start, items, current_item } ==> ({
                let all = if current_item@.len() > 0 {
                    items@.push(current_item)
                } else {
                    items@
                };
                if ordered {
                    r matches Some(Block::OrderedList { start: s, items: it }) && s == start && it@ == all
                } else {
                    r matches Some(Block::BulletList(it)) && it@ == all
                }
            }),
    {
        match self {
            BlockAccumulator::Paragraph(inlines) => {
                if inlines.len() == 0 {
                    None
                } else {
                    Some(Block::Paragraph(inlines))
                }
            },
            BlockAccumulator::Heading(level, inlines) => {
                if inlines.len() == 0 {
                    None
                } else {
                    Some(Block::Header(level, inlines))
                }
            },
            BlockAccumulator::BlockQuote(blocks) => Some(Block::BlockQuote(blocks)),
            BlockAccumulator::CodeBlock { language, content } => {
                let diagram = match &language {
                    Some(lang) => DiagramType::from_language(lang.as_str()),
                    None => None,
                };
                match diagram {
                    Some(t) => Some(Block::Diagram { content, diagram_type: t, width: ImageWidth::Full }),
                    None => Some(Block::CodeBlock { language, content }),
                }
            },
            BlockAccumulator::List { ordered, start, items, current_item } => {
                let mut items = items;
                if current_item.len() > 0 {
                    let ghost before = items@;
                    items.push(current_item);
                    assert(items@.drop_last() =~= before);
                }
                if ordered {
                    Some(Block::OrderedList { start, items })
                } else {
                    Some(Block::BulletList(items))
                }
            },
            BlockAccumulator::Item { .. } => None,
            BlockAccumulator::Other => None,
        }
    }
}

/// What arrives for the innermost open element that holds content.
pub enum Delivery {
    Inline(Inline),
    Block(Block),
    Item(Vec<Block>),
}

/// What arrives, as the fold sees it.
pub enum DeliveryModel {
    Inline(InlineModel),
    Block(BlockModel),
    Item(Seq<BlockModel>),
}

/// The model of a delivery.
pub open spec fn delivery_model(d: Delivery) -> DeliveryModel {
    match d {
        Delivery::Inline(i) => DeliveryModel::Inline(inline_model(i)),
        Delivery::Block(b) => DeliveryModel::Block(block_model(b)),
        Delivery::Item(v) => DeliveryModel::Item(blocks_model(v@)),
    }
}

/// An element after a delivery.
pub open spec fn apply_model(a: AccModel, d: DeliveryModel) -> AccModel {
    match d {
        DeliveryModel::Inline(i) => push_inline_model(a, i),
        DeliveryModel::Block(b) => push_block_model(a, b),
        DeliveryModel::Item(v) => push_item_model(a, v),
    }
}

/// The state of the fold: the finished top-level blocks and the open
/// elements, innermost last.
pub struct FoldModel {
    pub blocks: Seq<BlockModel>,
    pub stack: Seq<AccModel>,
}

/// How many open elements at the top of the stack hold no content.
pub open spec fn trailing_others(s: Seq<AccModel>) -> nat
    decreases s.len(),
{
    if s.len() > 0 && s.last() is Other {
        1 + trailing_others(s.drop_last())
    } else {
        0
    }
}

/// The index of the innermost open element that holds content; -1 when
/// there is none and content goes to the document.
pub open spec fn target(s: Seq<AccModel>) -> int {
    s.len() - trailing_others(s) - 1
}

/// The fold after a delivery: the innermost element that holds content
/// takes it; with none open, a block joins the document and anything else
/// is dropped.
pub open spec fn deliver_model(st: FoldModel, d: DeliveryModel) -> FoldModel {
    let t = target(st.stack);
    if t < 0 {
        match d {
            DeliveryModel::Block(b) => FoldModel { blocks: st.blocks.push(b), stack: st.stack },
            _ => st,
        }
    } else {
        FoldModel { blocks: st.blocks, stack: st.stack.update(t, apply_model(st.stack[t], d)) }
    }
}

/// The language a code block's info string gives: none when it is empty.
pub open spec fn code_language(info: Option<Seq<char>>) -> Option<Seq<char>> {
    match info {
        Some(s) => if s.len() == 0 {
            None
        } else {
            Some(s)
        },
        None => None,
    }
}

/// The element a token opens, if it opens one.
pub open spec fn opened(e: MdEventView) -> Option<AccModel> {
    match e {
        MdEventView::StartParagraph => Some(AccModel::Paragraph(Seq::empty())),
        MdEventView::StartHeading(l) => Some(AccModel::Heading(l, Seq::empty())),
        MdEventView::StartBlockQuote => Some(AccModel::BlockQuote(Seq::empty())),
        MdEventView::StartCodeBlock(info) => Some(
            AccModel::CodeBlock { language: code_language(info), content: Seq::empty() },
        ),
        MdEventView::StartList(s) => Some(
            AccModel::List {
                ordered: s is Some,
                start: match s {
                    Some(n) => n as u32,
                    None => 1u32,
                },
                items: Seq::empty(),
                current: Seq::empty(),
            },
        ),
        MdEventView::StartItem => Some(AccModel::Item { blocks: Seq::empty(), pending: Seq::empty() }),
        MdEventView::StartOther => Some(AccModel::Other),
        _ => None,
    }
}

/// The fold after closing the innermost open element: its block, or its
/// blocks as an item, go to the element around it.
pub open spec fn close_model(st: FoldModel) -> FoldModel {
    if st.stack.len() == 0 {
        st
    } else {
        let f = st.stack.last();
        let rest = FoldModel { blocks: st.blocks, stack: st.stack.drop_last() };
        match finish_model(f) {
            Some(b) => deliver_model(rest, DeliveryModel::Block(b)),
            None => match item_of_model(f) {
                Some(it) => deliver_model(rest, DeliveryModel::Item(it)),
                None => rest,
            },
        }
    }
}

/// The fold after one more token.
pub open spec fn fold_step(st: FoldModel, e: MdEventView) -> FoldModel {
    match opened(e) {
        Some(a) => FoldModel { blocks: st.blocks, stack: st.stack.push(a) },
        None => match e {
            MdEventView::End => close_model(st),
            MdEventView::Text(t) => deliver_model(st, DeliveryModel::Inline(InlineModel::Text(t))),
            MdEventView::Code(t) => deliver_model(st, DeliveryModel::Inline(InlineModel::Code(t))),
            MdEventView::SoftBreak => deliver_model(st, DeliveryModel::Inline(InlineModel::SoftBreak)),
            MdEventView::HardBreak => deliver_model(st, DeliveryModel::Inline(InlineModel::LineBreak)),
            MdEventView::Html(h) => deliver_model(st, DeliveryModel::Block(BlockModel::Raw(h))),
            MdEventView::Rule => deliver_model(st, DeliveryModel::Block(BlockModel::Rule)),
            _ => st,
        },
    }
}

/// The fold over the first `n` tokens.
pub open spec fn fold_prefix(events: Seq<MdEventView>, n: nat) -> FoldModel
    decreases n,
{
    if n == 0 || n > events.len() {
        FoldModel { blocks: Seq::empty(), stack: Seq::empty() }
    } else {
        fold_step(fold_prefix(events, (n - 1) as nat), events[n - 1])
    }
}

/// The document's blocks once `n` still-open elements are closed.
pub open spec fn close_all(st: FoldModel, n: nat) -> Seq<BlockModel>
    decreases n,
{
    if n == 0 {
        st.blocks
    } else {
        close_all(close_model(st), (n - 1) as nat)
    }
}

/// The blocks read from a token list: the fold over all tokens, with the
/// elements still open at the end closed in turn.
pub open spec fn blocks_of_events(events: Seq<MdEventView>) -> Seq<BlockModel> {
    let st = fold_prefix(events, events.len());
    close_all(st, st.stack.len())
}

/// The models of a stack of open elements.
pub open spec fn accs_model(s: Seq<BlockAccumulator>) -> Seq<AccModel> {
    s.map_values(|a: BlockAccumulator| acc_model(a))
}

/// Counting open elements that hold no content from the top gives
/// `trailing_others`.
proof fn lemma_trailing_count(s: Seq<AccModel>, k: int)
    requires
        0 <= k <= s.len(),
        forall|j: int| k <= j < s.len() ==> #[trigger] s[j] is Other,
        k > 0 ==> !(s[k - 1] is Other),
    ensures
        trailing_others(s) == s.len() - k,
    decreases s.len(),
{
    if s.len() > k {
        let d = s.drop_last();
        assert forall|j: int| k <= j < d.len() implies #[trigger] d[j] is Other by {
            assert(d[j] == s[j]);
        }
        if k > 0 {
            assert(d[k - 1] == s[k - 1]);
        }
        lemma_trailing_count(d, k);
    }
}

impl BlockAccumulator {
    /// Whether this is an element that holds no content of its own.
    pub fn holds_nothing(&self) -> (r: bool)
        ensures
            r == (*self is Other),
    {
        match self {
            BlockAccumulator::Other => true,
            _ => false,
        }
    }

    /// This element after a delivery.
    pub fn apply(self, d: Delivery) -> (r: Self)
        ensures
            acc_model(r) == apply_model(acc_model(self), delivery_model(d)),
    {
        match d {
            Delivery::Inline(i) => {
                let mut a = self;
                a.push_inline(i);
                a
            },
            Delivery::Block(b) => self.with_block(b),
            Delivery::Item(v) => self.with_item(v),
        }
    }
}

/// Hands content to the innermost open element that holds content, or, for
/// a block with none open, to the document.
fn deliver(stack: &mut Vec<BlockAccumulator>, blocks: &mut Vec<Block>, d: Delivery)
    ensures
        ({
            let after = deliver_model(
                FoldModel { blocks: blocks_model(old(blocks)@), stack: accs_model(old(stack)@) },
                delivery_model(d),
            );
            blocks_model(final(blocks)@) == after.blocks && accs_model(final(stack)@) == after.stack
        }),
{
    let ghost s0 = accs_model(stack@);
    let ghost b0 = blocks_model(blocks@);
    let ghost dm = delivery_model(d);
    let mut k = stack.len();
    while k > 0 && stack[k - 1].holds_nothing()
        invariant
            k <= stack.len(),
            s0 == accs_model(stack@),
            forall|j: int| k <= j < stack.len() ==> #[trigger] stack@[j] is Other,
        decreases k,
    {
        k = k - 1;
    }
    proof {
        assert forall|j: int| k <= j < s0.len() implies #[trigger] s0[j] is Other by {
            assert(stack@[j] is Other);
        }
        if k > 0 {
            assert(!(s0[k - 1] is Other));
        }
        lemma_trailing_count(s0, k as int);
    }
    let n = stack.len() - k;
    let ghost full = stack@;
    while stack.len() > k
        invariant
            k <= stack.len() <= full.len(),
            stack@ == full.subrange(0, stack.len() as int),
        decreases stack.len(),
    {
        stack.pop();
    }
    if k == 0 {
        match d {
            Delivery::Block(b) => {
                let ghost before = blocks@;
                blocks.push(b);
                assert(blocks@.drop_last() =~= before);
            },
            _ => {},
        }
    } else {
        let top = stack.pop().unwrap();
        assert(acc_model(top) == s0[k - 1]);
        let top2 = top.apply(d);
        stack.push(top2);
    }
    let ghost base = stack@;
    let mut i: usize = 0;
    while i < n
        invariant
            i <= n,
            stack@.len() == base.len() + i,
            stack@.subrange(0, base.len() as int) == base,
            forall|j: int| base.len() <= j < stack@.len() ==> #[trigger] stack@[j] is Other,
        decreases n - i,
    {
        stack.push(BlockAccumulator::Other);
        i = i + 1;
        assert(stack@.subrange(0, base.len() as int) =~= base);
    }
    proof {
        let after = deliver_model(FoldModel { blocks: b0, stack: s0 }, dm);
        assert(target(s0) == k - 1);
        if k == 0 {
            assert(base.len() == 0);
            assert(accs_model(stack@) =~= s0);
        } else {
            assert(accs_model(stack@) =~= after.stack) by {
                assert forall|j: int| 0 <= j < s0.len() implies accs_model(stack@)[j] == after.stack[j] by {
                    if j < k - 1 {
                        assert(stack@[j] == base[j]);
                        assert(base[j] == full[j]);
                    } else if j == k - 1 {
                        assert(stack@[j] == base[j]);
                    } else {
                        assert(stack@[j] is Other);
                        assert(s0[j] is Other);
                    }
                }
            }
        }
    }
}

/// The element a token opens, built empty.
fn open_accumulator(e: &MdEvent) -> (r: Option<BlockAccumulator>)
    ensures
        match opened(e@) {
            Some(a) => r matches Some(x) && acc_model(x) == a,
            None => r is None,
        },
{
    match e {
        MdEvent::StartParagraph => {
            let v: Vec<Inline> = Vec::new();
            assert(inlines_model(v@) =~= Seq::empty());
            Some(BlockAccumulator::Paragraph(v))
        },
        MdEvent::StartHeading(level) => {
            let v: Vec<Inline> = Vec::new();
            assert(inlines_model(v@) =~= Seq::empty());
            Some(BlockAccumulator::Heading(*level, v))
        },
        MdEvent::StartBlockQuote => {
            let v: Vec<Block> = Vec::new();
            assert(blocks_model(v@) =~= Seq::empty());
            Some(BlockAccumulator::BlockQuote(v))
        },
        MdEvent::StartCodeBlock(info) => {
            let language = match info {
                Some(s) => if s.as_str().unicode_len() == 0 {
                    None
                } else {
                    Some(s.clone())
                },
                None => None,
            };
            Some(BlockAccumulator::CodeBlock { language, content: String::new() })
        },
        MdEvent::StartList(s) => {
            let ordered = s.is_some();
            let start: u32 = match s {
                Some(n) => *n as u32,
                None => 1,
            };
            let items: Vec<Vec<Block>> = Vec::new();
            let current: Vec<Block> = Vec::new();
            assert(items_model(items@) =~= Seq::empty());
            assert(blocks_model(current@) =~= Seq::empty());
            Some(BlockAccumulator::List { ordered, start, items, current_item: current })
        },
        MdEvent::StartItem => {
            let blocks: Vec<Block> = Vec::new();
            let pending: Vec<Inline> = Vec::new();
            assert(blocks_model(blocks@) =~= Seq::empty());
            assert(inlines_model(pending@) =~= Seq::empty());
            Some(BlockAccumulator::Item { blocks, pending })
        },
        MdEvent::StartOther => Some(BlockAccumulator::Other),
        _ => None,
    }
}

/// Closes the innermost open element.
fn close_innermost(stack: &mut Vec<BlockAccumulator>, blocks: &mut Vec<Block>)
    ensures
        ({
            let after = close_model(FoldModel { blocks: blocks_model(old(blocks)@), stack: accs_model(old(stack)@) });
            blocks_model(final(blocks)@) == after.blocks && accs_model(final(stack)@) == after.stack
        }),
        old(stack)@.len() > 0 ==> final(stack)@.len() == old(stack)@.len() - 1,
        old(stack)@.len() == 0 ==> final(stack)@.len() == 0,
{
    let ghost s0 = accs_model(stack@);
    if stack.len() == 0 {
        return;
    }
    let f = stack.pop().unwrap();
    assert(accs_model(stack@) =~= s0.drop_last());
    assert(acc_model(f) == s0.last());
    match f {
        BlockAccumulator::Item { blocks: ib, pending } => {
            let it = flush_item(ib, pending);
            deliver(stack, blocks, Delivery::Item(it));
        },
        BlockAccumulator::Other => {},
        other => {
            match other.finish() {
                Some(b) => deliver(stack, blocks, Delivery::Block(b)),
                None => {},
            }
        },
    }
}

/// The inline element a token adds, if any.
fn token_inline(e: &MdEvent) -> (r: Option<Inline>)
    ensures
        match e@ {
            MdEventView::Text(t) => r matches Some(i) && inline_model(i) == InlineModel::Text(t),
            MdEventView::Code(t) => r matches Some(i) && inline_model(i) == InlineModel::Code(t),
            MdEventView::SoftBreak => r matches Some(i) && inline_model(i) == InlineModel::SoftBreak,
            MdEventView::HardBreak => r matches Some(i) && inline_model(i) == InlineModel::LineBreak,
            _ => r is None,
        },
{
    match e {
        MdEvent::Text(t) => Some(Inline::Text(t.clone())),
        MdEvent::Code(t) => Some(Inline::Code(t.clone())),
        MdEvent::SoftBreak => Some(Inline::SoftBreak),
        MdEvent::HardBreak => Some(Inline::LineBreak),
        _ => None,
    }
}

/// No block is a paragraph that is only an image reference.
pub open spec fn no_image_reference(bs: Seq<Block>) -> bool {
    forall|k: int| 0 <= k < bs.len() ==> !(#[trigger] bs[k] matches Block::Paragraph(v) && is_image_reference(v@))
}

/// Folds a token list into a document.
pub fn document_from_events(events: &Vec<MdEvent>) -> (r: Document)
    ensures
        blocks_model(r.blocks@) == blocks_of_events(event_views(events@)),
        r.metadata@ == Map::<String, String>::empty(),
{
    let ghost evs = event_views(events@);
    let mut blocks: Vec<Block> = Vec::new();
    let mut stack: Vec<BlockAccumulator> = Vec::new();
    assert(blocks_model(blocks@) =~= Seq::empty());
    assert(accs_model(stack@) =~= Seq::empty());
    let mut i: usize = 0;
    while i < events.len()
        invariant
            i <= events.len(),
            evs == event_views(events@),
            blocks_model(blocks@) == fold_prefix(evs, i as nat).blocks,
            accs_model(stack@) == fold_prefix(evs, i as nat).stack,
        decreases events.len() - i,
    {
        let e = &events[i];
        let ghost before = fold_prefix(evs, i as nat);
        assert(evs[i as int] == e@);
        assert(fold_prefix(evs, (i + 1) as nat) == fold_step(before, e@));
        match open_accumulator(e) {
            Some(a) => {
                let ghost s = stack@;
                stack.push(a);
                assert(accs_model(stack@) =~= accs_model(s).push(acc_model(a)));
            },
            None => match e {
                MdEvent::End => close_innermost(&mut stack, &mut blocks),
                MdEvent::Html(h) => deliver(&mut stack, &mut blocks, Delivery::Block(Block::RawBlock(h.clone()))),
                MdEvent::Rule => deliver(&mut stack, &mut blocks, Delivery::Block(Block::HorizontalRule)),
                _ => match token_inline(e) {
                    Some(inline) => deliver(&mut stack, &mut blocks, Delivery::Inline(inline)),
                    None => {},
                },
            },
        }
        i = i + 1;
    }
    let ghost last = fold_prefix(evs, evs.len());
    while stack.len() > 0
        invariant
            close_all(
                FoldModel { blocks: blocks_model(blocks@), stack: accs_model(stack@) },
                stack@.len() as nat,
            ) == close_all(last, last.stack.len()),
        decreases stack.len(),
    {
        close_innermost(&mut stack, &mut blocks);
    }
    let ghost folded = blocks@;
    proof {
        lemma_fold_top_plain(evs, folded);
    }
    let blocks = post_process_blocks(blocks);
    assert(blocks@ =~= folded) by {
        assert forall|k: int| 0 <= k < folded.len() implies blocks@[k] == folded[k] by {
            assert(is_processed(blocks@[k], folded[k]));
        }
    }
    Document::from_blocks(blocks)
}

/// Reads markdown into a document. Its blocks are well shaped: see
/// [`law_parsed_blocks_are_well_shaped`].
pub fn parse_markdown(input: &str) -> (r: Document)
    ensures
        blocks_model(r.blocks@) == blocks_of_events(cmark_events(input@)),
        r.metadata@ == Map::<String, String>::empty(),
        forall|k: int| 0 <= k < r.blocks@.len() ==> block_shape(#[trigger] blocks_model(r.blocks@)[k], true),
{
    let events = markdown_events(input);
    let d = document_from_events(&events);
    proof {
        let evs = event_views(events@);
        law_parsed_blocks_are_well_shaped(evs);
        assert forall|k: int| 0 <= k < d.blocks@.len() implies block_shape(#[trigger] blocks_model(d.blocks@)[k], true) by {
            lemma_blocks_model_index(d.blocks@);
            assert(blocks_model(d.blocks@)[k] == blocks_of_events(evs)[k]);
        }
    }
    d
}

/// Inline content as the fold builds it: not empty, and only text, code and
/// breaks (no nested or linked inlines).
pub open spec fn plain_inlines(v: Seq<InlineModel>) -> bool {
    v.len() > 0 && forall|i: int| 0 <= i < v.len() ==> !(#[trigger] v[i] is Composite)
}

/// The shapes the fold gives top-level blocks: headings (of level 1 to 6,
/// when `levels` asks for it) and paragraphs of plain inlines, quotes,
/// lists, code, diagrams, raw HTML and rules; nothing else.
pub open spec fn block_shape(b: BlockModel, levels: bool) -> bool {
    match b {
        BlockModel::Header(l, v) => (levels ==> 1 <= l <= 6) && plain_inlines(v),
        BlockModel::Paragraph(v) => plain_inlines(v),
        BlockModel::Other => false,
        _ => true,
    }
}

/// The shapes of open elements: paragraphs and headings hold only plain
/// inlines, and headings have levels 1 to 6 when `levels` asks for it.
pub open spec fn acc_shape(a: AccModel, levels: bool) -> bool {
    match a {
        AccModel::Paragraph(v) => forall|i: int| 0 <= i < v.len() ==> !(#[trigger] v[i] is Composite),
        AccModel::Heading(l, v) => (levels ==> 1 <= l <= 6) && forall|i: int|
            0 <= i < v.len() ==> !(#[trigger] v[i] is Composite),
        _ => true,
    }
}

/// The fold's state keeps its top-level blocks and open elements well shaped.
pub open spec fn fold_shaped(st: FoldModel, levels: bool) -> bool {
    &&& forall|k: int| 0 <= k < st.blocks.len() ==> block_shape(#[trigger] st.blocks[k], levels)
    &&& forall|k: int| 0 <= k < st.stack.len() ==> acc_shape(#[trigger] st.stack[k], levels)
}

/// A well-shaped element stays so when plain content arrives, and ends as a
/// well-shaped block, if any.
proof fn lemma_acc_shape_steps(a: AccModel, levels: bool, d: DeliveryModel)
    requires
        acc_shape(a, levels),
        d matches DeliveryModel::Inline(i) ==> !(i is Composite),
    ensures
        acc_shape(apply_model(a, d), levels),
        finish_model(a) matches Some(b) ==> block_shape(b, levels),
{
    if let DeliveryModel::Inline(i) = d {
        match a {
            AccModel::Paragraph(v) => {
                assert forall|j: int| 0 <= j < v.push(i).len() implies !(#[trigger] v.push(i)[j] is Composite) by {
                    if j < v.len() {
                        assert(v.push(i)[j] == v[j]);
                    }
                }
            },
            AccModel::Heading(l, v) => {
                assert forall|j: int| 0 <= j < v.push(i).len() implies !(#[trigger] v.push(i)[j] is Composite) by {
                    if j < v.len() {
                        assert(v.push(i)[j] == v[j]);
                    }
                }
            },
            _ => {},
        }
    }
}

/// Delivering plain content keeps the fold well shaped.
proof fn lemma_deliver_shape(st: FoldModel, levels: bool, d: DeliveryModel)
    requires
        fold_shaped(st, levels),
        d matches DeliveryModel::Inline(i) ==> !(i is Composite),
        d matches DeliveryModel::Block(b) ==> block_shape(b, levels),
    ensures
        fold_shaped(deliver_model(st, d), levels),
{
    let t = target(st.stack);
    let nx = deliver_model(st, d);
    if t < 0 {
        assert forall|k: int| 0 <= k < nx.blocks.len() implies block_shape(#[trigger] nx.blocks[k], levels) by {
            if k < st.blocks.len() {
                assert(nx.blocks[k] == st.blocks[k]);
            }
        }
    } else {
        assert(t < st.stack.len());
        lemma_acc_shape_steps(st.stack[t], levels, d);
        assert forall|k: int| 0 <= k < nx.stack.len() implies acc_shape(#[trigger] nx.stack[k], levels) by {
            if k != t {
                assert(nx.stack[k] == st.stack[k]);
            }
        }
    }
}

/// Closing the innermost element keeps the fold well shaped.
proof fn lemma_close_shape(st: FoldModel, levels: bool)
    requires
        fold_shaped(st, levels),
    ensures
        fold_shaped(close_model(st), levels),
{
    if st.stack.len() > 0 {
        let f = st.stack.last();
        let rest = FoldModel { blocks: st.blocks, stack: st.stack.drop_last() };
        assert(acc_shape(st.stack[st.stack.len() - 1], levels));
        lemma_acc_shape_steps(f, levels, DeliveryModel::Item(Seq::empty()));
        assert forall|k: int| 0 <= k < rest.stack.len() implies acc_shape(#[trigger] rest.stack[k], levels) by {
            assert(rest.stack[k] == st.stack[k]);
        }
        match finish_model(f) {
            Some(b) => lemma_deliver_shape(rest, levels, DeliveryModel::Block(b)),
            None => match item_of_model(f) {
                Some(it) => lemma_deliver_shape(rest, levels, DeliveryModel::Item(it)),
                None => {},
            },
        }
    }
}

/// The fold over any prefix is well shaped, as long as (when `levels` asks
/// for it) its headings have levels from 1 to 6.
proof fn lemma_fold_shape(evs: Seq<MdEventView>, n: nat, levels: bool)
    requires
        levels ==> heading_levels_in_range(evs),
    ensures
        fold_shaped(fold_prefix(evs, n), levels),
    decreases n,
{
    if n == 0 || n > evs.len() {
    } else {
        lemma_fold_shape(evs, (n - 1) as nat, levels);
        let st = fold_prefix(evs, (n - 1) as nat);
        let e = evs[n - 1];
        assert(fold_prefix(evs, n) == fold_step(st, e));
        assert(e matches MdEventView::StartHeading(l) ==> (levels ==> 1 <= l <= 6));
        match opened(e) {
            Some(a) => {
                let nx = fold_step(st, e);
                assert forall|k: int| 0 <= k < nx.stack.len() implies acc_shape(#[trigger] nx.stack[k], levels) by {
                    if k < st.stack.len() {
                        assert(nx.stack[k] == st.stack[k]);
                    }
                }
            },
            None => {
                if e is End {
                    lemma_close_shape(st, levels);
                } else if let MdEventView::Text(t) = e {
                    lemma_deliver_shape(st, levels, DeliveryModel::Inline(InlineModel::Text(t)));
                } else if let MdEventView::Code(t) = e {
                    lemma_deliver_shape(st, levels, DeliveryModel::Inline(InlineModel::Code(t)));
                } else if e is SoftBreak {
                    lemma_deliver_shape(st, levels, DeliveryModel::Inline(InlineModel::SoftBreak));
                } else if e is HardBreak {
                    lemma_deliver_shape(st, levels, DeliveryModel::Inline(InlineModel::LineBreak));
                } else if let MdEventView::Html(h) = e {
                    lemma_deliver_shape(st, levels, DeliveryModel::Block(BlockModel::Raw(h)));
                } else if e is Rule {
                    lemma_deliver_shape(st, levels, DeliveryModel::Block(BlockModel::Rule));
                }
            },
        }
    }
}

/// Closing the open elements keeps the document's blocks well shaped.
proof fn lemma_close_all_shape(st: FoldModel, n: nat, levels: bool)
    requires
        fold_shaped(st, levels),
    ensures
        forall|k: int| 0 <= k < close_all(st, n).len() ==> block_shape(#[trigger] close_all(st, n)[k], levels),
    decreases n,
{
    if n > 0 {
        lemma_close_shape(st, levels);
        lemma_close_all_shape(close_model(st), (n - 1) as nat, levels);
        assert(close_all(st, n) == close_all(close_model(st), (n - 1) as nat));
    } else {
        assert(close_all(st, n) == st.blocks);
        assert forall|k: int| 0 <= k < close_all(st, n).len() implies block_shape(#[trigger] close_all(st, n)[k], levels) by {
            assert(close_all(st, n)[k] == st.blocks[k]);
        }
    }
}

/// Every top-level block read from a token list is well shaped, as long as
/// its headings have levels from 1 to 6 (which `pulldown-cmark`'s always
/// do): paragraphs and headings are never empty and hold only text, code and
/// breaks; the rest is a quote, a list, code, a diagram, raw HTML or a rule.
/// Images and diagrams never appear inside a paragraph.
pub proof fn law_parsed_blocks_are_well_shaped(evs: Seq<MdEventView>)
    requires
        heading_levels_in_range(evs),
    ensures
        forall|k: int| 0 <= k < blocks_of_events(evs).len() ==> block_shape(#[trigger] blocks_of_events(evs)[k], true),
{
    lemma_fold_shape(evs, evs.len(), true);
    let st = fold_prefix(evs, evs.len());
    lemma_close_all_shape(st, st.stack.len(), true);
}

/// Top-level paragraphs the fold yields are never only an image reference.
proof fn lemma_fold_top_plain(evs: Seq<MdEventView>, bs: Seq<Block>)
    requires
        blocks_model(bs) == blocks_of_events(evs),
    ensures
        no_image_reference(bs),
{
    lemma_fold_shape(evs, evs.len(), false);
    let st = fold_prefix(evs, evs.len());
    lemma_close_all_shape(st, st.stack.len(), false);
    lemma_blocks_model_index(bs);
    assert forall|k: int| 0 <= k < bs.len() implies !(#[trigger] bs[k] matches Block::Paragraph(v) && is_image_reference(
        v@,
    )) by {
        assert(block_shape(blocks_model(bs)[k], false));
        if let Block::Paragraph(v) = bs[k] {
            if v@.len() == 1 && v@[0] is Link {
                assert(inlines_model(v@)[0] is Composite);
            }
        }
    }
}

/// The model of a list of blocks has one model per block, in order.
proof fn lemma_blocks_model_index(bs: Seq<Block>)
    ensures
        blocks_model(bs).len() == bs.len(),
        forall|k: int| 0 <= k < bs.len() ==> #[trigger] blocks_model(bs)[k] == block_model(bs[k]),
    decreases bs.len(),
{
    if bs.len() > 0 {
        lemma_blocks_model_index(bs.drop_last());
        assert forall|k: int| 0 <= k < bs.len() implies #[trigger] blocks_model(bs)[k] == block_model(bs[k]) by {
            if k < bs.len() - 1 {
                assert(bs.drop_last()[k] == bs[k]);
            }
        }
    }
}

/// Replaces each paragraph that is only an image reference (a single link)
/// by its image block; every other block stays as it was, in order.
pub fn post_process_blocks(blocks: Vec<Block>) -> (r: Vec<Block>)
    ensures
        r@.len() == blocks@.len(),
        forall|i: int| 0 <= i < blocks@.len() ==> is_processed(#[trigger] r@[i], blocks@[i]),
{
    let mut reversed: Vec<Block> = Vec::new();
    let mut rest = blocks;
    while rest.len() > 0
        invariant
            rest@ + reversed@.reverse() == blocks@,
        decreases rest.len(),
    {
        let b = rest.pop().unwrap();
        reversed.push(b);
        assert(rest@ + reversed@.reverse() =~= blocks@);
    }
    let mut out: Vec<Block> = Vec::new();
    while reversed.len() > 0
        invariant
            out@.len() + reversed@.len() == blocks@.len(),
            reversed@.reverse() == blocks@.subrange(out@.len() as int, blocks@.len() as int),
            forall|i: int| 0 <= i < out@.len() ==> is_processed(#[trigger] out@[i], blocks@[i]),
        decreases reversed.len(),
    {
        let ghost k = out@.len() as int;
        let ghost before = reversed@;
        let b = reversed.pop().unwrap();
        assert(before.reverse()[0] == b);
        assert(blocks@[k] == b) by {
            assert(blocks@.subrange(k, blocks@.len() as int)[0] == blocks@[k]);
        }
        let b2 = match b {
            Block::Paragraph(inlines) => match try_extract_image_block(&inlines) {
                Some(image) => image,
                None => Block::Paragraph(inlines),
            },
            other => other,
        };
        out.push(b2);
        assert(reversed@.reverse() =~= blocks@.subrange(out@.len() as int, blocks@.len() as int)) by {
            assert(reversed@.reverse() =~= before.reverse().drop_first());
        }
    }
    out
}

/// The plain text of an inline element: its characters without styling;
/// breaks and non-breaking spaces read as a space.
pub open spec fn inline_plain(i: Inline) -> Seq<char>
    decreases i,
{
    match i {
        Inline::Text(s) => s@,
        Inline::Code(s) => s@,
        Inline::Emph(v) => inlines_plain(v@),
        Inline::Strong(v) => inlines_plain(v@),
        Inline::Strikeout(v) => inlines_plain(v@),
        Inline::Superscript(v) => inlines_plain(v@),
        Inline::Subscript(v) => inlines_plain(v@),
        Inline::Link { text, url } => inlines_plain(text@),
        Inline::LineBreak => " "@,
        Inline::SoftBreak => " "@,
        Inline::Nbsp => " "@,
    }
}

/// The plain text of a run of inline elements, in order.
pub open spec fn inlines_plain(s: Seq<Inline>) -> Seq<char>
    decreases s,
{
    if s.len() == 0 {
        Seq::empty()
    } else {
        inlines_plain(s.drop_last()) + inline_plain(s.last())
    }
}

/// Whether a paragraph's inlines are only an image reference: a single link.
pub open spec fn is_image_reference(v: Seq<Inline>) -> bool {
    v.len() == 1 && v[0] is Link
}

/// Whether `b` is the image block for the image reference `v`: the link's
/// target as the path, its text as the alternative text, at full width.
pub open spec fn is_image_block_for(b: Block, v: Seq<Inline>) -> bool {
    &&& v.len() == 1
    &&& v[0] matches Inline::Link { text, url } && b matches Block::Image { path, alt, width } && path
        == url && alt@ == inlines_plain(text@) && width == ImageWidth::Full
}

/// The block a paragraph's blocks become after post-processing: an image
/// block where the paragraph is only an image reference, else the same block.
pub open spec fn is_processed(r: Block, b: Block) -> bool {
    if b matches Block::Paragraph(v) && is_image_reference(v@) {
        b matches Block::Paragraph(v) && is_image_block_for(r, v@)
    } else {
        r == b
    }
}

/// Appends the plain text of one inline element.
fn push_plain(out: &mut Vec<char>, inline: &Inline)
    ensures
        final(out)@ == old(out)@ + inline_plain(*inline),
    decreases inline,
{
    match inline {
        Inline::Text(s) => push_str_chars(out, s.as_str()),
        Inline::Code(s) => push_str_chars(out, s.as_str()),
        Inline::Emph(v) => push_plain_run(out, v),
        Inline::Strong(v) => push_plain_run(out, v),
        Inline::Strikeout(v) => push_plain_run(out, v),
        Inline::Superscript(v) => push_plain_run(out, v),
        Inline::Subscript(v) => push_plain_run(out, v),
        Inline::Link { text, url: _ } => push_plain_run(out, text),
        Inline::LineBreak => push_str_chars(out, " "),
        Inline::SoftBreak => push_str_chars(out, " "),
        Inline::Nbsp => push_str_chars(out, " "),
    }
}

/// Appends the plain text of a run of inline elements.
fn push_plain_run(out: &mut Vec<char>, inlines: &Vec<Inline>)
    ensures
        final(out)@ == old(out)@ + inlines_plain(inlines@),
    decreases inlines,
{
    let mut i: usize = 0;
    while i < inlines.len()
        invariant
            i <= inlines.len(),
            out@ == old(out)@ + inlines_plain(inlines@.subrange(0, i as int)),
        decreases inlines.len() - i,
    {
        assert(inlines@.subrange(0, i + 1).drop_last() =~= inlines@.subrange(0, i as int));
        push_plain(out, &inlines[i]);
        i = i + 1;
        assert(out@ =~= old(out)@ + inlines_plain(inlines@.subrange(0, i as int)));
    }
    assert(inlines@.subrange(0, inlines.len() as int) =~= inlines@);
}

/// The image block a paragraph stands for when it holds only an image
/// reference (a single link): the link's target is the image's path, the
/// link's text its alternative text, and it is shown at full width.
pub fn try_extract_image_block(inlines: &Vec<Inline>) -> (r: Option<Block>)
    ensures
        match r {
            Some(b) => is_image_block_for(b, inlines@),
            None => !is_image_reference(inlines@),
        },
{
    if inlines.len() == 1 {
        match &inlines[0] {
            Inline::Link { text, url } => {
                let mut alt: Vec<char> = Vec::new();
                push_plain_run(&mut alt, text);
                return Some(
                    Block::Image { path: url.clone(), alt: string_from_chars(&alt), width: ImageWidth::Full },
                );
            },
            _ => {},
        }
    }
    None
}

/// Inline content read from text: the whole text as one plain run.
pub fn parse_inline(text: &str) -> (r: Vec<Inline>)
    ensures
        r@.len() == 1,
        inline_model(r@[0]) == InlineModel::Text(text@),
{
    let mut r: Vec<Inline> = Vec::new();
    r.push(Inline::Text(String::from_str(text)));
    r
}

} // verus!
