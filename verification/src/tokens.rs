//! The tokens of a Markdown document: the events that the CommonMark lexer
//! hands to the converter, as plain values.

use vstd::prelude::*;

verus! {

/// The level of a Markdown heading.
#[derive(Clone, Copy, Debug, PartialEq, Eq, Structural)]
pub enum HeadingRank {
    H1,
    H2,
    H3,
    H4,
    H5,
    H6,
}

/// How a link was written.
#[derive(Clone, Copy, Debug, PartialEq, Eq, Structural)]
pub enum LinkKind {
    /// Inline link like `[foo](bar)`.
    Inline,
    /// Reference link like `[foo][bar]`.
    Reference,
    /// Reference without destination in the document.
    ReferenceUnknown,
    /// Collapsed link like `[foo][]`.
    Collapsed,
    /// Collapsed link without destination in the document.
    CollapsedUnknown,
    /// Shortcut link like `[foo]`.
    Shortcut,
    /// Shortcut without destination in the document.
    ShortcutUnknown,
    /// Autolink like `<http://foo.bar/baz>`.
    Autolink,
    /// Email address in autolink like `<john@example.org>`.
    Email,
}

/// The kind of a code block.
#[derive(Debug)]
pub enum FenceKind {
    Indented,
    /// A fenced block, with the language written behind the opening fence,
    /// which may be empty.
    Fenced(String),
}

/// Tags for elements that can contain other elements.
#[derive(Debug)]
pub enum TokenTag {
    Paragraph,
    Heading(HeadingRank),
    BlockQuote,
    CodeBlock(FenceKind),
    /// A list. If the list is ordered the field is the number of the first
    /// item.
    List(Option<u64>),
    Item,
    FootnoteDefinition(String),
    Table,
    TableHead,
    TableRow,
    TableCell,
    Emphasis,
    Strong,
    Strikethrough,
    /// A link: how it was written, the destination URL, the title.
    Link(LinkKind, String, String),
    /// An image: how it was written, the destination URL, the title.
    Image(LinkKind, String, String),
}

/// Markdown tokens, in the order of a preorder traversal of the document,
/// with an `End` token when all of an element's children have been visited.
#[derive(Debug)]
pub enum Token {
    Start(TokenTag),
    End(TokenTag),
    Text(String),
    /// Inline code.
    Code(String),
    Html(String),
    FootnoteReference(String),
    SoftBreak,
    HardBreak,
    Rule,
    /// The marker of a task list item: whether it is checked.
    TaskListMarker(bool),
}

/// The mathematical value of a [`FenceKind`].
pub enum FenceKindView {
    Indented,
    Fenced(Seq<char>),
}

/// The mathematical value of a [`TokenTag`].
pub enum TokenTagView {
    Paragraph,
    Heading(HeadingRank),
    BlockQuote,
    CodeBlock(FenceKindView),
    List(Option<u64>),
    Item,
    FootnoteDefinition(Seq<char>),
    Table,
    TableHead,
    TableRow,
    TableCell,
    Emphasis,
    Strong,
    Strikethrough,
    Link(LinkKind, Seq<char>, Seq<char>),
    Image(LinkKind, Seq<char>, Seq<char>),
}

/// The mathematical value of an [`Token`].
pub enum TokenView {
    Start(TokenTagView),
    End(TokenTagView),
    Text(Seq<char>),
    Code(Seq<char>),
    Html(Seq<char>),
    FootnoteReference(Seq<char>),
    SoftBreak,
    HardBreak,
    Rule,
    TaskListMarker(bool),
}

impl View for FenceKind {
    type V = FenceKindView;

    open spec fn view(&self) -> FenceKindView {
        match *self {
            FenceKind::Indented => FenceKindView::Indented,
            FenceKind::Fenced(language) => FenceKindView::Fenced(language@),
        }
    }
}

impl View for TokenTag {
    type V = TokenTagView;

    open spec fn view(&self) -> TokenTagView {
        match *self {
            TokenTag::Paragraph => TokenTagView::Paragraph,
            TokenTag::Heading(level) => TokenTagView::Heading(level),
            TokenTag::BlockQuote => TokenTagView::BlockQuote,
            TokenTag::CodeBlock(kind) => TokenTagView::CodeBlock(kind@),
            TokenTag::List(start) => TokenTagView::List(start),
            TokenTag::Item => TokenTagView::Item,
            TokenTag::FootnoteDefinition(label) => TokenTagView::FootnoteDefinition(label@),
            TokenTag::Table => TokenTagView::Table,
            TokenTag::TableHead => TokenTagView::TableHead,
            TokenTag::TableRow => TokenTagView::TableRow,
            TokenTag::TableCell => TokenTagView::TableCell,
            TokenTag::Emphasis => TokenTagView::Emphasis,
            TokenTag::Strong => TokenTagView::Strong,
            TokenTag::Strikethrough => TokenTagView::Strikethrough,
            TokenTag::Link(link_type, url, title) => TokenTagView::Link(link_type, url@, title@),
            TokenTag::Image(link_type, url, title) => TokenTagView::Image(link_type, url@, title@),
        }
    }
}

impl View for Token {
    type V = TokenView;

    open spec fn view(&self) -> TokenView {
        match *self {
            Token::Start(tag) => TokenView::Start(tag@),
            Token::End(tag) => TokenView::End(tag@),
            Token::Text(text) => TokenView::Text(text@),
            Token::Code(code) => TokenView::Code(code@),
            Token::Html(html) => TokenView::Html(html@),
            Token::FootnoteReference(label) => TokenView::FootnoteReference(label@),
            Token::SoftBreak => TokenView::SoftBreak,
            Token::HardBreak => TokenView::HardBreak,
            Token::Rule => TokenView::Rule,
            Token::TaskListMarker(checked) => TokenView::TaskListMarker(checked),
        }
    }
}

/// The mathematical values of a list of tokens.
pub open spec fn token_views(tokens: Seq<Token>) -> Seq<TokenView> {
    tokens.map_values(|token: Token| token@)
}

} // verus!
