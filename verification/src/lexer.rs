//! The CommonMark lexer: Markdown text to events.

use crate::tokens::{token_views, FenceKind, HeadingRank, LinkKind, Token, TokenTag, TokenView};
use pulldown_cmark::Event as CmarkEvent;
use pulldown_cmark::Tag as CmarkTag;
use vstd::prelude::*;

verus! {

/// `pulldown_cmark::Event`, an event of the lexer;
/// nothing is known of its values.
#[verifier::external_type_specification]
#[verifier::external_body]
pub struct ExEvent<'a>(pulldown_cmark::Event<'a>);

/// `pulldown_cmark::Tag`, the tag of an element;
/// nothing is known of its values.
#[verifier::external_type_specification]
#[verifier::external_body]
pub struct ExTag<'a>(pulldown_cmark::Tag<'a>);

/// `pulldown_cmark::CodeBlockKind`, the kind of a code block;
/// nothing is known of its values.
#[verifier::external_type_specification]
#[verifier::external_body]
pub struct ExCodeBlockKind<'a>(pulldown_cmark::CodeBlockKind<'a>);

/// `pulldown_cmark::HeadingLevel`, the level of a heading;
/// nothing is known of its values.
#[verifier::external_type_specification]
#[verifier::external_body]
pub struct ExHeadingLevel(pulldown_cmark::HeadingLevel);

/// `pulldown_cmark::LinkType`, the way a link was written;
/// nothing is known of its values.
#[verifier::external_type_specification]
#[verifier::external_body]
pub struct ExLinkType(pulldown_cmark::LinkType);

/// The events that the CommonMark lexer reads from a Markdown text, with
/// strikethrough and task lists enabled.
pub uninterp spec fn markdown_events(markdown: Seq<char>) -> Seq<TokenView>;

/// Tells the variants of `pulldown_cmark::HeadingLevel` apart.
#[verifier::external_body]
fn heading_level_from(level: pulldown_cmark::HeadingLevel) -> HeadingRank {
    match level {
        pulldown_cmark::HeadingLevel::H1 => HeadingRank::H1,
        pulldown_cmark::HeadingLevel::H2 => HeadingRank::H2,
        pulldown_cmark::HeadingLevel::H3 => HeadingRank::H3,
        pulldown_cmark::HeadingLevel::H4 => HeadingRank::H4,
        pulldown_cmark::HeadingLevel::H5 => HeadingRank::H5,
        pulldown_cmark::HeadingLevel::H6 => HeadingRank::H6,
    }
}

/// Tells the variants of `pulldown_cmark::LinkType` apart.
#[verifier::external_body]
fn link_type_from(link_type: pulldown_cmark::LinkType) -> LinkKind {
    match link_type {
        pulldown_cmark::LinkType::Inline => LinkKind::Inline,
        pulldown_cmark::LinkType::Reference => LinkKind::Reference,
        pulldown_cmark::LinkType::ReferenceUnknown => LinkKind::ReferenceUnknown,
        pulldown_cmark::LinkType::Collapsed => LinkKind::Collapsed,
        pulldown_cmark::LinkType::CollapsedUnknown => LinkKind::CollapsedUnknown,
        pulldown_cmark::LinkType::Shortcut => LinkKind::Shortcut,
        pulldown_cmark::LinkType::ShortcutUnknown => LinkKind::ShortcutUnknown,
        pulldown_cmark::LinkType::Autolink => LinkKind::Autolink,
        pulldown_cmark::LinkType::Email => LinkKind::Email,
    }
}

/// Tells the variants of `pulldown_cmark::CodeBlockKind` apart and copies the
/// language of a fenced block.
#[verifier::external_body]
fn code_block_kind_from(kind: pulldown_cmark::CodeBlockKind<'_>) -> FenceKind {
    match kind {
        pulldown_cmark::CodeBlockKind::Indented => FenceKind::Indented,
        pulldown_cmark::CodeBlockKind::Fenced(language) => FenceKind::Fenced(
            language.to_string(),
        ),
    }
}

/// Tells the block variants of `pulldown_cmark::Tag` apart and copies their
/// fields, but for the id and the classes of a heading and the alignments of
/// a table, which are dropped. The variants for spans go to [`tag_from`].
#[verifier::external_body]
fn block_tag_from(tag: CmarkTag<'_>) -> TokenTag {
    match tag {
        CmarkTag::Paragraph => TokenTag::Paragraph,
        CmarkTag::Heading(level, ..) => TokenTag::Heading(heading_level_from(level)),
        CmarkTag::BlockQuote => TokenTag::BlockQuote,
        CmarkTag::CodeBlock(kind) => TokenTag::CodeBlock(code_block_kind_from(kind)),
        CmarkTag::List(start) => TokenTag::List(start),
        CmarkTag::Item => TokenTag::Item,
        CmarkTag::FootnoteDefinition(label) => TokenTag::FootnoteDefinition(label.to_string()),
        CmarkTag::Table(_) => TokenTag::Table,
        CmarkTag::TableHead => TokenTag::TableHead,
        CmarkTag::TableRow => TokenTag::TableRow,
        CmarkTag::TableCell => TokenTag::TableCell,
        span => tag_from(span),
    }
}

/// Tells the span variants of `pulldown_cmark::Tag` apart and copies their
/// fields. The variants for blocks go to [`block_tag_from`].
#[verifier::external_body]
fn tag_from(tag: CmarkTag<'_>) -> TokenTag {
    match tag {
        CmarkTag::Emphasis => TokenTag::Emphasis,
        CmarkTag::Strong => TokenTag::Strong,
        CmarkTag::Strikethrough => TokenTag::Strikethrough,
        CmarkTag::Link(kind, url, title) => {
            TokenTag::Link(link_type_from(kind), url.to_string(), title.to_string())
        },
        CmarkTag::Image(kind, url, title) => {
            TokenTag::Image(link_type_from(kind), url.to_string(), title.to_string())
        },
        block => block_tag_from(block),
    }
}

/// Tells the variants of `pulldown_cmark::Event` apart and copies their
/// fields.
#[verifier::external_body]
fn event_from(event: CmarkEvent<'_>) -> Token {
    match event {
        CmarkEvent::Start(tag) => Token::Start(tag_from(tag)),
        CmarkEvent::End(tag) => Token::End(tag_from(tag)),
        CmarkEvent::Text(text) => Token::Text(text.to_string()),
        CmarkEvent::Code(code) => Token::Code(code.to_string()),
        CmarkEvent::Html(html) => Token::Html(html.to_string()),
        CmarkEvent::FootnoteReference(label) => Token::FootnoteReference(
            label.to_string(),
        ),
        CmarkEvent::SoftBreak => Token::SoftBreak,
        CmarkEvent::HardBreak => Token::HardBreak,
        CmarkEvent::Rule => Token::Rule,
        CmarkEvent::TaskListMarker(checked) => Token::TaskListMarker(checked),
    }
}

/// Runs `pulldown_cmark::Parser::new_ext` over the text, with the options
/// for strikethrough and for task lists, and collects its events. Not
/// proved: that the events are those that [`markdown_events`] names, which
/// only says that equal texts are read alike.
#[verifier::external_body]
pub(crate) fn lex(markdown: &str) -> (tokens: Vec<Token>)
    ensures
        token_views(tokens@) == markdown_events(markdown@),
{
    let mut options = pulldown_cmark::Options::empty();
    options.insert(pulldown_cmark::Options::ENABLE_STRIKETHROUGH);
    options.insert(pulldown_cmark::Options::ENABLE_TASKLISTS);
    pulldown_cmark::Parser::new_ext(markdown, options).map(event_from).collect()
}

} // verus!
