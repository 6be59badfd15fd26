//! Conversion of Markdown to notebook cells.

use crate::active_formatting::text_of;
use crate::documents::{NewNotebook, NewTimeRange, RelativeTimeRange};
use crate::formatting::{
    Annotation, AnnotationView, AnnotationWithOffset, AnnotationWithOffsetView,
};
use crate::formatting_order::{formatting_sorted, lemma_converted_formatting_is_sorted};
use crate::lexer::{lex, markdown_events};
use crate::notebooks::{
    cell_views, Cell, CellView, CheckboxCell, CheckboxCellView, CodeCell, CodeCellView,
    DividerCell, HeadingCell, HeadingCellView, HeadingType, ImageCell, ImageCellView,
    ListItemCell, ListItemCellView, ListType, ProviderCell, ProviderCellView, TextCell,
    TextCellView,
};
use crate::query_data::{encode_pair, form_encoded_pair};
use crate::text::{decimal, decimal_text};
use crate::tokens::{
    token_views, FenceKind, FenceKindView, HeadingRank, LinkKind, Token, TokenTag, TokenTagView,
    TokenView,
};
use vstd::prelude::*;
use vstd::string::{StrSliceExecFns, StringExecFns};

verus! {

/// What is known of a list while its items are read: its kind, the number of
/// its next item if it is ordered, and its nesting level, `None` at the top.
#[derive(Clone, Copy, Debug, PartialEq, Eq, Structural)]
pub struct ListDetails {
    pub list_type: ListType,
    pub start_number: Option<u16>,
    pub level: Option<u8>,
}

/// The state of the converter: the cell that is open, the lists that are
/// open, outermost first, the cells that are done, whether headings are read
/// one level up, and the language of a code block of which the text is
/// still to come.
pub struct ParserView {
    pub current: Option<CellView>,
    pub lists: Seq<ListDetails>,
    pub cells: Seq<CellView>,
    pub decrement: bool,
    pub syntax: Option<Seq<char>>,
}

/// The line that marks a code block as a query to a provider.
pub open spec fn provider_directive() -> Seq<char> {
    "# fiberplane-provider-query\n"@
}

/// The state once the open cell, if any, is done.
pub open spec fn closed(state: ParserView) -> ParserView {
    match state.current {
        Some(cell) => ParserView { current: None, cells: state.cells.push(cell), ..state },
        None => state,
    }
}

/// The state once `cell` is opened: the cell that was open is done.
pub open spec fn opened(state: ParserView, cell: CellView) -> ParserView {
    ParserView { current: Some(cell), ..closed(state) }
}

/// The offset of an annotation that is added behind a text: the number of
/// the text's characters, or the largest offset where there are more.
pub open spec fn end_offset(text: Seq<char>) -> u32 {
    if text.len() <= u32::MAX {
        text.len() as u32
    } else {
        u32::MAX
    }
}

/// The state once `annotation` is added at the end of the open cell's text.
/// Nothing changes where no cell is open or the open cell holds no formatted
/// text.
pub open spec fn annotated(state: ParserView, annotation: AnnotationView) -> ParserView {
    match state.current {
        Some(cell) => match cell.content() {
            Some(text) => ParserView {
                current: Some(
                    cell.with_annotation_pushed(
                        AnnotationWithOffsetView { offset: end_offset(text), annotation },
                    ),
                ),
                ..state
            },
            None => state,
        },
        None => state,
    }
}

/// The state once `text` is added to the open cell's text. Nothing changes
/// where no cell is open or the open cell holds no text.
pub open spec fn extended(state: ParserView, text: Seq<char>) -> ParserView {
    match state.current {
        Some(cell) => ParserView { current: Some(cell.with_text_appended(text)), ..state },
        None => state,
    }
}

/// Whether a cell is open that holds text.
pub open spec fn writing(state: ParserView) -> bool {
    state.current matches Some(cell) && cell.content() is Some
}

/// The heading type that a Markdown heading is read as, if any. Where the
/// title is the only heading of the first level, the others are read one
/// level up.
pub open spec fn heading_type_for(rank: HeadingRank, decrement: bool) -> Option<HeadingType> {
    if decrement {
        match rank {
            HeadingRank::H2 => Some(HeadingType::H1),
            HeadingRank::H3 => Some(HeadingType::H2),
            HeadingRank::H4 => Some(HeadingType::H3),
            _ => None,
        }
    } else {
        match rank {
            HeadingRank::H1 => Some(HeadingType::H1),
            HeadingRank::H2 => Some(HeadingType::H2),
            HeadingRank::H3 => Some(HeadingType::H3),
            _ => None,
        }
    }
}

/// The cell that a Markdown heading opens: a heading cell, or a text cell
/// where the level has no heading type.
pub open spec fn heading_cell(rank: HeadingRank, decrement: bool) -> CellView {
    match heading_type_for(rank, decrement) {
        Some(heading_type) => CellView::Heading(
            HeadingCellView { heading_type, ..HeadingCell::blank() },
        ),
        None => CellView::Text(TextCell::blank()),
    }
}

/// The start number of a list narrowed to the range of a cell's number:
/// `None` where it does not fit.
pub open spec fn narrowed(start: Option<u64>) -> Option<u16> {
    match start {
        Some(number) if number <= u16::MAX => Some(number as u16),
        _ => None,
    }
}

/// The details of a list that starts inside the given open lists.
pub open spec fn started_details(lists: Seq<ListDetails>, start: Option<u64>) -> ListDetails {
    ListDetails {
        list_type: if start is Some {
            ListType::Ordered
        } else {
            ListType::Unordered
        },
        start_number: narrowed(start),
        level: if lists.len() == 0 {
            None
        } else {
            match lists.last().level {
                Some(level) if level < u8::MAX => Some((level + 1) as u8),
                Some(level) => Some(level),
                None => Some(1u8),
            }
        },
    }
}

/// The list item cell that an item of the given list opens.
pub open spec fn item_cell(details: ListDetails) -> CellView {
    CellView::ListItem(
        ListItemCellView {
            list_type: details.list_type,
            start_number: details.start_number,
            level: details.level,
            ..ListItemCell::blank()
        },
    )
}

/// The details of a list after one of its items: the number of the next
/// item is one higher, or gone where it would not fit.
pub open spec fn after_item(details: ListDetails) -> ListDetails {
    ListDetails {
        start_number: match details.start_number {
            Some(number) if number < u16::MAX => Some((number + 1) as u16),
            _ => None,
        },
        ..details
    }
}

/// The annotation that the start of a span stands for, if any: emphasis,
/// strong, strikethrough, and inline links and autolinks.
pub open spec fn start_annotation(tag: TokenTagView) -> Option<AnnotationView> {
    match tag {
        TokenTagView::Emphasis => Some(AnnotationView::StartItalics),
        TokenTagView::Strong => Some(AnnotationView::StartBold),
        TokenTagView::Strikethrough => Some(AnnotationView::StartStrikethrough),
        TokenTagView::Link(LinkKind::Inline, url, _) => Some(AnnotationView::StartLink { url }),
        TokenTagView::Link(LinkKind::Autolink, url, _) => Some(AnnotationView::StartLink { url }),
        _ => None,
    }
}

/// The annotation that the end of a span stands for, if any.
pub open spec fn end_annotation(tag: TokenTagView) -> Option<AnnotationView> {
    match tag {
        TokenTagView::Emphasis => Some(AnnotationView::EndItalics),
        TokenTagView::Strong => Some(AnnotationView::EndBold),
        TokenTagView::Strikethrough => Some(AnnotationView::EndStrikethrough),
        TokenTagView::Link(LinkKind::Inline, _, _) => Some(AnnotationView::EndLink),
        TokenTagView::Link(LinkKind::Autolink, _, _) => Some(AnnotationView::EndLink),
        _ => None,
    }
}

/// The state after the start of an element.
pub open spec fn after_start(state: ParserView, tag: TokenTagView) -> ParserView {
    match tag {
        TokenTagView::Paragraph => opened(state, CellView::Text(TextCell::blank())),
        TokenTagView::Heading(rank) => opened(state, heading_cell(rank, state.decrement)),
        TokenTagView::BlockQuote => opened(state, CellView::Text(TextCell::blank())),
        TokenTagView::CodeBlock(FenceKindView::Fenced(language)) => ParserView {
            current: None,
            syntax: Some(language),
            ..state
        },
        TokenTagView::CodeBlock(FenceKindView::Indented) => ParserView {
            current: None,
            syntax: Some(Seq::empty()),
            ..state
        },
        TokenTagView::List(start) => ParserView {
            lists: state.lists.push(started_details(state.lists, start)),
            ..state
        },
        TokenTagView::Item => if state.lists.len() > 0 {
            opened(
                ParserView {
                    lists: state.lists.drop_last().push(after_item(state.lists.last())),
                    ..state
                },
                item_cell(state.lists.last()),
            )
        } else {
            state
        },
        TokenTagView::Image(_, url, _) => opened(
            state,
            CellView::Image(ImageCellView { url: Some(url), ..ImageCell::blank() }),
        ),
        _ => match start_annotation(tag) {
            Some(annotation) => annotated(state, annotation),
            None => state,
        },
    }
}

/// A text without its last character, if that is a line feed.
pub open spec fn without_final_newline(text: Seq<char>) -> Seq<char> {
    if text.len() > 0 && text.last() == '\n' {
        text.drop_last()
    } else {
        text
    }
}

/// A cell at the end of a code block: a code cell loses the line feed that
/// stood before the closing fence.
pub open spec fn fenced_off(cell: CellView) -> CellView {
    match cell {
        CellView::Code(code) => CellView::Code(
            CodeCellView { content: without_final_newline(code.content), ..code },
        ),
        _ => cell,
    }
}

/// The state after the end of an element.
pub open spec fn after_end(state: ParserView, tag: TokenTagView) -> ParserView {
    match tag {
        TokenTagView::Paragraph => closed(state),
        TokenTagView::Heading(_) => closed(state),
        TokenTagView::BlockQuote => closed(state),
        TokenTagView::Item => closed(state),
        TokenTagView::CodeBlock(_) => match state.current {
            Some(cell) => closed(ParserView { current: Some(fenced_off(cell)), ..state }),
            None => state,
        },
        TokenTagView::List(_) => if state.lists.len() > 0 {
            ParserView { lists: state.lists.drop_last(), ..state }
        } else {
            state
        },
        _ => match end_annotation(tag) {
            Some(annotation) => annotated(state, annotation),
            None => state,
        },
    }
}

/// The code of a character, with that of an upper-case ASCII letter replaced
/// by that of the lower-case one.
pub open spec fn folded(c: char) -> u32 {
    if 'A' <= c && c <= 'Z' {
        ((c as u32) + 32) as u32
    } else {
        c as u32
    }
}

/// Whether two texts are equal but for the case of their ASCII letters.
pub open spec fn same_ignoring_case(left: Seq<char>, right: Seq<char>) -> bool {
    left.len() == right.len() && forall|i: int|
        0 <= i < left.len() ==> folded(#[trigger] left[i]) == folded(right[i])
}

/// Whether `text` begins with `prefix`.
pub open spec fn begins_with(text: Seq<char>, prefix: Seq<char>) -> bool {
    text.len() >= prefix.len() && text.subrange(0, prefix.len() as int) == prefix
}

/// Whether the text of a code block in the given language is a query to a
/// provider: the language is PromQL and the text begins with the directive.
pub open spec fn is_provider_query(language: Seq<char>, text: Seq<char>) -> bool {
    begins_with(text, provider_directive()) && same_ignoring_case(language, "promql"@)
}

/// The query in the text of a code block that is a query to a provider: what
/// follows the directive, without one line feed at the end.
pub open spec fn provider_query(text: Seq<char>) -> Seq<char> {
    without_final_newline(text.subrange(provider_directive().len() as int, text.len() as int))
}

/// The cell for the text of a code block in the given language: a provider
/// cell for a query to a provider, else a code cell, with the language as
/// its syntax unless that is empty.
pub open spec fn code_block_cell(language: Seq<char>, text: Seq<char>) -> CellView {
    if is_provider_query(language, text) {
        CellView::Provider(
            ProviderCellView {
                intent: "prometheus,timeseries"@,
                query_data: Some(
                    "application/x-www-form-urlencoded"@ + ","@ + form_encoded_pair(
                        "query"@,
                        provider_query(text),
                    ),
                ),
                ..ProviderCell::blank()
            },
        )
    } else {
        CellView::Code(
            CodeCellView {
                content: text,
                syntax: if language.len() == 0 {
                    None
                } else {
                    Some(language)
                },
                ..CodeCell::blank()
            },
        )
    }
}

/// The state after a run of text.
pub open spec fn after_text(state: ParserView, text: Seq<char>) -> ParserView {
    match state.current {
        Some(_) => extended(state, text),
        None => match state.syntax {
            Some(language) => ParserView {
                syntax: None,
                ..opened(state, code_block_cell(language, text))
            },
            None => opened(
                state,
                CellView::Text(TextCellView { content: text, ..TextCell::blank() }),
            ),
        },
    }
}

/// The state after a piece of inline code: the code joins the text of the
/// open cell, or of a new text cell, between the annotations for code.
pub open spec fn after_code(state: ParserView, code: Seq<char>) -> ParserView {
    let ready = if state.current is Some {
        state
    } else {
        opened(state, CellView::Text(TextCell::blank()))
    };
    annotated(extended(annotated(ready, AnnotationView::StartCode), code), AnnotationView::EndCode)
}

/// The state after a line break: a line feed joins the text of the open
/// cell; where no cell with text is open, an empty text cell is opened.
pub open spec fn after_break(state: ParserView) -> ParserView {
    if writing(state) {
        extended(state, "\n"@)
    } else {
        opened(state, CellView::Text(TextCell::blank()))
    }
}

/// The state after the marker of a task list item: the list item that is
/// open becomes a checkbox.
pub open spec fn after_marker(state: ParserView, checked: bool) -> ParserView {
    match state.current {
        Some(CellView::ListItem(item)) => ParserView {
            current: Some(
                CellView::Checkbox(
                    CheckboxCellView {
                        id: item.id,
                        checked,
                        content: item.content,
                        formatting: item.formatting,
                        level: item.level,
                        read_only: item.read_only,
                    },
                ),
            ),
            ..state
        },
        _ => state,
    }
}

/// The state after one token.
pub open spec fn after_token(state: ParserView, token: TokenView) -> ParserView {
    match token {
        TokenView::Start(tag) => after_start(state, tag),
        TokenView::End(tag) => after_end(state, tag),
        TokenView::Text(text) => after_text(state, text),
        TokenView::Code(code) => after_code(state, code),
        TokenView::SoftBreak => if writing(state) {
            extended(state, " "@)
        } else {
            state
        },
        TokenView::HardBreak => after_break(state),
        TokenView::Html(html) => if html == "<br>"@ || html == "<br />"@ {
            after_break(state)
        } else {
            opened(state, CellView::Code(CodeCellView { content: html, ..CodeCell::blank() }))
        },
        TokenView::Rule => ParserView {
            cells: state.cells.push(CellView::Divider(DividerCell::blank())),
            ..state
        },
        TokenView::TaskListMarker(checked) => after_marker(state, checked),
        TokenView::FootnoteReference(_) => state,
    }
}

/// The state after the tokens from index `from` on.
pub open spec fn after_tokens(state: ParserView, tokens: Seq<TokenView>, from: int) -> ParserView
    decreases tokens.len() - from,
{
    if from < 0 || from >= tokens.len() {
        state
    } else {
        after_tokens(after_token(state, tokens[from]), tokens, from + 1)
    }
}

/// The cells with their ids replaced by their positions, counted from 1.
pub open spec fn numbered(cells: Seq<CellView>) -> Seq<CellView> {
    Seq::new(cells.len(), |i: int| cells[i].with_id(decimal_text((i + 1) as nat)))
}

/// Whether one of the tokens from index `from` on starts a heading of the
/// first level.
pub open spec fn has_top_heading(tokens: Seq<TokenView>, from: int) -> bool {
    exists|i: int|
        from <= i < tokens.len() && 0 <= i && #[trigger] tokens[i] == TokenView::Start(
            TokenTagView::Heading(HeadingRank::H1),
        )
}

/// The state before the tokens from index `from` on are read. Headings are
/// read one level up where the title was a heading of the first level and
/// no other such heading follows.
pub open spec fn start_of_cells(tokens: Seq<TokenView>, from: int, title_is_heading: bool)
    -> ParserView {
    ParserView {
        current: None,
        lists: Seq::empty(),
        cells: Seq::empty(),
        decrement: title_is_heading && !has_top_heading(tokens, from),
        syntax: None,
    }
}

/// The cells that the tokens from index `from` on are read as.
pub open spec fn cells_of(tokens: Seq<TokenView>, from: int, title_is_heading: bool) -> Seq<
    CellView,
> {
    numbered(
        closed(after_tokens(start_of_cells(tokens, from, title_is_heading), tokens, from)).cells,
    )
}

/// The mathematical value of a cell that may be absent.
pub open spec fn cell_option_view(cell: Option<Cell>) -> Option<CellView> {
    match cell {
        Some(c) => Some(c@),
        None => None,
    }
}

/// The state of the conversion of tokens to cells.
pub struct Parser {
    current_cell: Option<Cell>,
    lists: Vec<ListDetails>,
    cells: Vec<Cell>,
    decrement_heading_level: bool,
    current_code_block_syntax: Option<String>,
}

impl View for Parser {
    type V = ParserView;

    closed spec fn view(&self) -> ParserView {
        ParserView {
            current: cell_option_view(self.current_cell),
            lists: self.lists@,
            cells: cell_views(self.cells@),
            decrement: self.decrement_heading_level,
            syntax: text_of(self.current_code_block_syntax),
        }
    }
}

/// The number of characters of a text, or the largest offset where there
/// are more.
fn offset_behind(text: &str) -> (offset: u32)
    ensures
        offset == end_offset(text@),
{
    let length = text.unicode_len();
    if length <= u32::MAX as usize {
        length as u32
    } else {
        u32::MAX
    }
}

/// Removes the last character of a text, if that is a line feed.
fn strip_final_newline(text: &str) -> (stripped: &str)
    ensures
        stripped@ == without_final_newline(text@),
{
    let length = text.unicode_len();
    if length > 0 && text.get_char(length - 1) == '\n' {
        let stripped = text.substring_char(0, length - 1);
        assert(stripped@ =~= text@.drop_last());
        stripped
    } else {
        text
    }
}

/// Whether `text` begins with `prefix`.
fn has_prefix(text: &str, prefix: &str) -> (found: bool)
    ensures
        found == begins_with(text@, prefix@),
{
    let length = prefix.unicode_len();
    if text.unicode_len() < length {
        false
    } else {
        String::from_str(text.substring_char(0, length)) == String::from_str(prefix)
    }
}

/// The code of a character, with that of an upper-case ASCII letter replaced
/// by that of the lower-case one.
fn fold(c: char) -> (code: u32)
    ensures
        code == folded(c),
{
    if 'A' <= c && c <= 'Z' {
        c as u32 + 32
    } else {
        c as u32
    }
}

/// Whether two texts are equal but for the case of their ASCII letters.
fn equal_ignoring_case(left: &str, right: &str) -> (equal: bool)
    ensures
        equal == same_ignoring_case(left@, right@),
{
    let length = left.unicode_len();
    if right.unicode_len() != length {
        return false;
    }
    let mut index: usize = 0;
    while index < length
        invariant
            index <= length,
            length == left@.len(),
            length == right@.len(),
            forall|i: int| 0 <= i < index ==> folded(#[trigger] left@[i]) == folded(right@[i]),
        decreases length - index,
    {
        if fold(left.get_char(index)) != fold(right.get_char(index)) {
            return false;
        }
        index += 1;
    }
    true
}

/// The cell for the text of a code block in the given language.
fn cell_for_code_block(language: &str, text: &str) -> (cell: Cell)
    ensures
        cell@ == code_block_cell(language@, text@),
{
    let directive = "# fiberplane-provider-query\n";
    if has_prefix(text, directive) && equal_ignoring_case(language, "promql") {
        let rest = text.substring_char(directive.unicode_len(), text.unicode_len());
        let query = strip_final_newline(rest);
        let mut query_data = String::from_str("application/x-www-form-urlencoded");
        query_data.append(",");
        query_data.append(encode_pair("query", query).as_str());
        Cell::Provider(
            ProviderCell::builder().intent("prometheus,timeseries").query_data(
                query_data.as_str(),
            ).build(),
        )
    } else if language.unicode_len() == 0 {
        Cell::Code(CodeCell::builder().content(text).build())
    } else {
        Cell::Code(CodeCell::builder().content(text).syntax(language).build())
    }
}

/// The heading cell, or text cell, that a Markdown heading opens.
fn cell_for_heading(rank: HeadingRank, decrement: bool) -> (cell: Cell)
    ensures
        cell@ == heading_cell(rank, decrement),
{
    let heading_type = if decrement {
        match rank {
            HeadingRank::H2 => Some(HeadingType::H1),
            HeadingRank::H3 => Some(HeadingType::H2),
            HeadingRank::H4 => Some(HeadingType::H3),
            _ => None,
        }
    } else {
        match rank {
            HeadingRank::H1 => Some(HeadingType::H1),
            HeadingRank::H2 => Some(HeadingType::H2),
            HeadingRank::H3 => Some(HeadingType::H3),
            _ => None,
        }
    };
    match heading_type {
        Some(heading_type) => Cell::Heading(
            HeadingCell::builder().heading_type(heading_type).build(),
        ),
        None => Cell::Text(TextCell::default()),
    }
}

/// The list item cell that an item of the given list opens.
fn cell_for_item(details: ListDetails) -> (cell: Cell)
    ensures
        cell@ == item_cell(details),
{
    let mut item = ListItemCell::builder().list_type(details.list_type).build();
    item.start_number = details.start_number;
    item.level = details.level;
    Cell::ListItem(item)
}

/// The annotation that the start of a span stands for, if any.
fn annotation_for_start(tag: &TokenTag) -> (annotation: Option<Annotation>)
    ensures
        match annotation {
            Some(a) => start_annotation(tag@) == Some(a@),
            None => start_annotation(tag@) is None,
        },
{
    match tag {
        TokenTag::Emphasis => Some(Annotation::StartItalics),
        TokenTag::Strong => Some(Annotation::StartBold),
        TokenTag::Strikethrough => Some(Annotation::StartStrikethrough),
        TokenTag::Link(LinkKind::Inline, url, _) => Some(
            Annotation::StartLink { url: url.clone() },
        ),
        TokenTag::Link(LinkKind::Autolink, url, _) => Some(
            Annotation::StartLink { url: url.clone() },
        ),
        _ => None,
    }
}

/// The annotation that the end of a span stands for, if any.
fn annotation_for_end(tag: &TokenTag) -> (annotation: Option<Annotation>)
    ensures
        match annotation {
            Some(a) => end_annotation(tag@) == Some(a@),
            None => end_annotation(tag@) is None,
        },
{
    match tag {
        TokenTag::Emphasis => Some(Annotation::EndItalics),
        TokenTag::Strong => Some(Annotation::EndBold),
        TokenTag::Strikethrough => Some(Annotation::EndStrikethrough),
        TokenTag::Link(LinkKind::Inline, _, _) => Some(Annotation::EndLink),
        TokenTag::Link(LinkKind::Autolink, _, _) => Some(Annotation::EndLink),
        _ => None,
    }
}

/// Takes the cell out of a slot.
fn take_cell(slot: &mut Option<Cell>) -> (cell: Option<Cell>)
    ensures
        cell == *old(slot),
        *final(slot) is None,
{
    let mut taken: Option<Cell> = None;
    core::mem::swap(slot, &mut taken);
    taken
}

impl Parser {
    /// A parser that has read nothing yet.
    pub fn new(decrement_heading_level: bool) -> (parser: Self)
        ensures
            parser@ == (ParserView {
                current: None,
                lists: Seq::empty(),
                cells: Seq::empty(),
                decrement: decrement_heading_level,
                syntax: None,
            }),
    {
        let parser = Parser {
            current_cell: None,
            lists: Vec::new(),
            cells: Vec::new(),
            decrement_heading_level,
            current_code_block_syntax: None,
        };
        assert(cell_views(parser.cells@) =~= Seq::empty());
        parser
    }

    /// Puts the open cell, if any, with the cells that are done.
    fn close(&mut self)
        ensures
            final(self)@ == closed(old(self)@),
    {
        match take_cell(&mut self.current_cell) {
            Some(cell) => {
                self.cells.push(cell);
                assert(cell_views(self.cells@) =~= cell_views(old(self).cells@).push(cell@));
            },
            None => {},
        }
    }

    /// Opens a cell; the cell that was open is done.
    fn open(&mut self, cell: Cell)
        ensures
            final(self)@ == opened(old(self)@, cell@),
    {
        self.close();
        self.current_cell = Some(cell);
    }

    /// Adds an annotation at the end of the open cell's text.
    fn annotate(&mut self, annotation: Annotation)
        ensures
            final(self)@ == annotated(old(self)@, annotation@),
    {
        match take_cell(&mut self.current_cell) {
            Some(cell) => {
                let mut cell = cell;
                let offset = match cell.content() {
                    Some(text) => Some(offset_behind(text)),
                    None => None,
                };
                match offset {
                    Some(offset) => {
                        cell.push_annotation(AnnotationWithOffset::new(offset, annotation));
                    },
                    None => {},
                }
                self.current_cell = Some(cell);
            },
            None => {},
        }
    }

    /// Adds text to the open cell's text.
    fn extend(&mut self, text: &str)
        ensures
            final(self)@ == extended(old(self)@, text@),
    {
        match take_cell(&mut self.current_cell) {
            Some(cell) => {
                let mut cell = cell;
                cell.append_text(text);
                self.current_cell = Some(cell);
            },
            None => {},
        }
    }

    /// Whether a cell is open that holds text.
    fn is_writing(&self) -> (yes: bool)
        ensures
            yes == writing(self@),
    {
        match &self.current_cell {
            Some(cell) => cell.content().is_some(),
            None => false,
        }
    }
}

/// The details of a list that starts inside the given open lists.
fn details_for_list(lists: &Vec<ListDetails>, start: Option<u64>) -> (details: ListDetails)
    ensures
        details == started_details(lists@, start),
{
    let (start_number, list_type) = match start {
        Some(number) => (
            if number <= u16::MAX as u64 {
                Some(number as u16)
            } else {
                None
            },
            ListType::Ordered,
        ),
        None => (None, ListType::Unordered),
    };
    let level = if lists.len() == 0 {
        None
    } else {
        match lists[lists.len() - 1].level {
            Some(level) => if level < u8::MAX {
                Some(level + 1)
            } else {
                Some(level)
            },
            None => Some(1u8),
        }
    };
    ListDetails { list_type, start_number, level }
}

/// The cell at the end of a code block.
fn fence_off(cell: Cell) -> (fenced: Cell)
    ensures
        fenced@ == fenced_off(cell@),
{
    match cell {
        Cell::Code(code) => {
            let content = String::from_str(strip_final_newline(code.content.as_str()));
            Cell::Code(
                CodeCell { id: code.id, content, read_only: code.read_only, syntax: code.syntax },
            )
        },
        other => other,
    }
}

impl Parser {
    /// Reads the start of an element.
    fn start_tag(&mut self, tag: &TokenTag)
        ensures
            final(self)@ == after_start(old(self)@, tag@),
    {
        match tag {
            TokenTag::Paragraph => self.open(Cell::Text(TextCell::default())),
            TokenTag::Heading(rank) => {
                let cell = cell_for_heading(*rank, self.decrement_heading_level);
                self.open(cell);
            },
            TokenTag::BlockQuote => self.open(Cell::Text(TextCell::default())),
            TokenTag::CodeBlock(FenceKind::Fenced(language)) => {
                self.current_code_block_syntax = Some(language.clone());
                self.current_cell = None;
            },
            TokenTag::CodeBlock(FenceKind::Indented) => {
                self.current_code_block_syntax = Some(String::new());
                self.current_cell = None;
            },
            TokenTag::List(start) => {
                let details = details_for_list(&self.lists, *start);
                self.lists.push(details);
            },
            TokenTag::Item => {
                if self.lists.len() > 0 {
                    let details = self.lists[self.lists.len() - 1];
                    let next = ListDetails {
                        list_type: details.list_type,
                        start_number: match details.start_number {
                            Some(number) => if number < u16::MAX {
                                Some(number + 1)
                            } else {
                                None
                            },
                            None => None,
                        },
                        level: details.level,
                    };
                    self.lists.pop();
                    self.lists.push(next);
                    self.open(cell_for_item(details));
                }
            },
            TokenTag::Image(_, url, _) => {
                self.open(Cell::Image(ImageCell::builder().url(url.as_str()).build()));
            },
            _ => {
                match annotation_for_start(tag) {
                    Some(annotation) => self.annotate(annotation),
                    None => {},
                }
            },
        }
    }

    /// Reads the end of an element.
    fn end_tag(&mut self, tag: &TokenTag)
        ensures
            final(self)@ == after_end(old(self)@, tag@),
    {
        match tag {
            TokenTag::Paragraph => self.close(),
            TokenTag::Heading(_) => self.close(),
            TokenTag::BlockQuote => self.close(),
            TokenTag::Item => self.close(),
            TokenTag::CodeBlock(_) => {
                match take_cell(&mut self.current_cell) {
                    Some(cell) => {
                        self.current_cell = Some(fence_off(cell));
                        self.close();
                    },
                    None => {},
                }
            },
            TokenTag::List(_) => {
                if self.lists.len() > 0 {
                    self.lists.pop();
                }
            },
            _ => {
                match annotation_for_end(tag) {
                    Some(annotation) => self.annotate(annotation),
                    None => {},
                }
            },
        }
    }

    /// Reads a run of text.
    fn text(&mut self, text: &str)
        ensures
            final(self)@ == after_text(old(self)@, text@),
    {
        if self.current_cell.is_some() {
            self.extend(text);
        } else {
            let mut syntax: Option<String> = None;
            core::mem::swap(&mut self.current_code_block_syntax, &mut syntax);
            match syntax {
                Some(language) => {
                    self.open(cell_for_code_block(language.as_str(), text));
                },
                None => {
                    self.open(Cell::Text(TextCell::builder().content(text).build()));
                },
            }
        }
    }

    /// Reads a piece of inline code.
    fn code(&mut self, code: &str)
        ensures
            final(self)@ == after_code(old(self)@, code@),
    {
        if self.current_cell.is_none() {
            self.open(Cell::Text(TextCell::default()));
        }
        self.annotate(Annotation::StartCode);
        self.extend(code);
        self.annotate(Annotation::EndCode);
    }

    /// Reads a line break.
    fn line_break(&mut self)
        ensures
            final(self)@ == after_break(old(self)@),
    {
        if self.is_writing() {
            self.extend("\n");
        } else {
            self.open(Cell::Text(TextCell::default()));
        }
    }

    /// Reads the marker of a task list item.
    fn marker(&mut self, checked: bool)
        ensures
            final(self)@ == after_marker(old(self)@, checked),
    {
        match take_cell(&mut self.current_cell) {
            Some(Cell::ListItem(item)) => {
                self.current_cell = Some(
                    Cell::Checkbox(
                        CheckboxCell {
                            id: item.id,
                            checked,
                            content: item.content,
                            formatting: item.formatting,
                            level: item.level,
                            read_only: item.read_only,
                        },
                    ),
                );
            },
            other => {
                self.current_cell = other;
            },
        }
    }

    /// Reads one token.
    pub fn step(&mut self, token: &Token)
        ensures
            final(self)@ == after_token(old(self)@, token@),
    {
        match token {
            Token::Start(tag) => self.start_tag(tag),
            Token::End(tag) => self.end_tag(tag),
            Token::Text(text) => self.text(text.as_str()),
            Token::Code(code) => self.code(code.as_str()),
            Token::SoftBreak => {
                if self.is_writing() {
                    self.extend(" ");
                }
            },
            Token::HardBreak => self.line_break(),
            Token::Html(html) => {
                if *html == String::from_str("<br>") || *html == String::from_str("<br />") {
                    self.line_break();
                } else {
                    self.open(Cell::Code(CodeCell::builder().content(html.as_str()).build()));
                }
            },
            Token::Rule => {
                self.cells.push(Cell::Divider(DividerCell::default()));
                assert(cell_views(self.cells@) =~= cell_views(old(self).cells@).push(
                    CellView::Divider(DividerCell::blank()),
                ));
            },
            Token::TaskListMarker(checked) => self.marker(*checked),
            Token::FootnoteReference(_) => {},
        }
    }

    /// Ends the conversion: the open cell, if any, is done, and every cell
    /// is given its position, counted from 1, as its id.
    pub fn finish(self) -> (cells: Vec<Cell>)
        ensures
            cell_views(cells@) == numbered(closed(self@).cells),
    {
        let mut parser = self;
        parser.close();
        let mut cells = parser.cells;
        let ghost before = cell_views(cells@);
        let mut index: usize = 0;
        while index < cells.len()
            invariant
                index <= cells@.len(),
                cells@.len() == before.len(),
                forall|i: int|
                    0 <= i < index ==> (#[trigger] cells@[i])@ == before[i].with_id(
                        decimal_text((i + 1) as nat),
                    ),
                forall|i: int| index <= i < cells@.len() ==> (#[trigger] cells@[i])@ == before[i],
            decreases cells@.len() - index,
        {
            let mut cell = cells[index].clone();
            cell.set_id(decimal((index as u64) + 1));
            cells.set(index, cell);
            index += 1;
        }
        assert(cell_views(cells@) =~= numbered(before));
        cells
    }
}

/// What the leading tokens of a document say of its title: the title, the
/// index of the first token behind it, and whether it is a heading of the
/// first level.
pub struct TitleView {
    pub title: Seq<char>,
    pub rest: int,
    pub is_heading: bool,
}

/// The title that the tokens from index `from` on hold, where `start` is the
/// element that was started first, if one was. The title is made of the text
/// and the inline code up to the end of that element.
pub open spec fn title_from(tokens: Seq<TokenView>, from: int, start: Option<TokenTagView>)
    -> TitleView
    decreases tokens.len() - from,
{
    if from < 0 || from >= tokens.len() {
        TitleView { title: Seq::empty(), rest: tokens.len() as int, is_heading: false }
    } else {
        match tokens[from] {
            TokenView::Text(text) => {
                let rest = title_from(tokens, from + 1, start);
                TitleView { title: text + rest.title, ..rest }
            },
            TokenView::Code(code) => {
                let rest = title_from(tokens, from + 1, start);
                TitleView { title: code + rest.title, ..rest }
            },
            TokenView::Start(tag) => if start is None {
                TitleView {
                    is_heading: tag == TokenTagView::Heading(HeadingRank::H1),
                    ..title_from(tokens, from + 1, Some(tag))
                }
            } else {
                title_from(tokens, from + 1, start)
            },
            TokenView::End(tag) => if start == Some(tag) {
                TitleView { title: Seq::empty(), rest: from + 1, is_heading: false }
            } else {
                title_from(tokens, from + 1, start)
            },
            _ => title_from(tokens, from + 1, start),
        }
    }
}

/// The title of a document.
pub open spec fn title_of(tokens: Seq<TokenView>) -> TitleView {
    title_from(tokens, 0, None)
}

/// Whether two kinds of code block are the same.
fn same_fence(left: &FenceKind, right: &FenceKind) -> (same: bool)
    ensures
        same == (left@ == right@),
{
    match left {
        FenceKind::Indented => match right {
            FenceKind::Indented => true,
            _ => false,
        },
        FenceKind::Fenced(a) => match right {
            FenceKind::Fenced(b) => *a == *b,
            _ => false,
        },
    }
}

/// Whether two tags are the same.
fn same_tag(left: &TokenTag, right: &TokenTag) -> (same: bool)
    ensures
        same == (left@ == right@),
{
    match left {
        TokenTag::Paragraph => matches!(right, TokenTag::Paragraph),
        TokenTag::Heading(a) => match right {
            TokenTag::Heading(b) => *a == *b,
            _ => false,
        },
        TokenTag::BlockQuote => matches!(right, TokenTag::BlockQuote),
        TokenTag::CodeBlock(a) => match right {
            TokenTag::CodeBlock(b) => same_fence(a, b),
            _ => false,
        },
        TokenTag::List(a) => match right {
            TokenTag::List(b) => *a == *b,
            _ => false,
        },
        TokenTag::Item => matches!(right, TokenTag::Item),
        TokenTag::FootnoteDefinition(a) => match right {
            TokenTag::FootnoteDefinition(b) => *a == *b,
            _ => false,
        },
        TokenTag::Table => matches!(right, TokenTag::Table),
        TokenTag::TableHead => matches!(right, TokenTag::TableHead),
        TokenTag::TableRow => matches!(right, TokenTag::TableRow),
        TokenTag::TableCell => matches!(right, TokenTag::TableCell),
        TokenTag::Emphasis => matches!(right, TokenTag::Emphasis),
        TokenTag::Strong => matches!(right, TokenTag::Strong),
        TokenTag::Strikethrough => matches!(right, TokenTag::Strikethrough),
        TokenTag::Link(kind, url, title) => match right {
            TokenTag::Link(k, u, t) => *kind == *k && *url == *u && *title == *t,
            _ => false,
        },
        TokenTag::Image(kind, url, title) => match right {
            TokenTag::Image(k, u, t) => *kind == *k && *url == *u && *title == *t,
            _ => false,
        },
    }
}

/// Whether a tag starts a heading of the first level.
fn is_top_heading(tag: &TokenTag) -> (yes: bool)
    ensures
        yes == (tag@ == TokenTagView::Heading(HeadingRank::H1)),
{
    match tag {
        TokenTag::Heading(HeadingRank::H1) => true,
        _ => false,
    }
}

/// Converts the tokens of a Markdown document to a notebook.
pub struct MarkdownConverter {
    tokens: Vec<Token>,
    position: usize,
    /// If the title is the only H1 in the document, the level of all other
    /// headings is decremented.
    title_is_heading: bool,
}

impl MarkdownConverter {
    /// The tokens of the document.
    pub closed spec fn tokens(&self) -> Seq<TokenView> {
        token_views(self.tokens@)
    }

    /// The index of the token that is read next.
    pub closed spec fn position(&self) -> int {
        self.position as int
    }

    /// Whether the title that was read is a heading of the first level.
    pub closed spec fn title_is_heading(&self) -> bool {
        self.title_is_heading
    }

    /// A converter for a Markdown text.
    pub fn new(markdown: &str) -> (converter: Self)
        ensures
            converter.tokens() == markdown_events(markdown@),
            converter.position() == 0,
            !converter.title_is_heading(),
    {
        MarkdownConverter::from_tokens(lex(markdown))
    }

    /// A converter for the tokens of a Markdown text.
    pub fn from_tokens(tokens: Vec<Token>) -> (converter: Self)
        ensures
            converter.tokens() == token_views(tokens@),
            converter.position() == 0,
            !converter.title_is_heading(),
    {
        MarkdownConverter { tokens, position: 0, title_is_heading: false }
    }

    /// Parse the title from the markdown heading or first paragraph.
    pub fn parse_title(&mut self) -> (title: String)
        requires
            old(self).position() == 0,
        ensures
            final(self).tokens() == old(self).tokens(),
            title@ == title_of(old(self).tokens()).title,
            final(self).position() == title_of(old(self).tokens()).rest,
            final(self).title_is_heading() == title_of(old(self).tokens()).is_heading,
            0 <= final(self).position() <= final(self).tokens().len(),
    {
        let ghost tokens = token_views(self.tokens@);
        let ghost whole = title_of(tokens);
        let ghost mut begun: Option<TokenTagView> = None;
        let mut title = String::new();
        let mut start: Option<usize> = None;
        let mut is_heading = false;
        let mut index: usize = 0;
        let mut done = false;
        assert(title@ + whole.title =~= whole.title);
        while !done && index < self.tokens.len()
            invariant
                index <= self.tokens@.len(),
                tokens == token_views(self.tokens@),
                self.tokens@ == old(self).tokens@,
                whole == title_of(tokens),
                start is Some <==> begun is Some,
                begun is None ==> !is_heading,
                start matches Some(at) ==> at < self.tokens@.len() && tokens[at as int]
                    == TokenView::Start(begun->0),
                !done ==> {
                    let rest = title_from(tokens, index as int, begun);
                    &&& title@ + rest.title == whole.title
                    &&& rest.rest == whole.rest
                    &&& (if begun is None {
                        rest.is_heading
                    } else {
                        is_heading
                    }) == whole.is_heading
                },
                done ==> title@ == whole.title && index == whole.rest && is_heading
                    == whole.is_heading,
            decreases self.tokens@.len() - index,
        {
            let ghost earlier = title@;
            let ghost next = title_from(tokens, index + 1, begun);
            assert(tokens[index as int] == self.tokens@[index as int]@);
            match &self.tokens[index] {
                Token::Text(text) => {
                    title.append(text.as_str());
                    assert(title@ + next.title =~= earlier + (text@ + next.title));
                },
                Token::Code(code) => {
                    title.append(code.as_str());
                    assert(title@ + next.title =~= earlier + (code@ + next.title));
                },
                Token::Start(tag) => {
                    if start.is_none() {
                        is_heading = is_top_heading(tag);
                        start = Some(index);
                        proof {
                            begun = Some(tag@);
                        }
                    }
                },
                Token::End(tag) => {
                    let closes = match start {
                        Some(at) => match &self.tokens[at] {
                            Token::Start(first) => {
                                assert(tokens[at as int] == self.tokens@[at as int]@);
                                same_tag(first, tag)
                            },
                            _ => false,
                        },
                        None => false,
                    };
                    if closes {
                        done = true;
                        assert(title@ + Seq::<char>::empty() =~= title@);
                    }
                },
                _ => {},
            }
            index += 1;
        }
        assert(title@ + Seq::<char>::empty() =~= title@);
        self.position = index;
        self.title_is_heading = is_heading;
        title
    }
}

/// Whether one of the tokens from index `from` on starts a heading of the
/// first level.
fn find_top_heading(tokens: &Vec<Token>, from: usize) -> (found: bool)
    ensures
        found == has_top_heading(token_views(tokens@), from as int),
{
    let ghost views = token_views(tokens@);
    let mut index: usize = from;
    while index < tokens.len()
        invariant
            from <= index,
            views == token_views(tokens@),
            forall|i: int|
                from <= i < index && i < views.len() ==> #[trigger] views[i] != TokenView::Start(
                    TokenTagView::Heading(HeadingRank::H1),
                ),
        decreases tokens@.len() - index,
    {
        assert(views[index as int] == tokens@[index as int]@);
        let found = match &tokens[index] {
            Token::Start(tag) => is_top_heading(tag),
            _ => false,
        };
        if found {
            assert(views[index as int] == TokenView::Start(
                TokenTagView::Heading(HeadingRank::H1),
            ));
            return true;
        }
        index += 1;
    }
    false
}

impl MarkdownConverter {
    /// Converts the tokens that are still to be read to cells.
    pub fn parse_cells(self) -> (cells: Vec<Cell>)
        requires
            0 <= self.position() <= self.tokens().len(),
        ensures
            cell_views(cells@) == cells_of(
                self.tokens(),
                self.position(),
                self.title_is_heading(),
            ),
            forall|i: int| 0 <= i < cells@.len() ==> formatting_sorted((#[trigger] cells@[i])@),
    {
        let ghost tokens = token_views(self.tokens@);
        let decrement = self.title_is_heading && !find_top_heading(&self.tokens, self.position);
        let mut parser = Parser::new(decrement);
        let ghost start = parser@;
        let mut index: usize = self.position;
        while index < self.tokens.len()
            invariant
                self.position <= index <= self.tokens@.len(),
                tokens == token_views(self.tokens@),
                after_tokens(parser@, tokens, index as int) == after_tokens(
                    start,
                    tokens,
                    self.position as int,
                ),
            decreases self.tokens@.len() - index,
        {
            assert(tokens[index as int] == self.tokens@[index as int]@);
            parser.step(&self.tokens[index]);
            index += 1;
        }
        let cells = parser.finish();
        proof {
            lemma_converted_formatting_is_sorted(
                tokens,
                self.position as int,
                self.title_is_heading,
            );
            let all = cells_of(tokens, self.position as int, self.title_is_heading);
            assert(cell_views(cells@) == all);
            assert forall|i: int| 0 <= i < cells@.len() implies formatting_sorted(
                (#[trigger] cells@[i])@,
            ) by {
                assert(all[i] == cells@[i]@);
                assert(formatting_sorted(all[i]));
            }
        }
        cells
    }

    /// Converts the document to a notebook with the title of the document,
    /// its cells, and the last hour as its time range.
    pub fn convert_to_notebook(self) -> (notebook: NewNotebook)
        requires
            self.position() == 0,
        ensures
            notebook_is(notebook, self.tokens()),
            forall|i: int|
                0 <= i < notebook.cells@.len() ==> formatting_sorted(
                    (#[trigger] notebook.cells@[i])@,
                ),
    {
        let mut converter = self;
        let title = converter.parse_title();
        let cells = converter.parse_cells();
        NewNotebook {
            title,
            cells,
            time_range: NewTimeRange::Relative(RelativeTimeRange::from_minutes(-60)),
        }
    }
}

/// Whether `notebook` is the notebook that the tokens of a document are read
/// as: the title is taken from the leading tokens, the cells from the rest,
/// and the time range is the last 60 minutes.
pub open spec fn notebook_is(notebook: NewNotebook, tokens: Seq<TokenView>) -> bool {
    &&& notebook.title@ == title_of(tokens).title
    &&& cell_views(notebook.cells@) == cells_of(
        tokens,
        title_of(tokens).rest,
        title_of(tokens).is_heading,
    )
    &&& notebook.time_range == NewTimeRange::Relative(RelativeTimeRange { minutes: -60i32 })
}

/// Converts the tokens of a Markdown document to notebook cells. The first
/// heading is a cell like the others.
pub fn tokens_to_cells(tokens: Vec<Token>) -> (cells: Vec<Cell>)
    ensures
        cell_views(cells@) == cells_of(token_views(tokens@), 0, false),
        forall|i: int| 0 <= i < cells@.len() ==> formatting_sorted((#[trigger] cells@[i])@),
{
    MarkdownConverter::from_tokens(tokens).parse_cells()
}

/// Converts the tokens of a Markdown document to a notebook.
pub fn tokens_to_notebook(tokens: Vec<Token>) -> (notebook: NewNotebook)
    ensures
        notebook_is(notebook, token_views(tokens@)),
        forall|i: int|
            0 <= i < notebook.cells@.len() ==> formatting_sorted((#[trigger] notebook.cells@[i])@),
{
    MarkdownConverter::from_tokens(tokens).convert_to_notebook()
}

/// Convert Markdown to a Fiberplane notebook
///
/// This parses the first heading as the notebook title and
/// then parses the rest of the markdown as the notebook cells.
pub fn markdown_to_notebook(markdown: &str) -> (notebook: NewNotebook)
    ensures
        notebook_is(notebook, markdown_events(markdown@)),
        forall|i: int|
            0 <= i < notebook.cells@.len() ==> formatting_sorted((#[trigger] notebook.cells@[i])@),
{
    let converter = MarkdownConverter::new(markdown);
    converter.convert_to_notebook()
}

/// Convert the Markdown to Fiberplane notebook cells
pub fn markdown_to_cells(markdown: &str) -> (cells: Vec<Cell>)
    ensures
        cell_views(cells@) == cells_of(markdown_events(markdown@), 0, false),
        forall|i: int| 0 <= i < cells@.len() ==> formatting_sorted((#[trigger] cells@[i])@),
{
    let converter = MarkdownConverter::new(markdown);
    converter.parse_cells()
}

} // verus!
