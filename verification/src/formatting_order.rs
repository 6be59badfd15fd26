//! Proof that the conversion from Markdown orders the annotations of every
//! cell by offset.

use crate::formatting::{is_sorted, AnnotationView, AnnotationWithOffsetView};
use crate::from_markdown::{
    after_break, after_code, after_end, after_marker, after_start, after_text, after_token,
    after_tokens, annotated, cells_of, closed, code_block_cell, end_offset, extended, fenced_off,
    heading_cell, item_cell, numbered, opened, start_of_cells, ParserView,
};
use crate::notebooks::CellView;
use crate::tokens::{TokenTagView, TokenView};
use vstd::prelude::*;

verus! {

/// The offsets of a list of annotations, in list order.
pub open spec fn view_offsets(formatting: Seq<AnnotationWithOffsetView>) -> Seq<u32> {
    formatting.map_values(|a: AnnotationWithOffsetView| a.offset)
}

/// Whether the annotations of a cell, if it has any, are sorted by offset.
pub open spec fn formatting_sorted(cell: CellView) -> bool {
    match cell.formatting() {
        Some(formatting) => is_sorted(view_offsets(formatting)),
        None => true,
    }
}

/// Whether the annotations of a cell are sorted by offset and none lies
/// behind the end of the cell's text.
pub open spec fn tidy_cell(cell: CellView) -> bool {
    match cell.formatting() {
        Some(formatting) => {
            &&& is_sorted(view_offsets(formatting))
            &&& match cell.content() {
                Some(text) => forall|i: int|
                    0 <= i < formatting.len() ==> (#[trigger] formatting[i]).offset <= end_offset(
                        text,
                    ),
                None => true,
            }
        },
        None => true,
    }
}

/// Whether the open cell and the cells that are done are tidy.
pub open spec fn tidy(state: ParserView) -> bool {
    &&& state.current matches Some(cell) ==> tidy_cell(cell)
    &&& forall|i: int| 0 <= i < state.cells.len() ==> tidy_cell(#[trigger] state.cells[i])
}

/// A cell without annotations is tidy.
pub proof fn lemma_plain_cell_is_tidy(cell: CellView)
    requires
        cell.formatting() matches Some(formatting) ==> formatting.len() == 0,
    ensures
        tidy_cell(cell),
{
}

/// Closing the open cell keeps the state tidy.
pub proof fn lemma_closed_tidy(state: ParserView)
    requires
        tidy(state),
    ensures
        tidy(closed(state)),
{
    match state.current {
        Some(cell) => {
            let after = closed(state);
            assert forall|i: int| 0 <= i < after.cells.len() implies tidy_cell(
                #[trigger] after.cells[i],
            ) by {
                if i < state.cells.len() {
                    assert(after.cells[i] == state.cells[i]);
                }
            }
        },
        None => {},
    }
}

/// Opening a tidy cell keeps the state tidy.
pub proof fn lemma_opened_tidy(state: ParserView, cell: CellView)
    requires
        tidy(state),
        tidy_cell(cell),
    ensures
        tidy(opened(state, cell)),
{
    lemma_closed_tidy(state);
}

/// An annotation at the end of the open cell's text keeps the state tidy.
pub proof fn lemma_annotated_tidy(state: ParserView, annotation: AnnotationView)
    requires
        tidy(state),
    ensures
        tidy(annotated(state, annotation)),
{
    match state.current {
        Some(cell) => match cell.content() {
            Some(text) => {
                let added = AnnotationWithOffsetView { offset: end_offset(text), annotation };
                let after = cell.with_annotation_pushed(added);
                match cell.formatting() {
                    Some(formatting) => {
                        let longer = formatting.push(added);
                        assert(after.formatting() == Some(longer));
                        assert(after.content() == Some(text));
                        assert forall|i: int, j: int|
                            0 <= i <= j < longer.len() implies view_offsets(longer)[i]
                            <= view_offsets(longer)[j] by {
                            if j < formatting.len() {
                                assert(view_offsets(formatting)[i] <= view_offsets(formatting)[j]);
                            } else if i < formatting.len() {
                                assert(formatting[i].offset <= end_offset(text));
                            }
                        }
                    },
                    None => {},
                }
            },
            None => {},
        },
        None => {},
    }
}

/// More text in the open cell keeps the state tidy.
pub proof fn lemma_extended_tidy(state: ParserView, text: Seq<char>)
    requires
        tidy(state),
    ensures
        tidy(extended(state, text)),
{
    match state.current {
        Some(cell) => {
            let after = cell.with_text_appended(text);
            assert(after.formatting() == cell.formatting());
            match cell.content() {
                Some(before) => {
                    assert(after.content() == Some(before + text));
                    assert(end_offset(before) <= end_offset(before + text));
                },
                None => {},
            }
        },
        None => {},
    }
}

/// Reading one token keeps the state tidy.
pub proof fn lemma_after_token_tidy(state: ParserView, token: TokenView)
    requires
        tidy(state),
    ensures
        tidy(after_token(state, token)),
{
    let blank = CellView::Text(crate::notebooks::TextCell::blank());
    lemma_plain_cell_is_tidy(blank);
    match token {
        TokenView::Start(tag) => {
            match tag {
                TokenTagView::Paragraph => lemma_opened_tidy(state, blank),
                TokenTagView::BlockQuote => lemma_opened_tidy(state, blank),
                TokenTagView::Heading(rank) => {
                    lemma_plain_cell_is_tidy(heading_cell(rank, state.decrement));
                    lemma_opened_tidy(state, heading_cell(rank, state.decrement));
                },
                TokenTagView::CodeBlock(_) => {},
                TokenTagView::List(_) => {},
                TokenTagView::Item => {
                    if state.lists.len() > 0 {
                        let cell = item_cell(state.lists.last());
                        lemma_plain_cell_is_tidy(cell);
                        let moved = ParserView {
                            lists: state.lists.drop_last().push(
                                crate::from_markdown::after_item(state.lists.last()),
                            ),
                            ..state
                        };
                        lemma_opened_tidy(moved, cell);
                    }
                },
                TokenTagView::Image(_, url, _) => {
                    let cell = CellView::Image(
                        crate::notebooks::ImageCellView {
                            url: Some(url),
                            ..crate::notebooks::ImageCell::blank()
                        },
                    );
                    lemma_opened_tidy(state, cell);
                },
                _ => {
                    match crate::from_markdown::start_annotation(tag) {
                        Some(annotation) => lemma_annotated_tidy(state, annotation),
                        None => {},
                    }
                },
            }
        },
        TokenView::End(tag) => {
            match tag {
                TokenTagView::Paragraph => lemma_closed_tidy(state),
                TokenTagView::Heading(_) => lemma_closed_tidy(state),
                TokenTagView::BlockQuote => lemma_closed_tidy(state),
                TokenTagView::Item => lemma_closed_tidy(state),
                TokenTagView::CodeBlock(_) => {
                    match state.current {
                        Some(cell) => {
                            let fenced = ParserView { current: Some(fenced_off(cell)), ..state };
                            assert(tidy_cell(fenced_off(cell)));
                            lemma_closed_tidy(fenced);
                        },
                        None => {},
                    }
                },
                TokenTagView::List(_) => {},
                _ => {
                    match crate::from_markdown::end_annotation(tag) {
                        Some(annotation) => lemma_annotated_tidy(state, annotation),
                        None => {},
                    }
                },
            }
        },
        TokenView::Text(text) => {
            match state.current {
                Some(_) => lemma_extended_tidy(state, text),
                None => match state.syntax {
                    Some(language) => {
                        lemma_plain_cell_is_tidy(code_block_cell(language, text));
                        lemma_opened_tidy(state, code_block_cell(language, text));
                    },
                    None => {
                        let cell = CellView::Text(
                            crate::notebooks::TextCellView {
                                content: text,
                                ..crate::notebooks::TextCell::blank()
                            },
                        );
                        lemma_plain_cell_is_tidy(cell);
                        lemma_opened_tidy(state, cell);
                    },
                },
            }
        },
        TokenView::Code(code) => {
            let ready = if state.current is Some {
                state
            } else {
                opened(state, blank)
            };
            if state.current is None {
                lemma_opened_tidy(state, blank);
            }
            lemma_annotated_tidy(ready, AnnotationView::StartCode);
            let begun = annotated(ready, AnnotationView::StartCode);
            lemma_extended_tidy(begun, code);
            lemma_annotated_tidy(extended(begun, code), AnnotationView::EndCode);
        },
        TokenView::SoftBreak => lemma_extended_tidy(state, " "@),
        TokenView::HardBreak => {
            lemma_extended_tidy(state, "\n"@);
            lemma_opened_tidy(state, blank);
        },
        TokenView::Html(html) => {
            lemma_extended_tidy(state, "\n"@);
            lemma_opened_tidy(state, blank);
            let cell = CellView::Code(
                crate::notebooks::CodeCellView {
                    content: html,
                    ..crate::notebooks::CodeCell::blank()
                },
            );
            lemma_opened_tidy(state, cell);
        },
        TokenView::Rule => {
            let after = after_token(state, token);
            assert forall|i: int| 0 <= i < after.cells.len() implies tidy_cell(
                #[trigger] after.cells[i],
            ) by {
                if i < state.cells.len() {
                    assert(after.cells[i] == state.cells[i]);
                }
            }
        },
        TokenView::TaskListMarker(checked) => {},
        TokenView::FootnoteReference(_) => {},
    }
}

/// Reading tokens keeps the state tidy.
pub proof fn lemma_after_tokens_tidy(state: ParserView, tokens: Seq<TokenView>, from: int)
    requires
        tidy(state),
    ensures
        tidy(after_tokens(state, tokens, from)),
    decreases tokens.len() - from,
{
    if 0 <= from < tokens.len() {
        lemma_after_token_tidy(state, tokens[from]);
        lemma_after_tokens_tidy(after_token(state, tokens[from]), tokens, from + 1);
    }
}

/// Every list of annotations that the conversion from Markdown produces is
/// sorted by offset: the offsets never decrease along the list.
pub proof fn lemma_converted_formatting_is_sorted(
    tokens: Seq<TokenView>,
    from: int,
    title_is_heading: bool,
)
    ensures
        forall|i: int|
            0 <= i < cells_of(tokens, from, title_is_heading).len() ==> formatting_sorted(
                #[trigger] cells_of(tokens, from, title_is_heading)[i],
            ),
{
    let start = start_of_cells(tokens, from, title_is_heading);
    lemma_after_tokens_tidy(start, tokens, from);
    let read = after_tokens(start, tokens, from);
    lemma_closed_tidy(read);
    let done = closed(read).cells;
    let cells = cells_of(tokens, from, title_is_heading);
    assert forall|i: int| 0 <= i < cells.len() implies formatting_sorted(#[trigger] cells[i]) by {
        assert(tidy_cell(done[i]));
        assert(cells[i].formatting() == done[i].formatting());
    }
}

} // verus!
