use fiberplane::formatting::{Annotation, AnnotationWithOffset};
use fiberplane::from_markdown::{tokens_to_cells, tokens_to_notebook};
use fiberplane::documents::NewTimeRange;
use fiberplane::notebooks::{Cell, HeadingType, ListType};
use fiberplane::tokens::{FenceKind, HeadingRank, LinkKind, Token, TokenTag};
use fiberplane::{markdown_to_cells, markdown_to_notebook};

fn kinds(formatting: &[AnnotationWithOffset]) -> Vec<(u32, String)> {
    formatting
        .iter()
        .map(|a| (a.offset, format!("{:?}", a.annotation)))
        .collect()
}

fn pair(offset: u32, name: &str) -> (u32, String) {
    (offset, name.to_string())
}

#[test]
fn title_only_document() {
    let notebook = markdown_to_notebook("# Some title");
    assert_eq!(notebook.title, "Some title");
    assert!(notebook.cells.is_empty());
    let NewTimeRange::Relative(range) = notebook.time_range;
    assert_eq!(range.minutes, -60);
}

#[test]
fn title_from_first_paragraph() {
    let notebook = markdown_to_notebook("Some `code` title\n\nBody");
    assert_eq!(notebook.title, "Some code title");
    assert_eq!(notebook.cells.len(), 1);
    match &notebook.cells[0] {
        Cell::Text(cell) => {
            assert_eq!(cell.content, "Body");
            assert_eq!(cell.id, "1");
        }
        other => panic!("unexpected cell {:?}", other),
    }
}

#[test]
fn headings_are_decremented_under_a_sole_title() {
    let notebook = markdown_to_notebook("# Title\n\n## H1\n\n### H2\n\n#### H3\n\n##### H5");
    assert_eq!(notebook.title, "Title");
    assert_eq!(notebook.cells.len(), 4);
    match &notebook.cells[0] {
        Cell::Heading(cell) => {
            assert_eq!(cell.heading_type, HeadingType::H1);
            assert_eq!(cell.content, "H1");
        }
        other => panic!("unexpected cell {:?}", other),
    }
    match &notebook.cells[1] {
        Cell::Heading(cell) => assert_eq!(cell.heading_type, HeadingType::H2),
        other => panic!("unexpected cell {:?}", other),
    }
    match &notebook.cells[2] {
        Cell::Heading(cell) => assert_eq!(cell.heading_type, HeadingType::H3),
        other => panic!("unexpected cell {:?}", other),
    }
    match &notebook.cells[3] {
        Cell::Text(cell) => assert_eq!(cell.content, "H5"),
        other => panic!("unexpected cell {:?}", other),
    }
}

#[test]
fn headings_keep_their_level_when_another_h1_follows() {
    let notebook = markdown_to_notebook("# Title\n\n# H1\n\n## H2\n\n#### H4");
    assert_eq!(notebook.title, "Title");
    assert_eq!(notebook.cells.len(), 3);
    match &notebook.cells[0] {
        Cell::Heading(cell) => assert_eq!(cell.heading_type, HeadingType::H1),
        other => panic!("unexpected cell {:?}", other),
    }
    match &notebook.cells[1] {
        Cell::Heading(cell) => assert_eq!(cell.heading_type, HeadingType::H2),
        other => panic!("unexpected cell {:?}", other),
    }
    match &notebook.cells[2] {
        Cell::Text(cell) => assert_eq!(cell.content, "H4"),
        other => panic!("unexpected cell {:?}", other),
    }
}

#[test]
fn h1_then_h2_as_cells() {
    let cells = markdown_to_cells("# H1\n\n## H2");
    assert_eq!(cells.len(), 2);
    match (&cells[0], &cells[1]) {
        (Cell::Heading(first), Cell::Heading(second)) => {
            assert_eq!(first.heading_type, HeadingType::H1);
            assert_eq!(first.content, "H1");
            assert_eq!(first.id, "1");
            assert_eq!(second.heading_type, HeadingType::H2);
            assert_eq!(second.content, "H2");
            assert_eq!(second.id, "2");
        }
        other => panic!("unexpected cells {:?}", other),
    }
}

#[test]
fn formatting_annotations_count_characters() {
    let cells = markdown_to_cells("Sömé **bold**, *italics*, ~~strike~~ and `code`");
    assert_eq!(cells.len(), 1);
    match &cells[0] {
        Cell::Text(cell) => {
            assert_eq!(cell.content, "Sömé bold, italics, strike and code");
            assert_eq!(
                kinds(&cell.formatting),
                vec![
                    pair(5, "StartBold"),
                    pair(9, "EndBold"),
                    pair(11, "StartItalics"),
                    pair(18, "EndItalics"),
                    pair(20, "StartStrikethrough"),
                    pair(26, "EndStrikethrough"),
                    pair(31, "StartCode"),
                    pair(35, "EndCode"),
                ]
            );
        }
        other => panic!("unexpected cell {:?}", other),
    }
}

#[test]
fn inline_links_become_link_annotations() {
    let cells = markdown_to_cells("A [link](https://example.com) and <https://auto.link>");
    match &cells[0] {
        Cell::Text(cell) => {
            assert_eq!(cell.content, "A link and https://auto.link");
            assert_eq!(cell.formatting.len(), 4);
            assert_eq!(cell.formatting[0].offset, 2);
            match &cell.formatting[0].annotation {
                Annotation::StartLink { url } => assert_eq!(url, "https://example.com"),
                other => panic!("unexpected annotation {:?}", other),
            }
            assert_eq!(cell.formatting[1].offset, 6);
            assert!(matches!(cell.formatting[1].annotation, Annotation::EndLink));
            assert_eq!(cell.formatting[2].offset, 11);
            assert_eq!(cell.formatting[3].offset, 28);
        }
        other => panic!("unexpected cell {:?}", other),
    }
}

#[test]
fn reference_links_are_ignored() {
    let cells = markdown_to_cells("A [link][ref]\n\n[ref]: https://example.com");
    match &cells[0] {
        Cell::Text(cell) => {
            assert_eq!(cell.content, "A link");
            assert!(cell.formatting.is_empty());
        }
        other => panic!("unexpected cell {:?}", other),
    }
}

#[test]
fn fenced_code_blocks() {
    let cells = markdown_to_cells("```rust\nfn main() {}\n```\n\n```\nplain\n```\n\n    indented\n");
    assert_eq!(cells.len(), 3);
    match &cells[0] {
        Cell::Code(cell) => {
            assert_eq!(cell.content, "fn main() {}");
            assert_eq!(cell.syntax.as_deref(), Some("rust"));
        }
        other => panic!("unexpected cell {:?}", other),
    }
    match &cells[1] {
        Cell::Code(cell) => {
            assert_eq!(cell.content, "plain");
            assert_eq!(cell.syntax, None);
        }
        other => panic!("unexpected cell {:?}", other),
    }
    match &cells[2] {
        Cell::Code(cell) => {
            assert_eq!(cell.content, "indented");
            assert_eq!(cell.syntax, None);
        }
        other => panic!("unexpected cell {:?}", other),
    }
}

#[test]
fn provider_query_in_code_fence() {
    let cells =
        markdown_to_cells("```PromQL\n# fiberplane-provider-query\nsum(rate(x[5m])) > 1\n```");
    assert_eq!(cells.len(), 1);
    match &cells[0] {
        Cell::Provider(cell) => {
            assert_eq!(cell.intent, "prometheus,timeseries");
            assert_eq!(
                cell.query_data.as_deref(),
                Some("application/x-www-form-urlencoded,query=sum%28rate%28x%5B5m%5D%29%29+%3E+1")
            );
            assert_eq!(cell.id, "1");
        }
        other => panic!("unexpected cell {:?}", other),
    }
}

#[test]
fn provider_query_is_form_encoded() {
    let cells = markdown_to_cells(
        "```promql\n# fiberplane-provider-query\na*b-c.d_e~f=g&h é/Z9\n```",
    );
    match &cells[0] {
        Cell::Provider(cell) => assert_eq!(
            cell.query_data.as_deref(),
            Some("application/x-www-form-urlencoded,query=a*b-c.d_e%7Ef%3Dg%26h+%C3%A9%2FZ9")
        ),
        other => panic!("unexpected cell {:?}", other),
    }
    let empty = markdown_to_cells("```promql\n# fiberplane-provider-query\n```");
    match &empty[0] {
        Cell::Provider(cell) => assert_eq!(
            cell.query_data.as_deref(),
            Some("application/x-www-form-urlencoded,query=")
        ),
        other => panic!("unexpected cell {:?}", other),
    }
}

#[test]
fn directive_in_another_language_is_code() {
    let cells = markdown_to_cells("```sql\n# fiberplane-provider-query\nselect 1\n```");
    match &cells[0] {
        Cell::Code(cell) => {
            assert_eq!(cell.content, "# fiberplane-provider-query\nselect 1");
            assert_eq!(cell.syntax.as_deref(), Some("sql"));
        }
        other => panic!("unexpected cell {:?}", other),
    }
}

#[test]
fn ordered_and_nested_lists() {
    let cells = markdown_to_cells("2. two\n3. three\n   - inner\n   - more\n4. four");
    assert_eq!(cells.len(), 5);
    let expected: Vec<(&str, ListType, Option<u16>, Option<u8>)> = vec![
        ("two", ListType::Ordered, Some(2), None),
        ("three", ListType::Ordered, Some(3), None),
        ("inner", ListType::Unordered, None, Some(1)),
        ("more", ListType::Unordered, None, Some(1)),
        ("four", ListType::Ordered, Some(4), None),
    ];
    for (cell, (content, list_type, start_number, level)) in cells.iter().zip(expected) {
        match cell {
            Cell::ListItem(item) => {
                assert_eq!(item.content, content);
                assert_eq!(item.list_type, list_type);
                assert_eq!(item.start_number, start_number);
                assert_eq!(item.level, level);
            }
            other => panic!("unexpected cell {:?}", other),
        }
    }
}

#[test]
fn list_start_number_that_does_not_fit() {
    let cells = markdown_to_cells("70000. big");
    match &cells[0] {
        Cell::ListItem(item) => {
            assert_eq!(item.list_type, ListType::Ordered);
            assert_eq!(item.start_number, None);
        }
        other => panic!("unexpected cell {:?}", other),
    }
}

#[test]
fn task_list_markers_make_checkboxes() {
    let cells = markdown_to_cells("- [x] done\n- [ ] open\n- plain");
    assert_eq!(cells.len(), 3);
    match &cells[0] {
        Cell::Checkbox(cell) => {
            assert!(cell.checked);
            assert_eq!(cell.content, "done");
            assert_eq!(cell.level, None);
        }
        other => panic!("unexpected cell {:?}", other),
    }
    match &cells[1] {
        Cell::Checkbox(cell) => {
            assert!(!cell.checked);
            assert_eq!(cell.content, "open");
        }
        other => panic!("unexpected cell {:?}", other),
    }
    assert!(matches!(&cells[2], Cell::ListItem(_)));
}

#[test]
fn breaks_and_rules() {
    let cells = markdown_to_cells("one\ntwo  \nthree<br>four\n\n---\n\nafter");
    assert_eq!(cells.len(), 3);
    match &cells[0] {
        Cell::Text(cell) => assert_eq!(cell.content, "one two\nthree\nfour"),
        other => panic!("unexpected cell {:?}", other),
    }
    assert!(matches!(&cells[1], Cell::Divider(_)));
    match &cells[2] {
        Cell::Text(cell) => {
            assert_eq!(cell.content, "after");
            assert_eq!(cell.id, "3");
        }
        other => panic!("unexpected cell {:?}", other),
    }
}

#[test]
fn divider_comes_before_the_cell_that_is_still_open() {
    let cells = tokens_to_cells(vec![
        Token::Start(TokenTag::Paragraph),
        Token::Text("open".to_string()),
        Token::Rule,
        Token::End(TokenTag::Paragraph),
    ]);
    assert_eq!(cells.len(), 2);
    match (&cells[0], &cells[1]) {
        (Cell::Divider(divider), Cell::Text(text)) => {
            assert_eq!(divider.id, "1");
            assert_eq!(text.id, "2");
            assert_eq!(text.content, "open");
        }
        other => panic!("unexpected cells {:?}", other),
    }
}

#[test]
fn images_block_quotes_html_and_tables() {
    let cells = markdown_to_cells(
        "![alt](http://example.com/image.png)\n\n> quoted\n\n<div>html</div>\n\ntext[^1]\n",
    );
    assert!(cells.len() >= 3);
    assert!(cells.iter().any(|cell| match cell {
        Cell::Image(image) => image.url.as_deref() == Some("http://example.com/image.png"),
        _ => false,
    }));
    assert!(cells.iter().any(|cell| match cell {
        Cell::Text(text) => text.content == "quoted",
        _ => false,
    }));
    assert!(cells.iter().any(|cell| match cell {
        Cell::Code(code) => code.content.contains("<div>html</div>"),
        _ => false,
    }));
    for (index, cell) in cells.iter().enumerate() {
        assert_eq!(cell.id(), (index + 1).to_string());
    }
}

#[test]
fn tokens_with_spans_outside_any_cell_are_skipped() {
    let cells = tokens_to_cells(vec![
        Token::Start(TokenTag::Strong),
        Token::End(TokenTag::Strong),
        Token::Start(TokenTag::Table),
        Token::End(TokenTag::Table),
        Token::FootnoteReference("1".to_string()),
        Token::SoftBreak,
        Token::Start(TokenTag::Link(
            LinkKind::Reference,
            "u".to_string(),
            String::new(),
        )),
        Token::TaskListMarker(true),
    ]);
    assert!(cells.is_empty());
}

#[test]
fn notebook_from_tokens() {
    let notebook = tokens_to_notebook(vec![
        Token::Start(TokenTag::Heading(HeadingRank::H1)),
        Token::Text("Title".to_string()),
        Token::End(TokenTag::Heading(HeadingRank::H1)),
        Token::Start(TokenTag::Heading(HeadingRank::H2)),
        Token::Text("Section".to_string()),
        Token::End(TokenTag::Heading(HeadingRank::H2)),
        Token::Start(TokenTag::CodeBlock(FenceKind::Fenced("promql".to_string()))),
        Token::Text("# fiberplane-provider-query\nup".to_string()),
        Token::End(TokenTag::CodeBlock(FenceKind::Fenced("promql".to_string()))),
        Token::HardBreak,
    ]);
    assert_eq!(notebook.title, "Title");
    assert_eq!(notebook.cells.len(), 3);
    match &notebook.cells[0] {
        Cell::Heading(cell) => assert_eq!(cell.heading_type, HeadingType::H1),
        other => panic!("unexpected cell {:?}", other),
    }
    match &notebook.cells[1] {
        Cell::Provider(cell) => assert_eq!(
            cell.query_data.as_deref(),
            Some("application/x-www-form-urlencoded,query=up")
        ),
        other => panic!("unexpected cell {:?}", other),
    }
    match &notebook.cells[2] {
        Cell::Text(cell) => assert_eq!(cell.content, ""),
        other => panic!("unexpected cell {:?}", other),
    }
}

#[test]
fn formatting_offsets_never_decrease() {
    let cells = markdown_to_cells(
        "**a *b* c** `d` ~~e~~ [f](g)\n\n- *x* **y**\n- [ ] `z` *w*\n\n## **h** _i_",
    );
    let mut seen = 0;
    for cell in &cells {
        if let Some(formatting) = cell.formatting() {
            seen += formatting.len();
            for window in formatting.windows(2) {
                assert!(window[0].offset <= window[1].offset);
            }
        }
    }
    assert!(seen >= 16);
}
