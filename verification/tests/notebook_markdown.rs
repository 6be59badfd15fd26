use fiberplane::documents::{Notebook, NotebookVisibility};
use fiberplane::formatting::{Annotation, AnnotationWithOffset, Mention};
use fiberplane::labels::Label;
use fiberplane::notebooks::{
    Cell, CheckboxCell, CodeCell, DiscussionCell, DividerCell, GraphCell, HeadingCell,
    HeadingType, ImageCell, ListItemCell, ListType, LogCell, ProviderCell, TableCell, TextCell,
};
use fiberplane::to_markdown::NotebookConverter;
use fiberplane::{cells_to_markdown, markdown_to_cells, markdown_to_notebook, notebook_to_markdown};

fn render(text: &str, formatting: Vec<AnnotationWithOffset>) -> String {
    let mut converter = NotebookConverter::new();
    converter.convert_formatted_text(text.to_string(), formatting);
    converter.into_markdown()
}

fn text(content: &str) -> Cell {
    Cell::Text(TextCell::builder().content(content).build())
}

#[test]
fn notebook_with_title_and_body() {
    let notebook = Notebook {
        id: "n".to_string(),
        title: "Some title".to_string(),
        cells: vec![
            Cell::Heading(
                HeadingCell::builder()
                    .content("H1")
                    .heading_type(HeadingType::H1)
                    .build(),
            ),
            text("Body"),
            Cell::Heading(
                HeadingCell::builder()
                    .content("H3")
                    .heading_type(HeadingType::H3)
                    .build(),
            ),
        ],
        read_only: false,
        revision: 1,
        visibility: NotebookVisibility::Public,
    };
    assert_eq!(
        notebook_to_markdown(notebook),
        "# Some title\n\n## H1\n\nBody\n\n#### H3"
    );
}

#[test]
fn notebook_with_title_only() {
    let mut notebook = Notebook::default();
    notebook.title = "Some title".to_string();
    assert_eq!(notebook_to_markdown(notebook), "# Some title");
}

#[test]
fn cells_without_title_keep_their_heading_level() {
    let markdown = cells_to_markdown(vec![
        Cell::Heading(
            HeadingCell::builder()
                .content("H1")
                .heading_type(HeadingType::H1)
                .build(),
        ),
        Cell::Heading(
            HeadingCell::builder()
                .content("H2")
                .heading_type(HeadingType::H2)
                .build(),
        ),
        Cell::Heading(
            HeadingCell::builder()
                .content("H3")
                .heading_type(HeadingType::H3)
                .build(),
        ),
    ]);
    assert_eq!(markdown, "# H1\n\n## H2\n\n### H3");
    assert_eq!(cells_to_markdown(vec![]), "");
}

#[test]
fn headings_keep_their_level_until_a_title_is_written() {
    let mut converter = NotebookConverter::new();
    converter.convert_cells(vec![
        Cell::Heading(
            HeadingCell::builder()
                .content("H1")
                .heading_type(HeadingType::H1)
                .build(),
        ),
        Cell::Heading(
            HeadingCell::builder()
                .content("H2")
                .heading_type(HeadingType::H2)
                .build(),
        ),
    ]);
    converter.convert_title("Late title");
    converter.convert_cells(vec![Cell::Heading(
        HeadingCell::builder()
            .content("H1")
            .heading_type(HeadingType::H1)
            .build(),
    )]);
    assert_eq!(
        converter.into_markdown(),
        "# H1\n\n## H2\n\n# Late title\n\n## H1"
    );
    let mut untitled = NotebookConverter::without_title();
    untitled.convert_cells(vec![Cell::Heading(
        HeadingCell::builder()
            .content("H3")
            .heading_type(HeadingType::H3)
            .build(),
    )]);
    assert_eq!(untitled.into_markdown(), "### H3");
}

#[test]
fn overlapping_spans_are_written_in_offset_order() {
    assert_eq!(
        render(
            "Some overlapping formatting",
            vec![
                AnnotationWithOffset::new(0, Annotation::StartBold),
                AnnotationWithOffset::new(5, Annotation::StartItalics),
                AnnotationWithOffset::new(16, Annotation::EndBold),
                AnnotationWithOffset::new(27, Annotation::EndItalics),
            ]
        ),
        "**Some *overlapping** formatting*"
    );
}

#[test]
fn annotations_at_one_offset_are_written_in_the_fixed_order() {
    let forward = render(
        "ab",
        vec![
            AnnotationWithOffset::new(0, Annotation::StartStrikethrough),
            AnnotationWithOffset::new(0, Annotation::StartBold),
            AnnotationWithOffset::new(1, Annotation::EndBold),
            AnnotationWithOffset::new(1, Annotation::EndStrikethrough),
        ],
    );
    let backward = render(
        "ab",
        vec![
            AnnotationWithOffset::new(0, Annotation::StartBold),
            AnnotationWithOffset::new(0, Annotation::StartStrikethrough),
            AnnotationWithOffset::new(1, Annotation::EndStrikethrough),
            AnnotationWithOffset::new(1, Annotation::EndBold),
        ],
    );
    assert_eq!(forward, "**~~a**~~b");
    assert_eq!(backward, forward);
}

#[test]
fn a_pair_at_one_offset_writes_nothing() {
    assert_eq!(
        render(
            "abc",
            vec![
                AnnotationWithOffset::new(1, Annotation::StartBold),
                AnnotationWithOffset::new(1, Annotation::EndBold),
            ]
        ),
        "abc"
    );
}

#[test]
fn underline_is_written_as_italics() {
    assert_eq!(
        render(
            "Some text",
            vec![
                AnnotationWithOffset::new(0, Annotation::StartUnderline),
                AnnotationWithOffset::new(4, Annotation::EndUnderline),
            ]
        ),
        "*Some* text"
    );
}

#[test]
fn a_second_link_closes_the_first() {
    assert_eq!(
        render(
            "one two",
            vec![
                AnnotationWithOffset::new(
                    0,
                    Annotation::StartLink {
                        url: "a".to_string()
                    }
                ),
                AnnotationWithOffset::new(
                    4,
                    Annotation::StartLink {
                        url: "b".to_string()
                    }
                ),
            ]
        ),
        "[one ](a)[two](b)"
    );
}

#[test]
fn end_without_start_writes_nothing() {
    assert_eq!(
        render(
            "Some text",
            vec![
                AnnotationWithOffset::new(2, Annotation::EndBold),
                AnnotationWithOffset::new(4, Annotation::EndLink),
            ]
        ),
        "Some text"
    );
}

#[test]
fn annotations_beyond_the_text_are_dropped() {
    assert_eq!(
        render(
            "Some",
            vec![
                AnnotationWithOffset::new(4, Annotation::StartBold),
                AnnotationWithOffset::new(40, Annotation::StartItalics),
            ]
        ),
        "Some"
    );
    assert_eq!(
        render("", vec![AnnotationWithOffset::new(0, Annotation::StartCode)]),
        ""
    );
}

#[test]
fn annotations_out_of_order_take_effect_where_the_text_has_got_to() {
    assert_eq!(
        render(
            "abcdef",
            vec![
                AnnotationWithOffset::new(4, Annotation::StartBold),
                AnnotationWithOffset::new(2, Annotation::EndBold),
            ]
        ),
        "abcd****ef"
    );
}

#[test]
fn a_point_annotation_stands_for_as_many_characters_as_its_text() {
    assert_eq!(
        render(
            "Hi @bob, welcome",
            vec![AnnotationWithOffset::new(
                3,
                Annotation::Mention(Mention::new("bob", "id"))
            )]
        ),
        "Hi **@bob**, welcome"
    );
    assert_eq!(
        render(
            "Hi @robert",
            vec![AnnotationWithOffset::new(
                3,
                Annotation::Mention(Mention::new("bob", "id"))
            )]
        ),
        "Hi **@bob**ert"
    );
    assert_eq!(
        render(
            "Hi @b",
            vec![AnnotationWithOffset::new(
                3,
                Annotation::Mention(Mention::new("bob", "id"))
            )]
        ),
        "Hi **@bob**"
    );
}

#[test]
fn labels_with_and_without_value() {
    assert_eq!(
        render(
            "on env:prod now",
            vec![AnnotationWithOffset::new(
                3,
                Annotation::Label(Label::new("env", "prod"))
            )]
        ),
        "on **env:prod** now"
    );
    assert_eq!(
        render(
            "on env now",
            vec![AnnotationWithOffset::new(
                3,
                Annotation::Label(Label::new("env", ""))
            )]
        ),
        "on **env** now"
    );
}

#[test]
fn notebook_links_write_nothing() {
    assert_eq!(
        render(
            "see here",
            vec![AnnotationWithOffset::new(
                4,
                Annotation::NotebookLink {
                    url: "nb".to_string()
                }
            )]
        ),
        "see here"
    );
}

#[test]
fn offsets_count_characters_not_bytes() {
    assert_eq!(
        render(
            "héllo wörld",
            vec![
                AnnotationWithOffset::new(6, Annotation::StartBold),
                AnnotationWithOffset::new(11, Annotation::EndBold),
            ]
        ),
        "héllo **wörld**"
    );
}

#[test]
fn code_cells_with_syntax_and_after_text() {
    let markdown = cells_to_markdown(vec![
        text("before"),
        Cell::Code(CodeCell::builder().content("let x = 1;").syntax("rust").build()),
        text("after"),
    ]);
    assert_eq!(markdown, "before\n\n```rust\nlet x = 1;\n```\n\nafter");
}

#[test]
fn image_without_url_leaves_no_trace() {
    let with = cells_to_markdown(vec![
        text("one"),
        Cell::Image(ImageCell::builder().file_id("file_id").build()),
        text("two"),
    ]);
    let without = cells_to_markdown(vec![text("one"), text("two")]);
    assert_eq!(with, without);
    assert_eq!(with, "one\n\ntwo");
    assert_eq!(
        cells_to_markdown(vec![Cell::Image(ImageCell::builder().build())]),
        ""
    );
    assert_eq!(
        cells_to_markdown(vec![
            Cell::Checkbox(CheckboxCell::builder().content("a").build()),
            Cell::Image(ImageCell::builder().build()),
            Cell::Checkbox(CheckboxCell::builder().content("b").build()),
        ]),
        "- [ ] a\n- [ ] b\n"
    );
}

#[test]
fn cells_without_markdown_form_write_nothing() {
    let markdown = cells_to_markdown(vec![
        text("one"),
        Cell::Divider(DividerCell::builder().build()),
        Cell::Table(TableCell::builder().build()),
        Cell::Log(LogCell::builder().build()),
        Cell::Discussion(DiscussionCell::builder().build()),
        Cell::Graph(GraphCell::builder().build()),
        Cell::Provider(ProviderCell::builder().intent("prometheus,timeseries").build()),
        text("two"),
    ]);
    assert_eq!(markdown, "one\n\ntwo");
}

#[test]
fn one_blank_line_after_a_checkbox_run() {
    let markdown = cells_to_markdown(vec![
        Cell::Checkbox(CheckboxCell::builder().content("a").checked(true).build()),
        Cell::Checkbox(CheckboxCell::builder().content("b").level(1).build()),
        text("c"),
        Cell::ListItem(
            ListItemCell::builder()
                .content("d")
                .list_type(ListType::Unordered)
                .build(),
        ),
        Cell::Checkbox(CheckboxCell::builder().content("e").build()),
        Cell::ListItem(
            ListItemCell::builder()
                .content("f")
                .list_type(ListType::Unordered)
                .build(),
        ),
    ]);
    assert_eq!(
        markdown,
        "- [x] a\n  - [ ] b\n\nc\n\n- d\n\n- [ ] e\n\n- f"
    );
}

#[test]
fn nested_list_under_a_wide_marker() {
    let markdown = cells_to_markdown(vec![
        Cell::ListItem(
            ListItemCell::builder()
                .content("ten")
                .list_type(ListType::Ordered)
                .start_number(10)
                .build(),
        ),
        Cell::ListItem(
            ListItemCell::builder()
                .content("inner")
                .list_type(ListType::Unordered)
                .level(1)
                .build(),
        ),
        Cell::ListItem(
            ListItemCell::builder()
                .content("deep")
                .list_type(ListType::Ordered)
                .start_number(65535)
                .level(2)
                .build(),
        ),
        Cell::ListItem(
            ListItemCell::builder()
                .content("other")
                .list_type(ListType::Unordered)
                .build(),
        ),
    ]);
    assert_eq!(
        markdown,
        "10. ten\n    - inner\n      65535. deep\n- other"
    );
}

#[test]
fn formatted_list_items_and_headings() {
    let markdown = cells_to_markdown(vec![
        Cell::Heading(
            HeadingCell::builder()
                .content("Big news")
                .heading_type(HeadingType::H2)
                .formatting(vec![
                    AnnotationWithOffset::new(0, Annotation::StartBold),
                    AnnotationWithOffset::new(3, Annotation::EndBold),
                ])
                .build(),
        ),
        Cell::ListItem(
            ListItemCell::builder()
                .content("some code")
                .list_type(ListType::Unordered)
                .formatting(vec![AnnotationWithOffset::new(5, Annotation::StartCode)])
                .build(),
        ),
    ]);
    assert_eq!(markdown, "## **Big** news\n\n- some `code`");
}

fn contents(cells: &[Cell]) -> Vec<Option<String>> {
    cells
        .iter()
        .map(|cell| cell.content().map(|content| content.to_string()))
        .collect()
}

#[test]
fn markdown_survives_a_round_trip() {
    let documents = [
        "Some text",
        "Some **bold**, *italics*, ~~strikethrough~~",
        "Some [link](https://www.rust-lang.org) here",
        "Some `code` here",
        "# H1\n\n## H2\n\n### H3",
        "- one\n  - one-one\n  - one-two\n- two",
        "1. one\n1. two",
        "- [x] one\n- [ ] two\n",
        "before\n\n```rust\nlet x = 1;\n```\n\nafter",
        "Some text\n\nSome more text",
    ];
    for markdown in documents {
        let cells = markdown_to_cells(markdown);
        let written = cells_to_markdown(cells);
        assert_eq!(written, markdown);
        let again = cells_to_markdown(markdown_to_cells(&written));
        assert_eq!(again, written);
    }
}

#[test]
fn cells_survive_a_round_trip() {
    let cells = vec![
        Cell::Heading(
            HeadingCell::builder()
                .content("Heading")
                .heading_type(HeadingType::H2)
                .build(),
        ),
        Cell::Text(
            TextCell::builder()
                .content("Some bold, italics, strikethrough")
                .formatting(vec![
                    AnnotationWithOffset::new(5, Annotation::StartBold),
                    AnnotationWithOffset::new(9, Annotation::EndBold),
                    AnnotationWithOffset::new(11, Annotation::StartItalics),
                    AnnotationWithOffset::new(18, Annotation::EndItalics),
                    AnnotationWithOffset::new(20, Annotation::StartStrikethrough),
                    AnnotationWithOffset::new(33, Annotation::EndStrikethrough),
                ])
                .build(),
        ),
        Cell::ListItem(
            ListItemCell::builder()
                .content("one")
                .list_type(ListType::Ordered)
                .start_number(1)
                .build(),
        ),
        Cell::ListItem(
            ListItemCell::builder()
                .content("inner")
                .list_type(ListType::Unordered)
                .level(1)
                .build(),
        ),
        Cell::Checkbox(CheckboxCell::builder().content("done").checked(true).build()),
        Cell::Code(CodeCell::builder().content("a\nb").syntax("text").build()),
    ];
    let expected = contents(&cells);
    let markdown = cells_to_markdown(cells);
    let read = markdown_to_cells(&markdown);
    assert_eq!(contents(&read), expected);
    assert!(matches!(&read[0], Cell::Heading(cell) if cell.heading_type == HeadingType::H2));
    match &read[1] {
        Cell::Text(cell) => {
            let offsets: Vec<u32> = cell.formatting.iter().map(|a| a.offset).collect();
            assert_eq!(offsets, vec![5, 9, 11, 18, 20, 33]);
        }
        other => panic!("unexpected cell {:?}", other),
    }
    assert!(
        matches!(&read[2], Cell::ListItem(cell) if cell.list_type == ListType::Ordered && cell.start_number == Some(1))
    );
    assert!(
        matches!(&read[3], Cell::ListItem(cell) if cell.list_type == ListType::Unordered && cell.level == Some(1))
    );
    assert!(matches!(&read[4], Cell::Checkbox(cell) if cell.checked));
    assert!(matches!(&read[5], Cell::Code(cell) if cell.syntax.as_deref() == Some("text")));
    assert_eq!(cells_to_markdown(read), markdown);
}

#[test]
fn title_and_headings_survive_a_round_trip() {
    let notebook = markdown_to_notebook("# H1\n\n## H2");
    assert_eq!(notebook.title, "H1");
    assert_eq!(notebook.cells.len(), 1);
    assert!(
        matches!(&notebook.cells[0], Cell::Heading(cell) if cell.heading_type == HeadingType::H1 && cell.content == "H2")
    );
    let mut written = Notebook::default();
    written.title = notebook.title;
    written.cells = notebook.cells;
    assert_eq!(notebook_to_markdown(written), "# H1\n\n## H2");
}
