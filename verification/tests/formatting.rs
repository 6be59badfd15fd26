use fiberplane::formatting::{
    annotation_insertion_index, first_annotation_index_beyond_offset,
    first_annotation_index_for_offset, translate, ActiveFormatting, Annotation,
    AnnotationWithOffset, Mention, RichText,
};
use fiberplane::labels::Label;
use fiberplane::timestamps::Timestamp;

#[test]
fn test_first_annotation_index_for_offset() {
    let formatting = vec![
        AnnotationWithOffset::new(30, Annotation::StartBold),
        AnnotationWithOffset::new(30, Annotation::StartItalics),
        AnnotationWithOffset::new(94, Annotation::EndBold),
        AnnotationWithOffset::new(94, Annotation::EndItalics),
    ];

    assert_eq!(first_annotation_index_for_offset(&formatting, 10), 0);
    assert_eq!(first_annotation_index_for_offset(&formatting, 30), 0);
    assert_eq!(first_annotation_index_for_offset(&formatting, 31), 2);
    assert_eq!(first_annotation_index_for_offset(&formatting, 94), 2);
    assert_eq!(first_annotation_index_for_offset(&formatting, 95), 4);
}

#[test]
fn test_first_annotation_index_beyond_offset() {
    let formatting = vec![
        AnnotationWithOffset::new(30, Annotation::StartBold),
        AnnotationWithOffset::new(30, Annotation::StartItalics),
        AnnotationWithOffset::new(94, Annotation::EndBold),
        AnnotationWithOffset::new(94, Annotation::EndItalics),
    ];

    assert_eq!(first_annotation_index_beyond_offset(&formatting, 10), 0);
    assert_eq!(first_annotation_index_beyond_offset(&formatting, 30), 2);
    assert_eq!(first_annotation_index_beyond_offset(&formatting, 31), 2);
    assert_eq!(first_annotation_index_beyond_offset(&formatting, 94), 4);
    assert_eq!(first_annotation_index_beyond_offset(&formatting, 95), 4);
}

fn list_of(offsets: &[u32]) -> Vec<AnnotationWithOffset> {
    offsets
        .iter()
        .map(|offset| AnnotationWithOffset::new(*offset, Annotation::StartBold))
        .collect()
}

#[test]
fn index_functions_agree_with_a_linear_scan() {
    let lists: Vec<Vec<u32>> = vec![
        vec![],
        vec![0],
        vec![5],
        vec![0, 0, 0],
        vec![1, 3, 3, 3, 7, 7, 9],
        vec![2, 4, 6, 8, 10, 12, 14, 16],
        vec![0, 1, 1, 2, 2, 2, 3, 3, 3, 3, 4],
        vec![u32::MAX - 1, u32::MAX, u32::MAX],
    ];
    for offsets in lists {
        let list = list_of(&offsets);
        let mut probes: Vec<u32> = vec![0, 1, 2, 3, 4, 5, 6, 7, 8, 9, 10, 17, u32::MAX];
        probes.extend(offsets.iter().copied());
        for probe in probes {
            let at_or_after = offsets
                .iter()
                .position(|offset| *offset >= probe)
                .unwrap_or(offsets.len());
            let beyond = offsets
                .iter()
                .position(|offset| *offset > probe)
                .unwrap_or(offsets.len());
            assert_eq!(first_annotation_index_for_offset(&list, probe), at_or_after);
            assert_eq!(annotation_insertion_index(&list, probe), at_or_after);
            assert_eq!(first_annotation_index_beyond_offset(&list, probe), beyond);
        }
    }
}

#[test]
fn index_functions_stay_in_range_on_unsorted_lists() {
    let list = list_of(&[9, 1, 5, 5, 0, 7]);
    for probe in 0..11 {
        assert!(annotation_insertion_index(&list, probe) <= list.len());
        assert!(first_annotation_index_for_offset(&list, probe) <= list.len());
        assert!(first_annotation_index_beyond_offset(&list, probe) <= list.len());
    }
}

#[test]
fn translate_shifts_every_offset() {
    let list = vec![
        AnnotationWithOffset::new(5, Annotation::StartBold),
        AnnotationWithOffset::new(9, Annotation::EndBold),
    ];
    let forward = translate(&list, 10);
    assert_eq!(forward.len(), 2);
    assert_eq!(forward[0].offset, 15);
    assert_eq!(forward[1].offset, 19);
    assert!(matches!(forward[0].annotation, Annotation::StartBold));
    assert!(matches!(forward[1].annotation, Annotation::EndBold));
    let back = translate(&forward, -15);
    assert_eq!(back[0].offset, 0);
    assert_eq!(back[1].offset, 4);
    assert!(translate(&[], 3).is_empty());
}

#[test]
fn translate_wraps_around() {
    let annotation = AnnotationWithOffset::new(3, Annotation::EndLink);
    assert_eq!(annotation.translate(-4).offset, u32::MAX);
    assert_eq!(annotation.translate(0).offset, 3);
    let last = AnnotationWithOffset::new(u32::MAX, Annotation::EndLink);
    assert_eq!(last.translate(1).offset, 0);
    assert_eq!(last.translate(i64::MAX).offset, u32::MAX - 1);
    assert_eq!(annotation.translate(i64::MIN).offset, 3);
}

#[test]
fn paired_annotations_and_their_opposites() {
    assert!(Annotation::StartBold.is_paired_annotation());
    assert!(Annotation::EndLink.is_paired_annotation());
    assert!(Annotation::StartLink { url: "u".to_string() }.is_paired_annotation());
    assert!(Annotation::EndUnderline.is_paired_annotation());
    assert!(!Annotation::NotebookLink { url: "u".to_string() }.is_paired_annotation());
    assert!(!Annotation::Label(Label::new("k", "v")).is_paired_annotation());
    assert!(!Annotation::Mention(Mention::new("n", "id")).is_paired_annotation());
    let timestamp = Timestamp::parse("2020-01-01T00:00:00Z").unwrap();
    assert!(!Annotation::Timestamp { timestamp }.is_paired_annotation());

    assert!(matches!(Annotation::StartBold.toggle_opposite(), Some(Annotation::EndBold)));
    assert!(matches!(Annotation::EndBold.toggle_opposite(), Some(Annotation::StartBold)));
    assert!(matches!(Annotation::StartCode.toggle_opposite(), Some(Annotation::EndCode)));
    assert!(matches!(
        Annotation::EndHighlight.toggle_opposite(),
        Some(Annotation::StartHighlight)
    ));
    assert!(matches!(
        Annotation::StartUnderline.toggle_opposite(),
        Some(Annotation::EndUnderline)
    ));
    assert!(matches!(
        Annotation::StartLink { url: "u".to_string() }.toggle_opposite(),
        Some(Annotation::EndLink)
    ));
    assert!(Annotation::EndLink.toggle_opposite().is_none());
    assert!(Annotation::Label(Label::new("k", "v")).toggle_opposite().is_none());
}

#[test]
fn contains_follows_the_state() {
    let plain = ActiveFormatting::default();
    assert!(!plain.contains(&Annotation::StartBold));
    assert!(plain.contains(&Annotation::EndBold));
    assert!(plain.contains(&Annotation::EndLink));
    assert!(!plain.contains(&Annotation::StartLink { url: "u".to_string() }));
    assert!(!plain.contains(&Annotation::Label(Label::new("k", "v"))));
    assert!(!plain.contains(&Annotation::NotebookLink { url: "u".to_string() }));

    let rich = plain
        .with_bold(true)
        .with_code(true)
        .with_highlight(true)
        .with_italics(true)
        .with_strikethrough(true)
        .with_underline(true)
        .with_link(Some("https://example.com".to_string()))
        .with_label(Some(Label::new("k", "v")))
        .with_notebook_link(Some("nb".to_string()))
        .with_timestamp(Timestamp::parse("2020-01-01T00:00:00Z").ok());
    assert!(rich.contains(&Annotation::StartBold));
    assert!(!rich.contains(&Annotation::EndBold));
    assert!(rich.contains(&Annotation::StartCode));
    assert!(rich.contains(&Annotation::StartHighlight));
    assert!(rich.contains(&Annotation::StartItalics));
    assert!(rich.contains(&Annotation::StartStrikethrough));
    assert!(rich.contains(&Annotation::StartUnderline));
    assert!(rich.contains(&Annotation::StartLink { url: "other".to_string() }));
    assert!(!rich.contains(&Annotation::EndLink));
    assert!(rich.contains(&Annotation::Label(Label::new("x", "y"))));
    assert!(rich.contains(&Annotation::NotebookLink { url: "u".to_string() }));
    assert!(!rich.contains(&Annotation::Mention(Mention::new("n", "id"))));
    let link_only = plain.with_link(Some("l".to_string()));
    assert!(!link_only.contains(&Annotation::NotebookLink { url: "u".to_string() }));
}

fn names(annotations: &[Annotation]) -> Vec<String> {
    annotations.iter().map(|a| format!("{:?}", a)).collect()
}

#[test]
fn toggled_annotations_come_in_the_fixed_order() {
    let plain = ActiveFormatting::default();
    let mut rich = plain
        .with_underline(true)
        .with_strikethrough(true)
        .with_link(Some("u".to_string()))
        .with_italics(true)
        .with_highlight(true)
        .with_code(true)
        .with_bold(true)
        .with_timestamp(Timestamp::parse("2020-01-01T00:00:00Z").ok())
        .with_notebook_link(Some("nb".to_string()))
        .with_label(Some(Label::new("k", "v")));
    rich.mention = Some(Mention::new("n", "id"));

    let on = names(&rich.annotations_for_toggled_formatting(&plain));
    assert_eq!(on.len(), 11);
    assert_eq!(on[0], "StartBold");
    assert_eq!(on[1], "StartCode");
    assert_eq!(on[2], "StartHighlight");
    assert_eq!(on[3], "StartItalics");
    assert!(on[4].starts_with("StartLink"));
    assert_eq!(on[5], "StartStrikethrough");
    assert_eq!(on[6], "StartUnderline");
    assert!(on[7].starts_with("Label"));
    assert!(on[8].starts_with("Mention"));
    assert!(on[9].starts_with("NotebookLink"));
    assert!(on[10].starts_with("Timestamp"));

    let off = names(&plain.annotations_for_toggled_formatting(&rich));
    assert_eq!(
        off,
        vec![
            "EndBold",
            "EndCode",
            "EndHighlight",
            "EndItalics",
            "EndLink",
            "EndStrikethrough",
            "EndUnderline"
        ]
    );
    assert!(rich.annotations_for_toggled_formatting(&rich).is_empty());
}

#[test]
fn toggled_annotations_for_changed_values() {
    let plain = ActiveFormatting::default();
    let first = plain.with_link(Some("a".to_string()));
    let second = plain.with_link(Some("b".to_string()));
    let changed = second.annotations_for_toggled_formatting(&first);
    assert_eq!(changed.len(), 1);
    match &changed[0] {
        Annotation::StartLink { url } => assert_eq!(url, "b"),
        other => panic!("unexpected annotation {:?}", other),
    }

    let morning = plain.with_timestamp(Timestamp::parse("2020-01-01T01:00:00+01:00").ok());
    let same = plain.with_timestamp(Timestamp::parse("2020-01-01T00:00:00Z").ok());
    let later = plain.with_timestamp(Timestamp::parse("2020-01-01T00:00:01Z").ok());
    assert!(morning.annotations_for_toggled_formatting(&same).is_empty());
    assert_eq!(later.annotations_for_toggled_formatting(&same).len(), 1);
}

#[test]
fn rich_text_constructors() {
    let plain = RichText::new_plain("text");
    assert_eq!(plain.text, "text");
    assert!(plain.formatting.is_empty());
    let rich = RichText::new(
        "text",
        vec![AnnotationWithOffset::new(1, Annotation::StartBold)],
    );
    assert_eq!(rich.text, "text");
    assert_eq!(rich.formatting.len(), 1);
    assert_eq!(rich.formatting[0].offset, 1);
}
