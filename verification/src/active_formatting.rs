//! The formatting that is active at a character offset, and the annotations
//! that lead from one such state to another.

use crate::formatting::{Annotation, AnnotationView, Mention, MentionView};
use crate::labels::{Label, LabelView};
use crate::timestamps::{Timestamp, TimestampView};
use vstd::prelude::*;

verus! {

/// All the formatting that is active at any given character offset.
#[derive(Debug)]
pub struct ActiveFormatting {
    pub bold: bool,
    pub code: bool,
    pub highlight: bool,
    pub italics: bool,
    pub strikethrough: bool,
    pub underline: bool,
    pub link: Option<String>,
    pub label: Option<Label>,
    pub mention: Option<Mention>,
    pub notebook_link: Option<String>,
    pub timestamp: Option<Timestamp>,
}

/// The mathematical value of an [`ActiveFormatting`].
pub struct ActiveFormattingView {
    pub bold: bool,
    pub code: bool,
    pub highlight: bool,
    pub italics: bool,
    pub strikethrough: bool,
    pub underline: bool,
    pub link: Option<Seq<char>>,
    pub label: Option<LabelView>,
    pub mention: Option<MentionView>,
    pub notebook_link: Option<Seq<char>>,
    pub timestamp: Option<TimestampView>,
}

/// The characters of an optional text.
pub open spec fn text_of(text: Option<String>) -> Option<Seq<char>> {
    match text {
        Some(t) => Some(t@),
        None => None,
    }
}

impl View for ActiveFormatting {
    type V = ActiveFormattingView;

    open spec fn view(&self) -> ActiveFormattingView {
        ActiveFormattingView {
            bold: self.bold,
            code: self.code,
            highlight: self.highlight,
            italics: self.italics,
            strikethrough: self.strikethrough,
            underline: self.underline,
            link: text_of(self.link),
            label: match self.label {
                Some(l) => Some(l@),
                None => None,
            },
            mention: match self.mention {
                Some(m) => Some(m@),
                None => None,
            },
            notebook_link: text_of(self.notebook_link),
            timestamp: match self.timestamp {
                Some(t) => Some(t@),
                None => None,
            },
        }
    }
}

/// A copy of an optional text.
pub fn copy_text(text: &Option<String>) -> (copy: Option<String>)
    ensures
        text_of(copy) == text_of(*text),
{
    match text {
        Some(t) => Some(t.clone()),
        None => None,
    }
}

/// Whether two optional texts are both absent or hold the same characters.
pub fn same_text(left: &Option<String>, right: &Option<String>) -> (equal: bool)
    ensures
        equal == (text_of(*left) == text_of(*right)),
{
    match left {
        Some(l) => match right {
            Some(r) => *l == *r,
            None => false,
        },
        None => right.is_none(),
    }
}

impl Clone for ActiveFormatting {
    fn clone(&self) -> (copy: Self)
        ensures
            copy@ == self@,
    {
        ActiveFormatting {
            bold: self.bold,
            code: self.code,
            highlight: self.highlight,
            italics: self.italics,
            strikethrough: self.strikethrough,
            underline: self.underline,
            link: copy_text(&self.link),
            label: match &self.label {
                Some(l) => Some(l.clone()),
                None => None,
            },
            mention: match &self.mention {
                Some(m) => Some(m.clone()),
                None => None,
            },
            notebook_link: copy_text(&self.notebook_link),
            timestamp: match &self.timestamp {
                Some(t) => Some(t.clone()),
                None => None,
            },
        }
    }
}

impl Default for ActiveFormatting {
    fn default() -> (state: Self)
        ensures
            state@ == no_formatting(),
    {
        ActiveFormatting {
            bold: false,
            code: false,
            highlight: false,
            italics: false,
            strikethrough: false,
            underline: false,
            link: None,
            label: None,
            mention: None,
            notebook_link: None,
            timestamp: None,
        }
    }
}

/// The state in which no formatting is active.
pub open spec fn no_formatting() -> ActiveFormattingView {
    ActiveFormattingView {
        bold: false,
        code: false,
        highlight: false,
        italics: false,
        strikethrough: false,
        underline: false,
        link: None,
        label: None,
        mention: None,
        notebook_link: None,
        timestamp: None,
    }
}

/// Whether `annotation` is active in `state`: a `Start*` annotation when its
/// style is set, an `End*` annotation when it is not, and a point annotation
/// when the state holds a value of its kind.
pub open spec fn is_active(state: ActiveFormattingView, annotation: AnnotationView) -> bool {
    match annotation {
        AnnotationView::StartBold => state.bold,
        AnnotationView::EndBold => !state.bold,
        AnnotationView::StartCode => state.code,
        AnnotationView::EndCode => !state.code,
        AnnotationView::StartHighlight => state.highlight,
        AnnotationView::EndHighlight => !state.highlight,
        AnnotationView::StartItalics => state.italics,
        AnnotationView::EndItalics => !state.italics,
        AnnotationView::StartStrikethrough => state.strikethrough,
        AnnotationView::EndStrikethrough => !state.strikethrough,
        AnnotationView::StartUnderline => state.underline,
        AnnotationView::EndUnderline => !state.underline,
        AnnotationView::StartLink { .. } => state.link is Some,
        AnnotationView::EndLink => state.link is None,
        AnnotationView::Label(_) => state.label is Some,
        AnnotationView::Mention(_) => state.mention is Some,
        AnnotationView::NotebookLink { .. } => state.notebook_link is Some,
        AnnotationView::Timestamp { .. } => state.timestamp is Some,
    }
}

/// The annotations for one on/off style: none where target and reference
/// agree, else the one that turns the reference into the target.
pub open spec fn toggled_style(
    target: bool,
    reference: bool,
    start: AnnotationView,
    end: AnnotationView,
) -> Seq<AnnotationView> {
    if target == reference {
        seq![]
    } else if target {
        seq![start]
    } else {
        seq![end]
    }
}

/// The annotations for the link: none where target and reference agree, else
/// the start of the target's link, or the end of the reference's.
pub open spec fn toggled_link(
    target: Option<Seq<char>>,
    reference: Option<Seq<char>>,
) -> Seq<AnnotationView> {
    if target == reference {
        seq![]
    } else {
        match target {
            Some(url) => seq![AnnotationView::StartLink { url }],
            None => seq![AnnotationView::EndLink],
        }
    }
}

/// Whether two optional timestamps are both absent or denote one instant.
pub open spec fn same_moment(left: Option<TimestampView>, right: Option<TimestampView>) -> bool {
    match (left, right) {
        (Some(l), Some(r)) => l.unix_nanos == r.unix_nanos,
        (None, None) => true,
        _ => false,
    }
}

/// The point annotations that the target has and the reference lacks or has
/// with another value, in the order label, mention, notebook link, timestamp.
/// Nothing is emitted for a value that only the reference has.
pub open spec fn toggled_points(
    target: ActiveFormattingView,
    reference: ActiveFormattingView,
) -> Seq<AnnotationView> {
    (match target.label {
        Some(label) if target.label != reference.label => seq![AnnotationView::Label(label)],
        _ => seq![],
    }) + (match target.mention {
        Some(mention) if target.mention != reference.mention => seq![
            AnnotationView::Mention(mention),
        ],
        _ => seq![],
    }) + (match target.notebook_link {
        Some(url) if target.notebook_link != reference.notebook_link => seq![
            AnnotationView::NotebookLink { url },
        ],
        _ => seq![],
    }) + (match target.timestamp {
        Some(timestamp) if !same_moment(target.timestamp, reference.timestamp) => seq![
            AnnotationView::Timestamp { timestamp },
        ],
        _ => seq![],
    })
}

/// The annotations that turn `reference` into `target`, slot by slot in the
/// fixed order bold, code, highlight, italics, link, strikethrough, underline,
/// label, mention, notebook link, timestamp.
pub open spec fn toggled_annotations(
    target: ActiveFormattingView,
    reference: ActiveFormattingView,
) -> Seq<AnnotationView> {
    toggled_style(target.bold, reference.bold, AnnotationView::StartBold, AnnotationView::EndBold)
        + toggled_style(
        target.code,
        reference.code,
        AnnotationView::StartCode,
        AnnotationView::EndCode,
    ) + toggled_style(
        target.highlight,
        reference.highlight,
        AnnotationView::StartHighlight,
        AnnotationView::EndHighlight,
    ) + toggled_style(
        target.italics,
        reference.italics,
        AnnotationView::StartItalics,
        AnnotationView::EndItalics,
    ) + toggled_link(target.link, reference.link) + toggled_style(
        target.strikethrough,
        reference.strikethrough,
        AnnotationView::StartStrikethrough,
        AnnotationView::EndStrikethrough,
    ) + toggled_style(
        target.underline,
        reference.underline,
        AnnotationView::StartUnderline,
        AnnotationView::EndUnderline,
    ) + toggled_points(target, reference)
}

/// The mathematical values of a list of annotations.
pub open spec fn annotation_views(list: Seq<Annotation>) -> Seq<AnnotationView> {
    list.map_values(|a: Annotation| a@)
}

/// Appends the annotation for one on/off style, if target and reference
/// differ on it.
fn push_toggled_style(
    annotations: &mut Vec<Annotation>,
    target: bool,
    reference: bool,
    start: Annotation,
    end: Annotation,
)
    ensures
        annotation_views(final(annotations)@) == annotation_views(old(annotations)@)
            + toggled_style(target, reference, start@, end@),
{
    if target != reference {
        if target {
            annotations.push(start);
        } else {
            annotations.push(end);
        }
    }
    assert(annotation_views(annotations@) =~= annotation_views(old(annotations)@) + toggled_style(
        target,
        reference,
        start@,
        end@,
    ));
}

/// Appends the annotation for the link, if target and reference differ on it.
fn push_toggled_link(
    annotations: &mut Vec<Annotation>,
    target: &Option<String>,
    reference: &Option<String>,
)
    ensures
        annotation_views(final(annotations)@) == annotation_views(old(annotations)@) + toggled_link(
            text_of(*target),
            text_of(*reference),
        ),
{
    if !same_text(target, reference) {
        match target {
            Some(url) => annotations.push(Annotation::StartLink { url: url.clone() }),
            None => annotations.push(Annotation::EndLink),
        }
    }
    assert(annotation_views(annotations@) =~= annotation_views(old(annotations)@) + toggled_link(
        text_of(*target),
        text_of(*reference),
    ));
}

/// A list of no annotations, of which the views are the empty sequence.
fn no_annotations() -> (annotations: Vec<Annotation>)
    ensures
        annotations@.len() == 0,
        forall|rest: Seq<AnnotationView>| annotation_views(annotations@) + rest == rest,
{
    let annotations: Vec<Annotation> = Vec::new();
    assert forall|rest: Seq<AnnotationView>| annotation_views(annotations@) + rest == rest by {
        assert(annotation_views(annotations@) + rest =~= rest);
    }
    annotations
}

impl ActiveFormatting {

    /// This state with the bold style set as given.
    pub fn with_bold(&self, bold: bool) -> (state: Self)
        ensures
            state@ == (ActiveFormattingView { bold, ..self@ }),
    {
        let mut state = self.clone();
        state.bold = bold;
        state
    }

    /// This state with the code style set as given.
    pub fn with_code(&self, code: bool) -> (state: Self)
        ensures
            state@ == (ActiveFormattingView { code, ..self@ }),
    {
        let mut state = self.clone();
        state.code = code;
        state
    }

    /// This state with the highlight style set as given.
    pub fn with_highlight(&self, highlight: bool) -> (state: Self)
        ensures
            state@ == (ActiveFormattingView { highlight, ..self@ }),
    {
        let mut state = self.clone();
        state.highlight = highlight;
        state
    }

    /// This state with the italics style set as given.
    pub fn with_italics(&self, italics: bool) -> (state: Self)
        ensures
            state@ == (ActiveFormattingView { italics, ..self@ }),
    {
        let mut state = self.clone();
        state.italics = italics;
        state
    }

    /// This state with the strikethrough style set as given.
    pub fn with_strikethrough(&self, strikethrough: bool) -> (state: Self)
        ensures
            state@ == (ActiveFormattingView { strikethrough, ..self@ }),
    {
        let mut state = self.clone();
        state.strikethrough = strikethrough;
        state
    }

    /// This state with the underline style set as given.
    pub fn with_underline(&self, underline: bool) -> (state: Self)
        ensures
            state@ == (ActiveFormattingView { underline, ..self@ }),
    {
        let mut state = self.clone();
        state.underline = underline;
        state
    }

    /// This state with the link replaced by the given one.
    pub fn with_link(&self, link: Option<String>) -> (state: Self)
        ensures
            state@ == (ActiveFormattingView {
                link: text_of(link),
                ..self@
            }),
    {
        let mut state = self.clone();
        state.link = link;
        state
    }

    /// This state with the notebook link replaced by the given one.
    pub fn with_notebook_link(&self, notebook_link: Option<String>) -> (state: Self)
        ensures
            state@ == (ActiveFormattingView {
                notebook_link: text_of(notebook_link),
                ..self@
            }),
    {
        let mut state = self.clone();
        state.notebook_link = notebook_link;
        state
    }

    /// This state with the label replaced by the given one.
    pub fn with_label(&self, label: Option<Label>) -> (state: Self)
        ensures
            state@ == (ActiveFormattingView {
                label: match label {
                    Some(l) => Some(l@),
                    None => None,
                },
                ..self@
            }),
    {
        let mut state = self.clone();
        state.label = label;
        state
    }

    /// This state with the timestamp replaced by the given one.
    pub fn with_timestamp(&self, timestamp: Option<Timestamp>) -> (state: Self)
        ensures
            state@ == (ActiveFormattingView {
                timestamp: match timestamp {
                    Some(t) => Some(t@),
                    None => None,
                },
                ..self@
            }),
    {
        let mut state = self.clone();
        state.timestamp = timestamp;
        state
    }

    /// Appends the point annotations that this state has and the reference
    /// lacks or has with another value.
    fn push_toggled_points(&self, reference: &Self, annotations: &mut Vec<Annotation>)
        ensures
            annotation_views(final(annotations)@) == annotation_views(old(annotations)@)
                + toggled_points(self@, reference@),
    {
        let ghost before = annotation_views(annotations@);
        if let Some(label) = &self.label {
            let same = match &reference.label {
                Some(other) => label.same(other),
                None => false,
            };
            if !same {
                annotations.push(Annotation::Label(label.clone()));
            }
        }
        let ghost with_label = annotation_views(annotations@);
        if let Some(mention) = &self.mention {
            let same = match &reference.mention {
                Some(other) => mention.same(other),
                None => false,
            };
            if !same {
                annotations.push(Annotation::Mention(mention.clone()));
            }
        }
        let ghost with_mention = annotation_views(annotations@);
        if let Some(url) = &self.notebook_link {
            if !same_text(&self.notebook_link, &reference.notebook_link) {
                annotations.push(Annotation::NotebookLink { url: url.clone() });
            }
        }
        let ghost with_link = annotation_views(annotations@);
        if let Some(timestamp) = &self.timestamp {
            let same = match &reference.timestamp {
                Some(other) => timestamp.same_instant(other),
                None => false,
            };
            if !same {
                annotations.push(Annotation::Timestamp { timestamp: timestamp.clone() });
            }
        }
        proof {
            let t = self@;
            let r = reference@;
            let first: Seq<AnnotationView> = match t.label {
                Some(label) if t.label != r.label => seq![AnnotationView::Label(label)],
                _ => seq![],
            };
            let second: Seq<AnnotationView> = match t.mention {
                Some(mention) if t.mention != r.mention => seq![AnnotationView::Mention(mention)],
                _ => seq![],
            };
            let third: Seq<AnnotationView> = match t.notebook_link {
                Some(url) if t.notebook_link != r.notebook_link => seq![
                    AnnotationView::NotebookLink { url },
                ],
                _ => seq![],
            };
            let fourth: Seq<AnnotationView> = match t.timestamp {
                Some(timestamp) if !same_moment(t.timestamp, r.timestamp) => seq![
                    AnnotationView::Timestamp { timestamp },
                ],
                _ => seq![],
            };
            assert(with_label =~= before + first);
            assert(with_mention =~= with_label + second);
            assert(with_link =~= with_mention + third);
            assert(annotation_views(annotations@) =~= with_link + fourth);
            assert(annotation_views(annotations@) =~= before + (first + second + third + fourth));
        }
    }

    /// Returns a list of annotations that should be inserted to activate
    /// this formatting compared to a reference formatting.
    pub fn annotations_for_toggled_formatting(&self, reference: &Self) -> (annotations: Vec<
        Annotation,
    >)
        ensures
            annotation_views(annotations@) == toggled_annotations(self@, reference@),
    {
        let mut annotations: Vec<Annotation> = no_annotations();
        push_toggled_style(
            &mut annotations,
            self.bold,
            reference.bold,
            Annotation::StartBold,
            Annotation::EndBold,
        );

        push_toggled_style(
            &mut annotations,
            self.code,
            reference.code,
            Annotation::StartCode,
            Annotation::EndCode,
        );
        push_toggled_style(
            &mut annotations,
            self.highlight,
            reference.highlight,
            Annotation::StartHighlight,
            Annotation::EndHighlight,
        );
        push_toggled_style(
            &mut annotations,
            self.italics,
            reference.italics,
            Annotation::StartItalics,
            Annotation::EndItalics,
        );
        push_toggled_link(&mut annotations, &self.link, &reference.link);
        push_toggled_style(
            &mut annotations,
            self.strikethrough,
            reference.strikethrough,
            Annotation::StartStrikethrough,
            Annotation::EndStrikethrough,
        );
        push_toggled_style(
            &mut annotations,
            self.underline,
            reference.underline,
            Annotation::StartUnderline,
            Annotation::EndUnderline,
        );
        self.push_toggled_points(reference, &mut annotations);
        annotations
    }

    /// Returns whether the given annotation is active in this struct.
    pub fn contains(&self, annotation: &Annotation) -> (active: bool)
        ensures
            active == is_active(self@, annotation@),
    {
        match annotation {
            Annotation::StartBold => self.bold,
            Annotation::EndBold => !self.bold,
            Annotation::StartCode => self.code,
            Annotation::EndCode => !self.code,
            Annotation::StartHighlight => self.highlight,
            Annotation::EndHighlight => !self.highlight,
            Annotation::StartItalics => self.italics,
            Annotation::EndItalics => !self.italics,
            Annotation::StartStrikethrough => self.strikethrough,
            Annotation::EndStrikethrough => !self.strikethrough,
            Annotation::StartUnderline => self.underline,
            Annotation::EndUnderline => !self.underline,
            Annotation::StartLink { .. } => self.link.is_some(),
            Annotation::EndLink => self.link.is_none(),
            Annotation::Label(_) => self.label.is_some(),
            Annotation::Mention(_) => self.mention.is_some(),
            Annotation::NotebookLink { .. } => self.notebook_link.is_some(),
            Annotation::Timestamp { .. } => self.timestamp.is_some(),
        }
    }
}

} // verus!
