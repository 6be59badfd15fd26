//! Rendering of formatted text as Markdown: the annotations of a text are
//! walked in offset order and turned into Markdown delimiters.

use crate::active_formatting::{
    annotation_views, no_formatting, toggled_annotations, toggled_link, toggled_points,
    toggled_style, ActiveFormatting, ActiveFormattingView,
};
use crate::formatting::{
    formatting_view, Annotation, AnnotationView, AnnotationWithOffsetView, Formatting,
};
use crate::labels::label_text;
use vstd::prelude::*;
use vstd::string::{StrSliceExecFns, StringExecFns};

verus! {

/// The text that stands for a point annotation: `@name` for a mention, the
/// label's text for a label, the RFC 3339 form for a timestamp. Other
/// annotations have none.
pub open spec fn point_text(annotation: AnnotationView) -> Option<Seq<char>> {
    match annotation {
        AnnotationView::Mention(mention) => Some("@"@ + mention.name),
        AnnotationView::Label(label) => Some(label_text(label)),
        AnnotationView::Timestamp { timestamp } => Some(timestamp.text),
        _ => None,
    }
}

/// The state after `annotation`: a `Start*` annotation sets its style, an
/// `End*` annotation clears it, and a point annotation leaves the state as it
/// is.
pub open spec fn applied(state: ActiveFormattingView, annotation: AnnotationView)
    -> ActiveFormattingView {
    match annotation {
        AnnotationView::StartBold => ActiveFormattingView { bold: true, ..state },
        AnnotationView::EndBold => ActiveFormattingView { bold: false, ..state },
        AnnotationView::StartCode => ActiveFormattingView { code: true, ..state },
        AnnotationView::EndCode => ActiveFormattingView { code: false, ..state },
        AnnotationView::StartHighlight => ActiveFormattingView { highlight: true, ..state },
        AnnotationView::EndHighlight => ActiveFormattingView { highlight: false, ..state },
        AnnotationView::StartItalics => ActiveFormattingView { italics: true, ..state },
        AnnotationView::EndItalics => ActiveFormattingView { italics: false, ..state },
        AnnotationView::StartStrikethrough => ActiveFormattingView { strikethrough: true, ..state },
        AnnotationView::EndStrikethrough => ActiveFormattingView { strikethrough: false, ..state },
        AnnotationView::StartUnderline => ActiveFormattingView { underline: true, ..state },
        AnnotationView::EndUnderline => ActiveFormattingView { underline: false, ..state },
        AnnotationView::StartLink { url } => ActiveFormattingView { link: Some(url), ..state },
        AnnotationView::EndLink => ActiveFormattingView { link: None, ..state },
        _ => state,
    }
}

/// The Markdown that closes the link that is open in `before`, if any.
pub open spec fn link_end(before: ActiveFormattingView) -> Seq<char> {
    match before.link {
        Some(url) => "]("@ + url + ")"@,
        None => Seq::empty(),
    }
}

/// The Markdown delimiter for an annotation that changes the state `before`.
/// Underline is written as italics.
pub open spec fn delimiter(annotation: AnnotationView, before: ActiveFormattingView) -> Seq<char> {
    match annotation {
        AnnotationView::StartBold => "**"@,
        AnnotationView::EndBold => "**"@,
        AnnotationView::StartCode => "`"@,
        AnnotationView::EndCode => "`"@,
        AnnotationView::StartHighlight => "<mark>"@,
        AnnotationView::EndHighlight => "</mark>"@,
        AnnotationView::StartItalics => "*"@,
        AnnotationView::EndItalics => "*"@,
        AnnotationView::StartStrikethrough => "~~"@,
        AnnotationView::EndStrikethrough => "~~"@,
        AnnotationView::StartUnderline => "*"@,
        AnnotationView::EndUnderline => "*"@,
        AnnotationView::StartLink { .. } => link_end(before) + "["@,
        AnnotationView::EndLink => link_end(before),
        _ => Seq::empty(),
    }
}

/// The delimiters for the annotations of `list` from index `from` on.
pub open spec fn delimiters(list: Seq<AnnotationView>, from: int, before: ActiveFormattingView)
    -> Seq<char>
    decreases list.len() - from,
{
    if from < 0 || from >= list.len() {
        Seq::empty()
    } else {
        delimiter(list[from], before) + delimiters(list, from + 1, before)
    }
}

/// The Markdown that leads from the state `before` to the state `after`.
pub open spec fn transition(after: ActiveFormattingView, before: ActiveFormattingView) -> Seq<
    char,
> {
    delimiters(toggled_annotations(after, before), 0, before)
}

/// The end of the run of annotations that share the offset of the one at
/// `index`.
pub open spec fn group_end(formatting: Seq<AnnotationWithOffsetView>, index: int) -> int
    decreases formatting.len() - index,
{
    if 0 <= index && index + 1 < formatting.len() && formatting[index + 1].offset
        == formatting[index].offset {
        group_end(formatting, index + 1)
    } else {
        index + 1
    }
}

/// The state after the annotations from `from` up to `to`.
pub open spec fn state_after(
    state: ActiveFormattingView,
    formatting: Seq<AnnotationWithOffsetView>,
    from: int,
    to: int,
) -> ActiveFormattingView
    decreases to - from,
{
    if from >= to || from < 0 || from >= formatting.len() {
        state
    } else {
        state_after(applied(state, formatting[from].annotation), formatting, from + 1, to)
    }
}

/// The Markdown for one point annotation: its text in bold. Empty for other
/// annotations.
pub open spec fn point_markdown(annotation: AnnotationView) -> Seq<char> {
    match point_text(annotation) {
        Some(text) => "**"@ + text + "**"@,
        None => Seq::empty(),
    }
}

/// The number of characters of the annotated text that a point annotation
/// stands for: the length of its own text.
pub open spec fn point_width(annotation: AnnotationView) -> nat {
    match point_text(annotation) {
        Some(text) => text.len(),
        None => 0,
    }
}

/// The Markdown for the point annotations from `from` up to `to`.
pub open spec fn points_markdown(formatting: Seq<AnnotationWithOffsetView>, from: int, to: int)
    -> Seq<char>
    decreases to - from,
{
    if from >= to || from < 0 || from >= formatting.len() {
        Seq::empty()
    } else {
        point_markdown(formatting[from].annotation) + points_markdown(formatting, from + 1, to)
    }
}

/// The number of characters that the point annotations from `from` up to `to`
/// stand for.
pub open spec fn points_width(formatting: Seq<AnnotationWithOffsetView>, from: int, to: int) -> nat
    decreases to - from,
{
    if from >= to || from < 0 || from >= formatting.len() {
        0
    } else {
        point_width(formatting[from].annotation) + points_width(formatting, from + 1, to)
    }
}

/// The larger of two numbers.
pub open spec fn larger(a: int, b: int) -> int {
    if a >= b {
        a
    } else {
        b
    }
}

/// The smaller of two numbers.
pub open spec fn smaller(a: int, b: int) -> int {
    if a <= b {
        a
    } else {
        b
    }
}

/// The Markdown for `text` from the character at `cursor` on, with the
/// annotations from `index` on, when the styles of `state` are open.
///
/// Annotations that share an offset take effect together: the delimiters
/// between the state before and the state after them are written in the fixed
/// order of [`toggled_annotations`], followed by the point annotations of the
/// group, each of which replaces as many characters of the text as its own
/// text is long. An annotation placed before the cursor takes effect at the
/// cursor. Annotations at or beyond the end of the text are not looked at;
/// whatever is open at the end of the text is closed there.
pub open spec fn rendered_from(
    text: Seq<char>,
    formatting: Seq<AnnotationWithOffsetView>,
    index: int,
    cursor: int,
    state: ActiveFormattingView,
) -> Seq<char>
    decreases formatting.len() - index,
{
    if index < 0 || index >= formatting.len() || formatting[index].offset >= text.len() || cursor
        < 0 || cursor > text.len() || group_end(formatting, index) <= index || group_end(
        formatting,
        index,
    ) > formatting.len() {
        text.subrange(smaller(larger(cursor, 0), text.len() as int), text.len() as int)
            + transition(no_formatting(), state)
    } else {
        let position = larger(formatting[index].offset as int, cursor);
        let end = group_end(formatting, index);
        let next = state_after(state, formatting, index, end);
        let skip = smaller(points_width(formatting, index, end) as int, text.len() - position);
        text.subrange(cursor, position) + transition(next, state) + points_markdown(
            formatting,
            index,
            end,
        ) + rendered_from(text, formatting, end, position + skip, next)
    }
}

/// The Markdown for a text with its formatting.
pub open spec fn rendered_text(text: Seq<char>, formatting: Seq<AnnotationWithOffsetView>) -> Seq<
    char,
> {
    rendered_from(text, formatting, 0, 0, no_formatting())
}

/// Between a state and itself no annotation is toggled, so nothing is
/// written.
pub proof fn lemma_no_transition(state: ActiveFormattingView)
    ensures
        toggled_annotations(state, state) == Seq::<AnnotationView>::empty(),
        transition(state, state) == Seq::<char>::empty(),
{
    assert(toggled_annotations(state, state) =~= Seq::<AnnotationView>::empty());
}

/// A text without annotations is written as it is.
pub proof fn lemma_plain_text_is_written_unchanged(text: Seq<char>)
    ensures
        rendered_text(text, Seq::empty()) == text,
{
    lemma_no_transition(no_formatting());
    assert(text.subrange(0, text.len() as int) =~= text);
    assert(rendered_text(text, Seq::empty()) =~= text);
}

/// The state after the annotations of `list` from index `from` on.
pub open spec fn applied_all(state: ActiveFormattingView, list: Seq<AnnotationView>, from: int)
    -> ActiveFormattingView
    decreases list.len() - from,
{
    if from < 0 || from >= list.len() {
        state
    } else {
        applied_all(applied(state, list[from]), list, from + 1)
    }
}

/// Applying two lists one after the other is applying their concatenation.
pub proof fn lemma_applied_in_turn(
    state: ActiveFormattingView,
    first: Seq<AnnotationView>,
    second: Seq<AnnotationView>,
    from: int,
)
    requires
        0 <= from <= first.len(),
    ensures
        applied_all(state, first + second, from) == applied_all(
            applied_all(state, first, from),
            second,
            0,
        ),
    decreases first.len() - from,
{
    let both = first + second;
    if from < first.len() {
        assert(both[from] == first[from]);
        lemma_applied_in_turn(applied(state, first[from]), first, second, from + 1);
    } else {
        lemma_shifted(state, first, second, 0);
    }
}

/// Applying the second of two concatenated lists from its start is applying
/// the concatenation from where the first list ends.
proof fn lemma_shifted(
    state: ActiveFormattingView,
    first: Seq<AnnotationView>,
    second: Seq<AnnotationView>,
    from: int,
)
    requires
        0 <= from <= second.len(),
    ensures
        applied_all(state, first + second, first.len() + from) == applied_all(state, second, from),
    decreases second.len() - from,
{
    let both = first + second;
    if from < second.len() {
        assert(both[first.len() + from] == second[from]);
        lemma_shifted(applied(state, second[from]), first, second, from + 1);
    }
}

/// A list added behind another leads on from where the first one led.
proof fn lemma_led_on(
    start: ActiveFormattingView,
    first: Seq<AnnotationView>,
    middle: ActiveFormattingView,
    second: Seq<AnnotationView>,
    end: ActiveFormattingView,
)
    requires
        applied_all(start, first, 0) == middle,
        applied_all(middle, second, 0) == end,
    ensures
        applied_all(start, first + second, 0) == end,
{
    lemma_applied_in_turn(start, first, second, 0);
}

/// The annotation that is toggled for one style sets the style as the
/// target has it.
proof fn lemma_style_toggled(
    before: ActiveFormattingView,
    target: bool,
    reference: bool,
    start: AnnotationView,
    end: AnnotationView,
    after: ActiveFormattingView,
)
    requires
        target == reference ==> after == before,
        target != reference && target ==> after == applied(before, start),
        target != reference && !target ==> after == applied(before, end),
    ensures
        applied_all(before, toggled_style(target, reference, start, end), 0) == after,
{
    lemma_one_step(before, toggled_style(target, reference, start, end), after);
}

/// The annotations that are toggled between a reference and a target turn
/// the reference into the target, where neither holds a point value (label,
/// mention, notebook link, timestamp), for which there is no annotation that
/// takes it away.
pub proof fn lemma_toggled_annotations_reach_the_target(
    target: ActiveFormattingView,
    reference: ActiveFormattingView,
)
    requires
        target.label is None && target.mention is None && target.notebook_link is None
            && target.timestamp is None,
        reference.label is None && reference.mention is None && reference.notebook_link is None
            && reference.timestamp is None,
    ensures
        applied_all(reference, toggled_annotations(target, reference), 0) == target,
{
    let bold = toggled_style(
        target.bold,
        reference.bold,
        AnnotationView::StartBold,
        AnnotationView::EndBold,
    );
    let code = toggled_style(
        target.code,
        reference.code,
        AnnotationView::StartCode,
        AnnotationView::EndCode,
    );
    let highlight = toggled_style(
        target.highlight,
        reference.highlight,
        AnnotationView::StartHighlight,
        AnnotationView::EndHighlight,
    );
    let italics = toggled_style(
        target.italics,
        reference.italics,
        AnnotationView::StartItalics,
        AnnotationView::EndItalics,
    );
    let link = toggled_link(target.link, reference.link);
    let strikethrough = toggled_style(
        target.strikethrough,
        reference.strikethrough,
        AnnotationView::StartStrikethrough,
        AnnotationView::EndStrikethrough,
    );
    let underline = toggled_style(
        target.underline,
        reference.underline,
        AnnotationView::StartUnderline,
        AnnotationView::EndUnderline,
    );
    let points = toggled_points(target, reference);
    let s0 = reference;
    let s1 = ActiveFormattingView { bold: target.bold, ..s0 };
    let s2 = ActiveFormattingView { code: target.code, ..s1 };
    let s3 = ActiveFormattingView { highlight: target.highlight, ..s2 };
    let s4 = ActiveFormattingView { italics: target.italics, ..s3 };
    let s5 = ActiveFormattingView { link: target.link, ..s4 };
    let s6 = ActiveFormattingView { strikethrough: target.strikethrough, ..s5 };
    let s7 = ActiveFormattingView { underline: target.underline, ..s6 };
    lemma_style_toggled(
        s0,
        target.bold,
        reference.bold,
        AnnotationView::StartBold,
        AnnotationView::EndBold,
        s1,
    );
    lemma_style_toggled(
        s1,
        target.code,
        reference.code,
        AnnotationView::StartCode,
        AnnotationView::EndCode,
        s2,
    );
    lemma_style_toggled(
        s2,
        target.highlight,
        reference.highlight,
        AnnotationView::StartHighlight,
        AnnotationView::EndHighlight,
        s3,
    );
    lemma_style_toggled(
        s3,
        target.italics,
        reference.italics,
        AnnotationView::StartItalics,
        AnnotationView::EndItalics,
        s4,
    );
    lemma_one_step(s4, link, s5);
    lemma_style_toggled(
        s5,
        target.strikethrough,
        reference.strikethrough,
        AnnotationView::StartStrikethrough,
        AnnotationView::EndStrikethrough,
        s6,
    );
    lemma_style_toggled(
        s6,
        target.underline,
        reference.underline,
        AnnotationView::StartUnderline,
        AnnotationView::EndUnderline,
        s7,
    );
    lemma_one_step(s7, points, s7);
    lemma_led_on(s0, bold, s1, code, s2);
    lemma_led_on(s0, bold + code, s2, highlight, s3);
    lemma_led_on(s0, bold + code + highlight, s3, italics, s4);
    lemma_led_on(s0, bold + code + highlight + italics, s4, link, s5);
    lemma_led_on(s0, bold + code + highlight + italics + link, s5, strikethrough, s6);
    lemma_led_on(
        s0,
        bold + code + highlight + italics + link + strikethrough,
        s6,
        underline,
        s7,
    );
    lemma_led_on(
        s0,
        bold + code + highlight + italics + link + strikethrough + underline,
        s7,
        points,
        s7,
    );
}

/// A list of at most one annotation that leads from one state to another.
proof fn lemma_one_step(
    before: ActiveFormattingView,
    list: Seq<AnnotationView>,
    after: ActiveFormattingView,
)
    requires
        list.len() == 0 && after == before || list.len() == 1 && after == applied(before, list[0]),
    ensures
        applied_all(before, list, 0) == after,
{
    if list.len() == 1 {
        assert(applied_all(before, list, 0) == applied_all(applied(before, list[0]), list, 1));
    }
}

/// Applies one annotation to the state.
fn apply(state: &mut ActiveFormatting, annotation: &Annotation)
    ensures
        final(state)@ == applied(old(state)@, annotation@),
{
    match annotation {
        Annotation::StartBold => {
            state.bold = true;
        },
        Annotation::EndBold => {
            state.bold = false;
        },
        Annotation::StartCode => {
            state.code = true;
        },
        Annotation::EndCode => {
            state.code = false;
        },
        Annotation::StartHighlight => {
            state.highlight = true;
        },
        Annotation::EndHighlight => {
            state.highlight = false;
        },
        Annotation::StartItalics => {
            state.italics = true;
        },
        Annotation::EndItalics => {
            state.italics = false;
        },
        Annotation::StartStrikethrough => {
            state.strikethrough = true;
        },
        Annotation::EndStrikethrough => {
            state.strikethrough = false;
        },
        Annotation::StartUnderline => {
            state.underline = true;
        },
        Annotation::EndUnderline => {
            state.underline = false;
        },
        Annotation::StartLink { url } => {
            state.link = Some(url.clone());
        },
        Annotation::EndLink => {
            state.link = None;
        },
        _ => {},
    }
}

/// Appends the Markdown that closes the link open in `before`, if any.
fn push_link_end(output: &mut String, before: &ActiveFormatting)
    ensures
        final(output)@ == old(output)@ + link_end(before@),
{
    match &before.link {
        Some(url) => {
            output.append("](");
            output.append(url.as_str());
            output.append(")");
            assert(output@ =~= old(output)@ + link_end(before@));
        },
        None => {
            assert(output@ =~= old(output)@ + link_end(before@));
        },
    }
}

/// Appends the delimiter for one annotation.
fn push_delimiter(output: &mut String, annotation: &Annotation, before: &ActiveFormatting)
    ensures
        final(output)@ == old(output)@ + delimiter(annotation@, before@),
{
    match annotation {
        Annotation::StartBold => output.append("**"),
        Annotation::EndBold => output.append("**"),
        Annotation::StartCode => output.append("`"),
        Annotation::EndCode => output.append("`"),
        Annotation::StartHighlight => output.append("<mark>"),
        Annotation::EndHighlight => output.append("</mark>"),
        Annotation::StartItalics => output.append("*"),
        Annotation::EndItalics => output.append("*"),
        Annotation::StartStrikethrough => output.append("~~"),
        Annotation::EndStrikethrough => output.append("~~"),
        Annotation::StartUnderline => output.append("*"),
        Annotation::EndUnderline => output.append("*"),
        Annotation::StartLink { .. } => {
            push_link_end(output, before);
            output.append("[");
            assert(output@ =~= old(output)@ + delimiter(annotation@, before@));
        },
        Annotation::EndLink => {
            push_link_end(output, before);
        },
        _ => {
            assert(output@ =~= old(output)@ + delimiter(annotation@, before@));
        },
    }
}

/// Appends the Markdown that leads from the state `before` to the state
/// `after`.
fn push_transition(output: &mut String, after: &ActiveFormatting, before: &ActiveFormatting)
    ensures
        final(output)@ == old(output)@ + transition(after@, before@),
{
    let annotations = after.annotations_for_toggled_formatting(before);
    let ghost list = toggled_annotations(after@, before@);
    let mut index: usize = 0;
    while index < annotations.len()
        invariant
            index <= annotations@.len(),
            list == annotation_views(annotations@),
            output@ + delimiters(list, index as int, before@) == old(output)@ + delimiters(
                list,
                0,
                before@,
            ),
        decreases annotations@.len() - index,
    {
        let ghost earlier = output@;
        push_delimiter(output, &annotations[index], before);
        proof {
            assert(list[index as int] == annotations@[index as int]@);
            assert(earlier + delimiters(list, index as int, before@) =~= output@ + delimiters(
                list,
                index + 1,
                before@,
            ));
        }
        index += 1;
    }
    assert(output@ + delimiters(list, index as int, before@) =~= output@);
}

/// Appends the Markdown for one point annotation. Returns the number of
/// characters that its text holds.
fn push_point(output: &mut String, annotation: &Annotation) -> (width: usize)
    ensures
        final(output)@ == old(output)@ + point_markdown(annotation@),
        width == smaller(point_width(annotation@) as int, usize::MAX as int),
{
    match annotation {
        Annotation::Mention(mention) => {
            output.append("**");
            output.append("@");
            output.append(mention.name.as_str());
            output.append("**");
            assert(output@ =~= old(output)@ + point_markdown(annotation@));
            let name = mention.name.as_str().unicode_len();
            let at = "@".unicode_len();
            if name <= usize::MAX - at {
                at + name
            } else {
                usize::MAX
            }
        },
        Annotation::Label(label) => {
            output.append("**");
            let ghost opened = output@;
            output.append(label.key.as_str());
            let mut width: usize = label.key.as_str().unicode_len();
            let value = label.value.as_str().unicode_len();
            if value > 0 {
                output.append(":");
                output.append(label.value.as_str());
                let colon = ":".unicode_len();
                width = if colon <= usize::MAX - width && value <= usize::MAX - width - colon {
                    width + colon + value
                } else {
                    usize::MAX
                };
            }
            assert(output@ =~= opened + label_text(label@));
            output.append("**");
            assert(output@ =~= old(output)@ + point_markdown(annotation@));
            width
        },
        Annotation::Timestamp { timestamp } => {
            let text = timestamp.to_rfc3339();
            output.append("**");
            output.append(text.as_str());
            output.append("**");
            assert(output@ =~= old(output)@ + point_markdown(annotation@));
            text.as_str().unicode_len()
        },
        _ => {
            assert(output@ =~= old(output)@ + point_markdown(annotation@));
            0
        },
    }
}

/// Finds the end of the group of annotations that starts at `index`.
fn find_group_end(formatting: &Formatting, index: usize) -> (end: usize)
    requires
        index < formatting@.len(),
    ensures
        end == group_end(formatting_view(formatting@), index as int),
        index < end <= formatting@.len(),
{
    let ghost list = formatting_view(formatting@);
    let count: usize = formatting.len();
    let mut end: usize = index + 1;
    while end < count && formatting[end].offset == formatting[index].offset
        invariant
            index < end <= formatting@.len(),
            count == formatting@.len(),
            list == formatting_view(formatting@),
            list[end - 1].offset == list[index as int].offset,
            group_end(list, end - 1) == group_end(list, index as int),
        decreases formatting@.len() - end,
    {
        end += 1;
    }
    end
}

/// Computes the state after the annotations from `from` up to `to`.
fn fold_state(state: &ActiveFormatting, formatting: &Formatting, from: usize, to: usize) -> (next:
    ActiveFormatting)
    requires
        from <= to <= formatting@.len(),
    ensures
        next@ == state_after(state@, formatting_view(formatting@), from as int, to as int),
{
    let ghost list = formatting_view(formatting@);
    let mut next = state.clone();
    let mut index: usize = from;
    while index < to
        invariant
            from <= index <= to <= formatting@.len(),
            list == formatting_view(formatting@),
            state_after(next@, list, index as int, to as int) == state_after(
                state@,
                list,
                from as int,
                to as int,
            ),
        decreases to - index,
    {
        apply(&mut next, &formatting[index].annotation);
        index += 1;
    }
    next
}

/// Appends the Markdown for the point annotations from `from` up to `to`.
/// Returns the number of characters that they stand for, or `limit` where
/// that is less.
fn push_points(
    output: &mut String,
    formatting: &Formatting,
    from: usize,
    to: usize,
    limit: usize,
) -> (skip: usize)
    requires
        from <= to <= formatting@.len(),
    ensures
        final(output)@ == old(output)@ + points_markdown(
            formatting_view(formatting@),
            from as int,
            to as int,
        ),
        skip == smaller(
            points_width(formatting_view(formatting@), from as int, to as int) as int,
            limit as int,
        ),
{
    let ghost list = formatting_view(formatting@);
    let mut skip: usize = 0;
    let mut index: usize = from;
    let ghost mut done: nat = 0;
    assert(output@ + points_markdown(list, from as int, to as int) =~= old(output)@
        + points_markdown(list, from as int, to as int));
    while index < to
        invariant
            from <= index <= to <= formatting@.len(),
            list == formatting_view(formatting@),
            output@ + points_markdown(list, index as int, to as int) == old(output)@
                + points_markdown(list, from as int, to as int),
            done + points_width(list, index as int, to as int) == points_width(
                list,
                from as int,
                to as int,
            ),
            skip == smaller(done as int, limit as int),
        decreases to - index,
    {
        let ghost earlier = output@;
        let width = push_point(output, &formatting[index].annotation);
        proof {
            assert(list[index as int].annotation == formatting@[index as int].annotation@);
            assert(earlier + points_markdown(list, index as int, to as int) =~= output@
                + points_markdown(list, index + 1, to as int));
            done = done + point_width(list[index as int].annotation);
        }
        skip = if width >= limit - skip {
            limit
        } else {
            skip + width
        };
        index += 1;
    }
    assert(output@ + points_markdown(list, index as int, to as int) =~= output@);
    skip
}

/// Appends the Markdown for `text` with its formatting to `output`.
pub fn push_formatted_text(output: &mut String, text: &str, formatting: &Formatting)
    ensures
        final(output)@ == old(output)@ + rendered_text(text@, formatting_view(formatting@)),
{
    let ghost list = formatting_view(formatting@);
    let length: usize = text.unicode_len();
    let mut state = ActiveFormatting::default();
    let mut index: usize = 0;
    let mut cursor: usize = 0;
    while index < formatting.len() && (formatting[index].offset as usize) < length
        invariant
            index <= formatting@.len(),
            cursor <= length,
            length == text@.len(),
            list == formatting_view(formatting@),
            output@ + rendered_from(text@, list, index as int, cursor as int, state@) == old(
                output,
            )@ + rendered_text(text@, list),
        decreases formatting@.len() - index,
    {
        let ghost earlier = output@;
        let ghost before = state@;
        let offset = formatting[index].offset as usize;
        let position: usize = if offset >= cursor {
            offset
        } else {
            cursor
        };
        let end = find_group_end(formatting, index);
        let next = fold_state(&state, formatting, index, end);
        output.append(text.substring_char(cursor, position));
        push_transition(output, &next, &state);
        let skip = push_points(output, formatting, index, end, length - position);
        proof {
            assert(list[index as int].offset == formatting@[index as int].offset);
            assert(earlier + rendered_from(text@, list, index as int, cursor as int, before)
                =~= output@ + rendered_from(
                text@,
                list,
                end as int,
                position + skip,
                next@,
            ));
        }
        state = next;
        index = end;
        cursor = position + skip;
    }
    let ghost earlier = output@;
    let ghost before = state@;
    output.append(text.substring_char(cursor, length));
    let closed = ActiveFormatting::default();
    push_transition(output, &closed, &state);
    proof {
        if index < formatting@.len() {
            assert(list[index as int].offset == formatting@[index as int].offset);
        }
        assert(earlier + rendered_from(text@, list, index as int, cursor as int, before)
            =~= output@);
    }
}

} // verus!
