//! Rich-text formatting: annotations attached to character offsets, and the
//! search utilities over offset-sorted annotation lists.

pub use crate::active_formatting::ActiveFormatting;
use crate::labels::{Label, LabelView};
use crate::timestamps::{Timestamp, TimestampView};
use vstd::prelude::*;

verus! {

/// Annotation for the mention of a user. A mention has no end offset: it
/// occurs at its start offset and runs over the name of the mentioned user.
#[derive(Debug)]
pub struct Mention {
    pub name: String,
    pub user_id: String,
}

/// The mathematical value of a [`Mention`].
pub struct MentionView {
    pub name: Seq<char>,
    pub user_id: Seq<char>,
}

impl View for Mention {
    type V = MentionView;

    open spec fn view(&self) -> MentionView {
        MentionView { name: self.name@, user_id: self.user_id@ }
    }
}

impl Clone for Mention {
    fn clone(&self) -> (copy: Self)
        ensures
            copy@ == self@,
    {
        Mention { name: self.name.clone(), user_id: self.user_id.clone() }
    }
}

impl Mention {
    /// Creates a mention of the user with the given name and id.
    pub fn new(name: &str, user_id: &str) -> (mention: Self)
        ensures
            mention@.name == name@,
            mention@.user_id == user_id@,
    {
        Mention { name: name.to_owned(), user_id: user_id.to_owned() }
    }

    /// Starts a mention of which nothing has been set yet.
    pub fn builder() -> (mention: Self)
        ensures
            mention@.name.len() == 0,
            mention@.user_id.len() == 0,
    {
        Mention { name: String::new(), user_id: String::new() }
    }

    /// This mention with the name set as given.
    pub fn name(self, name: &str) -> (mention: Self)
        ensures
            mention@ == (MentionView { name: name@, ..self@ }),
    {
        Mention { name: name.to_owned(), user_id: self.user_id }
    }

    /// This mention with the user's id set as given.
    pub fn user_id(self, user_id: &str) -> (mention: Self)
        ensures
            mention@ == (MentionView { user_id: user_id@, ..self@ }),
    {
        Mention { name: self.name, user_id: user_id.to_owned() }
    }

    /// Ends the chain of setters that `builder` started.
    pub fn build(self) -> (mention: Self)
        ensures
            mention == self,
    {
        self
    }

    /// Whether two mentions name the same user in the same way.
    pub fn same(&self, other: &Mention) -> (equal: bool)
        ensures
            equal == (self@ == other@),
    {
        self.name == other.name && self.user_id == other.user_id
    }
}

/// A rich-text annotation.
#[derive(Debug)]
pub enum Annotation {
    StartBold,
    EndBold,
    StartCode,
    EndCode,
    StartHighlight,
    EndHighlight,
    StartItalics,
    EndItalics,
    StartStrikethrough,
    EndStrikethrough,
    StartUnderline,
    EndUnderline,
    StartLink { url: String },
    EndLink,
    Label(Label),
    Mention(Mention),
    NotebookLink { url: String },
    Timestamp { timestamp: Timestamp },
}

/// The mathematical value of an [`Annotation`].
pub enum AnnotationView {
    StartBold,
    EndBold,
    StartCode,
    EndCode,
    StartHighlight,
    EndHighlight,
    StartItalics,
    EndItalics,
    StartStrikethrough,
    EndStrikethrough,
    StartUnderline,
    EndUnderline,
    StartLink { url: Seq<char> },
    EndLink,
    Label(LabelView),
    Mention(MentionView),
    NotebookLink { url: Seq<char> },
    Timestamp { timestamp: TimestampView },
}

impl View for Annotation {
    type V = AnnotationView;

    open spec fn view(&self) -> AnnotationView {
        match *self {
            Annotation::StartBold => AnnotationView::StartBold,
            Annotation::EndBold => AnnotationView::EndBold,
            Annotation::StartCode => AnnotationView::StartCode,
            Annotation::EndCode => AnnotationView::EndCode,
            Annotation::StartHighlight => AnnotationView::StartHighlight,
            Annotation::EndHighlight => AnnotationView::EndHighlight,
            Annotation::StartItalics => AnnotationView::StartItalics,
            Annotation::EndItalics => AnnotationView::EndItalics,
            Annotation::StartStrikethrough => AnnotationView::StartStrikethrough,
            Annotation::EndStrikethrough => AnnotationView::EndStrikethrough,
            Annotation::StartUnderline => AnnotationView::StartUnderline,
            Annotation::EndUnderline => AnnotationView::EndUnderline,
            Annotation::StartLink { url } => AnnotationView::StartLink { url: url@ },
            Annotation::EndLink => AnnotationView::EndLink,
            Annotation::Label(label) => AnnotationView::Label(label@),
            Annotation::Mention(mention) => AnnotationView::Mention(mention@),
            Annotation::NotebookLink { url } => AnnotationView::NotebookLink { url: url@ },
            Annotation::Timestamp { timestamp } => AnnotationView::Timestamp {
                timestamp: timestamp@,
            },
        }
    }
}

impl Clone for Annotation {
    fn clone(&self) -> (copy: Self)
        ensures
            copy@ == self@,
    {
        match self {
            Annotation::StartBold => Annotation::StartBold,
            Annotation::EndBold => Annotation::EndBold,
            Annotation::StartCode => Annotation::StartCode,
            Annotation::EndCode => Annotation::EndCode,
            Annotation::StartHighlight => Annotation::StartHighlight,
            Annotation::EndHighlight => Annotation::EndHighlight,
            Annotation::StartItalics => Annotation::StartItalics,
            Annotation::EndItalics => Annotation::EndItalics,
            Annotation::StartStrikethrough => Annotation::StartStrikethrough,
            Annotation::EndStrikethrough => Annotation::EndStrikethrough,
            Annotation::StartUnderline => Annotation::StartUnderline,
            Annotation::EndUnderline => Annotation::EndUnderline,
            Annotation::StartLink { url } => Annotation::StartLink { url: url.clone() },
            Annotation::EndLink => Annotation::EndLink,
            Annotation::Label(label) => Annotation::Label(label.clone()),
            Annotation::Mention(mention) => Annotation::Mention(mention.clone()),
            Annotation::NotebookLink { url } => Annotation::NotebookLink { url: url.clone() },
            Annotation::Timestamp { timestamp } => Annotation::Timestamp {
                timestamp: timestamp.clone(),
            },
        }
    }
}

/// The annotation that undoes `annotation` when formatting is toggled, if it
/// has one: the other half of its pair, except that nothing reopens a link.
pub open spec fn opposite_of(annotation: AnnotationView) -> Option<AnnotationView> {
    match annotation {
        AnnotationView::StartBold => Some(AnnotationView::EndBold),
        AnnotationView::EndBold => Some(AnnotationView::StartBold),
        AnnotationView::StartCode => Some(AnnotationView::EndCode),
        AnnotationView::EndCode => Some(AnnotationView::StartCode),
        AnnotationView::StartHighlight => Some(AnnotationView::EndHighlight),
        AnnotationView::EndHighlight => Some(AnnotationView::StartHighlight),
        AnnotationView::StartItalics => Some(AnnotationView::EndItalics),
        AnnotationView::EndItalics => Some(AnnotationView::StartItalics),
        AnnotationView::StartStrikethrough => Some(AnnotationView::EndStrikethrough),
        AnnotationView::EndStrikethrough => Some(AnnotationView::StartStrikethrough),
        AnnotationView::StartUnderline => Some(AnnotationView::EndUnderline),
        AnnotationView::EndUnderline => Some(AnnotationView::StartUnderline),
        AnnotationView::StartLink { .. } => Some(AnnotationView::EndLink),
        _ => None,
    }
}

impl Annotation {
    /// Returns whether the annotation is one of a `Start*`/`End*` pair. The
    /// point annotations (label, mention, notebook link, timestamp) are not.
    pub fn is_paired_annotation(&self) -> (paired: bool)
        ensures
            paired == !(self@ is Label || self@ is Mention || self@ is Timestamp || self@
                is NotebookLink),
    {
        match self {
            Annotation::Label(_) => false,
            Annotation::Mention(_) => false,
            Annotation::Timestamp { .. } => false,
            Annotation::NotebookLink { .. } => false,
            _ => true,
        }
    }

    /// Returns the opposite of an annotation for the purpose of toggling the
    /// formatting, or `None` if the annotation is not part of a pair or cannot
    /// be toggled without more information.
    pub fn toggle_opposite(&self) -> (opposite: Option<Annotation>)
        ensures
            match opposite {
                Some(annotation) => opposite_of(self@) == Some(annotation@),
                None => opposite_of(self@) is None,
            },
    {
        match self {
            Annotation::StartBold => Some(Annotation::EndBold),
            Annotation::EndBold => Some(Annotation::StartBold),
            Annotation::StartCode => Some(Annotation::EndCode),
            Annotation::EndCode => Some(Annotation::StartCode),
            Annotation::StartHighlight => Some(Annotation::EndHighlight),
            Annotation::EndHighlight => Some(Annotation::StartHighlight),
            Annotation::StartItalics => Some(Annotation::EndItalics),
            Annotation::EndItalics => Some(Annotation::StartItalics),
            Annotation::StartStrikethrough => Some(Annotation::EndStrikethrough),
            Annotation::EndStrikethrough => Some(Annotation::StartStrikethrough),
            Annotation::StartUnderline => Some(Annotation::EndUnderline),
            Annotation::EndUnderline => Some(Annotation::StartUnderline),
            Annotation::StartLink { .. } => Some(Annotation::EndLink),
            Annotation::EndLink => None,
            Annotation::Label(_) => None,
            Annotation::Mention(_) => None,
            Annotation::NotebookLink { .. } => None,
            Annotation::Timestamp { .. } => None,
        }
    }
}

/// An annotation at a specific offset in the text. Offsets count Unicode
/// scalar values, not bytes.
#[derive(Debug)]
pub struct AnnotationWithOffset {
    pub offset: u32,
    pub annotation: Annotation,
}

/// The mathematical value of an [`AnnotationWithOffset`].
pub struct AnnotationWithOffsetView {
    pub offset: u32,
    pub annotation: AnnotationView,
}

impl View for AnnotationWithOffset {
    type V = AnnotationWithOffsetView;

    open spec fn view(&self) -> AnnotationWithOffsetView {
        AnnotationWithOffsetView { offset: self.offset, annotation: self.annotation@ }
    }
}

impl Clone for AnnotationWithOffset {
    fn clone(&self) -> (copy: Self)
        ensures
            copy@ == self@,
    {
        AnnotationWithOffset { offset: self.offset, annotation: self.annotation.clone() }
    }
}

/// Text with its formatting.
#[derive(Debug)]
pub struct RichText {
    pub text: String,
    pub formatting: Formatting,
}

impl RichText {
    /// Creates a new `RichText` instance with text and formatting.
    pub fn new(text: &str, formatting: Formatting) -> (rich: Self)
        ensures
            rich.text@ == text@,
            rich.formatting == formatting,
    {
        RichText { text: text.to_owned(), formatting }
    }

    /// Creates a new `RichText` instance with plain text only.
    pub fn new_plain(text: &str) -> (rich: Self)
        ensures
            rich.text@ == text@,
            rich.formatting@.len() == 0,
    {
        RichText { text: text.to_owned(), formatting: Vec::new() }
    }
}

/// The offset that results from moving `offset` by `delta`, wrapping around
/// within the range of `u32`.
pub open spec fn shifted_offset(offset: u32, delta: i64) -> int {
    (offset + delta) % 0x1_0000_0000
}

impl AnnotationWithOffset {
    pub fn new(offset: u32, annotation: Annotation) -> (result: Self)
        ensures
            result.offset == offset,
            result.annotation == annotation,
    {
        AnnotationWithOffset { offset, annotation }
    }

    /// Translates the offset of the annotation with the given delta.
    pub fn translate(&self, delta: i64) -> (moved: Self)
        ensures
            moved@.annotation == self@.annotation,
            moved.offset == shifted_offset(self.offset, delta),
            0 <= self.offset + delta <= u32::MAX ==> moved.offset == self.offset + delta,
    {
        let sum: i128 = self.offset as i128 + delta as i128;
        let lifted: i128 = sum + 0x1_0000_0000_0000_0000;
        let wrapped: i128 = lifted % 0x1_0000_0000;
        proof {
            vstd::arithmetic::div_mod::lemma_mod_multiples_vanish(
                0x1_0000_0000,
                sum as int,
                0x1_0000_0000,
            );
            if 0 <= sum <= u32::MAX {
                vstd::arithmetic::div_mod::lemma_small_mod(sum as nat, 0x1_0000_0000);
            }
        }
        AnnotationWithOffset { offset: wrapped as u32, annotation: self.annotation.clone() }
    }
}

/// Formatting to be applied to plain text: annotations sorted by offset.
pub type Formatting = Vec<AnnotationWithOffset>;

/// The mathematical values of a list of annotations with their offsets.
pub open spec fn formatting_view(list: Seq<AnnotationWithOffset>) -> Seq<AnnotationWithOffsetView> {
    list.map_values(|a: AnnotationWithOffset| a@)
}

/// A list of no annotations.
pub fn empty_formatting() -> (list: Formatting)
    ensures
        list@.len() == 0,
        formatting_view(list@) == Seq::<AnnotationWithOffsetView>::empty(),
{
    let list: Vec<AnnotationWithOffset> = Vec::new();
    assert(formatting_view(list@) =~= Seq::<AnnotationWithOffsetView>::empty());
    list
}

/// A copy of a list of annotations.
pub fn copy_formatting(list: &Formatting) -> (copy: Formatting)
    ensures
        formatting_view(copy@) == formatting_view(list@),
{
    let mut copy: Vec<AnnotationWithOffset> = Vec::new();
    let mut index: usize = 0;
    while index < list.len()
        invariant
            index <= list@.len(),
            copy@.len() == index,
            forall|i: int| 0 <= i < index ==> (#[trigger] copy@[i])@ == list@[i]@,
        decreases list@.len() - index,
    {
        copy.push(list[index].clone());
        index += 1;
    }
    assert(formatting_view(copy@) =~= formatting_view(list@));
    copy
}

/// The offsets of a list of annotations, in list order.
pub open spec fn offsets(list: Seq<AnnotationWithOffset>) -> Seq<u32> {
    list.map_values(|a: AnnotationWithOffset| a.offset)
}

/// Whether the offsets never decrease along the sequence.
pub open spec fn is_sorted(offsets: Seq<u32>) -> bool {
    forall|i: int, j: int| 0 <= i <= j < offsets.len() ==> offsets[i] <= offsets[j]
}

/// Linear scan: the first index whose offset is at least `offset`, or the
/// length when there is none.
pub open spec fn scan_at_or_after(offsets: Seq<u32>, offset: u32) -> nat
    decreases offsets.len(),
{
    if offsets.len() == 0 || offsets[0] >= offset {
        0
    } else {
        1 + scan_at_or_after(offsets.drop_first(), offset)
    }
}

/// Linear scan: the first index whose offset is greater than `offset`, or the
/// length when there is none.
pub open spec fn scan_beyond(offsets: Seq<u32>, offset: u32) -> nat
    decreases offsets.len(),
{
    if offsets.len() == 0 || offsets[0] > offset {
        0
    } else {
        1 + scan_beyond(offsets.drop_first(), offset)
    }
}

/// The linear scan stops at the first offset that is at least `offset`.
pub proof fn lemma_scan_at_or_after(offsets: Seq<u32>, offset: u32)
    ensures
        scan_at_or_after(offsets, offset) <= offsets.len(),
        forall|i: int| 0 <= i < scan_at_or_after(offsets, offset) ==> offsets[i] < offset,
        scan_at_or_after(offsets, offset) < offsets.len() ==> offsets[scan_at_or_after(
            offsets,
            offset,
        ) as int] >= offset,
    decreases offsets.len(),
{
    if offsets.len() == 0 || offsets[0] >= offset {
    } else {
        let rest = offsets.drop_first();
        lemma_scan_at_or_after(rest, offset);
        let r = scan_at_or_after(rest, offset);
        assert forall|i: int| 0 <= i < r + 1 implies offsets[i] < offset by {
            if i > 0 {
                assert(rest[i - 1] == offsets[i]);
            }
        }
        if r < rest.len() {
            assert(rest[r as int] == offsets[r as int + 1]);
        }
    }
}

/// The linear scan stops at the first offset that is greater than `offset`.
pub proof fn lemma_scan_beyond(offsets: Seq<u32>, offset: u32)
    ensures
        scan_beyond(offsets, offset) <= offsets.len(),
        forall|i: int| 0 <= i < scan_beyond(offsets, offset) ==> offsets[i] <= offset,
        scan_beyond(offsets, offset) < offsets.len() ==> offsets[scan_beyond(
            offsets,
            offset,
        ) as int] > offset,
    decreases offsets.len(),
{
    if offsets.len() == 0 || offsets[0] > offset {
    } else {
        let rest = offsets.drop_first();
        lemma_scan_beyond(rest, offset);
        let r = scan_beyond(rest, offset);
        assert forall|i: int| 0 <= i < r + 1 implies offsets[i] <= offset by {
            if i > 0 {
                assert(rest[i - 1] == offsets[i]);
            }
        }
        if r < rest.len() {
            assert(rest[r as int] == offsets[r as int + 1]);
        }
    }
}

/// An index that splits the offsets into those below `offset` and a first
/// one at or above it is the index the linear scan finds.
pub proof fn lemma_scan_at_or_after_unique(offsets: Seq<u32>, offset: u32, index: int)
    requires
        0 <= index <= offsets.len(),
        forall|i: int| 0 <= i < index ==> offsets[i] < offset,
        index < offsets.len() ==> offsets[index] >= offset,
    ensures
        index == scan_at_or_after(offsets, offset),
{
    lemma_scan_at_or_after(offsets, offset);
    let r = scan_at_or_after(offsets, offset) as int;
    if index < r {
        assert(offsets[index] < offset);
    } else if r < index {
        assert(offsets[r] < offset);
    }
}

/// An index that splits the offsets into those at or below `offset` and a
/// first one above it is the index the linear scan finds.
pub proof fn lemma_scan_beyond_unique(offsets: Seq<u32>, offset: u32, index: int)
    requires
        0 <= index <= offsets.len(),
        forall|i: int| 0 <= i < index ==> offsets[i] <= offset,
        index < offsets.len() ==> offsets[index] > offset,
    ensures
        index == scan_beyond(offsets, offset),
{
    lemma_scan_beyond(offsets, offset);
    let r = scan_beyond(offsets, offset) as int;
    if index < r {
        assert(offsets[index] <= offset);
    } else if r < index {
        assert(offsets[r] <= offset);
    }
}

/// Finds the insertion index for an annotation at the given offset: the
/// index of the first annotation at that offset if there is one, else the
/// index at which such an annotation keeps the list sorted.
pub fn annotation_insertion_index(range: &[AnnotationWithOffset], offset: u32) -> (index: usize)
    ensures
        index <= range@.len(),
        is_sorted(offsets(range@)) ==> index == scan_at_or_after(offsets(range@), offset),
{
    let ghost offs = offsets(range@);
    let mut low: usize = 0;
    let mut high: usize = range.len();
    while low < high
        invariant
            low <= high <= range@.len(),
            offs == offsets(range@),
            is_sorted(offs) ==> forall|i: int| 0 <= i < low ==> offs[i] < offset,
            is_sorted(offs) ==> forall|i: int| high <= i < offs.len() ==> offs[i] >= offset,
        decreases high - low,
    {
        let middle: usize = low + (high - low) / 2;
        if range[middle].offset < offset {
            assert(offs[middle as int] == range@[middle as int].offset);
            low = middle + 1;
        } else {
            assert(offs[middle as int] == range@[middle as int].offset);
            high = middle;
        }
    }
    proof {
        if is_sorted(offs) {
            lemma_scan_at_or_after_unique(offs, offset, low as int);
        }
    }
    low
}

/// Finds the first index at which an annotation can be found for the given
/// offset, or for the next existing offset when the exact one is absent.
/// Returns the length of the range when there is no such annotation.
pub fn first_annotation_index_for_offset(range: &[AnnotationWithOffset], offset: u32) -> (index:
    usize)
    ensures
        index <= range@.len(),
        is_sorted(offsets(range@)) ==> index == scan_at_or_after(offsets(range@), offset),
{
    let ghost offs = offsets(range@);
    let mut index: usize = annotation_insertion_index(range, offset);
    proof {
        lemma_scan_at_or_after(offs, offset);
    }
    while index > 0 && range[index - 1].offset == offset
        invariant
            index <= range@.len(),
            offs == offsets(range@),
            is_sorted(offs) ==> index == scan_at_or_after(offs, offset),
        decreases index,
    {
        proof {
            assert(offs[index - 1] == range@[index - 1].offset);
            lemma_scan_at_or_after(offs, offset);
        }
        index -= 1;
    }
    index
}

/// Finds the first index at which an annotation can be found for an offset
/// higher than the given offset. Returns the length of the range when there
/// is no such annotation.
pub fn first_annotation_index_beyond_offset(range: &[AnnotationWithOffset], offset: u32) -> (index:
    usize)
    ensures
        index <= range@.len(),
        is_sorted(offsets(range@)) ==> index == scan_beyond(offsets(range@), offset),
{
    let ghost offs = offsets(range@);
    let mut index: usize = annotation_insertion_index(range, offset);
    proof {
        lemma_scan_at_or_after(offs, offset);
        lemma_scan_beyond(offs, offset);
    }
    while index < range.len() && range[index].offset == offset
        invariant
            index <= range@.len(),
            offs == offsets(range@),
            is_sorted(offs) ==> forall|i: int| 0 <= i < index ==> offs[i] <= offset,
            is_sorted(offs) ==> forall|i: int| index <= i < offs.len() ==> offs[i] >= offset,
        decreases range@.len() - index,
    {
        assert(offs[index as int] == range@[index as int].offset);
        index += 1;
    }
    proof {
        if index < range@.len() {
            assert(offs[index as int] == range@[index as int].offset);
        }
        if is_sorted(offs) {
            lemma_scan_beyond_unique(offs, offset, index as int);
        }
    }
    index
}

/// Translates all offsets in a range of formatting annotations with the given
/// delta.
#[must_use]
pub fn translate(range: &[AnnotationWithOffset], delta: i64) -> (moved: Formatting)
    ensures
        moved@.len() == range@.len(),
        forall|i: int|
            0 <= i < range@.len() ==> {
                &&& (#[trigger] moved@[i])@.annotation == range@[i]@.annotation
                &&& moved@[i].offset == shifted_offset(range@[i].offset, delta)
            },
{
    let mut moved: Vec<AnnotationWithOffset> = Vec::new();
    let mut index: usize = 0;
    while index < range.len()
        invariant
            index <= range@.len(),
            moved@.len() == index,
            forall|i: int|
                0 <= i < index ==> {
                    &&& (#[trigger] moved@[i])@.annotation == range@[i]@.annotation
                    &&& moved@[i].offset == shifted_offset(range@[i].offset, delta)
                },
        decreases range@.len() - index,
    {
        moved.push(range[index].translate(delta));
        index += 1;
    }
    moved
}

/// Shifting every offset forward by a delta that keeps each within `u32`
/// keeps a sorted list sorted.
pub proof fn lemma_translate_keeps_order(before: Seq<u32>, after: Seq<u32>, delta: i64)
    requires
        is_sorted(before),
        after.len() == before.len(),
        forall|i: int| 0 <= i < before.len() ==> 0 <= (#[trigger] before[i]) + delta <= u32::MAX,
        forall|i: int|
            0 <= i < before.len() ==> (#[trigger] after[i]) == shifted_offset(before[i], delta),
    ensures
        is_sorted(after),
{
    assert forall|i: int, j: int| 0 <= i <= j < after.len() implies after[i] <= after[j] by {
        vstd::arithmetic::div_mod::lemma_small_mod((before[i] + delta) as nat, 0x1_0000_0000);
        vstd::arithmetic::div_mod::lemma_small_mod((before[j] + delta) as nat, 0x1_0000_0000);
    }
}

} // verus!
