//! Labels: key/value pairs attached to notebooks and to text.

use vstd::prelude::*;

verus! {

/// A label, with a key and an optional (possibly empty) value.
#[derive(Debug)]
pub struct Label {
    pub key: String,
    pub value: String,
}

/// The mathematical value of a [`Label`].
pub struct LabelView {
    pub key: Seq<char>,
    pub value: Seq<char>,
}

impl View for Label {
    type V = LabelView;

    open spec fn view(&self) -> LabelView {
        LabelView { key: self.key@, value: self.value@ }
    }
}

impl Clone for Label {
    fn clone(&self) -> (copy: Self)
        ensures
            copy@ == self@,
    {
        Label { key: self.key.clone(), value: self.value.clone() }
    }
}

impl Label {
    /// Creates a label from its key and value.
    pub fn new(key: &str, value: &str) -> (label: Self)
        ensures
            label@.key == key@,
            label@.value == value@,
    {
        Label { key: key.to_owned(), value: value.to_owned() }
    }

    /// Whether two labels have the same key and the same value.
    pub fn same(&self, other: &Label) -> (equal: bool)
        ensures
            equal == (self@ == other@),
    {
        self.key == other.key && self.value == other.value
    }
}

/// The textual form of a label: `key` alone when the value is empty, else
/// `key:value`.
pub open spec fn label_text(label: LabelView) -> Seq<char> {
    if label.value.len() == 0 {
        label.key
    } else {
        label.key + ":"@ + label.value
    }
}

} // verus!
