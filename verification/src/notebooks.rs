//! Notebook cells: the blocks that make up a notebook.

use crate::active_formatting::{copy_text, text_of};
use crate::formatting::{
    copy_formatting, empty_formatting, formatting_view, AnnotationWithOffset,
    AnnotationWithOffsetView, Formatting,
};
use vstd::prelude::*;

verus! {

/// The level of a heading cell.
#[derive(Clone, Copy, Debug, PartialEq, Eq, Structural)]
pub enum HeadingType {
    H1,
    H2,
    H3,
}

/// The kind of list an item belongs to.
#[derive(Clone, Copy, Debug, PartialEq, Eq, Structural)]
pub enum ListType {
    Ordered,
    Unordered,
}

/// A paragraph of text.
#[derive(Debug)]
pub struct TextCell {
    pub id: String,
    pub content: String,
    pub formatting: Formatting,
    pub read_only: Option<bool>,
}

/// The mathematical value of a [`TextCell`].
pub struct TextCellView {
    pub id: Seq<char>,
    pub content: Seq<char>,
    pub formatting: Seq<AnnotationWithOffsetView>,
    pub read_only: Option<bool>,
}

impl View for TextCell {
    type V = TextCellView;

    open spec fn view(&self) -> TextCellView {
        TextCellView {
            id: self.id@,
            content: self.content@,
            formatting: formatting_view(self.formatting@),
            read_only: self.read_only,
        }
    }
}

impl Clone for TextCell {
    fn clone(&self) -> (copy: Self)
        ensures
            copy@ == self@,
    {
        TextCell {
            id: self.id.clone(),
            content: self.content.clone(),
            formatting: copy_formatting(&self.formatting),
            read_only: self.read_only,
        }
    }
}

impl Default for TextCell {
    fn default() -> (cell: Self)
        ensures
            cell@ == TextCell::blank(),
    {
        TextCell {
            id: String::new(),
            content: String::new(),
            formatting: empty_formatting(),
            read_only: None,
        }
    }
}

impl TextCell {
    /// The value of a cell of which nothing has been set.
    pub open spec fn blank() -> TextCellView {
        TextCellView {
            id: Seq::empty(),
            content: Seq::empty(),
            formatting: Seq::empty(),
            read_only: None,
        }
    }

    /// Starts a cell of which nothing has been set yet.
    pub fn builder() -> (cell: Self)
        ensures
            cell@ == TextCell::blank(),
    {
        TextCell::default()
    }

    /// Ends the chain of setters that `builder` started.
    pub fn build(self) -> (cell: Self)
        ensures
            cell == self,
    {
        self
    }

    /// This cell with its `id` set as given.
    pub fn id(self, id: &str) -> (cell: Self)
        ensures
            cell@ == (TextCellView { id: id@, ..self@ }),
    {
        let mut cell = self;
        cell.id = id.to_owned();
        cell
    }

    /// This cell with its `content` set as given.
    pub fn content(self, content: &str) -> (cell: Self)
        ensures
            cell@ == (TextCellView { content: content@, ..self@ }),
    {
        let mut cell = self;
        cell.content = content.to_owned();
        cell
    }

    /// This cell with its `formatting` set as given.
    pub fn formatting(self, formatting: Formatting) -> (cell: Self)
        ensures
            cell@ == (TextCellView { formatting: formatting_view(formatting@), ..self@ }),
    {
        let mut cell = self;
        cell.formatting = formatting;
        cell
    }

    /// This cell with its `read_only` set as given.
    pub fn read_only(self, read_only: bool) -> (cell: Self)
        ensures
            cell@ == (TextCellView { read_only: Some(read_only), ..self@ }),
    {
        let mut cell = self;
        cell.read_only = Some(read_only);
        cell
    }

}

/// A heading of one of three levels.
#[derive(Debug)]
pub struct HeadingCell {
    pub id: String,
    pub heading_type: HeadingType,
    pub content: String,
    pub formatting: Formatting,
    pub read_only: Option<bool>,
}

/// The mathematical value of a [`HeadingCell`].
pub struct HeadingCellView {
    pub id: Seq<char>,
    pub heading_type: HeadingType,
    pub content: Seq<char>,
    pub formatting: Seq<AnnotationWithOffsetView>,
    pub read_only: Option<bool>,
}

impl View for HeadingCell {
    type V = HeadingCellView;

    open spec fn view(&self) -> HeadingCellView {
        HeadingCellView {
            id: self.id@,
            heading_type: self.heading_type,
            content: self.content@,
            formatting: formatting_view(self.formatting@),
            read_only: self.read_only,
        }
    }
}

impl Clone for HeadingCell {
    fn clone(&self) -> (copy: Self)
        ensures
            copy@ == self@,
    {
        HeadingCell {
            id: self.id.clone(),
            heading_type: self.heading_type,
            content: self.content.clone(),
            formatting: copy_formatting(&self.formatting),
            read_only: self.read_only,
        }
    }
}

impl Default for HeadingCell {
    fn default() -> (cell: Self)
        ensures
            cell@ == HeadingCell::blank(),
    {
        HeadingCell {
            id: String::new(),
            heading_type: HeadingType::H1,
            content: String::new(),
            formatting: empty_formatting(),
            read_only: None,
        }
    }
}

impl HeadingCell {
    /// The value of a cell of which nothing has been set.
    pub open spec fn blank() -> HeadingCellView {
        HeadingCellView {
            id: Seq::empty(),
            heading_type: HeadingType::H1,
            content: Seq::empty(),
            formatting: Seq::empty(),
            read_only: None,
        }
    }

    /// Starts a cell of which nothing has been set yet.
    pub fn builder() -> (cell: Self)
        ensures
            cell@ == HeadingCell::blank(),
    {
        HeadingCell::default()
    }

    /// Ends the chain of setters that `builder` started.
    pub fn build(self) -> (cell: Self)
        ensures
            cell == self,
    {
        self
    }

    /// This cell with its `id` set as given.
    pub fn id(self, id: &str) -> (cell: Self)
        ensures
            cell@ == (HeadingCellView { id: id@, ..self@ }),
    {
        let mut cell = self;
        cell.id = id.to_owned();
        cell
    }

    /// This cell with its `heading_type` set as given.
    pub fn heading_type(self, heading_type: HeadingType) -> (cell: Self)
        ensures
            cell@ == (HeadingCellView { heading_type: heading_type, ..self@ }),
    {
        let mut cell = self;
        cell.heading_type = heading_type;
        cell
    }

    /// This cell with its `content` set as given.
    pub fn content(self, content: &str) -> (cell: Self)
        ensures
            cell@ == (HeadingCellView { content: content@, ..self@ }),
    {
        let mut cell = self;
        cell.content = content.to_owned();
        cell
    }

    /// This cell with its `formatting` set as given.
    pub fn formatting(self, formatting: Formatting) -> (cell: Self)
        ensures
            cell@ == (HeadingCellView { formatting: formatting_view(formatting@), ..self@ }),
    {
        let mut cell = self;
        cell.formatting = formatting;
        cell
    }

    /// This cell with its `read_only` set as given.
    pub fn read_only(self, read_only: bool) -> (cell: Self)
        ensures
            cell@ == (HeadingCellView { read_only: Some(read_only), ..self@ }),
    {
        let mut cell = self;
        cell.read_only = Some(read_only);
        cell
    }

}

/// A block of code.
#[derive(Debug)]
pub struct CodeCell {
    pub id: String,
    pub content: String,
    pub read_only: Option<bool>,
    pub syntax: Option<String>,
}

/// The mathematical value of a [`CodeCell`].
pub struct CodeCellView {
    pub id: Seq<char>,
    pub content: Seq<char>,
    pub read_only: Option<bool>,
    pub syntax: Option<Seq<char>>,
}

impl View for CodeCell {
    type V = CodeCellView;

    open spec fn view(&self) -> CodeCellView {
        CodeCellView {
            id: self.id@,
            content: self.content@,
            read_only: self.read_only,
            syntax: text_of(self.syntax),
        }
    }
}

impl Clone for CodeCell {
    fn clone(&self) -> (copy: Self)
        ensures
            copy@ == self@,
    {
        CodeCell {
            id: self.id.clone(),
            content: self.content.clone(),
            read_only: self.read_only,
            syntax: copy_text(&self.syntax),
        }
    }
}

impl Default for CodeCell {
    fn default() -> (cell: Self)
        ensures
            cell@ == CodeCell::blank(),
    {
        CodeCell {
            id: String::new(),
            content: String::new(),
            read_only: None,
            syntax: None,
        }
    }
}

impl CodeCell {
    /// The value of a cell of which nothing has been set.
    pub open spec fn blank() -> CodeCellView {
        CodeCellView {
            id: Seq::empty(),
            content: Seq::empty(),
            read_only: None,
            syntax: None,
        }
    }

    /// Starts a cell of which nothing has been set yet.
    pub fn builder() -> (cell: Self)
        ensures
            cell@ == CodeCell::blank(),
    {
        CodeCell::default()
    }

    /// Ends the chain of setters that `builder` started.
    pub fn build(self) -> (cell: Self)
        ensures
            cell == self,
    {
        self
    }

    /// This cell with its `id` set as given.
    pub fn id(self, id: &str) -> (cell: Self)
        ensures
            cell@ == (CodeCellView { id: id@, ..self@ }),
    {
        let mut cell = self;
        cell.id = id.to_owned();
        cell
    }

    /// This cell with its `content` set as given.
    pub fn content(self, content: &str) -> (cell: Self)
        ensures
            cell@ == (CodeCellView { content: content@, ..self@ }),
    {
        let mut cell = self;
        cell.content = content.to_owned();
        cell
    }

    /// This cell with its `read_only` set as given.
    pub fn read_only(self, read_only: bool) -> (cell: Self)
        ensures
            cell@ == (CodeCellView { read_only: Some(read_only), ..self@ }),
    {
        let mut cell = self;
        cell.read_only = Some(read_only);
        cell
    }

    /// This cell with its `syntax` set as given.
    pub fn syntax(self, syntax: &str) -> (cell: Self)
        ensures
            cell@ == (CodeCellView { syntax: Some(syntax@), ..self@ }),
    {
        let mut cell = self;
        cell.syntax = Some(syntax.to_owned());
        cell
    }

}

/// An item of an ordered or unordered list.
#[derive(Debug)]
pub struct ListItemCell {
    pub id: String,
    pub content: String,
    pub formatting: Formatting,
    pub list_type: ListType,
    pub level: Option<u8>,
    pub read_only: Option<bool>,
    pub start_number: Option<u16>,
}

/// The mathematical value of a [`ListItemCell`].
pub struct ListItemCellView {
    pub id: Seq<char>,
    pub content: Seq<char>,
    pub formatting: Seq<AnnotationWithOffsetView>,
    pub list_type: ListType,
    pub level: Option<u8>,
    pub read_only: Option<bool>,
    pub start_number: Option<u16>,
}

impl View for ListItemCell {
    type V = ListItemCellView;

    open spec fn view(&self) -> ListItemCellView {
        ListItemCellView {
            id: self.id@,
            content: self.content@,
            formatting: formatting_view(self.formatting@),
            list_type: self.list_type,
            level: self.level,
            read_only: self.read_only,
            start_number: self.start_number,
        }
    }
}

impl Clone for ListItemCell {
    fn clone(&self) -> (copy: Self)
        ensures
            copy@ == self@,
    {
        ListItemCell {
            id: self.id.clone(),
            content: self.content.clone(),
            formatting: copy_formatting(&self.formatting),
            list_type: self.list_type,
            level: self.level,
            read_only: self.read_only,
            start_number: self.start_number,
        }
    }
}

impl Default for ListItemCell {
    fn default() -> (cell: Self)
        ensures
            cell@ == ListItemCell::blank(),
    {
        ListItemCell {
            id: String::new(),
            content: String::new(),
            formatting: empty_formatting(),
            list_type: ListType::Unordered,
            level: None,
            read_only: None,
            start_number: None,
        }
    }
}

impl ListItemCell {
    /// The value of a cell of which nothing has been set.
    pub open spec fn blank() -> ListItemCellView {
        ListItemCellView {
            id: Seq::empty(),
            content: Seq::empty(),
            formatting: Seq::empty(),
            list_type: ListType::Unordered,
            level: None,
            read_only: None,
            start_number: None,
        }
    }

    /// Starts a cell of which nothing has been set yet.
    pub fn builder() -> (cell: Self)
        ensures
            cell@ == ListItemCell::blank(),
    {
        ListItemCell::default()
    }

    /// Ends the chain of setters that `builder` started.
    pub fn build(self) -> (cell: Self)
        ensures
            cell == self,
    {
        self
    }

    /// This cell with its `id` set as given.
    pub fn id(self, id: &str) -> (cell: Self)
        ensures
            cell@ == (ListItemCellView { id: id@, ..self@ }),
    {
        let mut cell = self;
        cell.id = id.to_owned();
        cell
    }

    /// This cell with its `content` set as given.
    pub fn content(self, content: &str) -> (cell: Self)
        ensures
            cell@ == (ListItemCellView { content: content@, ..self@ }),
    {
        let mut cell = self;
        cell.content = content.to_owned();
        cell
    }

    /// This cell with its `formatting` set as given.
    pub fn formatting(self, formatting: Formatting) -> (cell: Self)
        ensures
            cell@ == (ListItemCellView { formatting: formatting_view(formatting@), ..self@ }),
    {
        let mut cell = self;
        cell.formatting = formatting;
        cell
    }

    /// This cell with its `list_type` set as given.
    pub fn list_type(self, list_type: ListType) -> (cell: Self)
        ensures
            cell@ == (ListItemCellView { list_type: list_type, ..self@ }),
    {
        let mut cell = self;
        cell.list_type = list_type;
        cell
    }

    /// This cell with its `level` set as given.
    pub fn level(self, level: u8) -> (cell: Self)
        ensures
            cell@ == (ListItemCellView { level: Some(level), ..self@ }),
    {
        let mut cell = self;
        cell.level = Some(level);
        cell
    }

    /// This cell with its `read_only` set as given.
    pub fn read_only(self, read_only: bool) -> (cell: Self)
        ensures
            cell@ == (ListItemCellView { read_only: Some(read_only), ..self@ }),
    {
        let mut cell = self;
        cell.read_only = Some(read_only);
        cell
    }

    /// This cell with its `start_number` set as given.
    pub fn start_number(self, start_number: u16) -> (cell: Self)
        ensures
            cell@ == (ListItemCellView { start_number: Some(start_number), ..self@ }),
    {
        let mut cell = self;
        cell.start_number = Some(start_number);
        cell
    }

}

/// An item of a task list.
#[derive(Debug)]
pub struct CheckboxCell {
    pub id: String,
    pub checked: bool,
    pub content: String,
    pub formatting: Formatting,
    pub level: Option<u8>,
    pub read_only: Option<bool>,
}

/// The mathematical value of a [`CheckboxCell`].
pub struct CheckboxCellView {
    pub id: Seq<char>,
    pub checked: bool,
    pub content: Seq<char>,
    pub formatting: Seq<AnnotationWithOffsetView>,
    pub level: Option<u8>,
    pub read_only: Option<bool>,
}

impl View for CheckboxCell {
    type V = CheckboxCellView;

    open spec fn view(&self) -> CheckboxCellView {
        CheckboxCellView {
            id: self.id@,
            checked: self.checked,
            content: self.content@,
            formatting: formatting_view(self.formatting@),
            level: self.level,
            read_only: self.read_only,
        }
    }
}

impl Clone for CheckboxCell {
    fn clone(&self) -> (copy: Self)
        ensures
            copy@ == self@,
    {
        CheckboxCell {
            id: self.id.clone(),
            checked: self.checked,
            content: self.content.clone(),
            formatting: copy_formatting(&self.formatting),
            level: self.level,
            read_only: self.read_only,
        }
    }
}

impl Default for CheckboxCell {
    fn default() -> (cell: Self)
        ensures
            cell@ == CheckboxCell::blank(),
    {
        CheckboxCell {
            id: String::new(),
            checked: false,
            content: String::new(),
            formatting: empty_formatting(),
            level: None,
            read_only: None,
        }
    }
}

impl CheckboxCell {
    /// The value of a cell of which nothing has been set.
    pub open spec fn blank() -> CheckboxCellView {
        CheckboxCellView {
            id: Seq::empty(),
            checked: false,
            content: Seq::empty(),
            formatting: Seq::empty(),
            level: None,
            read_only: None,
        }
    }

    /// Starts a cell of which nothing has been set yet.
    pub fn builder() -> (cell: Self)
        ensures
            cell@ == CheckboxCell::blank(),
    {
        CheckboxCell::default()
    }

    /// Ends the chain of setters that `builder` started.
    pub fn build(self) -> (cell: Self)
        ensures
            cell == self,
    {
        self
    }

    /// This cell with its `id` set as given.
    pub fn id(self, id: &str) -> (cell: Self)
        ensures
            cell@ == (CheckboxCellView { id: id@, ..self@ }),
    {
        let mut cell = self;
        cell.id = id.to_owned();
        cell
    }

    /// This cell with its `checked` set as given.
    pub fn checked(self, checked: bool) -> (cell: Self)
        ensures
            cell@ == (CheckboxCellView { checked: checked, ..self@ }),
    {
        let mut cell = self;
        cell.checked = checked;
        cell
    }

    /// This cell with its `content` set as given.
    pub fn content(self, content: &str) -> (cell: Self)
        ensures
            cell@ == (CheckboxCellView { content: content@, ..self@ }),
    {
        let mut cell = self;
        cell.content = content.to_owned();
        cell
    }

    /// This cell with its `formatting` set as given.
    pub fn formatting(self, formatting: Formatting) -> (cell: Self)
        ensures
            cell@ == (CheckboxCellView { formatting: formatting_view(formatting@), ..self@ }),
    {
        let mut cell = self;
        cell.formatting = formatting;
        cell
    }

    /// This cell with its `level` set as given.
    pub fn level(self, level: u8) -> (cell: Self)
        ensures
            cell@ == (CheckboxCellView { level: Some(level), ..self@ }),
    {
        let mut cell = self;
        cell.level = Some(level);
        cell
    }

    /// This cell with its `read_only` set as given.
    pub fn read_only(self, read_only: bool) -> (cell: Self)
        ensures
            cell@ == (CheckboxCellView { read_only: Some(read_only), ..self@ }),
    {
        let mut cell = self;
        cell.read_only = Some(read_only);
        cell
    }

}

/// An image, given by a URL or by an uploaded file.
#[derive(Debug)]
pub struct ImageCell {
    pub id: String,
    pub file_id: Option<String>,
    pub read_only: Option<bool>,
    pub url: Option<String>,
}

/// The mathematical value of a [`ImageCell`].
pub struct ImageCellView {
    pub id: Seq<char>,
    pub file_id: Option<Seq<char>>,
    pub read_only: Option<bool>,
    pub url: Option<Seq<char>>,
}

impl View for ImageCell {
    type V = ImageCellView;

    open spec fn view(&self) -> ImageCellView {
        ImageCellView {
            id: self.id@,
            file_id: text_of(self.file_id),
            read_only: self.read_only,
            url: text_of(self.url),
        }
    }
}

impl Clone for ImageCell {
    fn clone(&self) -> (copy: Self)
        ensures
            copy@ == self@,
    {
        ImageCell {
            id: self.id.clone(),
            file_id: copy_text(&self.file_id),
            read_only: self.read_only,
            url: copy_text(&self.url),
        }
    }
}

impl Default for ImageCell {
    fn default() -> (cell: Self)
        ensures
            cell@ == ImageCell::blank(),
    {
        ImageCell {
            id: String::new(),
            file_id: None,
            read_only: None,
            url: None,
        }
    }
}

impl ImageCell {
    /// The value of a cell of which nothing has been set.
    pub open spec fn blank() -> ImageCellView {
        ImageCellView {
            id: Seq::empty(),
            file_id: None,
            read_only: None,
            url: None,
        }
    }

    /// Starts a cell of which nothing has been set yet.
    pub fn builder() -> (cell: Self)
        ensures
            cell@ == ImageCell::blank(),
    {
        ImageCell::default()
    }

    /// Ends the chain of setters that `builder` started.
    pub fn build(self) -> (cell: Self)
        ensures
            cell == self,
    {
        self
    }

    /// This cell with its `id` set as given.
    pub fn id(self, id: &str) -> (cell: Self)
        ensures
            cell@ == (ImageCellView { id: id@, ..self@ }),
    {
        let mut cell = self;
        cell.id = id.to_owned();
        cell
    }

    /// This cell with its `file_id` set as given.
    pub fn file_id(self, file_id: &str) -> (cell: Self)
        ensures
            cell@ == (ImageCellView { file_id: Some(file_id@), ..self@ }),
    {
        let mut cell = self;
        cell.file_id = Some(file_id.to_owned());
        cell
    }

    /// This cell with its `read_only` set as given.
    pub fn read_only(self, read_only: bool) -> (cell: Self)
        ensures
            cell@ == (ImageCellView { read_only: Some(read_only), ..self@ }),
    {
        let mut cell = self;
        cell.read_only = Some(read_only);
        cell
    }

    /// This cell with its `url` set as given.
    pub fn url(self, url: &str) -> (cell: Self)
        ensures
            cell@ == (ImageCellView { url: Some(url@), ..self@ }),
    {
        let mut cell = self;
        cell.url = Some(url.to_owned());
        cell
    }

}

/// A horizontal rule.
#[derive(Debug)]
pub struct DividerCell {
    pub id: String,
    pub read_only: Option<bool>,
}

/// The mathematical value of a [`DividerCell`].
pub struct DividerCellView {
    pub id: Seq<char>,
    pub read_only: Option<bool>,
}

impl View for DividerCell {
    type V = DividerCellView;

    open spec fn view(&self) -> DividerCellView {
        DividerCellView {
            id: self.id@,
            read_only: self.read_only,
        }
    }
}

impl Clone for DividerCell {
    fn clone(&self) -> (copy: Self)
        ensures
            copy@ == self@,
    {
        DividerCell {
            id: self.id.clone(),
            read_only: self.read_only,
        }
    }
}

impl Default for DividerCell {
    fn default() -> (cell: Self)
        ensures
            cell@ == DividerCell::blank(),
    {
        DividerCell {
            id: String::new(),
            read_only: None,
        }
    }
}

impl DividerCell {
    /// The value of a cell of which nothing has been set.
    pub open spec fn blank() -> DividerCellView {
        DividerCellView {
            id: Seq::empty(),
            read_only: None,
        }
    }

    /// Starts a cell of which nothing has been set yet.
    pub fn builder() -> (cell: Self)
        ensures
            cell@ == DividerCell::blank(),
    {
        DividerCell::default()
    }

    /// Ends the chain of setters that `builder` started.
    pub fn build(self) -> (cell: Self)
        ensures
            cell == self,
    {
        self
    }

    /// This cell with its `id` set as given.
    pub fn id(self, id: &str) -> (cell: Self)
        ensures
            cell@ == (DividerCellView { id: id@, ..self@ }),
    {
        let mut cell = self;
        cell.id = id.to_owned();
        cell
    }

    /// This cell with its `read_only` set as given.
    pub fn read_only(self, read_only: bool) -> (cell: Self)
        ensures
            cell@ == (DividerCellView { read_only: Some(read_only), ..self@ }),
    {
        let mut cell = self;
        cell.read_only = Some(read_only);
        cell
    }

}

/// A query to a data provider.
#[derive(Debug)]
pub struct ProviderCell {
    pub id: String,
    pub intent: String,
    pub query_data: Option<String>,
    pub read_only: Option<bool>,
    pub title: String,
    pub formatting: Formatting,
}

/// The mathematical value of a [`ProviderCell`].
pub struct ProviderCellView {
    pub id: Seq<char>,
    pub intent: Seq<char>,
    pub query_data: Option<Seq<char>>,
    pub read_only: Option<bool>,
    pub title: Seq<char>,
    pub formatting: Seq<AnnotationWithOffsetView>,
}

impl View for ProviderCell {
    type V = ProviderCellView;

    open spec fn view(&self) -> ProviderCellView {
        ProviderCellView {
            id: self.id@,
            intent: self.intent@,
            query_data: text_of(self.query_data),
            read_only: self.read_only,
            title: self.title@,
            formatting: formatting_view(self.formatting@),
        }
    }
}

impl Clone for ProviderCell {
    fn clone(&self) -> (copy: Self)
        ensures
            copy@ == self@,
    {
        ProviderCell {
            id: self.id.clone(),
            intent: self.intent.clone(),
            query_data: copy_text(&self.query_data),
            read_only: self.read_only,
            title: self.title.clone(),
            formatting: copy_formatting(&self.formatting),
        }
    }
}

impl Default for ProviderCell {
    fn default() -> (cell: Self)
        ensures
            cell@ == ProviderCell::blank(),
    {
        ProviderCell {
            id: String::new(),
            intent: String::new(),
            query_data: None,
            read_only: None,
            title: String::new(),
            formatting: empty_formatting(),
        }
    }
}

impl ProviderCell {
    /// The value of a cell of which nothing has been set.
    pub open spec fn blank() -> ProviderCellView {
        ProviderCellView {
            id: Seq::empty(),
            intent: Seq::empty(),
            query_data: None,
            read_only: None,
            title: Seq::empty(),
            formatting: Seq::empty(),
        }
    }

    /// Starts a cell of which nothing has been set yet.
    pub fn builder() -> (cell: Self)
        ensures
            cell@ == ProviderCell::blank(),
    {
        ProviderCell::default()
    }

    /// Ends the chain of setters that `builder` started.
    pub fn build(self) -> (cell: Self)
        ensures
            cell == self,
    {
        self
    }

    /// This cell with its `id` set as given.
    pub fn id(self, id: &str) -> (cell: Self)
        ensures
            cell@ == (ProviderCellView { id: id@, ..self@ }),
    {
        let mut cell = self;
        cell.id = id.to_owned();
        cell
    }

    /// This cell with its `intent` set as given.
    pub fn intent(self, intent: &str) -> (cell: Self)
        ensures
            cell@ == (ProviderCellView { intent: intent@, ..self@ }),
    {
        let mut cell = self;
        cell.intent = intent.to_owned();
        cell
    }

    /// This cell with its `query_data` set as given.
    pub fn query_data(self, query_data: &str) -> (cell: Self)
        ensures
            cell@ == (ProviderCellView { query_data: Some(query_data@), ..self@ }),
    {
        let mut cell = self;
        cell.query_data = Some(query_data.to_owned());
        cell
    }

    /// This cell with its `read_only` set as given.
    pub fn read_only(self, read_only: bool) -> (cell: Self)
        ensures
            cell@ == (ProviderCellView { read_only: Some(read_only), ..self@ }),
    {
        let mut cell = self;
        cell.read_only = Some(read_only);
        cell
    }

    /// This cell with its `title` set as given.
    pub fn title(self, title: &str) -> (cell: Self)
        ensures
            cell@ == (ProviderCellView { title: title@, ..self@ }),
    {
        let mut cell = self;
        cell.title = title.to_owned();
        cell
    }

    /// This cell with its `formatting` set as given.
    pub fn formatting(self, formatting: Formatting) -> (cell: Self)
        ensures
            cell@ == (ProviderCellView { formatting: formatting_view(formatting@), ..self@ }),
    {
        let mut cell = self;
        cell.formatting = formatting;
        cell
    }

}

/// A table.
#[derive(Debug)]
pub struct TableCell {
    pub id: String,
    pub read_only: Option<bool>,
}

/// The mathematical value of a [`TableCell`].
pub struct TableCellView {
    pub id: Seq<char>,
    pub read_only: Option<bool>,
}

impl View for TableCell {
    type V = TableCellView;

    open spec fn view(&self) -> TableCellView {
        TableCellView {
            id: self.id@,
            read_only: self.read_only,
        }
    }
}

impl Clone for TableCell {
    fn clone(&self) -> (copy: Self)
        ensures
            copy@ == self@,
    {
        TableCell {
            id: self.id.clone(),
            read_only: self.read_only,
        }
    }
}

impl Default for TableCell {
    fn default() -> (cell: Self)
        ensures
            cell@ == TableCell::blank(),
    {
        TableCell {
            id: String::new(),
            read_only: None,
        }
    }
}

impl TableCell {
    /// The value of a cell of which nothing has been set.
    pub open spec fn blank() -> TableCellView {
        TableCellView {
            id: Seq::empty(),
            read_only: None,
        }
    }

    /// Starts a cell of which nothing has been set yet.
    pub fn builder() -> (cell: Self)
        ensures
            cell@ == TableCell::blank(),
    {
        TableCell::default()
    }

    /// Ends the chain of setters that `builder` started.
    pub fn build(self) -> (cell: Self)
        ensures
            cell == self,
    {
        self
    }

    /// This cell with its `id` set as given.
    pub fn id(self, id: &str) -> (cell: Self)
        ensures
            cell@ == (TableCellView { id: id@, ..self@ }),
    {
        let mut cell = self;
        cell.id = id.to_owned();
        cell
    }

    /// This cell with its `read_only` set as given.
    pub fn read_only(self, read_only: bool) -> (cell: Self)
        ensures
            cell@ == (TableCellView { read_only: Some(read_only), ..self@ }),
    {
        let mut cell = self;
        cell.read_only = Some(read_only);
        cell
    }

}

/// A view of log records.
#[derive(Debug)]
pub struct LogCell {
    pub id: String,
    pub read_only: Option<bool>,
}

/// The mathematical value of a [`LogCell`].
pub struct LogCellView {
    pub id: Seq<char>,
    pub read_only: Option<bool>,
}

impl View for LogCell {
    type V = LogCellView;

    open spec fn view(&self) -> LogCellView {
        LogCellView {
            id: self.id@,
            read_only: self.read_only,
        }
    }
}

impl Clone for LogCell {
    fn clone(&self) -> (copy: Self)
        ensures
            copy@ == self@,
    {
        LogCell {
            id: self.id.clone(),
            read_only: self.read_only,
        }
    }
}

impl Default for LogCell {
    fn default() -> (cell: Self)
        ensures
            cell@ == LogCell::blank(),
    {
        LogCell {
            id: String::new(),
            read_only: None,
        }
    }
}

impl LogCell {
    /// The value of a cell of which nothing has been set.
    pub open spec fn blank() -> LogCellView {
        LogCellView {
            id: Seq::empty(),
            read_only: None,
        }
    }

    /// Starts a cell of which nothing has been set yet.
    pub fn builder() -> (cell: Self)
        ensures
            cell@ == LogCell::blank(),
    {
        LogCell::default()
    }

    /// Ends the chain of setters that `builder` started.
    pub fn build(self) -> (cell: Self)
        ensures
            cell == self,
    {
        self
    }

    /// This cell with its `id` set as given.
    pub fn id(self, id: &str) -> (cell: Self)
        ensures
            cell@ == (LogCellView { id: id@, ..self@ }),
    {
        let mut cell = self;
        cell.id = id.to_owned();
        cell
    }

    /// This cell with its `read_only` set as given.
    pub fn read_only(self, read_only: bool) -> (cell: Self)
        ensures
            cell@ == (LogCellView { read_only: Some(read_only), ..self@ }),
    {
        let mut cell = self;
        cell.read_only = Some(read_only);
        cell
    }

}

/// A discussion thread.
#[derive(Debug)]
pub struct DiscussionCell {
    pub id: String,
    pub thread_id: String,
    pub read_only: Option<bool>,
}

/// The mathematical value of a [`DiscussionCell`].
pub struct DiscussionCellView {
    pub id: Seq<char>,
    pub thread_id: Seq<char>,
    pub read_only: Option<bool>,
}

impl View for DiscussionCell {
    type V = DiscussionCellView;

    open spec fn view(&self) -> DiscussionCellView {
        DiscussionCellView {
            id: self.id@,
            thread_id: self.thread_id@,
            read_only: self.read_only,
        }
    }
}

impl Clone for DiscussionCell {
    fn clone(&self) -> (copy: Self)
        ensures
            copy@ == self@,
    {
        DiscussionCell {
            id: self.id.clone(),
            thread_id: self.thread_id.clone(),
            read_only: self.read_only,
        }
    }
}

impl Default for DiscussionCell {
    fn default() -> (cell: Self)
        ensures
            cell@ == DiscussionCell::blank(),
    {
        DiscussionCell {
            id: String::new(),
            thread_id: String::new(),
            read_only: None,
        }
    }
}

impl DiscussionCell {
    /// The value of a cell of which nothing has been set.
    pub open spec fn blank() -> DiscussionCellView {
        DiscussionCellView {
            id: Seq::empty(),
            thread_id: Seq::empty(),
            read_only: None,
        }
    }

    /// Starts a cell of which nothing has been set yet.
    pub fn builder() -> (cell: Self)
        ensures
            cell@ == DiscussionCell::blank(),
    {
        DiscussionCell::default()
    }

    /// Ends the chain of setters that `builder` started.
    pub fn build(self) -> (cell: Self)
        ensures
            cell == self,
    {
        self
    }

    /// This cell with its `id` set as given.
    pub fn id(self, id: &str) -> (cell: Self)
        ensures
            cell@ == (DiscussionCellView { id: id@, ..self@ }),
    {
        let mut cell = self;
        cell.id = id.to_owned();
        cell
    }

    /// This cell with its `thread_id` set as given.
    pub fn thread_id(self, thread_id: &str) -> (cell: Self)
        ensures
            cell@ == (DiscussionCellView { thread_id: thread_id@, ..self@ }),
    {
        let mut cell = self;
        cell.thread_id = thread_id.to_owned();
        cell
    }

    /// This cell with its `read_only` set as given.
    pub fn read_only(self, read_only: bool) -> (cell: Self)
        ensures
            cell@ == (DiscussionCellView { read_only: Some(read_only), ..self@ }),
    {
        let mut cell = self;
        cell.read_only = Some(read_only);
        cell
    }

}

/// A graph of time series.
#[derive(Debug)]
pub struct GraphCell {
    pub id: String,
    pub read_only: Option<bool>,
    pub title: String,
}

/// The mathematical value of a [`GraphCell`].
pub struct GraphCellView {
    pub id: Seq<char>,
    pub read_only: Option<bool>,
    pub title: Seq<char>,
}

impl View for GraphCell {
    type V = GraphCellView;

    open spec fn view(&self) -> GraphCellView {
        GraphCellView {
            id: self.id@,
            read_only: self.read_only,
            title: self.title@,
        }
    }
}

impl Clone for GraphCell {
    fn clone(&self) -> (copy: Self)
        ensures
            copy@ == self@,
    {
        GraphCell {
            id: self.id.clone(),
            read_only: self.read_only,
            title: self.title.clone(),
        }
    }
}

impl Default for GraphCell {
    fn default() -> (cell: Self)
        ensures
            cell@ == GraphCell::blank(),
    {
        GraphCell {
            id: String::new(),
            read_only: None,
            title: String::new(),
        }
    }
}

impl GraphCell {
    /// The value of a cell of which nothing has been set.
    pub open spec fn blank() -> GraphCellView {
        GraphCellView {
            id: Seq::empty(),
            read_only: None,
            title: Seq::empty(),
        }
    }

    /// Starts a cell of which nothing has been set yet.
    pub fn builder() -> (cell: Self)
        ensures
            cell@ == GraphCell::blank(),
    {
        GraphCell::default()
    }

    /// Ends the chain of setters that `builder` started.
    pub fn build(self) -> (cell: Self)
        ensures
            cell == self,
    {
        self
    }

    /// This cell with its `id` set as given.
    pub fn id(self, id: &str) -> (cell: Self)
        ensures
            cell@ == (GraphCellView { id: id@, ..self@ }),
    {
        let mut cell = self;
        cell.id = id.to_owned();
        cell
    }

    /// This cell with its `read_only` set as given.
    pub fn read_only(self, read_only: bool) -> (cell: Self)
        ensures
            cell@ == (GraphCellView { read_only: Some(read_only), ..self@ }),
    {
        let mut cell = self;
        cell.read_only = Some(read_only);
        cell
    }

    /// This cell with its `title` set as given.
    pub fn title(self, title: &str) -> (cell: Self)
        ensures
            cell@ == (GraphCellView { title: title@, ..self@ }),
    {
        let mut cell = self;
        cell.title = title.to_owned();
        cell
    }

}

/// One block of a notebook.
#[derive(Debug)]
pub enum Cell {
    Text(TextCell),
    Heading(HeadingCell),
    Code(CodeCell),
    ListItem(ListItemCell),
    Checkbox(CheckboxCell),
    Image(ImageCell),
    Divider(DividerCell),
    Provider(ProviderCell),
    Table(TableCell),
    Log(LogCell),
    Discussion(DiscussionCell),
    Graph(GraphCell),
}

/// The mathematical value of a [`Cell`].
pub enum CellView {
    Text(TextCellView),
    Heading(HeadingCellView),
    Code(CodeCellView),
    ListItem(ListItemCellView),
    Checkbox(CheckboxCellView),
    Image(ImageCellView),
    Divider(DividerCellView),
    Provider(ProviderCellView),
    Table(TableCellView),
    Log(LogCellView),
    Discussion(DiscussionCellView),
    Graph(GraphCellView),
}

impl View for Cell {
    type V = CellView;

    open spec fn view(&self) -> CellView {
        match *self {
            Cell::Text(cell) => CellView::Text(cell@),
            Cell::Heading(cell) => CellView::Heading(cell@),
            Cell::Code(cell) => CellView::Code(cell@),
            Cell::ListItem(cell) => CellView::ListItem(cell@),
            Cell::Checkbox(cell) => CellView::Checkbox(cell@),
            Cell::Image(cell) => CellView::Image(cell@),
            Cell::Divider(cell) => CellView::Divider(cell@),
            Cell::Provider(cell) => CellView::Provider(cell@),
            Cell::Table(cell) => CellView::Table(cell@),
            Cell::Log(cell) => CellView::Log(cell@),
            Cell::Discussion(cell) => CellView::Discussion(cell@),
            Cell::Graph(cell) => CellView::Graph(cell@),
        }
    }
}

impl Clone for Cell {
    fn clone(&self) -> (copy: Self)
        ensures
            copy@ == self@,
    {
        match self {
            Cell::Text(cell) => Cell::Text(cell.clone()),
            Cell::Heading(cell) => Cell::Heading(cell.clone()),
            Cell::Code(cell) => Cell::Code(cell.clone()),
            Cell::ListItem(cell) => Cell::ListItem(cell.clone()),
            Cell::Checkbox(cell) => Cell::Checkbox(cell.clone()),
            Cell::Image(cell) => Cell::Image(cell.clone()),
            Cell::Divider(cell) => Cell::Divider(cell.clone()),
            Cell::Provider(cell) => Cell::Provider(cell.clone()),
            Cell::Table(cell) => Cell::Table(cell.clone()),
            Cell::Log(cell) => Cell::Log(cell.clone()),
            Cell::Discussion(cell) => Cell::Discussion(cell.clone()),
            Cell::Graph(cell) => Cell::Graph(cell.clone()),
        }
    }
}

impl CellView {
    /// The id of the cell.
    pub open spec fn id(self) -> Seq<char> {
        match self {
            CellView::Text(cell) => cell.id,
            CellView::Heading(cell) => cell.id,
            CellView::Code(cell) => cell.id,
            CellView::ListItem(cell) => cell.id,
            CellView::Checkbox(cell) => cell.id,
            CellView::Image(cell) => cell.id,
            CellView::Divider(cell) => cell.id,
            CellView::Provider(cell) => cell.id,
            CellView::Table(cell) => cell.id,
            CellView::Log(cell) => cell.id,
            CellView::Discussion(cell) => cell.id,
            CellView::Graph(cell) => cell.id,
        }
    }

    /// This cell with another id.
    pub open spec fn with_id(self, id: Seq<char>) -> CellView {
        match self {
            CellView::Text(cell) => CellView::Text(TextCellView { id, ..cell }),
            CellView::Heading(cell) => CellView::Heading(HeadingCellView { id, ..cell }),
            CellView::Code(cell) => CellView::Code(CodeCellView { id, ..cell }),
            CellView::ListItem(cell) => CellView::ListItem(ListItemCellView { id, ..cell }),
            CellView::Checkbox(cell) => CellView::Checkbox(CheckboxCellView { id, ..cell }),
            CellView::Image(cell) => CellView::Image(ImageCellView { id, ..cell }),
            CellView::Divider(cell) => CellView::Divider(DividerCellView { id, ..cell }),
            CellView::Provider(cell) => CellView::Provider(ProviderCellView { id, ..cell }),
            CellView::Table(cell) => CellView::Table(TableCellView { id, ..cell }),
            CellView::Log(cell) => CellView::Log(LogCellView { id, ..cell }),
            CellView::Discussion(cell) => CellView::Discussion(DiscussionCellView { id, ..cell }),
            CellView::Graph(cell) => CellView::Graph(GraphCellView { id, ..cell }),
        }
    }

    /// The text of the cell, for the kinds of cell that hold text.
    pub open spec fn content(self) -> Option<Seq<char>> {
        match self {
            CellView::Checkbox(cell) => Some(cell.content),
            CellView::Code(cell) => Some(cell.content),
            CellView::Heading(cell) => Some(cell.content),
            CellView::ListItem(cell) => Some(cell.content),
            CellView::Text(cell) => Some(cell.content),
            _ => None,
        }
    }

    /// The formatting of the cell's text, for the kinds of cell that hold
    /// formatted text.
    pub open spec fn formatting(self) -> Option<Seq<AnnotationWithOffsetView>> {
        match self {
            CellView::Checkbox(cell) => Some(cell.formatting),
            CellView::Heading(cell) => Some(cell.formatting),
            CellView::ListItem(cell) => Some(cell.formatting),
            CellView::Text(cell) => Some(cell.formatting),
            _ => None,
        }
    }

    /// This cell with `text` appended to its text; unchanged where the cell
    /// holds no text.
    pub open spec fn with_text_appended(self, text: Seq<char>) -> CellView {
        match self {
            CellView::Checkbox(cell) => CellView::Checkbox(
                CheckboxCellView { content: cell.content + text, ..cell },
            ),
            CellView::Code(cell) => CellView::Code(
                CodeCellView { content: cell.content + text, ..cell },
            ),
            CellView::Heading(cell) => CellView::Heading(
                HeadingCellView { content: cell.content + text, ..cell },
            ),
            CellView::ListItem(cell) => CellView::ListItem(
                ListItemCellView { content: cell.content + text, ..cell },
            ),
            CellView::Text(cell) => CellView::Text(
                TextCellView { content: cell.content + text, ..cell },
            ),
            _ => self,
        }
    }

    /// This cell with `annotation` added at the end of its formatting;
    /// unchanged where the cell holds no formatted text.
    pub open spec fn with_annotation_pushed(self, annotation: AnnotationWithOffsetView)
        -> CellView {
        match self {
            CellView::Checkbox(cell) => CellView::Checkbox(
                CheckboxCellView { formatting: cell.formatting.push(annotation), ..cell },
            ),
            CellView::Heading(cell) => CellView::Heading(
                HeadingCellView { formatting: cell.formatting.push(annotation), ..cell },
            ),
            CellView::ListItem(cell) => CellView::ListItem(
                ListItemCellView { formatting: cell.formatting.push(annotation), ..cell },
            ),
            CellView::Text(cell) => CellView::Text(
                TextCellView { formatting: cell.formatting.push(annotation), ..cell },
            ),
            _ => self,
        }
    }
}

impl Cell {
    /// A copy of the cell's id.
    pub fn id(&self) -> (id: String)
        ensures
            id@ == self@.id(),
    {
        match self {
            Cell::Text(cell) => cell.id.clone(),
            Cell::Heading(cell) => cell.id.clone(),
            Cell::Code(cell) => cell.id.clone(),
            Cell::ListItem(cell) => cell.id.clone(),
            Cell::Checkbox(cell) => cell.id.clone(),
            Cell::Image(cell) => cell.id.clone(),
            Cell::Divider(cell) => cell.id.clone(),
            Cell::Provider(cell) => cell.id.clone(),
            Cell::Table(cell) => cell.id.clone(),
            Cell::Log(cell) => cell.id.clone(),
            Cell::Discussion(cell) => cell.id.clone(),
            Cell::Graph(cell) => cell.id.clone(),
        }
    }

    /// Replaces the cell's id.
    pub fn set_id(&mut self, id: String)
        ensures
            final(self)@ == old(self)@.with_id(id@),
    {
        match self {
            Cell::Text(cell) => {
                cell.id = id;
            },
            Cell::Heading(cell) => {
                cell.id = id;
            },
            Cell::Code(cell) => {
                cell.id = id;
            },
            Cell::ListItem(cell) => {
                cell.id = id;
            },
            Cell::Checkbox(cell) => {
                cell.id = id;
            },
            Cell::Image(cell) => {
                cell.id = id;
            },
            Cell::Divider(cell) => {
                cell.id = id;
            },
            Cell::Provider(cell) => {
                cell.id = id;
            },
            Cell::Table(cell) => {
                cell.id = id;
            },
            Cell::Log(cell) => {
                cell.id = id;
            },
            Cell::Discussion(cell) => {
                cell.id = id;
            },
            Cell::Graph(cell) => {
                cell.id = id;
            },
        }
    }

    /// The cell's text, for the kinds of cell that hold text.
    pub fn content(&self) -> (content: Option<&str>)
        ensures
            match content {
                Some(text) => self@.content() == Some(text@),
                None => self@.content() is None,
            },
    {
        match self {
            Cell::Checkbox(cell) => Some(cell.content.as_str()),
            Cell::Code(cell) => Some(cell.content.as_str()),
            Cell::Heading(cell) => Some(cell.content.as_str()),
            Cell::ListItem(cell) => Some(cell.content.as_str()),
            Cell::Text(cell) => Some(cell.content.as_str()),
            _ => None,
        }
    }

    /// The formatting of the cell's text, for the kinds of cell that hold
    /// formatted text.
    pub fn formatting(&self) -> (formatting: Option<&Formatting>)
        ensures
            match formatting {
                Some(list) => self@.formatting() == Some(formatting_view(list@)),
                None => self@.formatting() is None,
            },
    {
        match self {
            Cell::Checkbox(cell) => Some(&cell.formatting),
            Cell::Heading(cell) => Some(&cell.formatting),
            Cell::ListItem(cell) => Some(&cell.formatting),
            Cell::Text(cell) => Some(&cell.formatting),
            _ => None,
        }
    }

    /// Appends `text` to the cell's text. Returns whether the cell holds text;
    /// a cell that holds none is left unchanged.
    pub fn append_text(&mut self, text: &str) -> (appended: bool)
        ensures
            appended == (old(self)@.content() is Some),
            final(self)@ == old(self)@.with_text_appended(text@),
    {
        match self {
            Cell::Checkbox(cell) => {
                cell.content.append(text);
                true
            },
            Cell::Code(cell) => {
                cell.content.append(text);
                true
            },
            Cell::Heading(cell) => {
                cell.content.append(text);
                true
            },
            Cell::ListItem(cell) => {
                cell.content.append(text);
                true
            },
            Cell::Text(cell) => {
                cell.content.append(text);
                true
            },
            _ => false,
        }
    }

    /// Adds `annotation` at the end of the cell's formatting. Returns whether
    /// the cell holds formatted text; a cell that holds none is left unchanged.
    pub fn push_annotation(&mut self, annotation: AnnotationWithOffset) -> (pushed: bool)
        ensures
            pushed == (old(self)@.formatting() is Some),
            final(self)@ == old(self)@.with_annotation_pushed(annotation@),
    {
        match self {
            Cell::Checkbox(cell) => {
                cell.formatting.push(annotation);
                assert(formatting_view(cell.formatting@) =~= old(
                    self,
                )@.formatting()->0.push(annotation@));
                true
            },
            Cell::Heading(cell) => {
                cell.formatting.push(annotation);
                assert(formatting_view(cell.formatting@) =~= old(
                    self,
                )@.formatting()->0.push(annotation@));
                true
            },
            Cell::ListItem(cell) => {
                cell.formatting.push(annotation);
                assert(formatting_view(cell.formatting@) =~= old(
                    self,
                )@.formatting()->0.push(annotation@));
                true
            },
            Cell::Text(cell) => {
                cell.formatting.push(annotation);
                assert(formatting_view(cell.formatting@) =~= old(
                    self,
                )@.formatting()->0.push(annotation@));
                true
            },
            _ => false,
        }
    }
}

/// The mathematical values of a list of cells.
pub open spec fn cell_views(cells: Seq<Cell>) -> Seq<CellView> {
    cells.map_values(|cell: Cell| cell@)
}

} // verus!
