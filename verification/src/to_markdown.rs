//! Conversion of notebook cells to Markdown.

use crate::documents::Notebook;
use crate::notebooks::{
    cell_views, Cell, CellView, CheckboxCell, CheckboxCellView, CodeCell, CodeCellView,
    HeadingCell, HeadingCellView, HeadingType, ImageCell, ImageCellView, ListItemCell,
    ListItemCellView, ListType, TextCell, TextCellView,
};
use crate::formatting::{formatting_view, Formatting};
use crate::rich_text::{push_formatted_text, rendered_text};
use crate::text::{decimal, decimal_text, push_repeated, repeated};
use vstd::prelude::*;
use vstd::string::{StrSliceExecFns, StringExecFns};

verus! {

/// The kind of fragment that was written last.
#[derive(Clone, Copy, Debug, PartialEq, Eq, Structural)]
pub enum Fragment {
    /// Nothing was written yet.
    Nothing,
    /// A title, a paragraph, a heading or an image.
    Block,
    /// A fenced code block.
    Code,
    /// An item of an ordered or unordered list.
    ListItem,
    /// An item of a task list.
    Checkbox,
}

/// A list that is open while its items are written: its kind and the number
/// that its items are marked with.
#[derive(Clone, Copy, Debug, PartialEq, Eq, Structural)]
pub struct OpenList {
    pub list_type: ListType,
    pub number: u16,
}

/// The state of a conversion: the Markdown written so far, the kind of the
/// last fragment, the lists that are open, outermost first, and whether
/// headings are written one level down, which they are once a title was
/// written.
pub struct ConversionView {
    pub output: Seq<char>,
    pub last: Fragment,
    pub lists: Seq<OpenList>,
    pub shift_headings: bool,
}

/// What separates a fragment from the one before it: a blank line, except
/// that list items follow one another on the next line, that a checkbox ends
/// its own line, and that a code block at the very start is preceded by an
/// empty line.
pub open spec fn joiner(last: Fragment, next: Fragment) -> Seq<char> {
    match (last, next) {
        (Fragment::Nothing, Fragment::Code) => "\n"@,
        (Fragment::Nothing, _) => Seq::empty(),
        (Fragment::Checkbox, Fragment::Checkbox) => Seq::empty(),
        (Fragment::Checkbox, _) => "\n"@,
        (Fragment::ListItem, Fragment::ListItem) => "\n"@,
        _ => "\n\n"@,
    }
}

/// The state after a fragment of the given kind was written. Whatever is not
/// a list item closes the open lists.
pub open spec fn written(
    state: ConversionView,
    kind: Fragment,
    fragment: Seq<char>,
    lists: Seq<OpenList>,
) -> ConversionView {
    ConversionView {
        output: state.output + joiner(state.last, kind) + fragment,
        last: kind,
        lists: if kind == Fragment::ListItem {
            lists
        } else {
            Seq::empty()
        },
        shift_headings: state.shift_headings,
    }
}

/// The marker of a heading. Under a title the headings are written one level
/// down, so that the title alone is of the first level.
pub open spec fn heading_marker(heading_type: HeadingType, shift: bool) -> Seq<char> {
    match (heading_type, shift) {
        (HeadingType::H1, false) => "# "@,
        (HeadingType::H2, false) => "## "@,
        (HeadingType::H3, false) => "### "@,
        (HeadingType::H1, true) => "## "@,
        (HeadingType::H2, true) => "### "@,
        (HeadingType::H3, true) => "#### "@,
    }
}

/// The marker of the items of a list.
pub open spec fn list_marker(list: OpenList) -> Seq<char> {
    match list.list_type {
        ListType::Unordered => "- "@,
        ListType::Ordered => decimal_text(list.number as nat) + ". "@,
    }
}

/// The indentation of the items of the list at depth `depth`: as wide as the
/// markers of the lists around it.
pub open spec fn list_indent(lists: Seq<OpenList>, depth: int) -> Seq<char>
    decreases depth,
{
    if depth <= 0 || depth > lists.len() {
        Seq::empty()
    } else {
        list_indent(lists, depth - 1) + repeated(" "@, list_marker(lists[depth - 1]).len())
    }
}

/// The list that an item starts when it does not continue an open one. Its
/// items are marked with the number of this first item, or with 1.
pub open spec fn started_list(item: ListItemCellView) -> OpenList {
    OpenList {
        list_type: item.list_type,
        number: match item.start_number {
            Some(number) => number,
            None => 1,
        },
    }
}

/// The nesting level of a list item: 0 where none is given.
pub open spec fn level_of(level: Option<u8>) -> int {
    match level {
        Some(l) => l as int,
        None => 0,
    }
}

/// The open lists once those deeper than `level` are closed.
pub open spec fn kept_lists(lists: Seq<OpenList>, level: int) -> Seq<OpenList> {
    if lists.len() > level + 1 {
        lists.subrange(0, level + 1)
    } else {
        lists
    }
}

/// The open lists when `item` is written: lists deeper than the item are
/// closed; the item continues the list at its level if that is of its kind,
/// and else starts a list there, or one level below the innermost open list.
pub open spec fn lists_with(lists: Seq<OpenList>, item: ListItemCellView) -> Seq<OpenList> {
    let level = level_of(item.level);
    let kept = kept_lists(lists, level);
    if kept.len() == level + 1 && kept.last().list_type == item.list_type {
        kept
    } else if kept.len() == level + 1 {
        kept.drop_last().push(started_list(item))
    } else {
        kept.push(started_list(item))
    }
}

/// The Markdown of a list item: indentation, the marker of its list, its
/// text.
pub open spec fn list_item_markdown(lists: Seq<OpenList>, item: ListItemCellView) -> Seq<char> {
    list_indent(lists, lists.len() - 1) + list_marker(lists.last()) + rendered_text(
        item.content,
        item.formatting,
    )
}

/// The Markdown of a checkbox: two spaces for each level, the box, its text,
/// and the end of the line.
pub open spec fn checkbox_markdown(cell: CheckboxCellView) -> Seq<char> {
    repeated("  "@, level_of(cell.level) as nat) + (if cell.checked {
        "- [x] "@
    } else {
        "- [ ] "@
    }) + rendered_text(cell.content, cell.formatting) + "\n"@
}

/// The Markdown of a code cell: a fenced block, with the syntax behind the
/// opening fence if there is one.
pub open spec fn code_markdown(cell: CodeCellView) -> Seq<char> {
    "```"@ + (match cell.syntax {
        Some(syntax) => syntax,
        None => Seq::empty(),
    }) + "\n"@ + cell.content + "\n```"@
}

/// The state after the title was written: the headings that follow are
/// written one level down, so that the title alone is of the first level.
pub open spec fn after_title(state: ConversionView, title: Seq<char>) -> ConversionView {
    ConversionView {
        shift_headings: true,
        ..written(state, Fragment::Block, "# "@ + title, Seq::empty())
    }
}

/// The state after one cell was written. An image without a URL, and a cell
/// of a kind that has no Markdown form (divider, provider, table, log,
/// discussion, graph), leaves the state as it is.
pub open spec fn after_cell(state: ConversionView, cell: CellView) -> ConversionView {
    match cell {
        CellView::Text(text) => written(
            state,
            Fragment::Block,
            rendered_text(text.content, text.formatting),
            Seq::empty(),
        ),
        CellView::Heading(heading) => written(
            state,
            Fragment::Block,
            heading_marker(heading.heading_type, state.shift_headings) + rendered_text(
                heading.content,
                heading.formatting,
            ),
            Seq::empty(),
        ),
        CellView::Code(code) => written(state, Fragment::Code, code_markdown(code), Seq::empty()),
        CellView::ListItem(item) => written(
            state,
            Fragment::ListItem,
            list_item_markdown(lists_with(state.lists, item), item),
            lists_with(state.lists, item),
        ),
        CellView::Checkbox(checkbox) => written(
            state,
            Fragment::Checkbox,
            checkbox_markdown(checkbox),
            Seq::empty(),
        ),
        CellView::Image(image) => match image.url {
            Some(url) => written(state, Fragment::Block, "![]("@ + url + ")"@, Seq::empty()),
            None => state,
        },
        _ => state,
    }
}

/// The state after the cells from index `from` on were written, in order.
pub open spec fn after_cells(state: ConversionView, cells: Seq<CellView>, from: int)
    -> ConversionView
    decreases cells.len() - from,
{
    if from < 0 || from >= cells.len() {
        state
    } else {
        after_cells(after_cell(state, cells[from]), cells, from + 1)
    }
}

/// The state in which nothing is written yet. No title was written, so
/// headings are written at their own level.
pub open spec fn start_of_conversion() -> ConversionView {
    ConversionView {
        output: Seq::empty(),
        last: Fragment::Nothing,
        lists: Seq::empty(),
        shift_headings: false,
    }
}

/// The Markdown of a notebook with the given title and cells.
pub open spec fn notebook_markdown(title: Seq<char>, cells: Seq<CellView>) -> Seq<char> {
    after_cells(after_title(start_of_conversion(), title), cells, 0).output
}

/// The Markdown of cells that stand under no title.
pub open spec fn cells_markdown(cells: Seq<CellView>) -> Seq<char> {
    after_cells(start_of_conversion(), cells, 0).output
}

/// An image cell without a URL adds nothing to the Markdown, and leaves no
/// trace in what is written after it.
pub proof fn lemma_image_without_url_writes_nothing(state: ConversionView, image: ImageCellView)
    requires
        image.url is None,
    ensures
        after_cell(state, CellView::Image(image)) == state,
{
}

/// Between two checkboxes that follow one another stands nothing but the end
/// of the first one's line, and between a checkbox and the text cell behind
/// it stands exactly one empty line.
pub proof fn lemma_one_blank_line_after_checkboxes(
    state: ConversionView,
    first: CheckboxCellView,
    second: CheckboxCellView,
    text: TextCellView,
)
    ensures
        ({
            let one = after_cell(state, CellView::Checkbox(first));
            let two = after_cell(one, CellView::Checkbox(second));
            let three = after_cell(two, CellView::Text(text));
            &&& two.output == one.output + checkbox_markdown(second)
            &&& one.output.len() > 0 && one.output.last() == '\n'
            &&& two.output.len() > 0 && two.output.last() == '\n'
            &&& three.output == two.output + seq!['\n'] + rendered_text(
                text.content,
                text.formatting,
            )
        }),
{
    reveal_strlit("\n");
    let one = after_cell(state, CellView::Checkbox(first));
    let two = after_cell(one, CellView::Checkbox(second));
    let three = after_cell(two, CellView::Text(text));
    assert("\n"@ =~= seq!['\n']);
    assert(two.output =~= one.output + checkbox_markdown(second));
    assert(three.output =~= two.output + seq!['\n'] + rendered_text(
        text.content,
        text.formatting,
    ));
}

/// Converts a notebook, part by part, to Markdown.
pub struct NotebookConverter {
    output: String,
    last: Fragment,
    lists: Vec<OpenList>,
    shift_headings: bool,
}

impl View for NotebookConverter {
    type V = ConversionView;

    closed spec fn view(&self) -> ConversionView {
        ConversionView {
            output: self.output@,
            last: self.last,
            lists: self.lists@,
            shift_headings: self.shift_headings,
        }
    }
}

/// Writes the marker of the items of a list.
fn marker_of(list: OpenList) -> (marker: String)
    ensures
        marker@ == list_marker(list),
{
    match list.list_type {
        ListType::Unordered => String::from_str("- "),
        ListType::Ordered => {
            let mut marker = decimal(list.number as u64);
            marker.append(". ");
            marker
        },
    }
}

/// Appends the indentation of the items of the list at depth `depth`.
fn push_list_indent(output: &mut String, lists: &Vec<OpenList>, depth: usize)
    requires
        depth <= lists@.len(),
    ensures
        final(output)@ == old(output)@ + list_indent(lists@, depth as int),
{
    let mut done: usize = 0;
    assert(output@ =~= old(output)@ + list_indent(lists@, 0));
    while done < depth
        invariant
            done <= depth <= lists@.len(),
            output@ == old(output)@ + list_indent(lists@, done as int),
        decreases depth - done,
    {
        let width = marker_of(lists[done]).as_str().unicode_len();
        let ghost earlier = output@;
        push_repeated(output, " ", width);
        done += 1;
        assert(output@ =~= old(output)@ + list_indent(lists@, done as int));
    }
}

/// Closes the lists that are deeper than `level`, then lets `item` continue
/// the list at its level or start one.
fn open_lists_for(lists: &mut Vec<OpenList>, item: &ListItemCell)
    ensures
        final(lists)@ == lists_with(old(lists)@, item@),
        final(lists)@.len() > 0,
{
    let level: usize = match item.level {
        Some(l) => l as usize,
        None => 0,
    };
    while lists.len() > level + 1
        invariant
            level <= 255,
            lists@.len() <= old(lists)@.len(),
            lists@.len() >= kept_lists(old(lists)@, level as int).len(),
            lists@ =~= old(lists)@.subrange(0, lists@.len() as int),
        decreases lists@.len(),
    {
        lists.pop();
    }
    assert(lists@ =~= kept_lists(old(lists)@, level as int));
    let started = OpenList {
        list_type: item.list_type,
        number: match item.start_number {
            Some(number) => number,
            None => 1,
        },
    };
    if lists.len() == level + 1 {
        if lists[level].list_type != item.list_type {
            lists.pop();
            lists.push(started);
        }
    } else {
        lists.push(started);
    }
    assert(lists@ =~= lists_with(old(lists)@, item@));
}

impl NotebookConverter {
    /// A converter that has written nothing yet. Headings are written at
    /// their own level until a title is written, and one level down after it.
    pub fn new() -> (converter: Self)
        ensures
            converter@ == start_of_conversion(),
    {
        NotebookConverter {
            output: String::new(),
            last: Fragment::Nothing,
            lists: Vec::new(),
            shift_headings: false,
        }
    }

    /// A converter for cells that stand under no title: the one that `new`
    /// gives, under the name of what it is for.
    pub fn without_title() -> (converter: Self)
        ensures
            converter@ == start_of_conversion(),
    {
        NotebookConverter {
            output: String::new(),
            last: Fragment::Nothing,
            lists: Vec::new(),
            shift_headings: false,
        }
    }

    /// Writes what separates a fragment of the given kind from the one before
    /// it, and closes the open lists unless the fragment is a list item.
    fn begin(&mut self, kind: Fragment)
        ensures
            final(self)@ == written(old(self)@, kind, Seq::empty(), old(self)@.lists),
    {
        match (self.last, kind) {
            (Fragment::Nothing, Fragment::Code) => self.output.append("\n"),
            (Fragment::Nothing, _) => {},
            (Fragment::Checkbox, Fragment::Checkbox) => {},
            (Fragment::Checkbox, _) => self.output.append("\n"),
            (Fragment::ListItem, Fragment::ListItem) => self.output.append("\n"),
            _ => self.output.append("\n\n"),
        }
        self.last = kind;
        match kind {
            Fragment::ListItem => {},
            _ => {
                self.lists = Vec::new();
            },
        }
        assert(self@.output =~= written(
            old(self)@,
            kind,
            Seq::empty(),
            old(self)@.lists,
        ).output);
        assert(self@.lists =~= written(old(self)@, kind, Seq::empty(), old(self)@.lists).lists);
    }

    /// Writes the title of the notebook as a heading of the first level. The
    /// headings that are written after it are written one level down.
    pub fn convert_title(&mut self, title: &str)
        ensures
            final(self)@ == after_title(old(self)@, title@),
    {
        self.begin(Fragment::Block);
        self.output.append("# ");
        self.output.append(title);
        self.shift_headings = true;
        assert(self@.output =~= after_title(old(self)@, title@).output);
    }

    /// Writes a text with its formatting, right behind what was written
    /// before.
    pub fn convert_formatted_text(&mut self, text: String, formatting: Formatting)
        ensures
            final(self)@ == (ConversionView {
                output: old(self)@.output + rendered_text(text@, formatting_view(formatting@)),
                ..old(self)@
            }),
    {
        push_formatted_text(&mut self.output, text.as_str(), &formatting);
    }

    /// Writes a text cell.
    fn write_text(&mut self, text: &TextCell)
        ensures
            final(self)@ == after_cell(old(self)@, CellView::Text(text@)),
    {
        self.begin(Fragment::Block);
        push_formatted_text(&mut self.output, text.content.as_str(), &text.formatting);
        assert(self@.output =~= after_cell(old(self)@, CellView::Text(text@)).output);
    }

    /// Writes a heading cell.
    fn write_heading(&mut self, heading: &HeadingCell)
        ensures
            final(self)@ == after_cell(old(self)@, CellView::Heading(heading@)),
    {
        self.begin(Fragment::Block);
        let marker = match (heading.heading_type, self.shift_headings) {
            (HeadingType::H1, false) => "# ",
            (HeadingType::H2, false) => "## ",
            (HeadingType::H3, false) => "### ",
            (HeadingType::H1, true) => "## ",
            (HeadingType::H2, true) => "### ",
            (HeadingType::H3, true) => "#### ",
        };
        self.output.append(marker);
        push_formatted_text(&mut self.output, heading.content.as_str(), &heading.formatting);
        assert(self@.output =~= after_cell(old(self)@, CellView::Heading(heading@)).output);
    }

    /// Writes a code cell.
    fn write_code(&mut self, code: &CodeCell)
        ensures
            final(self)@ == after_cell(old(self)@, CellView::Code(code@)),
    {
        self.begin(Fragment::Code);
        self.output.append("```");
        match &code.syntax {
            Some(syntax) => self.output.append(syntax.as_str()),
            None => {},
        }
        self.output.append("\n");
        self.output.append(code.content.as_str());
        self.output.append("\n```");
        assert(self@.output =~= after_cell(old(self)@, CellView::Code(code@)).output);
    }

    /// Writes a list item.
    fn write_list_item(&mut self, item: &ListItemCell)
        ensures
            final(self)@ == after_cell(old(self)@, CellView::ListItem(item@)),
    {
        self.begin(Fragment::ListItem);
        open_lists_for(&mut self.lists, item);
        let depth = self.lists.len() - 1;
        push_list_indent(&mut self.output, &self.lists, depth);
        let marker = marker_of(self.lists[depth]);
        self.output.append(marker.as_str());
        push_formatted_text(&mut self.output, item.content.as_str(), &item.formatting);
        assert(self@.output =~= after_cell(old(self)@, CellView::ListItem(item@)).output);
    }

    /// Writes a checkbox.
    fn write_checkbox(&mut self, checkbox: &CheckboxCell)
        ensures
            final(self)@ == after_cell(old(self)@, CellView::Checkbox(checkbox@)),
    {
        self.begin(Fragment::Checkbox);
        let level: usize = match checkbox.level {
            Some(l) => l as usize,
            None => 0,
        };
        push_repeated(&mut self.output, "  ", level);
        if checkbox.checked {
            self.output.append("- [x] ");
        } else {
            self.output.append("- [ ] ");
        }
        push_formatted_text(&mut self.output, checkbox.content.as_str(), &checkbox.formatting);
        self.output.append("\n");
        assert(self@.output =~= after_cell(old(self)@, CellView::Checkbox(checkbox@)).output);
    }

    /// Writes an image, if it has a URL.
    fn write_image(&mut self, image: &ImageCell)
        ensures
            final(self)@ == after_cell(old(self)@, CellView::Image(image@)),
    {
        match &image.url {
            Some(url) => {
                self.begin(Fragment::Block);
                self.output.append("![](");
                self.output.append(url.as_str());
                self.output.append(")");
                assert(self@.output =~= after_cell(old(self)@, CellView::Image(image@)).output);
            },
            None => {},
        }
    }

    /// Writes one cell.
    pub fn convert_cell(&mut self, cell: &Cell)
        ensures
            final(self)@ == after_cell(old(self)@, cell@),
    {
        match cell {
            Cell::Text(text) => self.write_text(text),
            Cell::Heading(heading) => self.write_heading(heading),
            Cell::Code(code) => self.write_code(code),
            Cell::ListItem(item) => self.write_list_item(item),
            Cell::Checkbox(checkbox) => self.write_checkbox(checkbox),
            Cell::Image(image) => self.write_image(image),
            _ => {},
        }
    }

    /// Writes the cells, in order.
    pub fn convert_cells(&mut self, cells: Vec<Cell>)
        ensures
            final(self)@ == after_cells(old(self)@, cell_views(cells@), 0),
    {
        let ghost views = cell_views(cells@);
        let mut index: usize = 0;
        while index < cells.len()
            invariant
                index <= cells@.len(),
                views == cell_views(cells@),
                after_cells(self@, views, index as int) == after_cells(old(self)@, views, 0),
            decreases cells@.len() - index,
        {
            self.convert_cell(&cells[index]);
            index += 1;
        }
    }

    /// The Markdown that was written.
    pub fn into_markdown(self) -> (markdown: String)
        ensures
            markdown@ == self@.output,
    {
        self.output
    }
}

/// Converts a notebook to Markdown: its title as a heading of the first
/// level, then its cells, with their headings one level down.
pub fn notebook_to_markdown(notebook: Notebook) -> (markdown: String)
    ensures
        markdown@ == notebook_markdown(notebook.title@, cell_views(notebook.cells@)),
{
    let mut converter = NotebookConverter::new();
    converter.convert_title(notebook.title.as_str());
    converter.convert_cells(notebook.cells);
    converter.into_markdown()
}

/// Converts the cells of a notebook to Markdown. The cells stand under no
/// title, so headings keep their level.
pub fn cells_to_markdown(cells: Vec<Cell>) -> (markdown: String)
    ensures
        markdown@ == cells_markdown(cell_views(cells@)),
{
    let mut converter = NotebookConverter::without_title();
    converter.convert_cells(cells);
    converter.into_markdown()
}

} // verus!
