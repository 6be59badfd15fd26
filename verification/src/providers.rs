//! Schemas of the queries that a data provider accepts, and the errors that
//! a provider reports.

use vstd::prelude::*;

verus! {

/// MIME type of form-encoded query data.
pub const FORM_ENCODED_MIME_TYPE: &'static str = "application/x-www-form-urlencoded";

/// Query type of a provider's time series.
pub const TIMESERIES_QUERY_TYPE: &'static str = "timeseries";

/// Defines a field that produces a button. Submitting it sets the field's
/// value in the query data.
#[derive(Clone, Debug)]
pub struct ButtonField {
    pub name: String,
    pub label: String,
    pub value: String,
}

/// Defines a field that produces a boolean value when checked.
#[derive(Clone, Debug)]
pub struct CheckboxField {
    pub checked: bool,
    pub name: String,
    pub label: String,
    pub value: String,
}

/// Defines a field that produces a date.
#[derive(Clone, Debug)]
pub struct DateField {
    pub name: String,
    pub label: String,
    pub required: bool,
}

/// Defines a field that produces a date and a time.
#[derive(Clone, Debug)]
pub struct DateTimeField {
    pub name: String,
    pub label: String,
    pub required: bool,
}

/// Defines a field that produces two date-times, a "from" and a "to".
#[derive(Clone, Debug)]
pub struct DateTimeRangeField {
    pub name: String,
    pub label: String,
    pub required: bool,
}

/// Defines a field that allows files to be uploaded as part of the query
/// data.
#[derive(Clone, Debug)]
pub struct FileField {
    pub name: String,
    pub label: String,
    pub multiple: bool,
    pub required: bool,
}

impl Default for FileField {
    fn default() -> (field: Self)
        ensures
            field.name@.len() == 0,
            field.label@.len() == 0,
            !field.multiple,
            !field.required,
    {
        FileField { name: String::new(), label: String::new(), multiple: false, required: false }
    }
}

impl FileField {
    /// Creates a new file field with all default values.
    pub fn new() -> (field: Self)
        ensures
            field.name@.len() == 0,
            field.label@.len() == 0,
            !field.multiple,
            !field.required,
    {
        FileField::default()
    }

    /// Marks the field as allowing multiple files.
    pub fn multiple(self) -> (field: Self)
        ensures
            field == (FileField { multiple: true, ..self }),
    {
        FileField { multiple: true, ..self }
    }

    /// Marks the field as required.
    pub fn required(self) -> (field: Self)
        ensures
            field == (FileField { required: true, ..self }),
    {
        FileField { required: true, ..self }
    }

    /// Sets the label that is shown for the field.
    pub fn with_label(self, label: &str) -> (field: Self)
        ensures
            field.label@ == label@,
            field.name == self.name,
            field.multiple == self.multiple,
            field.required == self.required,
    {
        FileField { label: label.to_owned(), ..self }
    }

    /// Sets the name under which the field stands in the query data.
    pub fn with_name(self, name: &str) -> (field: Self)
        ensures
            field.name@ == name@,
            field.label == self.label,
            field.multiple == self.multiple,
            field.required == self.required,
    {
        FileField { name: name.to_owned(), ..self }
    }
}

/// Defines a field that allows labels to be selected.
#[derive(Clone, Debug)]
pub struct LabelField {
    pub name: String,
    pub label: String,
    pub multiple: bool,
    pub required: bool,
}

/// Defines a field that produces a number. Its bounds and its step are kept
/// as they were written.
#[derive(Clone, Debug)]
pub struct NumberField {
    pub name: String,
    pub label: String,
    pub max: Option<String>,
    pub min: Option<String>,
    pub required: bool,
    pub step: Option<String>,
}

/// Defines a field that allows selection from a list of options.
#[derive(Clone, Debug)]
pub struct SelectField {
    pub name: String,
    pub label: String,
    pub multiple: bool,
    pub options: Vec<String>,
    pub prerequisites: Vec<String>,
    pub required: bool,
}

/// Defines a free-form text entry field.
#[derive(Clone, Debug)]
pub struct TextField {
    pub name: String,
    pub label: String,
    pub multiline: bool,
    pub prerequisites: Vec<String>,
    pub required: bool,
    pub supports_highlighting: bool,
}

/// One field of a query schema.
#[derive(Clone, Debug)]
pub enum QueryField {
    Button(ButtonField),
    Checkbox(CheckboxField),
    Date(DateField),
    DateTime(DateTimeField),
    DateTimeRange(DateTimeRangeField),
    File(FileField),
    Label(LabelField),
    Number(NumberField),
    Select(SelectField),
    Text(TextField),
}

impl QueryField {
    /// The name under which the field stands in the query data.
    pub fn name(&self) -> (name: &str)
        ensures
            name@ == match *self {
                QueryField::Button(field) => field.name@,
                QueryField::Checkbox(field) => field.name@,
                QueryField::Date(field) => field.name@,
                QueryField::DateTime(field) => field.name@,
                QueryField::DateTimeRange(field) => field.name@,
                QueryField::File(field) => field.name@,
                QueryField::Label(field) => field.name@,
                QueryField::Number(field) => field.name@,
                QueryField::Select(field) => field.name@,
                QueryField::Text(field) => field.name@,
            },
    {
        match self {
            QueryField::Button(field) => field.name.as_str(),
            QueryField::Checkbox(field) => field.name.as_str(),
            QueryField::Date(field) => field.name.as_str(),
            QueryField::DateTime(field) => field.name.as_str(),
            QueryField::DateTimeRange(field) => field.name.as_str(),
            QueryField::File(field) => field.name.as_str(),
            QueryField::Label(field) => field.name.as_str(),
            QueryField::Number(field) => field.name.as_str(),
            QueryField::Select(field) => field.name.as_str(),
            QueryField::Text(field) => field.name.as_str(),
        }
    }
}

/// The fields of a query, in the order in which they are shown.
pub type QuerySchema = Vec<QueryField>;

/// A query type that a provider supports, with the schema of its query data
/// and the MIME types of its answers.
#[derive(Clone, Debug)]
pub struct SupportedQueryType {
    pub query_type: String,
    pub schema: QuerySchema,
    pub mime_types: Vec<String>,
}

/// The method of an HTTP request that a provider makes.
#[derive(Clone, Copy, Debug, PartialEq, Eq, Structural)]
pub enum HttpRequestMethod {
    Delete,
    Get,
    Head,
    Post,
}

/// What was wrong with one field of the query data.
#[derive(Clone, Debug)]
pub struct ValidationError {
    /// The name of the field that failed validation.
    pub field_name: String,
    /// Description of what was wrong, for the user to read.
    pub message: String,
}

} // verus!
