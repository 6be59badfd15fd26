//! Records that the HTTP API exchanges with its clients.

use std::collections::HashMap;
use vstd::prelude::*;

verus! {

/// The type of a template parameter.
#[derive(Clone, Copy, Debug, PartialEq, Eq, Structural)]
pub enum TemplateParameterType {
    String,
    Number,
    Boolean,
    Object,
    Array,
    Unknown,
}

impl Default for TemplateParameterType {
    fn default() -> (ty: Self)
        ensures
            ty == TemplateParameterType::Unknown,
    {
        TemplateParameterType::Unknown
    }
}

impl TemplateParameterType {
    /// The name of the type as the API writes it.
    pub fn name(&self) -> (name: &'static str)
        ensures
            name@ == match *self {
                TemplateParameterType::String => "string"@,
                TemplateParameterType::Number => "number"@,
                TemplateParameterType::Boolean => "boolean"@,
                TemplateParameterType::Object => "object"@,
                TemplateParameterType::Array => "array"@,
                TemplateParameterType::Unknown => "unknown"@,
            },
    {
        match self {
            TemplateParameterType::String => "string",
            TemplateParameterType::Number => "number",
            TemplateParameterType::Boolean => "boolean",
            TemplateParameterType::Object => "object",
            TemplateParameterType::Array => "array",
            TemplateParameterType::Unknown => "unknown",
        }
    }
}

/// The kind of a cell, as the API names it.
#[derive(Clone, Copy, Debug, PartialEq, Eq, Structural)]
pub enum CellType {
    Checkbox,
    Code,
    Discussion,
    Divider,
    Graph,
    Heading,
    Image,
    ListItem,
    Log,
    Provider,
    Table,
    Text,
}

/// The kind of an annotation, as the API names it.
#[derive(Clone, Copy, Debug, PartialEq, Eq, Structural)]
pub enum AnnotationType {
    StartBold,
    EndBold,
    StartCode,
    EndCode,
    StartHighlight,
    EndHighlight,
    StartItalics,
    EndItalics,
    StartLink,
    EndLink,
    StartStrikethrough,
    EndStrikethrough,
    StartUnderline,
    EndUnderline,
    Label,
    Mention,
    Timestamp,
}

/// A template without its body.
#[derive(Clone, Debug)]
pub struct TemplateSummary {
    pub id: String,
    pub title: String,
    pub description: String,
    pub created_at: String,
    pub updated_at: String,
}

impl TemplateSummary {
    pub fn new(
        id: String,
        title: String,
        description: String,
        created_at: String,
        updated_at: String,
    ) -> (summary: TemplateSummary)
        ensures
            summary == (TemplateSummary { id, title, description, created_at, updated_at }),
    {
        TemplateSummary { id, title, description, created_at, updated_at }
    }
}

/// A template parameter of which only the name is known.
#[derive(Clone, Debug)]
pub struct UnknownTemplateParameter {
    pub name: String,
    pub _type: TemplateParameterType,
}

impl UnknownTemplateParameter {
    pub fn new(name: String, _type: TemplateParameterType) -> (parameter:
        UnknownTemplateParameter)
        ensures
            parameter == (UnknownTemplateParameter { name, _type }),
    {
        UnknownTemplateParameter { name, _type }
    }
}

/// A template parameter that holds a boolean.
#[derive(Clone, Debug)]
pub struct BooleanTemplateParameter {
    pub name: String,
    pub _type: TemplateParameterType,
    pub default_value: Option<bool>,
}

impl BooleanTemplateParameter {
    /// A parameter without a default value.
    pub fn new(name: String, _type: TemplateParameterType) -> (parameter:
        BooleanTemplateParameter)
        ensures
            parameter == (BooleanTemplateParameter { name, _type, default_value: None }),
    {
        BooleanTemplateParameter { name, _type, default_value: None }
    }
}

/// How a graph draws its series.
#[derive(Clone, Copy, Debug, PartialEq, Eq, Structural)]
pub enum GraphType {
    Bar,
    Line,
}

/// How a graph stacks its series.
#[derive(Clone, Copy, Debug, PartialEq, Eq, Structural)]
pub enum StackingType {
    Unstacked,
    Stacked,
    Percentage,
}

/// A graph cell as the API sends it.
#[derive(Clone, Debug)]
pub struct GraphCell {
    pub _type: CellType,
    pub id: String,
    pub data_links: Vec<String>,
    pub graph_type: GraphType,
    pub read_only: Option<bool>,
    pub stacking_type: StackingType,
}

impl GraphCell {
    /// A graph cell of which it is not said whether it is read-only.
    pub fn new(
        _type: CellType,
        id: String,
        data_links: Vec<String>,
        graph_type: GraphType,
        stacking_type: StackingType,
    ) -> (cell: GraphCell)
        ensures
            cell == (GraphCell {
                _type,
                id,
                data_links,
                graph_type,
                read_only: None,
                stacking_type,
            }),
    {
        GraphCell { _type, id, data_links, graph_type, read_only: None, stacking_type }
    }
}

/// Where a copy of a notebook goes.
#[derive(Clone, Debug)]
pub struct NotebookCopyDestination {
    pub title: String,
    pub workspace_id: String,
}

impl NotebookCopyDestination {
    pub fn new(title: String, workspace_id: String) -> (destination: NotebookCopyDestination)
        ensures
            destination == (NotebookCopyDestination { title, workspace_id }),
    {
        NotebookCopyDestination { title, workspace_id }
    }
}

/// A data source that is selected for a provider type.
#[derive(Clone, Debug)]
pub struct SelectedDataSource {
    /// The name of the selected data source.
    pub name: String,
    /// The name of the proxy through which the data source is reached, if it
    /// is reached through one.
    pub proxy_name: Option<String>,
}

/// The changes to make to a workspace. What is `None` stays as it is.
#[derive(Clone, Debug)]
pub struct UpdateWorkspace {
    pub display_name: Option<String>,
    pub owner: Option<String>,
    pub default_data_sources: Option<HashMap<String, SelectedDataSource>>,
}

impl UpdateWorkspace {
    /// An update that changes nothing.
    pub fn new() -> (update: UpdateWorkspace)
        ensures
            update.display_name is None,
            update.owner is None,
            update.default_data_sources is None,
    {
        UpdateWorkspace { display_name: None, owner: None, default_data_sources: None }
    }
}

/// The kind of service behind a data source.
#[derive(Clone, Copy, Debug, PartialEq, Eq, Structural)]
pub enum DataSourceType {
    Prometheus,
    Proxy,
    Elasticsearch,
    Loki,
    Sentry,
}

/// Whether a data source can be reached.
#[derive(Clone, Copy, Debug, PartialEq, Eq, Structural)]
pub enum DataSourceConnectionStatus {
    Connected,
    Error,
}

/// A data source without its configuration.
#[derive(Clone, Debug)]
pub struct DataSourceSummary {
    pub name: String,
    pub _type: DataSourceType,
    pub status: DataSourceConnectionStatus,
    pub error_message: Option<String>,
}

impl DataSourceSummary {
    /// A summary without an error message.
    pub fn new(name: String, _type: DataSourceType, status: DataSourceConnectionStatus) -> (summary:
        DataSourceSummary)
        ensures
            summary == (DataSourceSummary { name, _type, status, error_message: None }),
    {
        DataSourceSummary { name, _type, status, error_message: None }
    }
}

/// A label annotation as the API sends it.
#[derive(Clone, Debug)]
pub struct LabelAnnotation {
    pub _type: AnnotationType,
    pub offset: i32,
    pub key: String,
    pub value: Option<String>,
}

impl LabelAnnotation {
    /// A label annotation without a value.
    pub fn new(_type: AnnotationType, offset: i32, key: String) -> (annotation: LabelAnnotation)
        ensures
            annotation == (LabelAnnotation { _type, offset, key, value: None }),
    {
        LabelAnnotation { _type, offset, key, value: None }
    }
}

/// The title of a token that is to be created.
#[derive(Clone, Debug)]
pub struct NewToken {
    pub title: String,
}

impl NewToken {
    pub fn new(title: &str) -> (token: Self)
        ensures
            token.title@ == title@,
    {
        NewToken { title: title.to_owned() }
    }
}

} // verus!
