//! Front matter: the typed values that stand at the head of a notebook, and
//! the schemas that say which values a notebook may hold.

use crate::timestamps::{parsed_timestamp, Timestamp};
use vstd::prelude::*;
use vstd::string::StringExecFns;

verus! {

/// Why a front matter value was refused.
#[derive(Clone, Debug)]
pub enum FrontMatterValidationError {
    /// The value is not written in the format of its type.
    Format { message: String },
    /// The value is of another type than was expected.
    Variant { got: String, expected: String },
}

impl FrontMatterValidationError {
    /// The error for a value of the type `got` where one of the type
    /// `expected` was asked for.
    pub fn wrong_variant(got: &str, expected: &str) -> (error: Self)
        ensures
            error matches FrontMatterValidationError::Variant { got: g, expected: e } && g@ == got@
                && e@ == expected@,
    {
        FrontMatterValidationError::Variant { got: got.to_owned(), expected: expected.to_owned() }
    }

    /// The error in words.
    pub open spec fn text(self) -> Seq<char> {
        match self {
            FrontMatterValidationError::Format { message } => "unexpected format: "@ + message@,
            FrontMatterValidationError::Variant { got, expected } => {
                "unexpected variant: expected "@ + expected@ + " but got "@ + got@
            },
        }
    }

    /// The error in words.
    pub fn message(&self) -> (message: String)
        ensures
            message@ == self.text(),
    {
        match self {
            FrontMatterValidationError::Format { message } => {
                String::from_str("unexpected format: ").concat(message.as_str())
            },
            FrontMatterValidationError::Variant { got, expected } => {
                String::from_str("unexpected variant: expected ").concat(
                    expected.as_str(),
                ).concat(" but got ").concat(got.as_str())
            },
        }
    }
}

/// A text value.
#[derive(Clone, Debug)]
pub struct FrontMatterStringValue(pub String);

impl FrontMatterStringValue {
    /// The value that holds the given text.
    pub fn from_text(value: &str) -> (result: Self)
        ensures
            result.0@ == value@,
    {
        FrontMatterStringValue(value.to_owned())
    }
}

/// A list of text values.
#[derive(Clone, Debug)]
pub struct FrontMatterStringList(pub Vec<FrontMatterStringValue>);

/// A date-time value.
#[derive(Clone, Debug)]
pub struct FrontMatterDateTimeValue(pub Timestamp);

impl FrontMatterDateTimeValue {
    /// The value for a text that is an RFC 3339 date-time; for another text,
    /// the error that tells of its format.
    pub fn parse(value: &str) -> (result: Result<Self, FrontMatterValidationError>)
        ensures
            match result {
                Ok(parsed) => parsed_timestamp(value@) == Some(parsed.0@),
                Err(error) => {
                    &&& parsed_timestamp(value@) is None
                    &&& error matches FrontMatterValidationError::Format { message } && message@
                        == "invalid timestamp"@
                },
            },
    {
        match Timestamp::parse(value) {
            Ok(timestamp) => Ok(FrontMatterDateTimeValue(timestamp)),
            Err(error) => Err(
                FrontMatterValidationError::Format { message: error.message().to_owned() },
            ),
        }
    }
}

/// A list of date-time values.
#[derive(Clone, Debug)]
pub struct FrontMatterDateTimeList(pub Vec<FrontMatterDateTimeValue>);

/// A user: the id, and the name as it was when the value was written.
#[derive(Clone, Debug)]
pub struct FrontMatterUserValue {
    pub id: String,
    pub name: String,
}

impl FrontMatterUserValue {
    /// The user with the given id, of whom no name is known.
    pub fn from_id(id: String) -> (user: Self)
        ensures
            user.id == id,
            user.name@.len() == 0,
    {
        FrontMatterUserValue { id, name: String::new() }
    }
}

/// A list of users.
#[derive(Clone, Debug)]
pub struct FrontMatterUserList(pub Vec<FrontMatterUserValue>);

/// The kind of thing that a reference of PagerDuty points to.
#[derive(Clone, Copy, Debug, PartialEq, Eq, Structural)]
pub enum PagerDutyResourceReferenceType {
    EscalationPolicy,
    Incident,
    IncidentWorkflow,
    Priority,
    Service,
    Team,
    User,
    WorkflowTrigger,
}

/// A reference to a resource of PagerDuty.
#[derive(Clone, Debug)]
pub struct PagerDutyResourceReference {
    pub id: String,
    pub summary: String,
    pub api_url: String,
    pub html_url: String,
    pub ty: PagerDutyResourceReferenceType,
}

/// An incident of PagerDuty.
#[derive(Clone, Debug)]
pub struct FrontMatterPagerDutyIncident {
    pub incident_id: String,
    pub number: u64,
    pub title: String,
    pub status: String,
    pub created_at: Timestamp,
    pub updated_at: Timestamp,
    pub resolved_at: Option<Timestamp>,
    pub api_url: String,
    pub html_url: String,
    pub incident_key: String,
    pub service: Option<PagerDutyResourceReference>,
    pub escalation_policy: Option<PagerDutyResourceReference>,
    pub priority: Option<PagerDutyResourceReference>,
    pub urgency: Option<String>,
    pub resolve_reason: Option<String>,
    pub assignees: Vec<String>,
    pub teams: Vec<String>,
}

/// A pull request of GitHub.
#[derive(Clone, Debug)]
pub struct FrontMatterGitHubPullRequest {
    pub html_url: String,
    pub id: u64,
    pub repo_owner: String,
    pub repo_name: String,
    pub number: u64,
    pub title: String,
    pub branch: String,
    pub commits: u64,
    pub author: String,
    pub author_avatar_url: String,
    pub assignee: Option<String>,
    pub assignee_avatar_url: Option<String>,
    pub labels: Vec<String>,
    pub reviewers: Vec<String>,
    pub state: String,
    pub draft: bool,
    pub merged: bool,
    pub created_at: Timestamp,
    pub updated_at: Timestamp,
}

/// A front matter value.
#[derive(Clone, Debug)]
pub enum FrontMatterValue {
    DateTime(FrontMatterDateTimeValue),
    DateTimeList(FrontMatterDateTimeList),
    User(FrontMatterUserValue),
    UserList(FrontMatterUserList),
    String(FrontMatterStringValue),
    StringList(FrontMatterStringList),
    PagerDutyIncident(Box<FrontMatterPagerDutyIncident>),
    GitHubPullRequest(Box<FrontMatterGitHubPullRequest>),
}

impl FrontMatterValue {
    /// The name of the value's type.
    pub open spec fn kind_name(self) -> Seq<char> {
        match self {
            FrontMatterValue::String(_) => "string"@,
            FrontMatterValue::StringList(_) => "string_list"@,
            FrontMatterValue::DateTime(_) => "date_time"@,
            FrontMatterValue::DateTimeList(_) => "date_time_list"@,
            FrontMatterValue::User(_) => "user"@,
            FrontMatterValue::UserList(_) => "user_list"@,
            FrontMatterValue::PagerDutyIncident(_) => "pagerduty_incident"@,
            FrontMatterValue::GitHubPullRequest(_) => "github_pull_request"@,
        }
    }

    pub fn get_type(&self) -> (name: &'static str)
        ensures
            name@ == self.kind_name(),
    {
        match self {
            FrontMatterValue::String(_) => "string",
            FrontMatterValue::StringList(_) => "string_list",
            FrontMatterValue::DateTime(_) => "date_time",
            FrontMatterValue::DateTimeList(_) => "date_time_list",
            FrontMatterValue::User(_) => "user",
            FrontMatterValue::UserList(_) => "user_list",
            FrontMatterValue::PagerDutyIncident(_) => "pagerduty_incident",
            FrontMatterValue::GitHubPullRequest(_) => "github_pull_request",
        }
    }
}

/// A text that a schema offers for selection.
#[derive(Clone, Debug)]
pub struct FrontMatterEnumStringValue {
    value: String,
}

impl FrontMatterEnumStringValue {
    /// The option that offers the given text.
    pub fn new(value: &str) -> (option: Self)
        ensures
            option.value()@ == value@,
    {
        FrontMatterEnumStringValue { value: value.to_owned() }
    }

    /// The text that is offered.
    pub closed spec fn value(&self) -> String {
        self.value
    }
}

/// A date-time that a schema offers for selection.
#[derive(Clone, Debug)]
pub struct FrontMatterEnumDateTimeValue {
    value: Timestamp,
}

impl FrontMatterEnumDateTimeValue {
    /// The option that offers the given date-time.
    pub fn new(value: Timestamp) -> (option: Self)
        ensures
            option.value() == value,
    {
        FrontMatterEnumDateTimeValue { value }
    }

    /// The date-time that is offered.
    pub closed spec fn value(&self) -> Timestamp {
        self.value
    }
}

/// A user id that a schema offers for selection.
#[derive(Clone, Debug)]
pub struct FrontMatterEnumBase64UuidValue {
    value: String,
}

impl FrontMatterEnumBase64UuidValue {
    /// The option that offers the given id.
    pub fn new(value: String) -> (option: Self)
        ensures
            option.value() == value,
    {
        FrontMatterEnumBase64UuidValue { value }
    }

    /// The id that is offered.
    pub closed spec fn value(&self) -> String {
        self.value
    }
}

/// The schema of a text value.
#[derive(Clone, Debug)]
pub struct FrontMatterStringSchema {
    pub display_name: String,
    pub icon_name: Option<String>,
    pub multiple: bool,
    pub allow_extra_values: bool,
    pub options: Option<Vec<FrontMatterEnumStringValue>>,
    pub default_value: Option<FrontMatterEnumStringValue>,
}

/// The schema of a date-time value.
#[derive(Clone, Debug)]
pub struct FrontMatterDateTimeSchema {
    pub display_name: String,
    pub icon_name: Option<String>,
    pub multiple: bool,
    pub allow_extra_values: bool,
    pub options: Option<Vec<FrontMatterEnumDateTimeValue>>,
    pub default_value: Option<FrontMatterEnumDateTimeValue>,
}

/// The schema of a user value.
#[derive(Clone, Debug)]
pub struct FrontMatterUserSchema {
    pub display_name: String,
    pub icon_name: Option<String>,
    pub multiple: bool,
    pub allow_extra_values: bool,
    pub options: Option<Vec<FrontMatterEnumBase64UuidValue>>,
    pub default_value: Option<FrontMatterEnumBase64UuidValue>,
}

/// The schema of a front matter value.
#[derive(Clone, Debug)]
pub enum FrontMatterValueSchema {
    String(FrontMatterStringSchema),
    DateTime(FrontMatterDateTimeSchema),
    User(FrontMatterUserSchema),
}

/// One entry of a front matter schema: the key and the schema of its value.
#[derive(Clone, Debug)]
pub struct FrontMatterSchemaEntry {
    pub key: String,
    pub schema: FrontMatterValueSchema,
}

/// A front matter schema: its entries, in the order in which they are shown.
#[derive(Clone, Debug)]
pub struct FrontMatterSchema(pub Vec<FrontMatterSchemaEntry>);

} // verus!
