//! Sorting of listings: the field to sort by and the direction, with the
//! SQL names of both.

use vstd::prelude::*;
use vstd::string::StringExecFns;

verus! {

/// The direction in which a listing is sorted.
#[derive(Clone, Copy, Debug, PartialEq, Eq, Structural)]
pub enum SortDirection {
    Ascending,
    Descending,
}

impl SortDirection {
    /// The SQL keyword of the direction.
    pub open spec fn sql(self) -> Seq<char> {
        match self {
            SortDirection::Ascending => "ASC"@,
            SortDirection::Descending => "DESC"@,
        }
    }

    #[inline]
    pub fn to_sql(&self) -> (sql: &'static str)
        ensures
            sql@ == self.sql(),
    {
        match self {
            SortDirection::Ascending => "ASC",
            SortDirection::Descending => "DESC",
        }
    }
}

/// A field by which a listing can be sorted. Each kind of listing names the
/// field and the direction that it is sorted by when none is asked for.
pub trait SortField: Sized {
    /// The field that a listing is sorted by when none is asked for.
    spec fn default_field() -> Self;

    /// The direction that a listing is sorted in when none is asked for.
    spec fn default_direction() -> SortDirection;

    fn default_sort_field() -> (field: Self)
        ensures
            field == Self::default_field(),
    ;

    fn default_sort_direction() -> (direction: SortDirection)
        ensures
            direction == Self::default_direction(),
    ;
}

/// The order of a listing: the field to sort by and the direction.
#[derive(Debug)]
pub struct Sorting<T: SortField> {
    pub sort_by: T,
    pub sort_direction: SortDirection,
}

impl<T: SortField> Sorting<T> {
    /// Creates a new `Sorting` from a field and a direction.
    pub fn new(sort_by: T, sort_direction: SortDirection) -> (sorting: Self)
        ensures
            sorting.sort_by == sort_by,
            sorting.sort_direction == sort_direction,
    {
        Sorting { sort_by, sort_direction }
    }

    /// Sort by T and its default sort direction.
    pub fn sort_by(sort_by: T) -> (sorting: Self)
        ensures
            sorting.sort_by == sort_by,
            sorting.sort_direction == T::default_direction(),
    {
        Sorting { sort_by, sort_direction: T::default_sort_direction() }
    }

    /// Sort by T and force the sort direction to be ascending.
    pub fn sort_ascending_by(sort_by: T) -> (sorting: Self)
        ensures
            sorting.sort_by == sort_by,
            sorting.sort_direction == SortDirection::Ascending,
    {
        Self::new(sort_by, SortDirection::Ascending)
    }

    /// Sort by T and force the sort direction to be descending.
    pub fn sort_descending_by(sort_by: T) -> (sorting: Self)
        ensures
            sorting.sort_by == sort_by,
            sorting.sort_direction == SortDirection::Descending,
    {
        Self::new(sort_by, SortDirection::Descending)
    }
}

impl<T: SortField> Default for Sorting<T> {
    fn default() -> (sorting: Self)
        ensures
            sorting.sort_by == T::default_field(),
            sorting.sort_direction == T::default_direction(),
    {
        Sorting { sort_by: T::default_sort_field(), sort_direction: T::default_sort_direction() }
    }
}

/// The fields by which a listing of templates can be sorted.
#[derive(Clone, Copy, Debug, PartialEq, Eq, Structural)]
pub enum TemplateListSortFields {
    Name,
    CreatedAt,
    UpdatedAt,
}

impl TemplateListSortFields {
    /// The SQL name of the field.
    pub open spec fn sql(self) -> Seq<char> {
        match self {
            TemplateListSortFields::Name => "name"@,
            TemplateListSortFields::CreatedAt => "created_at"@,
            TemplateListSortFields::UpdatedAt => "updated_at"@,
        }
    }

    #[inline]
    pub fn to_sql(&self) -> (sql: &'static str)
        ensures
            sql@ == self.sql(),
    {
        match self {
            TemplateListSortFields::Name => "name",
            TemplateListSortFields::CreatedAt => "created_at",
            TemplateListSortFields::UpdatedAt => "updated_at",
        }
    }
}

impl SortField for TemplateListSortFields {
    open spec fn default_field() -> Self {
        TemplateListSortFields::Name
    }

    open spec fn default_direction() -> SortDirection {
        SortDirection::Ascending
    }

    #[inline]
    fn default_sort_field() -> (field: Self) {
        TemplateListSortFields::Name
    }

    #[inline]
    fn default_sort_direction() -> (direction: SortDirection) {
        SortDirection::Ascending
    }
}

/// The fields by which a listing of snippets can be sorted.
#[derive(Clone, Copy, Debug, PartialEq, Eq, Structural)]
pub enum SnippetListSortFields {
    Name,
    CreatedAt,
    UpdatedAt,
}

impl SnippetListSortFields {
    /// The SQL name of the field.
    pub open spec fn sql(self) -> Seq<char> {
        match self {
            SnippetListSortFields::Name => "name"@,
            SnippetListSortFields::CreatedAt => "created_at"@,
            SnippetListSortFields::UpdatedAt => "updated_at"@,
        }
    }

    #[inline]
    pub fn to_sql(&self) -> (sql: &'static str)
        ensures
            sql@ == self.sql(),
    {
        match self {
            SnippetListSortFields::Name => "name",
            SnippetListSortFields::CreatedAt => "created_at",
            SnippetListSortFields::UpdatedAt => "updated_at",
        }
    }
}

impl SortField for SnippetListSortFields {
    open spec fn default_field() -> Self {
        SnippetListSortFields::Name
    }

    open spec fn default_direction() -> SortDirection {
        SortDirection::Ascending
    }

    #[inline]
    fn default_sort_field() -> (field: Self) {
        SnippetListSortFields::Name
    }

    #[inline]
    fn default_sort_direction() -> (direction: SortDirection) {
        SortDirection::Ascending
    }
}

/// The fields by which a listing of events can be sorted.
#[derive(Clone, Copy, Debug, PartialEq, Eq, Structural)]
pub enum EventSortFields {
    Title,
    OccurrenceTime,
    CreatedAt,
    UpdatedAt,
}

impl EventSortFields {
    /// The SQL name of the field.
    pub open spec fn sql(self) -> Seq<char> {
        match self {
            EventSortFields::Title => "title"@,
            EventSortFields::OccurrenceTime => "occurrence_time"@,
            EventSortFields::CreatedAt => "created_at"@,
            EventSortFields::UpdatedAt => "updated_at"@,
        }
    }

    #[inline]
    pub fn to_sql(&self) -> (sql: &'static str)
        ensures
            sql@ == self.sql(),
    {
        match self {
            EventSortFields::Title => "title",
            EventSortFields::OccurrenceTime => "occurrence_time",
            EventSortFields::CreatedAt => "created_at",
            EventSortFields::UpdatedAt => "updated_at",
        }
    }
}

impl SortField for EventSortFields {
    open spec fn default_field() -> Self {
        EventSortFields::OccurrenceTime
    }

    open spec fn default_direction() -> SortDirection {
        SortDirection::Ascending
    }

    #[inline]
    fn default_sort_field() -> (field: Self) {
        EventSortFields::OccurrenceTime
    }

    #[inline]
    fn default_sort_direction() -> (direction: SortDirection) {
        SortDirection::Ascending
    }
}

/// The fields by which a listing of tokens can be sorted.
#[derive(Clone, Copy, Debug, PartialEq, Eq, Structural)]
pub enum TokenListSortFields {
    Title,
    CreatedAt,
    ExpiresAt,
}

impl TokenListSortFields {
    /// The SQL name of the field.
    pub open spec fn sql(self) -> Seq<char> {
        match self {
            TokenListSortFields::Title => "title"@,
            TokenListSortFields::CreatedAt => "created_at"@,
            TokenListSortFields::ExpiresAt => "expires_at"@,
        }
    }

    #[inline]
    pub fn to_sql(&self) -> (sql: &'static str)
        ensures
            sql@ == self.sql(),
    {
        match self {
            TokenListSortFields::Title => "title",
            TokenListSortFields::CreatedAt => "created_at",
            TokenListSortFields::ExpiresAt => "expires_at",
        }
    }
}

impl SortField for TokenListSortFields {
    open spec fn default_field() -> Self {
        TokenListSortFields::Title
    }

    open spec fn default_direction() -> SortDirection {
        SortDirection::Ascending
    }

    #[inline]
    fn default_sort_field() -> (field: Self) {
        TokenListSortFields::Title
    }

    #[inline]
    fn default_sort_direction() -> (direction: SortDirection) {
        SortDirection::Ascending
    }
}

/// The fields by which a listing of the members of a workspace can be sorted.
#[derive(Clone, Copy, Debug, PartialEq, Eq, Structural)]
pub enum WorkspaceMembershipSortFields {
    Name,
    Email,
    JoinedAt,
}

impl WorkspaceMembershipSortFields {
    /// The SQL name of the field, where the table of users goes by the given
    /// alias.
    pub open spec fn sql(self, users_table_alias: Seq<char>) -> Seq<char> {
        match self {
            WorkspaceMembershipSortFields::Name => users_table_alias + ".name"@,
            WorkspaceMembershipSortFields::Email => users_table_alias + ".email"@,
            WorkspaceMembershipSortFields::JoinedAt => "created_at"@,
        }
    }

    pub fn to_sql(&self, users_table_alias: &'static str) -> (sql: String)
        ensures
            sql@ == self.sql(users_table_alias@),
    {
        match self {
            WorkspaceMembershipSortFields::Name => String::from_str(users_table_alias).concat(
                ".name",
            ),
            WorkspaceMembershipSortFields::Email => String::from_str(users_table_alias).concat(
                ".email",
            ),
            WorkspaceMembershipSortFields::JoinedAt => String::from_str("created_at"),
        }
    }
}

impl SortField for WorkspaceMembershipSortFields {
    open spec fn default_field() -> Self {
        WorkspaceMembershipSortFields::Name
    }

    open spec fn default_direction() -> SortDirection {
        SortDirection::Ascending
    }

    #[inline]
    fn default_sort_field() -> (field: Self) {
        WorkspaceMembershipSortFields::Name
    }

    #[inline]
    fn default_sort_direction() -> (direction: SortDirection) {
        SortDirection::Ascending
    }
}

/// The fields by which a listing of workspaces can be sorted.
#[derive(Clone, Copy, Debug, PartialEq, Eq, Structural)]
pub enum WorkspaceListingSortFields {
    Name,
    Type,
    JoinedAt,
}

impl WorkspaceListingSortFields {
    /// The SQL name of the field.
    pub open spec fn sql(self) -> Seq<char> {
        match self {
            WorkspaceListingSortFields::Name => "name"@,
            WorkspaceListingSortFields::Type => "ty"@,
            WorkspaceListingSortFields::JoinedAt => "created_at"@,
        }
    }

    #[inline]
    pub fn to_sql(&self) -> (sql: &'static str)
        ensures
            sql@ == self.sql(),
    {
        match self {
            WorkspaceListingSortFields::Name => "name",
            WorkspaceListingSortFields::Type => "ty",
            WorkspaceListingSortFields::JoinedAt => "created_at",
        }
    }
}

impl SortField for WorkspaceListingSortFields {
    open spec fn default_field() -> Self {
        WorkspaceListingSortFields::Name
    }

    open spec fn default_direction() -> SortDirection {
        SortDirection::Ascending
    }

    #[inline]
    fn default_sort_field() -> (field: Self) {
        WorkspaceListingSortFields::Name
    }

    #[inline]
    fn default_sort_direction() -> (direction: SortDirection) {
        SortDirection::Ascending
    }
}

/// The fields by which a listing of workspace invitations can be sorted.
#[derive(Clone, Copy, Debug, PartialEq, Eq, Structural)]
pub enum WorkspaceInviteListingSortFields {
    Id,
    Sender,
    Receiver,
    CreatedAt,
    ExpiresAt,
}

impl WorkspaceInviteListingSortFields {
    /// The SQL name of the field.
    pub open spec fn sql(self) -> Seq<char> {
        match self {
            WorkspaceInviteListingSortFields::Id => "id"@,
            WorkspaceInviteListingSortFields::Sender => "sender"@,
            WorkspaceInviteListingSortFields::Receiver => "receiver"@,
            WorkspaceInviteListingSortFields::CreatedAt => "created_at"@,
            WorkspaceInviteListingSortFields::ExpiresAt => "expires_at"@,
        }
    }

    #[inline]
    pub fn to_sql(&self) -> (sql: &'static str)
        ensures
            sql@ == self.sql(),
    {
        match self {
            WorkspaceInviteListingSortFields::Id => "id",
            WorkspaceInviteListingSortFields::Sender => "sender",
            WorkspaceInviteListingSortFields::Receiver => "receiver",
            WorkspaceInviteListingSortFields::CreatedAt => "created_at",
            WorkspaceInviteListingSortFields::ExpiresAt => "expires_at",
        }
    }
}

impl SortField for WorkspaceInviteListingSortFields {
    open spec fn default_field() -> Self {
        WorkspaceInviteListingSortFields::Id
    }

    open spec fn default_direction() -> SortDirection {
        SortDirection::Ascending
    }

    #[inline]
    fn default_sort_field() -> (field: Self) {
        WorkspaceInviteListingSortFields::Id
    }

    #[inline]
    fn default_sort_direction() -> (direction: SortDirection) {
        SortDirection::Ascending
    }
}

/// The fields by which a listing of proxies can be sorted.
#[derive(Clone, Copy, Debug, PartialEq, Eq, Structural)]
pub enum ProxyListingSortFields {
    Id,
    Name,
    CreatedAt,
    UpdatedAt,
    Status,
}

impl ProxyListingSortFields {
    /// The SQL name of the field.
    pub open spec fn sql(self) -> Seq<char> {
        match self {
            ProxyListingSortFields::Id => "id"@,
            ProxyListingSortFields::Name => "name"@,
            ProxyListingSortFields::CreatedAt => "created_at"@,
            ProxyListingSortFields::UpdatedAt => "updated_at"@,
            ProxyListingSortFields::Status => "status"@,
        }
    }

    #[inline]
    pub fn to_sql(&self) -> (sql: &'static str)
        ensures
            sql@ == self.sql(),
    {
        match self {
            ProxyListingSortFields::Id => "id",
            ProxyListingSortFields::Name => "name",
            ProxyListingSortFields::CreatedAt => "created_at",
            ProxyListingSortFields::UpdatedAt => "updated_at",
            ProxyListingSortFields::Status => "status",
        }
    }
}

impl SortField for ProxyListingSortFields {
    open spec fn default_field() -> Self {
        ProxyListingSortFields::Name
    }

    open spec fn default_direction() -> SortDirection {
        SortDirection::Ascending
    }

    #[inline]
    fn default_sort_field() -> (field: Self) {
        ProxyListingSortFields::Name
    }

    #[inline]
    fn default_sort_direction() -> (direction: SortDirection) {
        SortDirection::Ascending
    }
}

/// The fields by which a listing of data sources can be sorted.
#[derive(Clone, Copy, Debug, PartialEq, Eq, Structural)]
pub enum DataSourceListingSortFields {
    Id,
    Name,
    ProxyName,
    CreatedAt,
    UpdatedAt,
    Status,
}

impl DataSourceListingSortFields {
    /// The SQL name of the field.
    pub open spec fn sql(self) -> Seq<char> {
        match self {
            DataSourceListingSortFields::Id => "id"@,
            DataSourceListingSortFields::Name => "name"@,
            DataSourceListingSortFields::ProxyName => "proxy_name"@,
            DataSourceListingSortFields::CreatedAt => "created_at"@,
            DataSourceListingSortFields::UpdatedAt => "updated_at"@,
            DataSourceListingSortFields::Status => "status"@,
        }
    }

    #[inline]
    pub fn to_sql(&self) -> (sql: &'static str)
        ensures
            sql@ == self.sql(),
    {
        match self {
            DataSourceListingSortFields::Id => "id",
            DataSourceListingSortFields::Name => "name",
            DataSourceListingSortFields::ProxyName => "proxy_name",
            DataSourceListingSortFields::CreatedAt => "created_at",
            DataSourceListingSortFields::UpdatedAt => "updated_at",
            DataSourceListingSortFields::Status => "status",
        }
    }
}

impl SortField for DataSourceListingSortFields {
    open spec fn default_field() -> Self {
        DataSourceListingSortFields::Name
    }

    open spec fn default_direction() -> SortDirection {
        SortDirection::Ascending
    }

    #[inline]
    fn default_sort_field() -> (field: Self) {
        DataSourceListingSortFields::Name
    }

    #[inline]
    fn default_sort_direction() -> (direction: SortDirection) {
        SortDirection::Ascending
    }
}

/// The fields by which a listing of views can be sorted.
#[derive(Clone, Copy, Debug, PartialEq, Eq, Structural)]
pub enum ViewSortFields {
    Name,
    DisplayName,
    Description,
    Labels,
    CreatedAt,
    UpdatedAt,
}

impl ViewSortFields {
    /// The SQL name of the field.
    pub open spec fn sql(self) -> Seq<char> {
        match self {
            ViewSortFields::Name => "name"@,
            ViewSortFields::DisplayName => "display_name"@,
            ViewSortFields::Description => "description"@,
            ViewSortFields::Labels => "labels"@,
            ViewSortFields::CreatedAt => "created_at"@,
            ViewSortFields::UpdatedAt => "updated_at"@,
        }
    }

    #[inline]
    pub fn to_sql(&self) -> (sql: &'static str)
        ensures
            sql@ == self.sql(),
    {
        match self {
            ViewSortFields::Name => "name",
            ViewSortFields::DisplayName => "display_name",
            ViewSortFields::Description => "description",
            ViewSortFields::Labels => "labels",
            ViewSortFields::CreatedAt => "created_at",
            ViewSortFields::UpdatedAt => "updated_at",
        }
    }
}

impl SortField for ViewSortFields {
    open spec fn default_field() -> Self {
        ViewSortFields::DisplayName
    }

    open spec fn default_direction() -> SortDirection {
        SortDirection::Ascending
    }

    #[inline]
    fn default_sort_field() -> (field: Self) {
        ViewSortFields::DisplayName
    }

    #[inline]
    fn default_sort_direction() -> (direction: SortDirection) {
        SortDirection::Ascending
    }
}

/// The fields by which a listing of notebooks can be sorted.
#[derive(Clone, Copy, Debug, PartialEq, Eq, Structural)]
pub enum NotebookSortFields {
    Title,
    CreatedAt,
    UpdatedAt,
}

impl NotebookSortFields {
    /// The SQL name of the field.
    pub open spec fn sql(self) -> Seq<char> {
        match self {
            NotebookSortFields::Title => "title"@,
            NotebookSortFields::CreatedAt => "created_at"@,
            NotebookSortFields::UpdatedAt => "updated_at"@,
        }
    }

    #[inline]
    pub fn to_sql(&self) -> (sql: &'static str)
        ensures
            sql@ == self.sql(),
    {
        match self {
            NotebookSortFields::Title => "title",
            NotebookSortFields::CreatedAt => "created_at",
            NotebookSortFields::UpdatedAt => "updated_at",
        }
    }
}

impl SortField for NotebookSortFields {
    open spec fn default_field() -> Self {
        NotebookSortFields::UpdatedAt
    }

    open spec fn default_direction() -> SortDirection {
        SortDirection::Ascending
    }

    #[inline]
    fn default_sort_field() -> (field: Self) {
        NotebookSortFields::UpdatedAt
    }

    #[inline]
    fn default_sort_direction() -> (direction: SortDirection) {
        SortDirection::Ascending
    }
}

} // verus!
