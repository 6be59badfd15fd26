use fiberplane::api_models::{
    AnnotationType, BooleanTemplateParameter, CellType, DataSourceConnectionStatus,
    DataSourceSummary, DataSourceType, GraphCell, GraphType, LabelAnnotation, NewToken,
    NotebookCopyDestination, StackingType, TemplateParameterType, TemplateSummary,
    UnknownTemplateParameter, UpdateWorkspace,
};
use fiberplane::documents::Notebook;
use fiberplane::front_matter::{
    FrontMatterDateTimeValue, FrontMatterStringList, FrontMatterStringValue, FrontMatterUserList,
    FrontMatterUserValue, FrontMatterValidationError, FrontMatterValue,
};
use fiberplane::inspector::{
    ApiServerError, ClientMessage, ClientMessageDetails, CommonError, Config, DataPath, Request,
    RequestAdded, RequestorError, Response, ServerError, ServerMessage, ServerMessageDetails,
    Workspace,
};
use fiberplane::notebooks::{Cell, TextCell};
use fiberplane::openapi::ResponseType;
use fiberplane::prometheus::{step_to_seconds, StepSize, StepUnit};
use fiberplane::providers::{FileField, QueryField};
use fiberplane::sorting::{
    DataSourceListingSortFields, EventSortFields, NotebookSortFields, ProxyListingSortFields,
    SnippetListSortFields, SortDirection, SortField, Sorting, TemplateListSortFields,
    TokenListSortFields, ViewSortFields, WorkspaceInviteListingSortFields,
    WorkspaceListingSortFields, WorkspaceMembershipSortFields,
};
use fiberplane::text::{debug_print_bytes, decimal};
use std::collections::BTreeMap;

#[test]
fn sort_fields_have_their_sql_names() {
    assert_eq!(SortDirection::Ascending.to_sql(), "ASC");
    assert_eq!(SortDirection::Descending.to_sql(), "DESC");
    assert_eq!(TemplateListSortFields::Name.to_sql(), "name");
    assert_eq!(TemplateListSortFields::UpdatedAt.to_sql(), "updated_at");
    assert_eq!(TemplateListSortFields::CreatedAt.to_sql(), "created_at");
    assert_eq!(SnippetListSortFields::Name.to_sql(), "name");
    assert_eq!(EventSortFields::OccurrenceTime.to_sql(), "occurrence_time");
    assert_eq!(EventSortFields::Title.to_sql(), "title");
    assert_eq!(TokenListSortFields::ExpiresAt.to_sql(), "expires_at");
    assert_eq!(WorkspaceListingSortFields::Type.to_sql(), "ty");
    assert_eq!(WorkspaceListingSortFields::JoinedAt.to_sql(), "created_at");
    assert_eq!(WorkspaceInviteListingSortFields::Sender.to_sql(), "sender");
    assert_eq!(WorkspaceInviteListingSortFields::Receiver.to_sql(), "receiver");
    assert_eq!(ProxyListingSortFields::Status.to_sql(), "status");
    assert_eq!(DataSourceListingSortFields::ProxyName.to_sql(), "proxy_name");
    assert_eq!(ViewSortFields::DisplayName.to_sql(), "display_name");
    assert_eq!(ViewSortFields::Labels.to_sql(), "labels");
    assert_eq!(NotebookSortFields::Title.to_sql(), "title");
    assert_eq!(WorkspaceMembershipSortFields::Name.to_sql("u"), "u.name");
    assert_eq!(WorkspaceMembershipSortFields::Email.to_sql("users"), "users.email");
    assert_eq!(WorkspaceMembershipSortFields::JoinedAt.to_sql("u"), "created_at");
}

#[test]
fn sorting_defaults() {
    let sorting: Sorting<NotebookSortFields> = Sorting::default();
    assert_eq!(sorting.sort_by, NotebookSortFields::UpdatedAt);
    assert_eq!(sorting.sort_direction, SortDirection::Ascending);
    assert_eq!(EventSortFields::default_sort_field(), EventSortFields::OccurrenceTime);
    assert_eq!(ViewSortFields::default_sort_field(), ViewSortFields::DisplayName);
    assert_eq!(WorkspaceInviteListingSortFields::default_sort_field(), WorkspaceInviteListingSortFields::Id);
    assert_eq!(ProxyListingSortFields::default_sort_direction(), SortDirection::Ascending);

    let by = Sorting::sort_by(TokenListSortFields::CreatedAt);
    assert_eq!(by.sort_by, TokenListSortFields::CreatedAt);
    assert_eq!(by.sort_direction, SortDirection::Ascending);
    let down = Sorting::sort_descending_by(TokenListSortFields::Title);
    assert_eq!(down.sort_direction, SortDirection::Descending);
    let up = Sorting::sort_ascending_by(TokenListSortFields::Title);
    assert_eq!(up.sort_direction, SortDirection::Ascending);
    let new = Sorting::new(ViewSortFields::Name, SortDirection::Descending);
    assert_eq!(new.sort_by, ViewSortFields::Name);
    assert_eq!(new.sort_direction, SortDirection::Descending);
}

#[test]
fn file_field_setters() {
    let field = FileField::new();
    assert_eq!(field.name, "");
    assert_eq!(field.label, "");
    assert!(!field.multiple);
    assert!(!field.required);
    let field = field.with_name("upload").with_label("Upload").multiple().required();
    assert_eq!(field.name, "upload");
    assert_eq!(field.label, "Upload");
    assert!(field.multiple);
    assert!(field.required);
    assert_eq!(QueryField::File(field).name(), "upload");
}

#[test]
fn server_messages() {
    let message = ServerMessage::new(ServerMessageDetails::Ack);
    assert!(message.message_id.is_none());
    assert!(matches!(message.details, ServerMessageDetails::Ack));
    let ack = ServerMessage::ack("7".to_string());
    assert_eq!(ack.message_id.as_deref(), Some("7"));
    assert!(matches!(ack.details, ServerMessageDetails::Ack));
    let error = ServerMessage::error(None, ServerError::InvalidMessage);
    assert!(error.message_id.is_none());
    assert!(matches!(
        error.details,
        ServerMessageDetails::Error(ServerError::InvalidMessage)
    ));
    let added = RequestAdded::new(12, Some(-3));
    assert_eq!(added.request_id(), 12);
    assert_eq!(added.inspector_id(), Some(-3));
    let reply = ServerMessage::reply(
        "8".to_string(),
        ServerMessageDetails::RequestAdded(Box::new(added)),
    );
    assert_eq!(reply.message_id.as_deref(), Some("8"));
    let told = ServerMessage::request_added(added);
    assert!(told.message_id.is_none());
    match told.details {
        ServerMessageDetails::RequestAdded(inner) => assert_eq!(*inner, added),
        other => panic!("unexpected details {:?}", other),
    }
}

#[test]
fn client_message_ids_are_decimal() {
    let message = ClientMessage::with_id(4_294_967_295, ClientMessageDetails::Debug);
    assert_eq!(message.message_id, "4294967295");
    assert_eq!(ClientMessage::with_id(0, ClientMessageDetails::Debug).message_id, "0");
    assert_eq!(decimal(0), "0");
    assert_eq!(decimal(9), "9");
    assert_eq!(decimal(10), "10");
    assert_eq!(decimal(1234567890), "1234567890");
    assert_eq!(decimal(u64::MAX), u64::MAX.to_string());
}

#[test]
fn requests_and_responses() {
    let mut headers = BTreeMap::new();
    headers.insert("a".to_string(), "b".to_string());
    let request = Request::new(
        1,
        "GET".to_string(),
        "http://localhost".to_string(),
        "body".to_string(),
        headers.clone(),
    );
    assert_eq!(request.id, 1);
    assert_eq!(request.method, "GET");
    assert_eq!(request.url, "http://localhost");
    assert_eq!(request.body.as_deref(), Some("body"));
    assert_eq!(request.headers, headers);
    let response = Response::new(2, 404, "u".to_string(), "".to_string(), headers.clone());
    assert_eq!(response.id, 2);
    assert_eq!(response.status, 404);
    assert_eq!(response.body.as_deref(), Some(""));
    assert_eq!(response.headers, headers);
}

#[test]
fn errors_of_the_server() {
    assert_eq!(CommonError::InternalServerError.status_code(), 500);
    assert_eq!(CommonError::InternalServerError.message(), "Internal server error");
    assert_eq!(RequestorError::Internal.status_code(), 500);
    assert_eq!(RequestorError::Internal.message(), "Internal server error");
    let error: ApiServerError<RequestorError> = ApiServerError::internal();
    assert!(matches!(
        error,
        ApiServerError::CommonError(CommonError::InternalServerError)
    ));
    assert!(matches!(
        ApiServerError::service(RequestorError::Internal),
        ApiServerError::ServiceError(RequestorError::Internal)
    ));
}

#[test]
fn workspaces_and_data_paths() {
    let workspace = Workspace::new("/tmp/w".to_string(), Config { port: 8788 });
    assert_eq!(workspace.port(), 8788);
    assert_eq!(DataPath::InMemory.as_path(), ":memory:");
    assert_eq!(DataPath::File("/tmp/db").as_path(), "/tmp/db");
}

#[test]
fn step_sizes() {
    let hours = StepSize { amount: 2, unit: StepUnit::Hours };
    assert_eq!(step_to_seconds(hours), Some(7200));
    assert_eq!(hours.to_string(), "2h");
    let minutes = StepSize { amount: 15, unit: StepUnit::Minutes };
    assert_eq!(step_to_seconds(minutes), Some(900));
    assert_eq!(minutes.to_string(), "15m");
    let seconds = StepSize { amount: u32::MAX, unit: StepUnit::Seconds };
    assert_eq!(step_to_seconds(seconds), Some(u32::MAX));
    assert_eq!(seconds.to_string(), "4294967295s");
    assert_eq!(step_to_seconds(StepSize { amount: 1_193_046, unit: StepUnit::Hours }), Some(4_294_965_600));
    assert_eq!(step_to_seconds(StepSize { amount: 1_193_047, unit: StepUnit::Hours }), None);
    assert_eq!(StepUnit::Seconds.to_str(), "s");
}

#[test]
fn bytes_for_a_reader() {
    assert_eq!(debug_print_bytes(b"hello"), "hello");
    assert_eq!(debug_print_bytes(&[]), "");
    assert_eq!(debug_print_bytes(&[0x66, 0xff, 0x6f]), "f\u{fffd}o");
    let exactly = vec![b'a'; 100];
    assert_eq!(debug_print_bytes(&exactly), "a".repeat(100));
    let more = vec![b'a'; 101];
    assert_eq!(debug_print_bytes(&more), format!("{}...", "a".repeat(100)));
}

#[test]
fn response_parts() {
    assert_eq!(
        ResponseType::Json.generate_response_part(),
        "\n        .json()\n        .await?;\n\n    Ok(response)"
    );
    assert_eq!(
        ResponseType::Text.generate_response_part(),
        "\n        .text()\n        .await?;\n\n    Ok(response)"
    );
    assert_eq!(ResponseType::Empty.generate_response_part(), ";\n\n    Ok(())");
    assert_eq!(
        ResponseType::fallback_response_part(),
        "\n        .bytes()\n        .await?;\n\n    Ok(response)"
    );
}

#[test]
fn front_matter_values() {
    assert_eq!(
        FrontMatterValue::String(FrontMatterStringValue::from_text("a")).get_type(),
        "string"
    );
    assert_eq!(
        FrontMatterValue::StringList(FrontMatterStringList(vec![])).get_type(),
        "string_list"
    );
    assert_eq!(
        FrontMatterValue::User(FrontMatterUserValue::from_id("id".to_string())).get_type(),
        "user"
    );
    assert_eq!(
        FrontMatterValue::UserList(FrontMatterUserList(vec![])).get_type(),
        "user_list"
    );
    let date_time = FrontMatterDateTimeValue::parse("2020-01-01T00:00:00Z").unwrap();
    assert_eq!(date_time.0.to_rfc3339(), "2020-01-01T00:00:00Z");
    assert_eq!(FrontMatterValue::DateTime(date_time).get_type(), "date_time");
    match FrontMatterDateTimeValue::parse("today") {
        Err(error) => assert_eq!(error.message(), "unexpected format: invalid timestamp"),
        Ok(value) => panic!("unexpected value {:?}", value),
    }

    let error = FrontMatterValidationError::wrong_variant("untyped", "number");
    assert_eq!(
        error.message(),
        "unexpected variant: expected number but got untyped"
    );
    let format = FrontMatterValidationError::Format {
        message: "invalid number".to_string(),
    };
    assert_eq!(format.message(), "unexpected format: invalid number");
}

#[test]
fn records_of_the_api() {
    let summary = TemplateSummary::new(
        "id".to_string(),
        "title".to_string(),
        "description".to_string(),
        "created".to_string(),
        "updated".to_string(),
    );
    assert_eq!(summary.id, "id");
    assert_eq!(summary.title, "title");
    assert_eq!(summary.description, "description");
    assert_eq!(summary.created_at, "created");
    assert_eq!(summary.updated_at, "updated");

    let unknown = UnknownTemplateParameter::new("p".to_string(), TemplateParameterType::Unknown);
    assert_eq!(unknown.name, "p");
    assert_eq!(unknown._type, TemplateParameterType::default());
    let boolean = BooleanTemplateParameter::new("b".to_string(), TemplateParameterType::Boolean);
    assert_eq!(boolean.default_value, None);
    assert_eq!(boolean._type.name(), "boolean");

    let graph = GraphCell::new(
        CellType::Graph,
        "g".to_string(),
        vec!["link".to_string()],
        GraphType::Line,
        StackingType::Stacked,
    );
    assert_eq!(graph.id, "g");
    assert_eq!(graph.data_links, vec!["link".to_string()]);
    assert_eq!(graph.graph_type, GraphType::Line);
    assert_eq!(graph.stacking_type, StackingType::Stacked);
    assert_eq!(graph.read_only, None);

    let destination = NotebookCopyDestination::new("t".to_string(), "w".to_string());
    assert_eq!(destination.title, "t");
    assert_eq!(destination.workspace_id, "w");

    let update = UpdateWorkspace::new();
    assert!(update.display_name.is_none());
    assert!(update.owner.is_none());
    assert!(update.default_data_sources.is_none());

    let source = DataSourceSummary::new(
        "s".to_string(),
        DataSourceType::Prometheus,
        DataSourceConnectionStatus::Connected,
    );
    assert_eq!(source.name, "s");
    assert_eq!(source.error_message, None);

    let label = LabelAnnotation::new(AnnotationType::Label, 4, "key".to_string());
    assert_eq!(label.offset, 4);
    assert_eq!(label.key, "key");
    assert_eq!(label.value, None);

    assert_eq!(NewToken::new("title").title, "title");
}

#[test]
fn cells_with_their_indices() {
    let mut notebook = Notebook::default();
    notebook.cells = vec![
        Cell::Text(TextCell::builder().content("a").id("x").build()),
        Cell::Text(TextCell::builder().content("b").id("y").build()),
    ];
    let cells = notebook.all_relevant_cells();
    assert_eq!(cells.len(), 2);
    assert_eq!(cells[0].0, 0);
    assert_eq!(cells[0].1.id(), "x");
    assert_eq!(cells[1].0, 1);
    assert_eq!(cells[1].1.content(), Some("b"));
}

#[derive(Debug)]
pub enum TestError {
    RequestNotFound,
    InvalidId,
}

#[test]
fn internal_error_and_service_errors() {
    let api_server_error: ApiServerError<TestError> = ApiServerError::internal();
    assert!(
        matches!(
            api_server_error,
            ApiServerError::CommonError(CommonError::InternalServerError)
        ),
        "returned error does not match expected error; got: {:?}",
        api_server_error
    );
    assert!(matches!(
        ApiServerError::service(TestError::InvalidId),
        ApiServerError::ServiceError(TestError::InvalidId)
    ));
    assert!(matches!(
        ApiServerError::service(TestError::RequestNotFound),
        ApiServerError::ServiceError(TestError::RequestNotFound)
    ));
}
