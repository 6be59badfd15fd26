//! Messages and records of the request inspector: what the server and its
//! clients send each other, and the requests and responses that were seen.

use crate::text::{decimal, decimal_text};
use std::collections::BTreeMap;
use vstd::prelude::*;

verus! {

/// Name of the header that carries the id of a websocket connection.
pub const FPX_WEBSOCKET_ID_HEADER: &'static str = "fpx-websocket-id";

/// Errors that the server reports to a client.
#[derive(Clone, Copy, Debug, PartialEq, Eq, Structural)]
pub enum ServerError {
    /// A message was received that could not be parsed.
    InvalidMessage,
}

/// Tells that a request was recorded.
#[derive(Clone, Copy, Debug, PartialEq, Eq, Structural)]
pub struct RequestAdded {
    /// The id of the request that has been captured.
    request_id: u32,
    /// The id of the inspector that was associated with the request, if any.
    inspector_id: Option<i64>,
}

impl RequestAdded {
    pub fn new(request_id: u32, inspector_id: Option<i64>) -> (added: Self)
        ensures
            added.request_id() == request_id,
            added.inspector_id() == inspector_id,
    {
        RequestAdded { request_id, inspector_id }
    }

    /// The id of the request that has been captured.
    #[verifier::when_used_as_spec(spec_request_id)]
    pub fn request_id(&self) -> (id: u32)
        ensures
            id == self.request_id(),
    {
        self.request_id
    }

    pub closed spec fn spec_request_id(&self) -> u32 {
        self.request_id
    }

    /// The id of the inspector that was associated with the request, if any.
    #[verifier::when_used_as_spec(spec_inspector_id)]
    pub fn inspector_id(&self) -> (id: Option<i64>)
        ensures
            id == self.inspector_id(),
    {
        self.inspector_id
    }

    pub closed spec fn spec_inspector_id(&self) -> Option<i64> {
        self.inspector_id
    }
}

/// What a message of the server says.
#[derive(Clone, Debug)]
pub enum ServerMessageDetails {
    /// A message was received and processed successfully.
    Ack,
    /// An error occurred on the server.
    Error(ServerError),
    /// A request has been captured.
    RequestAdded(Box<RequestAdded>),
}

/// Messages that are sent from the server to the client.
#[derive(Clone, Debug)]
pub struct ServerMessage {
    /// The id of the client message that this message answers, if it answers
    /// one.
    pub message_id: Option<String>,
    pub details: ServerMessageDetails,
}

impl ServerMessage {
    /// A message that answers no message of the client.
    pub fn new(details: ServerMessageDetails) -> (message: Self)
        ensures
            message.message_id is None,
            message.details == details,
    {
        ServerMessage { message_id: None, details }
    }

    /// The acknowledgement of the client message with the given id.
    pub fn ack(message_id: String) -> (message: Self)
        ensures
            message.message_id == Some(message_id),
            message.details is Ack,
    {
        Self::reply(message_id, ServerMessageDetails::Ack)
    }

    /// The report of an error, in answer to a client message if an id is
    /// given.
    pub fn error(message_id: Option<String>, err: ServerError) -> (message: Self)
        ensures
            message.message_id == message_id,
            message.details == ServerMessageDetails::Error(err),
    {
        ServerMessage { message_id, details: ServerMessageDetails::Error(err) }
    }

    /// An answer to the client message with the given id.
    pub fn reply(message_id: String, details: ServerMessageDetails) -> (message: Self)
        ensures
            message.message_id == Some(message_id),
            message.details == details,
    {
        ServerMessage { message_id: Some(message_id), details }
    }

    /// The message that tells of a captured request.
    pub fn request_added(added: RequestAdded) -> (message: Self)
        ensures
            message.message_id is None,
            message.details == ServerMessageDetails::RequestAdded(Box::new(added)),
    {
        Self::new(ServerMessageDetails::RequestAdded(Box::new(added)))
    }
}

/// What a message of a client says.
#[derive(Clone, Copy, Debug, PartialEq, Eq, Structural)]
pub enum ClientMessageDetails {
    Debug,
}

/// Messages that are sent from the client to the server.
#[derive(Clone, Debug)]
pub struct ClientMessage {
    /// A number, written in decimal, by which the server's answer names this
    /// message.
    pub message_id: String,
    pub details: ClientMessageDetails,
}

impl ClientMessage {
    /// The message with the given number as its id.
    pub fn with_id(message_id: u32, details: ClientMessageDetails) -> (message: Self)
        ensures
            message.message_id@ == decimal_text(message_id as nat),
            message.details == details,
    {
        ClientMessage { message_id: decimal(message_id as u64), details }
    }
}

/// A request that was captured.
#[derive(Clone, Debug)]
pub struct Request {
    pub id: u32,
    pub method: String,
    pub url: String,
    pub body: Option<String>,
    pub headers: BTreeMap<String, String>,
}

impl Request {
    pub fn new(
        id: u32,
        method: String,
        url: String,
        body: String,
        headers: BTreeMap<String, String>,
    ) -> (request: Self)
        ensures
            request.id == id,
            request.method == method,
            request.url == url,
            request.body == Some(body),
            request.headers == headers,
    {
        Request { id, method, url, headers, body: Some(body) }
    }
}

/// A response that was captured.
#[derive(Clone, Debug)]
pub struct Response {
    pub id: u32,
    pub status: u16,
    pub url: String,
    pub body: Option<String>,
    pub headers: BTreeMap<String, String>,
}

impl Response {
    pub fn new(
        id: u32,
        status: u16,
        url: String,
        body: String,
        headers: BTreeMap<String, String>,
    ) -> (response: Self)
        ensures
            response.id == id,
            response.status == status,
            response.url == url,
            response.body == Some(body),
            response.headers == headers,
    {
        Response { id, status, url, headers, body: Some(body) }
    }
}

/// A request that a client asks the server to make.
#[derive(Clone, Debug)]
pub struct RequestorRequestPayload {
    pub method: String,
    pub url: String,
    pub body: Option<String>,
    pub headers: Option<BTreeMap<String, String>>,
}

/// Errors of the service that makes requests on behalf of a client.
#[derive(Clone, Copy, Debug, PartialEq, Eq, Structural)]
pub enum RequestorError {
    Internal,
}

impl RequestorError {
    /// The HTTP status that the error is reported with.
    pub fn status_code(&self) -> (status: u16)
        ensures
            status == 500,
    {
        500
    }

    /// The error in words.
    pub fn message(&self) -> (message: &'static str)
        ensures
            message@ == "Internal server error"@,
    {
        "Internal server error"
    }
}

/// Errors that any endpoint of the server can report.
#[derive(Clone, Copy, Debug, PartialEq, Eq, Structural)]
pub enum CommonError {
    InternalServerError,
}

impl CommonError {
    /// The HTTP status that the error is reported with.
    pub fn status_code(&self) -> (status: u16)
        ensures
            status == 500,
    {
        500
    }

    /// The error in words.
    pub fn message(&self) -> (message: &'static str)
        ensures
            message@ == "Internal server error"@,
    {
        "Internal server error"
    }
}

/// An error of an endpoint: one of the service behind it, or one that any
/// endpoint can report.
#[derive(Debug)]
pub enum ApiServerError<E> {
    /// An error of the service, reported with the service's own status.
    ServiceError(E),
    /// An error that any endpoint can report.
    CommonError(CommonError),
}

impl<E> ApiServerError<E> {
    /// The error that stands for a failure of which the service has no
    /// account: an internal server error.
    pub fn internal() -> (error: Self)
        ensures
            error == ApiServerError::<E>::CommonError(CommonError::InternalServerError),
    {
        ApiServerError::CommonError(CommonError::InternalServerError)
    }

    /// The error of a service.
    pub fn service(error: E) -> (wrapped: Self)
        ensures
            wrapped == ApiServerError::ServiceError(error),
    {
        ApiServerError::ServiceError(error)
    }
}

/// The settings of a workspace.
#[derive(Clone, Copy, Debug, PartialEq, Eq, Structural)]
pub struct Config {
    pub port: u16,
}

/// A workspace: a directory with its settings.
#[derive(Clone, Debug)]
pub struct Workspace {
    path: String,
    config: Config,
}

impl Workspace {
    pub fn new(path: String, config: Config) -> (workspace: Self)
        ensures
            workspace.path() == path,
            workspace.config() == config,
    {
        Workspace { path, config }
    }

    /// The directory of the workspace.
    pub closed spec fn path(&self) -> String {
        self.path
    }

    /// The settings of the workspace.
    pub closed spec fn config(&self) -> Config {
        self.config
    }

    /// The port that the workspace's server listens on.
    pub fn port(&self) -> (port: u16)
        ensures
            port == self.config().port,
    {
        self.config.port
    }
}

/// Why a workspace could not be opened from a path.
#[derive(Clone, Debug)]
pub enum OpenWorkspaceByPathError {
    ConfigFileMissing { path: String },
    InvalidConfiguration { message: String },
}

/// Where the data of the inspector is kept.
#[derive(Clone, Copy, Debug)]
pub enum DataPath<'a> {
    /// In memory: the data is gone when the process ends.
    InMemory,
    /// In the file at the given path.
    File(&'a str),
}

impl<'a> DataPath<'a> {
    /// The path as the database takes it: `:memory:` for data in memory.
    pub fn as_path(&self) -> (path: &'a str)
        ensures
            path@ == match *self {
                DataPath::InMemory => ":memory:"@,
                DataPath::File(file) => file@,
            },
    {
        match self {
            DataPath::InMemory => ":memory:",
            DataPath::File(path) => path,
        }
    }
}

} // verus!
