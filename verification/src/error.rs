//! What can go wrong, and what the client is told.
use crate::json::{Json, JsonView, fields_view};
use vstd::prelude::*;
use vstd::string::*;

verus! {

/// A failure of the Codex app-server.
#[derive(Debug, Clone, PartialEq, Eq)]
pub enum AppServerError {
    Spawn(String),
    Closed,
    Rpc(String),
    Protocol(String),
}

/// The content of an [`AppServerError`].
pub enum AppServerErrorView {
    Spawn(Seq<char>),
    Closed,
    Rpc(Seq<char>),
    Protocol(Seq<char>),
}

impl View for AppServerError {
    type V = AppServerErrorView;

    open spec fn view(&self) -> AppServerErrorView {
        match self {
            AppServerError::Spawn(reason) => AppServerErrorView::Spawn(reason@),
            AppServerError::Closed => AppServerErrorView::Closed,
            AppServerError::Rpc(reason) => AppServerErrorView::Rpc(reason@),
            AppServerError::Protocol(reason) => AppServerErrorView::Protocol(reason@),
        }
    }
}

impl AppServerErrorView {
    /// The failure in words.
    pub open spec fn message(self) -> Seq<char> {
        match self {
            AppServerErrorView::Spawn(reason) => "failed to start Codex app-server: "@ + reason,
            AppServerErrorView::Closed => "Codex app-server transport closed"@,
            AppServerErrorView::Rpc(reason) => "Codex app-server RPC failed: "@ + reason,
            AppServerErrorView::Protocol(reason) => "invalid Codex app-server response: "@ + reason,
        }
    }
}

/// The content of the outcome of a call of the app-server.
pub open spec fn outcome_view(outcome: Result<Json, AppServerError>) -> Result<
    JsonView,
    AppServerErrorView,
> {
    match outcome {
        Ok(result) => Ok(result@),
        Err(error) => Err(error@),
    }
}

impl AppServerError {
    /// The failure in words.
    pub fn message(&self) -> (r: String)
        ensures
            r@ == self@.message(),
    {
        match self {
            AppServerError::Spawn(reason) => "failed to start Codex app-server: ".to_owned().concat(
                reason.as_str(),
            ),
            AppServerError::Closed => "Codex app-server transport closed".to_owned(),
            AppServerError::Rpc(reason) => "Codex app-server RPC failed: ".to_owned().concat(
                reason.as_str(),
            ),
            AppServerError::Protocol(reason) =>
                "invalid Codex app-server response: ".to_owned().concat(reason.as_str()),
        }
    }
}

/// A refused or failed API request.
#[derive(Debug, PartialEq, Eq)]
pub struct ApiError {
    /// The HTTP status code.
    pub status: u16,
    pub message: String,
    pub code: &'static str,
}

/// The content of an [`ApiError`].
pub struct ApiErrorView {
    pub status: u16,
    pub message: Seq<char>,
    pub code: Seq<char>,
}

impl View for ApiError {
    type V = ApiErrorView;

    open spec fn view(&self) -> ApiErrorView {
        ApiErrorView { status: self.status, message: self.message@, code: self.code@ }
    }
}

impl ApiErrorView {
    pub open spec fn bad_request(message: Seq<char>) -> ApiErrorView {
        ApiErrorView { status: 400, message, code: "invalid_request_error"@ }
    }

    pub open spec fn server(message: Seq<char>) -> ApiErrorView {
        ApiErrorView { status: 500, message, code: "codex_app_server_error"@ }
    }

    pub open spec fn unauthorized() -> ApiErrorView {
        ApiErrorView {
            status: 401,
            message: "invalid or missing bearer token"@,
            code: "invalid_api_key"@,
        }
    }

    /// The response body.
    pub open spec fn body(self) -> JsonView {
        JsonView::object(
            seq![
                (
                    "error"@,
                    JsonView::object(
                        seq![
                            ("message"@, JsonView::String(self.message)),
                            ("type"@, JsonView::String("server_error"@)),
                            ("code"@, JsonView::String(self.code)),
                        ],
                    ),
                ),
            ],
        )
    }
}

impl ApiError {
    /// The request itself is at fault.
    pub fn bad_request(message: &str) -> (r: ApiError)
        ensures
            r@ == ApiErrorView::bad_request(message@),
    {
        ApiError { status: 400, message: message.to_owned(), code: "invalid_request_error" }
    }

    /// The gateway or Codex is at fault.
    pub fn server(message: &str) -> (r: ApiError)
        ensures
            r@ == ApiErrorView::server(message@),
    {
        ApiError { status: 500, message: message.to_owned(), code: "codex_app_server_error" }
    }

    /// The client has not shown the bearer token.
    pub fn unauthorized() -> (r: ApiError)
        ensures
            r@ == ApiErrorView::unauthorized(),
    {
        ApiError {
            status: 401,
            message: "invalid or missing bearer token".to_owned(),
            code: "invalid_api_key",
        }
    }

    /// The body of the response that reports this error.
    pub fn body(&self) -> (r: Json)
        ensures
            r@ == self@.body(),
    {
        let details: Vec<(&str, Json)> = vec![
            ("message", Json::text(self.message.as_str())),
            ("type", Json::text("server_error")),
            ("code", Json::text(self.code)),
        ];
        assert(fields_view(details@) =~= seq![
            ("message"@, JsonView::String(self.message@)),
            ("type"@, JsonView::String("server_error"@)),
            ("code"@, JsonView::String(self.code@)),
        ]);
        let details = Json::object(details);
        let fields: Vec<(&str, Json)> = vec![("error", details)];
        assert(fields_view(fields@) =~= seq![("error"@, details@)]);
        Json::object(fields)
    }
}

impl vstd::std_specs::convert::FromSpecImpl<AppServerError> for ApiError {
    open spec fn obeys_from_spec() -> bool {
        false
    }

    open spec fn from_spec(error: AppServerError) -> ApiError {
        arbitrary()
    }
}

impl From<AppServerError> for ApiError {
    fn from(error: AppServerError) -> (r: ApiError)
        ensures
            r@ == ApiErrorView::server(error@.message()),
    {
        ApiError::server(error.message().as_str())
    }
}

} // verus!
