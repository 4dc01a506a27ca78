//! The errors of the HTTP API: their names, messages, status codes and
//! response bodies. Errors of other libraries are carried as their messages.

use vstd::prelude::*;

use crate::text::{push_str, to_owned_string};

verus! {

/// Errors of the search endpoint.
#[derive(Debug, Clone)]
pub enum SearchError {
    /// The search backend failed; its message.
    Elastic(String),
    /// The search backend answered with an error: its reason and the failure's message.
    ElasticContext { reason: String, source: String },
    /// The search backend's answer could not be read.
    ParseResponse,
    /// A query parameter is invalid.
    Query { key: String, message: String },
}

/// Errors of the HTTP API.
#[derive(Debug, Clone)]
pub enum ApiError {
    Artificial,
    Unknown,
    InvalidSession,
    ServerError,
    DocumentNotFound,
    CollectionNotFound(String),
    MalformedUrl,
    JsonProcessingError,
    InvalidBearer,
    /// A query string could not be read; the failure's message.
    Query(String),
    Search(SearchError),
    /// A Firefox Accounts event could not be processed; the failure's message.
    FxaWebhook(String),
    Unauthorized,
    /// A blocking task failed; the failure's message.
    BlockingError(String),
    /// The database failed; the failure's message.
    DbError(String),
    /// The input is invalid; the validation messages.
    ValidationError(String),
    MultipleCollectionSubscriptionLimitReached,
    /// The feature (named) needs a logged-in user.
    LoginRequiredForFeature(String),
    /// The newsletter service failed; the failure's message.
    BasketError(String),
    Generic(String),
}

/// The short name of an error.
pub open spec fn error_name(e: ApiError) -> Seq<char> {
    match e {
        ApiError::Artificial => "Artificial"@,
        ApiError::Unknown => "Unknown"@,
        ApiError::InvalidSession => "Invalid Session"@,
        ApiError::ServerError => "Server error"@,
        ApiError::DocumentNotFound => "Document not found"@,
        ApiError::InvalidBearer => "Invalid bearer info"@,
        ApiError::MalformedUrl => "Malformed URL"@,
        ApiError::JsonProcessingError => "Error processing JSON document"@,
        ApiError::Query(_) => "Query error"@,
        ApiError::Search(_) => "Search error"@,
        ApiError::FxaWebhook(_) => "FxaWebhookError"@,
        ApiError::Unauthorized => "Unauthorized"@,
        ApiError::BlockingError(_) => "Blocking error"@,
        ApiError::CollectionNotFound(_) => "Collection not found"@,
        ApiError::DbError(_) => "DB error"@,
        ApiError::ValidationError(_) => "Validation Error"@,
        ApiError::MultipleCollectionSubscriptionLimitReached => "Subscription limit reached"@,
        ApiError::BasketError(_) => "Error managing newsletter"@,
        ApiError::Generic(err) => err@,
        ApiError::LoginRequiredForFeature(_) => "Login Required"@,
    }
}

/// The HTTP status code of an error.
pub open spec fn error_status(e: ApiError) -> u16 {
    match e {
        ApiError::InvalidSession => 400,
        ApiError::DocumentNotFound => 404,
        ApiError::InvalidBearer => 403,
        ApiError::MalformedUrl => 400,
        ApiError::Query(_) => 400,
        ApiError::Search(SearchError::Query { .. }) => 400,
        ApiError::Unauthorized => 401,
        ApiError::CollectionNotFound(_) => 400,
        ApiError::ValidationError(_) => 400,
        ApiError::MultipleCollectionSubscriptionLimitReached => 400,
        ApiError::LoginRequiredForFeature(_) => 401,
        _ => 500,
    }
}

/// The message of an error, as it is displayed.
pub open spec fn error_message(e: ApiError) -> Seq<char> {
    match e {
        ApiError::Artificial => "Artificial error"@,
        ApiError::Unknown => "Unknown error"@,
        ApiError::InvalidSession => "Invalid Session info"@,
        ApiError::ServerError => "Database error"@,
        ApiError::DocumentNotFound => "Document Not found"@,
        ApiError::CollectionNotFound(id) => "Collection with id "@ + id@ + " not found"@,
        ApiError::MalformedUrl => "Malformed Url"@,
        ApiError::JsonProcessingError => "Json error"@,
        ApiError::InvalidBearer => "Invalid Bearer"@,
        ApiError::Query(_) => "Query error"@,
        ApiError::Search(_) => "Search error"@,
        ApiError::FxaWebhook(m) => "FxaWebhookError: "@ + m@,
        ApiError::Unauthorized => "Unauthorized"@,
        ApiError::BlockingError(_) => "Blocking error"@,
        ApiError::DbError(m) => "DB Error: "@ + m@,
        ApiError::ValidationError(m) => "Validation error: "@ + m@,
        ApiError::MultipleCollectionSubscriptionLimitReached => "Subscription limit reached"@,
        ApiError::LoginRequiredForFeature(_) => "Login Required"@,
        ApiError::BasketError(m) => "Newsletter error: "@ + m@,
        ApiError::Generic(m) => "Unknown error: "@ + m@,
    }
}

/// The JSON body of an error response.
pub enum ErrorBody {
    /// `{"errors": {<key>: [{"message": <message>, "code": "invalid"}]}}`
    QueryErrors { key: String, message: String },
    /// `{"code": <code>, "error": <error>, "message": <message>}`
    Standard { code: u16, error: String, message: String },
}

/// The message of the standard error body.
pub open spec fn response_message(e: ApiError) -> Seq<char> {
    match e {
        ApiError::CollectionNotFound(id) => "Collection with id "@ + id@ + " not found"@,
        ApiError::ValidationError(m) => "Error validating input "@ + m@,
        ApiError::MultipleCollectionSubscriptionLimitReached => "Subscription limit reached. Please upgrade"@,
        ApiError::LoginRequiredForFeature(f) => "Please login to use feature: "@ + f@,
        _ => if error_status(e) == 500 {
            "internal server error"@
        } else {
            error_message(e)
        },
    }
}

impl ApiError {
    /// The short name of the error.
    pub fn name(&self) -> (res: &str)
        ensures
            res@ == error_name(*self),
    {
        match self {
            ApiError::Artificial => "Artificial",
            ApiError::Unknown => "Unknown",
            ApiError::InvalidSession => "Invalid Session",
            ApiError::ServerError => "Server error",
            ApiError::DocumentNotFound => "Document not found",
            ApiError::InvalidBearer => "Invalid bearer info",
            ApiError::MalformedUrl => "Malformed URL",
            ApiError::JsonProcessingError => "Error processing JSON document",
            ApiError::Query(_) => "Query error",
            ApiError::Search(_) => "Search error",
            ApiError::FxaWebhook(_) => "FxaWebhookError",
            ApiError::Unauthorized => "Unauthorized",
            ApiError::BlockingError(_) => "Blocking error",
            ApiError::CollectionNotFound(_) => "Collection not found",
            ApiError::DbError(_) => "DB error",
            ApiError::ValidationError(_) => "Validation Error",
            ApiError::MultipleCollectionSubscriptionLimitReached => "Subscription limit reached",
            ApiError::BasketError(_) => "Error managing newsletter",
            ApiError::Generic(err) => err.as_str(),
            ApiError::LoginRequiredForFeature(_) => "Login Required",
        }
    }

    /// The HTTP status code of the error.
    pub fn status_code(&self) -> (res: u16)
        ensures
            res == error_status(*self),
    {
        match self {
            ApiError::InvalidSession => 400,
            ApiError::DocumentNotFound => 404,
            ApiError::InvalidBearer => 403,
            ApiError::MalformedUrl => 400,
            ApiError::Query(_) => 400,
            ApiError::Search(SearchError::Query { .. }) => 400,
            ApiError::Unauthorized => 401,
            ApiError::CollectionNotFound(_) => 400,
            ApiError::ValidationError(_) => 400,
            ApiError::MultipleCollectionSubscriptionLimitReached => 400,
            ApiError::LoginRequiredForFeature(_) => 401,
            _ => 500,
        }
    }

    /// The error's message as it is displayed.
    pub fn message(&self) -> (res: String)
        ensures
            res@ == error_message(*self),
    {
        match self {
            ApiError::Artificial => to_owned_string("Artificial error"),
            ApiError::Unknown => to_owned_string("Unknown error"),
            ApiError::InvalidSession => to_owned_string("Invalid Session info"),
            ApiError::ServerError => to_owned_string("Database error"),
            ApiError::DocumentNotFound => to_owned_string("Document Not found"),
            ApiError::CollectionNotFound(id) => {
                let mut m = to_owned_string("Collection with id ");
                push_str(&mut m, id.as_str());
                push_str(&mut m, " not found");
                m
            },
            ApiError::MalformedUrl => to_owned_string("Malformed Url"),
            ApiError::JsonProcessingError => to_owned_string("Json error"),
            ApiError::InvalidBearer => to_owned_string("Invalid Bearer"),
            ApiError::Query(_) => to_owned_string("Query error"),
            ApiError::Search(_) => to_owned_string("Search error"),
            ApiError::FxaWebhook(e) => prefixed("FxaWebhookError: ", e.as_str()),
            ApiError::Unauthorized => to_owned_string("Unauthorized"),
            ApiError::BlockingError(_) => to_owned_string("Blocking error"),
            ApiError::DbError(e) => prefixed("DB Error: ", e.as_str()),
            ApiError::ValidationError(e) => prefixed("Validation error: ", e.as_str()),
            ApiError::MultipleCollectionSubscriptionLimitReached => to_owned_string("Subscription limit reached"),
            ApiError::LoginRequiredForFeature(_) => to_owned_string("Login Required"),
            ApiError::BasketError(e) => prefixed("Newsletter error: ", e.as_str()),
            ApiError::Generic(e) => prefixed("Unknown error: ", e.as_str()),
        }
    }

    /// The body of the error response: a query error lists the offending
    /// parameter; every other error gives its status code, its name, and a
    /// message (a fixed one for server errors).
    pub fn error_response(&self) -> (res: ErrorBody)
        ensures
            match *self {
                ApiError::Search(SearchError::Query { key, message }) => res matches ErrorBody::QueryErrors { key: k, message: m }
                    && k@ == key@ && m@ == message@,
                _ => res matches ErrorBody::Standard { code, error, message }
                    && code == error_status(*self) && error@ == error_name(*self) && message@ == response_message(*self),
            },
    {
        let code = self.status_code();
        let error = to_owned_string(self.name());
        match self {
            ApiError::Search(SearchError::Query { key, message }) => ErrorBody::QueryErrors { key: key.clone(), message: message.clone() },
            ApiError::CollectionNotFound(id) => {
                let mut message = to_owned_string("Collection with id ");
                push_str(&mut message, id.as_str());
                push_str(&mut message, " not found");
                ErrorBody::Standard { code, error, message }
            },
            ApiError::ValidationError(errors) => ErrorBody::Standard { code, error, message: prefixed("Error validating input ", errors.as_str()) },
            ApiError::MultipleCollectionSubscriptionLimitReached => ErrorBody::Standard {
                code,
                error,
                message: to_owned_string("Subscription limit reached. Please upgrade"),
            },
            ApiError::LoginRequiredForFeature(feature) => ErrorBody::Standard {
                code,
                error,
                message: prefixed("Please login to use feature: ", feature.as_str()),
            },
            _ => {
                if code == 500 {
                    ErrorBody::Standard { code, error, message: to_owned_string("internal server error") }
                } else {
                    ErrorBody::Standard { code, error, message: self.message() }
                }
            },
        }
    }
}

/// `prefix` followed by `rest`.
pub fn prefixed(prefix: &str, rest: &str) -> (res: String)
    ensures
        res@ == prefix@ + rest@,
{
    let mut m = to_owned_string(prefix);
    push_str(&mut m, rest);
    m
}

} // verus!
