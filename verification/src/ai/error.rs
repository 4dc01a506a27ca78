//! Errors of the AI features and how the HTTP layer answers them.

use vstd::prelude::*;

verus! {

/// What can go wrong while preparing or answering an AI request.
#[derive(Debug, Clone, Copy, PartialEq, Eq, Structural)]
pub enum AIError {
    /// The OpenAI API failed (or the QA error trigger fired).
    OpenAIError,
    /// The embeddings database failed.
    SqlXError,
    /// The moderation endpoint flagged the content.
    FlaggedError,
    /// There is no user message to answer.
    NoUserPrompt,
    /// The request does not fit into the model's token budget.
    TokenLimit,
    /// Counting tokens failed.
    TiktokenError,
}

/// Whether the error is the server's fault (HTTP 500) rather than the request's (HTTP 400).
pub open spec fn is_server_side(e: AIError) -> bool {
    e is OpenAIError || e is SqlXError || e is TiktokenError
}

/// The JSON body sent with an error response.
pub struct ErrorResponse {
    pub code: u16,
    pub message: &'static str,
    pub error: &'static str,
}

impl AIError {
    /// The HTTP status code of the error.
    pub fn status_code(&self) -> (res: u16)
        ensures
            res == (if is_server_side(*self) { 500u16 } else { 400u16 }),
    {
        match self {
            AIError::OpenAIError | AIError::SqlXError | AIError::TiktokenError => 500,
            AIError::FlaggedError | AIError::NoUserPrompt | AIError::TokenLimit => 400,
        }
    }

    /// The body of the error response: the status code, its canonical reason
    /// phrase, and the error kind "AI Error".
    pub fn error_response(&self) -> (res: ErrorResponse)
        ensures
            res.code == (if is_server_side(*self) { 500u16 } else { 400u16 }),
            res.message@ == (if is_server_side(*self) {
                "Internal Server Error"@
            } else {
                "Bad Request"@
            }),
            res.error@ == "AI Error"@,
    {
        let code = self.status_code();
        let message = if code == 500 {
            "Internal Server Error"
        } else {
            "Bad Request"
        };
        ErrorResponse { code, message, error: "AI Error" }
    }

    /// Whether the user's quota is given back after the error: failures that
    /// are the server's doing, a token budget overrun and a missing prompt are
    /// not counted against the user; flagged content is.
    pub fn reinstates_quota(&self) -> (res: bool)
        ensures
            res == !(*self is FlaggedError),
    {
        match self {
            AIError::OpenAIError
            | AIError::TiktokenError
            | AIError::TokenLimit
            | AIError::SqlXError
            | AIError::NoUserPrompt => true,
            AIError::FlaggedError => false,
        }
    }
}

} // verus!
