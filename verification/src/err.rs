//! The error mapper: from a failed request to a status code and a payload.

use vstd::prelude::*;
use vstd::std_specs::convert::FromSpecImpl;
use crate::failure::{JsonFailure, PathFailure, QueryFailure};
use crate::status::{
    is_client_error, is_server_error, is_status_code, StatusCode, INTERNAL_SERVER_ERROR,
    METHOD_NOT_ALLOWED, NOT_FOUND,
};
use crate::timestamp::{get_now_str, is_utc_timestamp};

verus! {

/// Why a request failed.
#[derive(Clone, Copy, Debug, PartialEq, Eq)]
pub enum ApiError {
    /// The JSON body could not be decoded.
    JsonDeserialization(JsonFailure),
    /// The path parameters could not be decoded.
    PathDeserialization(PathFailure),
    /// The query string could not be decoded.
    QueryDeserialization(QueryFailure),
    /// No route matches the path.
    NotFound,
    /// The route does not take the request's method.
    BadMethod,
    /// The server failed.
    Internal,
}

/// What a client receives when a request fails.
#[derive(Debug)]
pub struct ApiErrorPayload {
    pub message: String,
    pub timestamp: String,
}

/// An error payload as two sequences of characters.
pub ghost struct ApiErrorPayloadView {
    pub message: Seq<char>,
    pub timestamp: Seq<char>,
}

impl View for ApiErrorPayload {
    type V = ApiErrorPayloadView;

    open spec fn view(&self) -> ApiErrorPayloadView {
        ApiErrorPayloadView { message: self.message@, timestamp: self.timestamp@ }
    }
}

impl ApiError {
    /// The status code of the response to this failure. A failed decoding
    /// answers with the status code that it carries, and with the default of
    /// its cause where it carries none; the other failures have a status code
    /// of their own.
    pub open spec fn spec_status(self) -> int {
        match self {
            ApiError::JsonDeserialization(failure) => failure.spec_status(),
            ApiError::PathDeserialization(failure) => failure.spec_status(),
            ApiError::QueryDeserialization(failure) => failure.spec_status(),
            ApiError::NotFound => 404,
            ApiError::BadMethod => 405,
            ApiError::Internal => 500,
        }
    }

    /// The message of the response to this failure.
    pub open spec fn spec_message(self) -> Seq<char> {
        match self {
            ApiError::JsonDeserialization(failure) => failure.cause.spec_message(),
            ApiError::PathDeserialization(failure) => failure.cause.spec_message(),
            ApiError::QueryDeserialization(failure) => failure.cause.spec_message(),
            ApiError::NotFound => "Resource not found"@,
            ApiError::BadMethod => "Method not allowed"@,
            ApiError::Internal => "Internal server error"@,
        }
    }

    /// The response to this failure when the clock reads `timestamp`.
    pub open spec fn spec_response(self, timestamp: Seq<char>) -> (int, ApiErrorPayloadView) {
        (self.spec_status(), ApiErrorPayloadView { message: self.spec_message(), timestamp })
    }

    /// The status code that the extraction layer settled on, if this is a
    /// failed decoding and it did.
    pub open spec fn carried_status(self) -> Option<StatusCode> {
        match self {
            ApiError::JsonDeserialization(failure) => failure.status,
            ApiError::PathDeserialization(failure) => failure.status,
            ApiError::QueryDeserialization(failure) => failure.status,
            _ => None,
        }
    }

    pub fn status(&self) -> (status: StatusCode)
        ensures
            status@ == self.spec_status(),
            is_status_code(status@),
    {
        let status = match self {
            ApiError::JsonDeserialization(failure) => failure.status(),
            ApiError::PathDeserialization(failure) => failure.status(),
            ApiError::QueryDeserialization(failure) => failure.status(),
            ApiError::NotFound => StatusCode::known(NOT_FOUND),
            ApiError::BadMethod => StatusCode::known(METHOD_NOT_ALLOWED),
            ApiError::Internal => StatusCode::known(INTERNAL_SERVER_ERROR),
        };
        proof {
            use_type_invariant(&status);
        }
        status
    }

    pub fn message(&self) -> (message: String)
        ensures
            message@ == self.spec_message(),
    {
        match self {
            ApiError::JsonDeserialization(failure) => failure.cause.message().to_owned(),
            ApiError::PathDeserialization(failure) => failure.cause.message().to_owned(),
            ApiError::QueryDeserialization(failure) => failure.cause.message().to_owned(),
            ApiError::NotFound => "Resource not found".to_owned(),
            ApiError::BadMethod => "Method not allowed".to_owned(),
            ApiError::Internal => "Internal server error".to_owned(),
        }
    }

    /// The response to this failure, stamped with `timestamp`.
    pub fn respond_at(self, timestamp: String) -> (response: (StatusCode, ApiErrorPayload))
        ensures
            (response.0@, response.1@) == self.spec_response(timestamp@),
            is_status_code(response.0@),
    {
        let message = self.message();
        (self.status(), ApiErrorPayload { message, timestamp })
    }

    /// The response to this failure, stamped with the time of this call.
    pub fn into_response(self) -> (response: (StatusCode, ApiErrorPayload))
        ensures
            (response.0@, response.1@) == self.spec_response(response.1@.timestamp),
            is_utc_timestamp(response.1@.timestamp),
            is_status_code(response.0@),
    {
        let response = match self {
            ApiError::JsonDeserialization(failure) => (
                failure.status(),
                ApiErrorPayload::from_json_failure(failure),
            ),
            ApiError::PathDeserialization(failure) => (
                failure.status(),
                ApiErrorPayload::from_path_failure(failure),
            ),
            ApiError::QueryDeserialization(failure) => (
                failure.status(),
                ApiErrorPayload::from_query_failure(failure),
            ),
            _ => (
                self.status(),
                ApiErrorPayload { message: self.message(), timestamp: get_now_str() },
            ),
        };
        proof {
            use_type_invariant(&response.0);
        }
        response
    }
}

impl From<JsonFailure> for ApiError {
    fn from(value: JsonFailure) -> (error: ApiError) {
        ApiError::JsonDeserialization(value)
    }
}

impl FromSpecImpl<JsonFailure> for ApiError {
    open spec fn obeys_from_spec() -> bool {
        true
    }

    open spec fn from_spec(value: JsonFailure) -> ApiError {
        ApiError::JsonDeserialization(value)
    }
}

impl From<PathFailure> for ApiError {
    fn from(value: PathFailure) -> (error: ApiError) {
        ApiError::PathDeserialization(value)
    }
}

impl FromSpecImpl<PathFailure> for ApiError {
    open spec fn obeys_from_spec() -> bool {
        true
    }

    open spec fn from_spec(value: PathFailure) -> ApiError {
        ApiError::PathDeserialization(value)
    }
}

impl From<QueryFailure> for ApiError {
    fn from(value: QueryFailure) -> (error: ApiError) {
        ApiError::QueryDeserialization(value)
    }
}

impl FromSpecImpl<QueryFailure> for ApiError {
    open spec fn obeys_from_spec() -> bool {
        true
    }

    open spec fn from_spec(value: QueryFailure) -> ApiError {
        ApiError::QueryDeserialization(value)
    }
}

impl ApiErrorPayload {
    /// The payload for a JSON body that was turned down, stamped with the time of this call.
    pub fn from_json_failure(value: JsonFailure) -> (payload: ApiErrorPayload)
        ensures
            payload@.message == value.cause.spec_message(),
            is_utc_timestamp(payload@.timestamp),
    {
        let message = value.cause.message().to_owned();
        ApiErrorPayload { message, timestamp: get_now_str() }
    }

    /// The payload for path parameters that were turned down, stamped with the time of this call.
    pub fn from_path_failure(value: PathFailure) -> (payload: ApiErrorPayload)
        ensures
            payload@.message == value.cause.spec_message(),
            is_utc_timestamp(payload@.timestamp),
    {
        let message = value.cause.message().to_owned();
        ApiErrorPayload { message, timestamp: get_now_str() }
    }

    /// The payload for a query string that was turned down, stamped with the time of this call.
    pub fn from_query_failure(value: QueryFailure) -> (payload: ApiErrorPayload)
        ensures
            payload@.message == value.cause.spec_message(),
            is_utc_timestamp(payload@.timestamp),
    {
        let message = value.cause.message().to_owned();
        ApiErrorPayload { message, timestamp: get_now_str() }
    }
}

/// The rows of the mapping table: a status code and the message that goes
/// with it where the extraction layer chose no status code.
pub open spec fn is_table_row(status: int, message: Seq<char>) -> bool {
    ||| status == 400 && message == "Invalid JSON syntax"@
    ||| status == 422 && message == "Model deserialization failed"@
    ||| status == 415 && message == "Invalid Content-Type header"@
    ||| status == 400 && message == "Unable to process request body"@
    ||| status == 400 && message == "Unknown JSON body error"@
    ||| status == 400 && message == "Path parameter deserialization failed"@
    ||| status == 400 && message == "Missing path parameter(s)"@
    ||| status == 400 && message == "Unknown URL path error"@
    ||| status == 400 && message == "Query deserialization failed"@
    ||| status == 400 && message == "Unknown URL query error"@
    ||| status == 404 && message == "Resource not found"@
    ||| status == 405 && message == "Method not allowed"@
    ||| status == 500 && message == "Internal server error"@
}

/// Every failure is answered with the message of a row of the table, and
/// with the status code of that row unless it carries one of its own.
pub proof fn lemma_response_is_a_table_row(error: ApiError)
    ensures
        exists|status: int| is_table_row(status, error.spec_message()),
        error.carried_status() is None ==> is_table_row(
            error.spec_status(),
            error.spec_message(),
        ),
{
    let without = match error {
        ApiError::JsonDeserialization(failure) => ApiError::JsonDeserialization(
            JsonFailure { cause: failure.cause, status: None },
        ),
        ApiError::PathDeserialization(failure) => ApiError::PathDeserialization(
            PathFailure { cause: failure.cause, status: None },
        ),
        ApiError::QueryDeserialization(failure) => ApiError::QueryDeserialization(
            QueryFailure { cause: failure.cause, status: None },
        ),
        _ => error,
    };
    assert(is_table_row(without.spec_status(), error.spec_message()));
}

/// Every failure has a message of its own: none is empty, and two failures
/// share a message only if they are of the same variant and, for a failed
/// decoding, of the same cause.
pub proof fn lemma_message_names_the_cause(error: ApiError, other: ApiError)
    ensures
        error.spec_message().len() > 0,
        error.spec_message() == other.spec_message() ==> match (error, other) {
            (ApiError::JsonDeserialization(a), ApiError::JsonDeserialization(b)) => {
                a.cause == b.cause
            },
            (ApiError::PathDeserialization(a), ApiError::PathDeserialization(b)) => {
                a.cause == b.cause
            },
            (ApiError::QueryDeserialization(a), ApiError::QueryDeserialization(b)) => {
                a.cause == b.cause
            },
            _ => error == other,
        },
{
    reveal_strlit("Model deserialization failed");
    reveal_strlit("Invalid JSON syntax");
    reveal_strlit("Invalid Content-Type header");
    reveal_strlit("Unable to process request body");
    reveal_strlit("Unknown JSON body error");
    reveal_strlit("Path parameter deserialization failed");
    reveal_strlit("Missing path parameter(s)");
    reveal_strlit("Unknown URL path error");
    reveal_strlit("Query deserialization failed");
    reveal_strlit("Unknown URL query error");
    reveal_strlit("Resource not found");
    reveal_strlit("Method not allowed");
    reveal_strlit("Internal server error");
    // Messages of one length differ in a character.
    assert("Model deserialization failed"@[0] != "Query deserialization failed"@[0]);
    assert("Unknown JSON body error"@[8] != "Unknown URL query error"@[8]);
    assert("Resource not found"@[0] != "Method not allowed"@[0]);
    assert(error.spec_message().len() != other.spec_message().len() ==> error.spec_message()
        != other.spec_message());
}

/// A server failure answers with 500 and "Internal server error", whatever the time.
pub proof fn lemma_internal(timestamp: Seq<char>)
    ensures
        ApiError::Internal.spec_response(timestamp) == (
            500int,
            ApiErrorPayloadView { message: "Internal server error"@, timestamp },
        ),
{
}

/// A path without a route answers with 404 and "Resource not found", whatever the time.
pub proof fn lemma_not_found(timestamp: Seq<char>)
    ensures
        ApiError::NotFound.spec_response(timestamp) == (
            404int,
            ApiErrorPayloadView { message: "Resource not found"@, timestamp },
        ),
{
}

/// A method that the route does not take answers with 405 and "Method not
/// allowed", whatever the time.
pub proof fn lemma_bad_method(timestamp: Seq<char>)
    ensures
        ApiError::BadMethod.spec_response(timestamp) == (
            405int,
            ApiErrorPayloadView { message: "Method not allowed"@, timestamp },
        ),
{
}

/// The same failure mapped twice gets the same status code and the same
/// message: two responses to it differ in their timestamps at most.
pub proof fn lemma_mapping_twice_agrees(
    error: ApiError,
    first: (int, ApiErrorPayloadView),
    second: (int, ApiErrorPayloadView),
)
    requires
        first == error.spec_response(first.1.timestamp),
        second == error.spec_response(second.1.timestamp),
    ensures
        first.0 == second.0,
        first.1.message == second.1.message,
        first.1.timestamp == second.1.timestamp ==> first == second,
{
}

/// A failed decoding answers with the status code that it carries, if it
/// carries one.
pub proof fn lemma_carried_status_wins(error: ApiError, status: StatusCode)
    requires
        error.carried_status() == Some(status),
    ensures
        error.spec_status() == status@,
{
}

/// Where the extraction layer chose no status code, the status code tells
/// whose fault the failure is: a server failure is a 5xx, every other
/// failure a 4xx.
pub proof fn lemma_status_tells_the_fault(error: ApiError)
    requires
        error.carried_status() is None,
    ensures
        error is Internal ==> is_server_error(error.spec_status()),
        !(error is Internal) ==> is_client_error(error.spec_status()),
{
}

/// A failed decoding of a cause that the library does not know still has an
/// answer: the "Unknown ... error" of its category, with 400 where the
/// extraction layer chose no status code.
pub proof fn lemma_unknown_cause_is_answered(error: ApiError)
    ensures
        error matches ApiError::JsonDeserialization(failure) && failure.cause is Unknown
            ==> error.spec_message() == "Unknown JSON body error"@,
        error matches ApiError::PathDeserialization(failure) && failure.cause is Unknown
            ==> error.spec_message() == "Unknown URL path error"@,
        error matches ApiError::QueryDeserialization(failure) && failure.cause is Unknown
            ==> error.spec_message() == "Unknown URL query error"@,
        error.carried_status() is None && (match error {
            ApiError::JsonDeserialization(failure) => failure.cause is Unknown,
            ApiError::PathDeserialization(failure) => failure.cause is Unknown,
            ApiError::QueryDeserialization(failure) => failure.cause is Unknown,
            _ => false,
        }) ==> error.spec_status() == 400,
{
}

} // verus!
