//! Why the extraction layer turned a request down, as plain data.
//!
//! A failure names the cause for which decoding the body, the path or the
//! query string failed. The extraction layer may have settled on a status
//! code of its own; the failure then carries it. The rejections of axum's
//! extractors are read into this form by `from_axum`.

use vstd::prelude::*;
use axum::extract::rejection;
use crate::status::{
    is_status_code, StatusCode, BAD_REQUEST, UNPROCESSABLE_ENTITY, UNSUPPORTED_MEDIA_TYPE,
};

verus! {

/// The causes for which decoding a JSON body fails.
#[derive(Clone, Copy, Debug, PartialEq, Eq)]
pub enum JsonCause {
    /// The body is JSON but does not fit the model.
    JsonDataError,
    /// The body is not JSON.
    JsonSyntaxError,
    /// The request does not announce a JSON body.
    MissingJsonContentType,
    /// The body could not be read.
    BytesRejection,
    /// Any other cause.
    Unknown,
}

impl JsonCause {
    /// The message that a client reads for this cause.
    pub open spec fn spec_message(self) -> Seq<char> {
        match self {
            JsonCause::JsonDataError => "Model deserialization failed"@,
            JsonCause::JsonSyntaxError => "Invalid JSON syntax"@,
            JsonCause::MissingJsonContentType => "Invalid Content-Type header"@,
            JsonCause::BytesRejection => "Unable to process request body"@,
            JsonCause::Unknown => "Unknown JSON body error"@,
        }
    }

    /// The status code for this cause where the extraction layer chose none.
    /// A body that does not fit the model is unprocessable (422), not a bad
    /// request.
    pub open spec fn spec_default_status(self) -> int {
        match self {
            JsonCause::JsonDataError => 422,
            JsonCause::MissingJsonContentType => 415,
            _ => 400,
        }
    }

    pub fn message(&self) -> (message: &'static str)
        ensures
            message@ == self.spec_message(),
    {
        match self {
            JsonCause::JsonDataError => "Model deserialization failed",
            JsonCause::JsonSyntaxError => "Invalid JSON syntax",
            JsonCause::MissingJsonContentType => "Invalid Content-Type header",
            JsonCause::BytesRejection => "Unable to process request body",
            JsonCause::Unknown => "Unknown JSON body error",
        }
    }

    pub fn default_status(&self) -> (status: StatusCode)
        ensures
            status@ == self.spec_default_status(),
    {
        match self {
            JsonCause::JsonDataError => StatusCode::known(UNPROCESSABLE_ENTITY),
            JsonCause::MissingJsonContentType => StatusCode::known(UNSUPPORTED_MEDIA_TYPE),
            _ => StatusCode::known(BAD_REQUEST),
        }
    }
}

/// The causes for which decoding the path parameters fails.
#[derive(Clone, Copy, Debug, PartialEq, Eq)]
pub enum PathCause {
    /// A parameter does not fit its type.
    FailedToDeserializePathParams,
    /// The route matched but holds no parameters.
    MissingPathParams,
    /// Any other cause.
    Unknown,
}

impl PathCause {
    /// The message that a client reads for this cause.
    pub open spec fn spec_message(self) -> Seq<char> {
        match self {
            PathCause::FailedToDeserializePathParams => "Path parameter deserialization failed"@,
            PathCause::MissingPathParams => "Missing path parameter(s)"@,
            PathCause::Unknown => "Unknown URL path error"@,
        }
    }

    /// The status code for this cause where the extraction layer chose none.
    pub open spec fn spec_default_status(self) -> int {
        400
    }

    pub fn message(&self) -> (message: &'static str)
        ensures
            message@ == self.spec_message(),
    {
        match self {
            PathCause::FailedToDeserializePathParams => "Path parameter deserialization failed",
            PathCause::MissingPathParams => "Missing path parameter(s)",
            PathCause::Unknown => "Unknown URL path error",
        }
    }

    pub fn default_status(&self) -> (status: StatusCode)
        ensures
            status@ == self.spec_default_status(),
    {
        StatusCode::known(BAD_REQUEST)
    }
}

/// The causes for which decoding the query string fails.
#[derive(Clone, Copy, Debug, PartialEq, Eq)]
pub enum QueryCause {
    /// The query string does not fit the model.
    FailedToDeserializeQueryString,
    /// Any other cause.
    Unknown,
}

impl QueryCause {
    /// The message that a client reads for this cause.
    pub open spec fn spec_message(self) -> Seq<char> {
        match self {
            QueryCause::FailedToDeserializeQueryString => "Query deserialization failed"@,
            QueryCause::Unknown => "Unknown URL query error"@,
        }
    }

    /// The status code for this cause where the extraction layer chose none.
    pub open spec fn spec_default_status(self) -> int {
        400
    }

    pub fn message(&self) -> (message: &'static str)
        ensures
            message@ == self.spec_message(),
    {
        match self {
            QueryCause::FailedToDeserializeQueryString => "Query deserialization failed",
            QueryCause::Unknown => "Unknown URL query error",
        }
    }

    pub fn default_status(&self) -> (status: StatusCode)
        ensures
            status@ == self.spec_default_status(),
    {
        StatusCode::known(BAD_REQUEST)
    }
}

/// The status code that a failure carries when the extraction layer names
/// the number `code` for it: the status code with that number, and none
/// where the number is no status code.
pub open spec fn carries(status: Option<StatusCode>, code: u16) -> bool {
    match status {
        Some(status) => is_status_code(code as int) && status@ == code,
        None => !is_status_code(code as int),
    }
}

/// A JSON body that was turned down.
#[derive(Clone, Copy, Debug, PartialEq, Eq)]
pub struct JsonFailure {
    pub cause: JsonCause,
    /// The status code that the extraction layer settled on, if it did.
    pub status: Option<StatusCode>,
}

impl JsonFailure {
    /// The status code of the response: the one carried, else the default of the cause.
    pub open spec fn spec_status(self) -> int {
        match self.status {
            Some(status) => status@,
            None => self.cause.spec_default_status(),
        }
    }

    /// A failure for the given cause that carries no status code.
    pub fn new(cause: JsonCause) -> (failure: JsonFailure)
        ensures
            failure == (JsonFailure { cause, status: None }),
    {
        JsonFailure { cause, status: None }
    }

    /// A failure for the given cause for which the extraction layer chose `status`.
    pub fn with_status(cause: JsonCause, status: StatusCode) -> (failure: JsonFailure)
        ensures
            failure == (JsonFailure { cause, status: Some(status) }),
    {
        JsonFailure { cause, status: Some(status) }
    }

    /// A failure for the given cause for which the extraction layer named
    /// the number `code`.
    pub fn with_code(cause: JsonCause, code: u16) -> (failure: JsonFailure)
        ensures
            failure.cause == cause,
            carries(failure.status, code),
    {
        JsonFailure { cause, status: StatusCode::from_u16(code) }
    }

    /// What axum's rejection says: which variant it is, and the status code
    /// that axum answers it with. The failure carries that very status code,
    /// and its cause is one that axum gives this status code to.
    pub fn from_axum(rejection: &rejection::JsonRejection) -> (failure: JsonFailure)
        ensures
            failure.status matches Some(status) && status@ == json_status_of(*rejection),
            failure.spec_status() == json_status_of(*rejection),
            json_status_fits(failure.cause, json_status_of(*rejection) as int),
    {
        JsonFailure::with_code(json_rejection_cause(rejection), json_rejection_status(rejection))
    }

    pub fn status(&self) -> (status: StatusCode)
        ensures
            status@ == self.spec_status(),
    {
        match self.status {
            Some(status) => status,
            None => self.cause.default_status(),
        }
    }
}

/// Path parameters that were turned down.
#[derive(Clone, Copy, Debug, PartialEq, Eq)]
pub struct PathFailure {
    pub cause: PathCause,
    /// The status code that the extraction layer settled on, if it did.
    pub status: Option<StatusCode>,
}

impl PathFailure {
    /// The status code of the response: the one carried, else the default of the cause.
    pub open spec fn spec_status(self) -> int {
        match self.status {
            Some(status) => status@,
            None => self.cause.spec_default_status(),
        }
    }

    /// A failure for the given cause that carries no status code.
    pub fn new(cause: PathCause) -> (failure: PathFailure)
        ensures
            failure == (PathFailure { cause, status: None }),
    {
        PathFailure { cause, status: None }
    }

    /// A failure for the given cause for which the extraction layer chose `status`.
    pub fn with_status(cause: PathCause, status: StatusCode) -> (failure: PathFailure)
        ensures
            failure == (PathFailure { cause, status: Some(status) }),
    {
        PathFailure { cause, status: Some(status) }
    }

    /// A failure for the given cause for which the extraction layer named
    /// the number `code`.
    pub fn with_code(cause: PathCause, code: u16) -> (failure: PathFailure)
        ensures
            failure.cause == cause,
            carries(failure.status, code),
    {
        PathFailure { cause, status: StatusCode::from_u16(code) }
    }

    /// What axum's rejection says: which variant it is, and the status code
    /// that axum answers it with. The failure carries that very status code,
    /// and its cause is one that axum gives this status code to.
    pub fn from_axum(rejection: &rejection::PathRejection) -> (failure: PathFailure)
        ensures
            failure.status matches Some(status) && status@ == path_status_of(*rejection),
            failure.spec_status() == path_status_of(*rejection),
            path_status_fits(failure.cause, path_status_of(*rejection) as int),
    {
        PathFailure::with_code(path_rejection_cause(rejection), path_rejection_status(rejection))
    }

    pub fn status(&self) -> (status: StatusCode)
        ensures
            status@ == self.spec_status(),
    {
        match self.status {
            Some(status) => status,
            None => self.cause.default_status(),
        }
    }
}

/// A query string that was turned down.
#[derive(Clone, Copy, Debug, PartialEq, Eq)]
pub struct QueryFailure {
    pub cause: QueryCause,
    /// The status code that the extraction layer settled on, if it did.
    pub status: Option<StatusCode>,
}

impl QueryFailure {
    /// The status code of the response: the one carried, else the default of the cause.
    pub open spec fn spec_status(self) -> int {
        match self.status {
            Some(status) => status@,
            None => self.cause.spec_default_status(),
        }
    }

    /// A failure for the given cause that carries no status code.
    pub fn new(cause: QueryCause) -> (failure: QueryFailure)
        ensures
            failure == (QueryFailure { cause, status: None }),
    {
        QueryFailure { cause, status: None }
    }

    /// A failure for the given cause for which the extraction layer chose `status`.
    pub fn with_status(cause: QueryCause, status: StatusCode) -> (failure: QueryFailure)
        ensures
            failure == (QueryFailure { cause, status: Some(status) }),
    {
        QueryFailure { cause, status: Some(status) }
    }

    /// A failure for the given cause for which the extraction layer named
    /// the number `code`.
    pub fn with_code(cause: QueryCause, code: u16) -> (failure: QueryFailure)
        ensures
            failure.cause == cause,
            carries(failure.status, code),
    {
        QueryFailure { cause, status: StatusCode::from_u16(code) }
    }

    /// What axum's rejection says: which variant it is, and the status code
    /// that axum answers it with. The failure carries that very status code,
    /// and its cause is one that axum gives this status code to.
    pub fn from_axum(rejection: &rejection::QueryRejection) -> (failure: QueryFailure)
        ensures
            failure.status matches Some(status) && status@ == query_status_of(*rejection),
            failure.spec_status() == query_status_of(*rejection),
            query_status_fits(failure.cause, query_status_of(*rejection) as int),
    {
        QueryFailure::with_code(query_rejection_cause(rejection), query_rejection_status(rejection))
    }

    pub fn status(&self) -> (status: StatusCode)
        ensures
            status@ == self.spec_status(),
    {
        match self.status {
            Some(status) => status,
            None => self.cause.default_status(),
        }
    }
}

/// axum's rejection of a JSON body. Nothing is known of what it holds.
#[verifier::external_type_specification]
#[verifier::external_body]
pub struct ExJsonRejection(axum::extract::rejection::JsonRejection);

/// axum's rejection of path parameters. Nothing is known of what it holds.
#[verifier::external_type_specification]
#[verifier::external_body]
pub struct ExPathRejection(axum::extract::rejection::PathRejection);

/// axum's rejection of a query string. Nothing is known of what it holds.
#[verifier::external_type_specification]
#[verifier::external_body]
pub struct ExQueryRejection(axum::extract::rejection::QueryRejection);

/// The number of the status code that axum's `JsonRejection::status` gives
/// for a rejection.
pub uninterp spec fn json_status_of(rejection: rejection::JsonRejection) -> u16;

/// The number of the status code that axum's `PathRejection::status` gives
/// for a rejection.
pub uninterp spec fn path_status_of(rejection: rejection::PathRejection) -> u16;

/// The number of the status code that axum's `QueryRejection::status` gives
/// for a rejection.
pub uninterp spec fn query_status_of(rejection: rejection::QueryRejection) -> u16;

/// Whether `code` is a number that axum answers a rejected JSON body of the
/// given cause with. Of a cause that the library does not know nothing is
/// said.
pub open spec fn json_status_fits(cause: JsonCause, code: int) -> bool {
    match cause {
        JsonCause::JsonDataError => code == 422,
        JsonCause::JsonSyntaxError => code == 400,
        JsonCause::MissingJsonContentType => code == 415,
        JsonCause::BytesRejection => code == 400 || code == 413,
        JsonCause::Unknown => true,
    }
}

/// Whether `code` is a number that axum answers rejected path parameters of
/// the given cause with. Of a cause that the library does not know nothing
/// is said.
pub open spec fn path_status_fits(cause: PathCause, code: int) -> bool {
    match cause {
        PathCause::FailedToDeserializePathParams => code == 400 || code == 500,
        PathCause::MissingPathParams => code == 500,
        PathCause::Unknown => true,
    }
}

/// Whether `code` is a number that axum answers a rejected query string of
/// the given cause with. Of a cause that the library does not know nothing
/// is said.
pub open spec fn query_status_fits(cause: QueryCause, code: int) -> bool {
    match cause {
        QueryCause::FailedToDeserializeQueryString => code == 400,
        QueryCause::Unknown => true,
    }
}

/// Which variant of axum's `JsonRejection` this is.
///
/// Trusted: the body matches on the variants, one arm each; a variant that
/// a later axum adds is `Unknown`. The contract claims what axum's source
/// fixes of `JsonRejection::status` for each variant: 422 where the body
/// does not fit the model, 400 where it is not JSON, 415 where the content
/// type is missing, and 400 or 413 where the body could not be read.
#[verifier::external_body]
fn json_rejection_cause(rejection: &rejection::JsonRejection) -> (cause: JsonCause)
    ensures
        json_status_fits(cause, json_status_of(*rejection) as int),
{
    match rejection {
        rejection::JsonRejection::JsonDataError(_) => JsonCause::JsonDataError,
        rejection::JsonRejection::JsonSyntaxError(_) => JsonCause::JsonSyntaxError,
        rejection::JsonRejection::MissingJsonContentType(_) => JsonCause::MissingJsonContentType,
        rejection::JsonRejection::BytesRejection(_) => JsonCause::BytesRejection,
        _ => JsonCause::Unknown,
    }
}

/// Which variant of axum's `PathRejection` this is.
///
/// Trusted: the body matches on the variants, one arm each; a variant that
/// a later axum adds is `Unknown`. The contract claims what axum's source
/// fixes of `PathRejection::status` for each variant: 400 or 500 where a
/// parameter could not be decoded, and 500 where the parameters are missing.
#[verifier::external_body]
fn path_rejection_cause(rejection: &rejection::PathRejection) -> (cause: PathCause)
    ensures
        path_status_fits(cause, path_status_of(*rejection) as int),
{
    match rejection {
        rejection::PathRejection::FailedToDeserializePathParams(_) => {
            PathCause::FailedToDeserializePathParams
        },
        rejection::PathRejection::MissingPathParams(_) => PathCause::MissingPathParams,
        _ => PathCause::Unknown,
    }
}

/// Which variant of axum's `QueryRejection` this is.
///
/// Trusted: the body matches on the variants, one arm each; a variant that
/// a later axum adds is `Unknown`. The contract claims what axum's source
/// fixes of `QueryRejection::status` for its one variant: 400.
#[verifier::external_body]
fn query_rejection_cause(rejection: &rejection::QueryRejection) -> (cause: QueryCause)
    ensures
        query_status_fits(cause, query_status_of(*rejection) as int),
{
    match rejection {
        rejection::QueryRejection::FailedToDeserializeQueryString(_) => {
            QueryCause::FailedToDeserializeQueryString
        },
        _ => QueryCause::Unknown,
    }
}

/// The number of the status code that axum answers this rejection with.
///
/// Trusted: the body calls `JsonRejection::status` and takes the number of
/// the `http::StatusCode` that it returns. The contract names that number,
/// which depends on the rejection alone, and claims that it has three
/// digits, which holds of every `http::StatusCode`.
#[verifier::external_body]
fn json_rejection_status(rejection: &rejection::JsonRejection) -> (code: u16)
    ensures
        code == json_status_of(*rejection),
        is_status_code(code as int),
{
    rejection.status().as_u16()
}

/// The number of the status code that axum answers this rejection with.
///
/// Trusted: the body calls `PathRejection::status` and takes the number of
/// the `http::StatusCode` that it returns. The contract names that number,
/// which depends on the rejection alone, and claims that it has three
/// digits, which holds of every `http::StatusCode`.
#[verifier::external_body]
fn path_rejection_status(rejection: &rejection::PathRejection) -> (code: u16)
    ensures
        code == path_status_of(*rejection),
        is_status_code(code as int),
{
    rejection.status().as_u16()
}

/// The number of the status code that axum answers this rejection with.
///
/// Trusted: the body calls `QueryRejection::status` and takes the number of
/// the `http::StatusCode` that it returns. The contract names that number,
/// which depends on the rejection alone, and claims that it has three
/// digits, which holds of every `http::StatusCode`.
#[verifier::external_body]
fn query_rejection_status(rejection: &rejection::QueryRejection) -> (code: u16)
    ensures
        code == query_status_of(*rejection),
        is_status_code(code as int),
{
    rejection.status().as_u16()
}

} // verus!
