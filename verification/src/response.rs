//! Responses, the outcomes that they answer, and the encoding of one as
//! the other.

use vstd::prelude::*;

verus! {

/// The status of an answer that carries what was asked for, or the text
/// that says that no record was found.
pub const STATUS_OK: u16 = 200;

/// The status of the answer to a request that no route takes.
pub const STATUS_NOT_FOUND: u16 = 404;

/// The status of the answer to a request whose body could not be read as
/// JSON, or whose result could not be written as JSON.
pub const STATUS_INTERNAL_SERVER_ERROR: u16 = 500;

/// Why an operation has no JSON text to answer with.
#[derive(Clone, Copy, Debug, PartialEq, Eq, Structural)]
pub enum ApiError {
    /// The body of the request is not valid JSON.
    Decode,
    /// The result could not be written as JSON.
    Encode,
    /// No record has the identifier that was asked for.
    NotFound,
    /// No route takes the request.
    RouteNotFound,
}

/// What an operation gives: JSON text, or the reason why there is none.
pub type Outcome = Result<Seq<char>, ApiError>;

/// An answer: its status, the content type that its header names, if the
/// header names one, and its body.
#[derive(Clone, Debug, PartialEq, Eq)]
pub struct Response {
    pub status: u16,
    pub content_type: Option<String>,
    pub body: String,
}

/// What a [`Response`] holds.
pub ghost struct ResponseView {
    pub status: u16,
    pub content_type: Option<Seq<char>>,
    pub body: Seq<char>,
}

impl View for Response {
    type V = ResponseView;

    open spec fn view(&self) -> ResponseView {
        ResponseView {
            status: self.status,
            content_type: match self.content_type {
                Some(name) => Some(name@),
                None => None,
            },
            body: self.body@,
        }
    }
}

/// The answer to each outcome. JSON text goes out with status 200 under the
/// content type `application/json`. A body that is not JSON, or a result
/// that cannot be written, gives status 500 with a fixed text that tells
/// nothing of the cause. A request outside the routes gives status 404 and
/// no body. A lookup that finds no record is answered with status 200 and a
/// fixed text, on purpose: the miss is no failure of the request, and 404 is
/// kept for paths outside the routes.
pub open spec fn wire(outcome: Outcome) -> ResponseView {
    match outcome {
        Ok(json) => ResponseView {
            status: STATUS_OK,
            content_type: Some("application/json"@),
            body: json,
        },
        Err(ApiError::Decode) | Err(ApiError::Encode) => ResponseView {
            status: STATUS_INTERNAL_SERVER_ERROR,
            content_type: None,
            body: "Internal Server Error"@,
        },
        Err(ApiError::NotFound) => ResponseView {
            status: STATUS_OK,
            content_type: None,
            body: "Car not found"@,
        },
        Err(ApiError::RouteNotFound) => ResponseView {
            status: STATUS_NOT_FOUND,
            content_type: None,
            body: Seq::empty(),
        },
    }
}

/// What the result of an operation holds.
pub open spec fn outcome_of(result: Result<String, ApiError>) -> Outcome {
    match result {
        Ok(json) => Ok(json@),
        Err(error) => Err(error),
    }
}

/// Encodes the result of an operation as the answer to send.
pub fn encode_response(result: Result<String, ApiError>) -> (response: Response)
    ensures
        response@ == wire(outcome_of(result)),
{
    match result {
        Ok(json) => Response {
            status: STATUS_OK,
            content_type: Some("application/json".to_owned()),
            body: json,
        },
        Err(ApiError::Decode) | Err(ApiError::Encode) => Response {
            status: STATUS_INTERNAL_SERVER_ERROR,
            content_type: None,
            body: "Internal Server Error".to_owned(),
        },
        Err(ApiError::NotFound) => Response {
            status: STATUS_OK,
            content_type: None,
            body: "Car not found".to_owned(),
        },
        Err(ApiError::RouteNotFound) => Response {
            status: STATUS_NOT_FOUND,
            content_type: None,
            body: String::new(),
        },
    }
}

} // verus!
