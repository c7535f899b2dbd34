//! The failures of the owner interface and how each is shown to an HTTP
//! client and to a streaming client.

use crate::responses::TeslaError;
use crate::streaming::ErrorType;
use std::collections::HashMap;
use vstd::prelude::*;
use vstd::string::*;

verus! {

/// A failure of a request.
#[derive(Debug, PartialEq, Eq)]
pub enum ResponseError {
    /// The request or command is not known.
    InvalidCommand,
    /// A value in the request is not valid.
    InvalidField,
    /// The token is expired, forged or of the wrong kind. A client cannot
    /// tell which.
    TokenExpired,
    /// Something went wrong on this side; the text is for the log.
    InternalServerError(String),
    /// The request is understood and not supported; the text says what.
    NotImplemented(String),
    /// The token lacks a scope that the request needs.
    MissingScopes,
    /// There is no such vehicle.
    NotFound,
    /// The vehicle is asleep or does not answer.
    DeviceNotAvailable,
    /// The vehicle answered with an error.
    DeviceUnexpectedResponse,
}

/// A failure with its text as a character sequence.
pub enum ResponseErrorView {
    InvalidCommand,
    InvalidField,
    TokenExpired,
    InternalServerError(Seq<char>),
    NotImplemented(Seq<char>),
    MissingScopes,
    NotFound,
    DeviceNotAvailable,
    DeviceUnexpectedResponse,
}

impl View for ResponseError {
    type V = ResponseErrorView;

    open spec fn view(&self) -> ResponseErrorView {
        match *self {
            ResponseError::InvalidCommand => ResponseErrorView::InvalidCommand,
            ResponseError::InvalidField => ResponseErrorView::InvalidField,
            ResponseError::TokenExpired => ResponseErrorView::TokenExpired,
            ResponseError::InternalServerError(s) => ResponseErrorView::InternalServerError(s@),
            ResponseError::NotImplemented(s) => ResponseErrorView::NotImplemented(s@),
            ResponseError::MissingScopes => ResponseErrorView::MissingScopes,
            ResponseError::NotFound => ResponseErrorView::NotFound,
            ResponseError::DeviceNotAvailable => ResponseErrorView::DeviceNotAvailable,
            ResponseError::DeviceUnexpectedResponse => ResponseErrorView::DeviceUnexpectedResponse,
        }
    }
}

/// The HTTP status of a failure.
pub open spec fn status_of(e: ResponseErrorView) -> u16 {
    match e {
        ResponseErrorView::InvalidCommand => 400,
        ResponseErrorView::InvalidField => 400,
        ResponseErrorView::TokenExpired => 401,
        ResponseErrorView::MissingScopes => 403,
        ResponseErrorView::NotFound => 404,
        ResponseErrorView::DeviceNotAvailable => 408,
        ResponseErrorView::NotImplemented(_) => 501,
        ResponseErrorView::InternalServerError(_) => 500,
        ResponseErrorView::DeviceUnexpectedResponse => 540,
    }
}

/// How a failure is named to a streaming client. The two failures of this
/// side itself have no name there.
pub open spec fn streaming_type_of(e: ResponseErrorView) -> Option<ErrorType> {
    match e {
        ResponseErrorView::InvalidCommand => Some(ErrorType::ClientError),
        ResponseErrorView::InvalidField => Some(ErrorType::ClientError),
        ResponseErrorView::TokenExpired => Some(ErrorType::ClientError),
        ResponseErrorView::MissingScopes => Some(ErrorType::ClientError),
        ResponseErrorView::NotFound => Some(ErrorType::ClientError),
        ResponseErrorView::DeviceNotAvailable => Some(ErrorType::VehicleDisconnected),
        ResponseErrorView::NotImplemented(_) => None,
        ResponseErrorView::InternalServerError(_) => None,
        ResponseErrorView::DeviceUnexpectedResponse => Some(ErrorType::VehicleError),
    }
}

/// The code and the description in the body of a failure, `None` where the
/// body is empty. The text of an internal failure stays out of the body.
pub open spec fn body_of(e: ResponseErrorView) -> Option<(Seq<char>, Seq<char>)> {
    match e {
        ResponseErrorView::InvalidCommand => Some(("error:invalid_command"@, "Invalid command"@)),
        ResponseErrorView::InvalidField => Some(("error:invalid_field"@, "Invalid field"@)),
        ResponseErrorView::TokenExpired => None,
        ResponseErrorView::InternalServerError(_) => Some(
            ("Internal Server Error"@, "Something went wrong"@),
        ),
        ResponseErrorView::NotImplemented(msg) => Some(
            ("Not Implemented"@, "Not Implemented: "@ + msg),
        ),
        ResponseErrorView::MissingScopes => Some(
            ("Unauthorized missing scopes"@, "Unauthorized missing scopes"@),
        ),
        ResponseErrorView::NotFound => Some(("Not Found"@, "Not Found"@)),
        ResponseErrorView::DeviceNotAvailable => Some(
            ("Device not available"@, "Device not available"@),
        ),
        ResponseErrorView::DeviceUnexpectedResponse => Some(
            ("Device responded with an error"@, "Device responded with an error"@),
        ),
    }
}

/// A failure as an HTTP answer: the status, and the failure envelope unless
/// the body is empty.
#[derive(Debug, PartialEq, Eq)]
pub struct ErrorResponse {
    pub status: u16,
    pub body: Option<TeslaError>,
}

fn envelope(error: &str, description: &str) -> (r: TeslaError)
    ensures
        r.error@ == error@,
        r.error_description@ == description@,
        r.messages@ == Map::<String, String>::empty(),
{
    TeslaError {
        error: error.to_owned(),
        error_description: description.to_owned(),
        messages: HashMap::new(),
    }
}

impl ResponseError {
    /// An internal failure with a text for the log.
    pub fn internal_error(message: &str) -> (r: Self)
        ensures
            r@ == ResponseErrorView::InternalServerError(message@),
    {
        ResponseError::InternalServerError(message.to_owned())
    }

    /// A request that is not supported, with a text that says what.
    pub fn not_implemented(message: &str) -> (r: Self)
        ensures
            r@ == ResponseErrorView::NotImplemented(message@),
    {
        ResponseError::NotImplemented(message.to_owned())
    }

    /// The HTTP status.
    pub fn status_code(&self) -> (r: u16)
        ensures
            r == status_of(self@),
    {
        match self {
            ResponseError::InvalidCommand => 400,
            ResponseError::InvalidField => 400,
            ResponseError::TokenExpired => 401,
            ResponseError::MissingScopes => 403,
            ResponseError::NotFound => 404,
            ResponseError::DeviceNotAvailable => 408,
            ResponseError::NotImplemented(_) => 501,
            ResponseError::InternalServerError(_) => 500,
            ResponseError::DeviceUnexpectedResponse => 540,
        }
    }

    /// The name of the failure for a streaming client, if it has one.
    pub fn streaming_error_type(&self) -> (r: Option<ErrorType>)
        ensures
            r == streaming_type_of(self@),
    {
        match self {
            ResponseError::InvalidCommand => Some(ErrorType::ClientError),
            ResponseError::InvalidField => Some(ErrorType::ClientError),
            ResponseError::TokenExpired => Some(ErrorType::ClientError),
            ResponseError::MissingScopes => Some(ErrorType::ClientError),
            ResponseError::NotFound => Some(ErrorType::ClientError),
            ResponseError::DeviceNotAvailable => Some(ErrorType::VehicleDisconnected),
            ResponseError::NotImplemented(_) => None,
            ResponseError::InternalServerError(_) => None,
            ResponseError::DeviceUnexpectedResponse => Some(ErrorType::VehicleError),
        }
    }

    /// The failure as an HTTP answer.
    pub fn into_response(self) -> (r: ErrorResponse)
        ensures
            r.status == status_of(self@),
            match body_of(self@) {
                Some((error, description)) => r.body is Some && r.body->0.error@ == error
                    && r.body->0.error_description@ == description && r.body->0.messages@
                    == Map::<String, String>::empty(),
                None => r.body is None,
            },
    {
        let status: u16 = self.status_code();
        let body: Option<TeslaError> = match self {
            ResponseError::InvalidCommand => Some(
                envelope("error:invalid_command", "Invalid command"),
            ),
            ResponseError::InvalidField => Some(envelope("error:invalid_field", "Invalid field")),
            ResponseError::TokenExpired => None,
            ResponseError::InternalServerError(_) => Some(
                envelope("Internal Server Error", "Something went wrong"),
            ),
            ResponseError::NotImplemented(msg) => {
                let mut description: String = "Not Implemented: ".to_owned();
                description.append(msg.as_str());
                Some(envelope("Not Implemented", description.as_str()))
            },
            ResponseError::MissingScopes => Some(
                envelope("Unauthorized missing scopes", "Unauthorized missing scopes"),
            ),
            ResponseError::NotFound => Some(envelope("Not Found", "Not Found")),
            ResponseError::DeviceNotAvailable => Some(
                envelope("Device not available", "Device not available"),
            ),
            ResponseError::DeviceUnexpectedResponse => Some(
                envelope("Device responded with an error", "Device responded with an error"),
            ),
        };
        ErrorResponse { status, body }
    }
}

} // verus!
