//! What a front-end reports when a request fails: a status code and a message.

use crate::error::{CaptureError, CaptureErrorView};
use vstd::prelude::*;
use vstd::string::*;

verus! {

/// Why a request to the front-end failed.
#[derive(Debug, PartialEq)]
pub enum ApiError {
    /// A capture operation failed.
    Capture(CaptureError),
    /// No capture handle was opened.
    CaptureNotInitialized,
    /// The capture devices could not be enumerated.
    EnumerateDevices,
}

/// An `ApiError` as plain values.
pub enum ApiErrorView {
    Capture(CaptureErrorView),
    CaptureNotInitialized,
    EnumerateDevices,
}

impl View for ApiError {
    type V = ApiErrorView;

    open spec fn view(&self) -> ApiErrorView {
        match self {
            ApiError::Capture(e) => ApiErrorView::Capture(e@),
            ApiError::CaptureNotInitialized => ApiErrorView::CaptureNotInitialized,
            ApiError::EnumerateDevices => ApiErrorView::EnumerateDevices,
        }
    }
}

/// The status code of a failure on the server's side.
pub const INTERNAL_SERVER_ERROR: u16 = 500;

/// The status code of a request that cannot be served as it was made.
pub const BAD_REQUEST: u16 = 400;

impl ApiErrorView {
    /// The human-readable text of a failure.
    pub open spec fn message(self) -> Seq<char> {
        match self {
            ApiErrorView::Capture(e) => "capture error: "@ + e.message(),
            ApiErrorView::CaptureNotInitialized => "capture not initialized"@,
            ApiErrorView::EnumerateDevices => "cannot enumerate capture devices"@,
        }
    }
}

/// The status and the message that answer a rejected request. A request
/// made before a handle was opened is the client's fault; every other known
/// failure is the server's, and so is a rejection of unknown cause.
pub open spec fn rejection_reply(cause: Option<ApiErrorView>) -> (u16, Seq<char>) {
    match cause {
        Some(ApiErrorView::Capture(e)) => (INTERNAL_SERVER_ERROR, e.message()),
        Some(ApiErrorView::CaptureNotInitialized) => (BAD_REQUEST, "capture not initialized"@),
        Some(ApiErrorView::EnumerateDevices) => (
            INTERNAL_SERVER_ERROR,
            "cannot enumerate capture devices"@,
        ),
        None => (INTERNAL_SERVER_ERROR, "unhandled error"@),
    }
}

/// The cause of a rejection as plain values.
pub open spec fn cause_view(cause: Option<&ApiError>) -> Option<ApiErrorView> {
    match cause {
        Some(e) => Some(e@),
        None => None,
    }
}

impl ApiError {
    /// The human-readable text of the failure.
    pub fn message(&self) -> (text: String)
        ensures
            text@ == self@.message(),
    {
        match self {
            ApiError::Capture(e) => {
                let detail: String = e.message();
                String::from_str("capture error: ").concat(detail.as_str())
            },
            ApiError::CaptureNotInitialized => String::from_str("capture not initialized"),
            ApiError::EnumerateDevices => String::from_str("cannot enumerate capture devices"),
        }
    }

    /// Hands out the opened handle, or fails where none was opened.
    pub fn require<T>(state: Option<T>) -> (handle: Result<T, ApiError>)
        ensures
            match state {
                Some(opened) => handle == Ok::<T, ApiError>(opened),
                None => handle == Err::<T, ApiError>(ApiError::CaptureNotInitialized),
            },
    {
        match state {
            Some(opened) => Ok(opened),
            None => Err(ApiError::CaptureNotInitialized),
        }
    }
}

/// Turns the cause of a rejected request, where one is known, into the
/// status code and the message to answer with.
pub fn handle_rejection(cause: Option<&ApiError>) -> (reply: (u16, String))
    ensures
        (reply.0, reply.1@) == rejection_reply(cause_view(cause)),
{
    match cause {
        Some(ApiError::Capture(e)) => (INTERNAL_SERVER_ERROR, e.message()),
        Some(ApiError::CaptureNotInitialized) => (
            BAD_REQUEST,
            String::from_str("capture not initialized"),
        ),
        Some(ApiError::EnumerateDevices) => (
            INTERNAL_SERVER_ERROR,
            String::from_str("cannot enumerate capture devices"),
        ),
        None => (INTERNAL_SERVER_ERROR, String::from_str("unhandled error")),
    }
}

} // verus!
