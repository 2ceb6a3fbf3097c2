//! Failures of capture operations.

use vstd::prelude::*;
use vstd::string::*;

verus! {

/// A failure reported by the capture or encoding layer underneath.
#[derive(Debug, PartialEq)]
pub struct PlatformError {
    /// The platform's status code.
    pub code: i32,
    /// The platform's rendering of the failure.
    pub message: String,
}

/// What a `PlatformError` holds, as plain values.
pub struct PlatformErrorView {
    pub code: i32,
    pub message: Seq<char>,
}

impl View for PlatformError {
    type V = PlatformErrorView;

    open spec fn view(&self) -> PlatformErrorView {
        PlatformErrorView { code: self.code, message: self.message@ }
    }
}

/// Possible capturing errors.
#[derive(Debug, PartialEq)]
pub enum CaptureError {
    /// Cannot create file or directory
    CreateFileDirectory(String),
    /// No enumerated device carries the name
    DeviceNotFound(String),
    /// Cannot open capturing device
    DeviceOpen(String),
    /// Cannot grab a frame
    GrabFrame,
    /// Failure passed through from the capture or encoding layer
    OpenCv(PlatformError),
    /// Video capturing resource is busy
    ResourceBusy,
}

/// A `CaptureError` with its texts as character sequences.
pub enum CaptureErrorView {
    CreateFileDirectory(Seq<char>),
    DeviceNotFound(Seq<char>),
    DeviceOpen(Seq<char>),
    GrabFrame,
    OpenCv(PlatformErrorView),
    ResourceBusy,
}

impl View for CaptureError {
    type V = CaptureErrorView;

    open spec fn view(&self) -> CaptureErrorView {
        match self {
            CaptureError::CreateFileDirectory(path) => CaptureErrorView::CreateFileDirectory(path@),
            CaptureError::DeviceNotFound(name) => CaptureErrorView::DeviceNotFound(name@),
            CaptureError::DeviceOpen(id) => CaptureErrorView::DeviceOpen(id@),
            CaptureError::GrabFrame => CaptureErrorView::GrabFrame,
            CaptureError::OpenCv(e) => CaptureErrorView::OpenCv(e@),
            CaptureError::ResourceBusy => CaptureErrorView::ResourceBusy,
        }
    }
}

impl CaptureErrorView {
    /// The human-readable text of an error.
    pub open spec fn message(self) -> Seq<char> {
        match self {
            CaptureErrorView::CreateFileDirectory(path) => "cannot create file or directory '"@
                + path + "'"@,
            CaptureErrorView::DeviceNotFound(name) => "cannot find capture device '"@ + name + "'"@,
            CaptureErrorView::DeviceOpen(id) => "cannot open capture device "@ + id,
            CaptureErrorView::GrabFrame => "cannot grab a frame"@,
            CaptureErrorView::OpenCv(e) => "opencv error: "@ + e.message,
            CaptureErrorView::ResourceBusy => "resource is busy"@,
        }
    }
}

/// The result of an operation with its error as plain values.
pub open spec fn outcome_view<T>(r: Result<T, CaptureError>) -> Result<T, CaptureErrorView> {
    match r {
        Ok(v) => Ok(v),
        Err(e) => Err(e@),
    }
}

/// What the platform reported with its error as plain values.
pub open spec fn report_view<T>(r: Result<T, PlatformError>) -> Result<T, PlatformErrorView> {
    match r {
        Ok(v) => Ok(v),
        Err(e) => Err(e@),
    }
}

/// A platform report handed on to the caller: the value as it is, a failure wrapped.
pub open spec fn passed_on<T>(r: Result<T, PlatformErrorView>) -> Result<T, CaptureErrorView> {
    match r {
        Ok(v) => Ok(v),
        Err(e) => Err(CaptureErrorView::OpenCv(e)),
    }
}

/// Hands a platform report on to the caller.
pub fn pass_on<T>(report: Result<T, PlatformError>) -> (r: Result<T, CaptureError>)
    ensures
        outcome_view(r) == passed_on(report_view(report)),
{
    match report {
        Ok(v) => Ok(v),
        Err(e) => Err(CaptureError::OpenCv(e)),
    }
}

impl From<PlatformError> for CaptureError {
    /// Wraps a failure of the layer underneath.
    fn from(err: PlatformError) -> (e: CaptureError) {
        CaptureError::OpenCv(err)
    }
}

impl vstd::std_specs::convert::FromSpecImpl<PlatformError> for CaptureError {
    open spec fn obeys_from_spec() -> bool {
        true
    }

    open spec fn from_spec(err: PlatformError) -> CaptureError {
        CaptureError::OpenCv(err)
    }
}

impl CaptureError {
    /// The human-readable text of the error.
    pub fn message(&self) -> (text: String)
        ensures
            text@ == self@.message(),
    {
        match self {
            CaptureError::CreateFileDirectory(path) => String::from_str(
                "cannot create file or directory '",
            ).concat(path.as_str()).concat("'"),
            CaptureError::DeviceNotFound(name) => String::from_str(
                "cannot find capture device '",
            ).concat(name.as_str()).concat("'"),
            CaptureError::DeviceOpen(id) => String::from_str("cannot open capture device ").concat(
                id.as_str(),
            ),
            CaptureError::GrabFrame => String::from_str("cannot grab a frame"),
            CaptureError::OpenCv(e) => String::from_str("opencv error: ").concat(
                e.message.as_str(),
            ),
            CaptureError::ResourceBusy => String::from_str("resource is busy"),
        }
    }
}

} // verus!
