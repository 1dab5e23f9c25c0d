use vstd::prelude::*;

verus! {

/// The error that the desktop portal client reports for a failed request.
#[verifier::external_type_specification]
#[verifier::external_body]
pub struct ExPortalError(ashpd::Error);

/// How a failed screenshot request ended, as far as the editor cares: the user
/// cancelled it in the portal's dialog, the portal itself reports a cancelled
/// request, or it failed in some other way.
#[derive(Clone, Copy, Debug, PartialEq, Eq, Structural)]
pub enum PortalErrorKind {
    RequestCancelled,
    PortalCancelled,
    Other,
}

/// The kind of a portal error: which variant of `ashpd::Error` it is, as far as
/// cancellation goes. It depends on the error alone.
pub uninterp spec fn portal_kind_of(err: ashpd::Error) -> PortalErrorKind;

/// Tells apart the variants of `ashpd::Error` that mean a cancelled request:
/// `Error::Response(ResponseError::Cancelled)` and
/// `Error::Portal(PortalError::Cancelled(_))`; every other variant is `Other`.
/// The contract claims only that the result is the error's kind, a function of
/// the error alone.
#[verifier::external_body]
fn portal_error_kind(err: &ashpd::Error) -> (r: PortalErrorKind)
    ensures
        r == portal_kind_of(*err),
{
    match err {
        ashpd::Error::Response(ashpd::desktop::ResponseError::Cancelled) => PortalErrorKind::RequestCancelled,
        ashpd::Error::Portal(ashpd::PortalError::Cancelled(_)) => PortalErrorKind::PortalCancelled,
        _ => PortalErrorKind::Other,
    }
}

/// The text that `ashpd::Error`'s `Display` writes for the error. Nothing is
/// stated of it: for I/O errors it carries the operating system's message,
/// which follows the locale.
#[verifier::external_body]
fn portal_error_message(err: &ashpd::Error) -> String {
    err.to_string()
}

/// Why a screenshot could not be taken.
pub struct CaptureFailure {
    pub message: String,
    pub canceled: bool,
}

impl CaptureFailure {
    /// A failure with `message` that counts as cancelled for either kind of
    /// cancellation.
    pub fn from_kind(kind: PortalErrorKind, message: String) -> (r: CaptureFailure)
        ensures
            r.message == message,
            r.canceled == (kind != PortalErrorKind::Other),
    {
        let canceled = match kind {
            PortalErrorKind::RequestCancelled => true,
            PortalErrorKind::PortalCancelled => true,
            PortalErrorKind::Other => false,
        };
        CaptureFailure { message, canceled }
    }

    /// The failure for a portal error: its message, and whether the request was
    /// cancelled (for either kind of cancellation).
    pub fn from_portal_error(err: ashpd::Error) -> (r: CaptureFailure)
        ensures
            r.canceled == (portal_kind_of(err) != PortalErrorKind::Other),
    {
        let kind = portal_error_kind(&err);
        let message = portal_error_message(&err);
        CaptureFailure::from_kind(kind, message)
    }
}

/// What a screenshot request came back with: the image's URI or why there is
/// none, and whether a cancelled request should close the editor (the request
/// was made at startup, before the editor was shown).
pub struct CaptureResponse {
    pub result: Result<String, CaptureFailure>,
    pub close_on_cancel: bool,
}

/// What the editor does with a screenshot response.
#[derive(Debug, PartialEq, Eq)]
pub enum CaptureAction {
    /// Reports the capture, opens the image at this URI and shows the editor.
    Load(String),
    /// Closes the editor without showing it.
    Close,
    /// Reports that the capture failed, with this message, and shows the editor.
    Report(String),
}

/// Decides what to do with a screenshot response: a captured image is opened; a
/// cancelled request that should close the editor closes it; any other failure
/// is reported.
pub fn capture_action(response: CaptureResponse) -> (r: CaptureAction)
    ensures
        match response.result {
            Ok(uri) => r == CaptureAction::Load(uri),
            Err(failure) => if response.close_on_cancel && failure.canceled {
                r == CaptureAction::Close
            } else {
                r == CaptureAction::Report(failure.message)
            },
        },
{
    match response.result {
        Ok(uri) => CaptureAction::Load(uri),
        Err(failure) => {
            if response.close_on_cancel && failure.canceled {
                CaptureAction::Close
            } else {
                CaptureAction::Report(failure.message)
            }
        },
    }
}

} // verus!
