use wayshot::{capture_action, CaptureAction, CaptureFailure, CaptureResponse, PortalErrorKind};

#[test]
fn capture_failure_cancel_kinds() {
    let f = CaptureFailure::from_kind(PortalErrorKind::RequestCancelled, "x".to_string());
    assert!(f.canceled);
    assert_eq!(f.message, "x");
    assert!(CaptureFailure::from_kind(PortalErrorKind::PortalCancelled, String::new()).canceled);
    assert!(!CaptureFailure::from_kind(PortalErrorKind::Other, String::new()).canceled);
}

#[test]
fn capture_failure_from_cancelled_response() {
    let err = ashpd::Error::Response(ashpd::desktop::ResponseError::Cancelled);
    let f = CaptureFailure::from_portal_error(err);
    assert!(f.canceled);
    assert_eq!(f.message, "Portal request was cancelled");
    let err = ashpd::Error::Portal(ashpd::PortalError::Cancelled("no".to_string()));
    assert!(CaptureFailure::from_portal_error(err).canceled);
    let err = ashpd::Error::NoResponse;
    let f = CaptureFailure::from_portal_error(err);
    assert!(!f.canceled);
    assert_eq!(f.message, "Portal request didn't receive a response");
}

#[test]
fn capture_action_loads_image() {
    let r = CaptureResponse { result: Ok("file:///tmp/a.png".to_string()), close_on_cancel: true };
    assert_eq!(capture_action(r), CaptureAction::Load("file:///tmp/a.png".to_string()));
}

#[test]
fn capture_action_closes_on_startup_cancel() {
    let failure = CaptureFailure { message: "c".to_string(), canceled: true };
    let r = CaptureResponse { result: Err(failure), close_on_cancel: true };
    assert_eq!(capture_action(r), CaptureAction::Close);
}

#[test]
fn capture_action_reports_other_failures() {
    let failure = CaptureFailure { message: "c".to_string(), canceled: true };
    let r = CaptureResponse { result: Err(failure), close_on_cancel: false };
    assert_eq!(capture_action(r), CaptureAction::Report("c".to_string()));
    let failure = CaptureFailure { message: "boom".to_string(), canceled: false };
    let r = CaptureResponse { result: Err(failure), close_on_cancel: true };
    assert_eq!(capture_action(r), CaptureAction::Report("boom".to_string()));
}
