use ones_core::application::ApplicationError;
use ones_core::host::{descriptor_reply, resource_reply, COption, ReturnCode};

#[test]
fn resource_reply_carries_path() {
    let r = resource_reply(Ok(Some("cache/x".to_string())));
    assert_eq!(r.code, ReturnCode::SUCCESS);
    assert!(matches!(r.data, COption::Present(ref p) if p == "cache/x"));
}

#[test]
fn resource_reply_fails_without_path() {
    let r = resource_reply(Ok(None));
    assert_eq!(r.code, ReturnCode::FAIL);
    assert!(matches!(r.data, COption::Absent));
    let r = resource_reply(Err(ApplicationError::FileDownloadFail("u".to_string())));
    assert_eq!(r.code, ReturnCode::FAIL);
    assert!(matches!(r.data, COption::Absent));
}

#[test]
fn descriptor_reply_absent_is_success() {
    let r = descriptor_reply(Ok(None));
    assert_eq!(r.code, ReturnCode::SUCCESS);
    assert!(matches!(r.data, COption::Absent));
    let r = descriptor_reply(Ok(Some("{}".to_string())));
    assert_eq!(r.code, ReturnCode::SUCCESS);
    assert!(matches!(r.data, COption::Present(ref t) if t == "{}"));
    let r = descriptor_reply(Err(ApplicationError::UnexpectedEvent));
    assert_eq!(r.code, ReturnCode::FAIL);
    assert!(matches!(r.data, COption::Absent));
}
