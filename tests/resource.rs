use ones_core::application::{ApplicationError, Resource};
use ones_core::digest::md5;
use ones_core::resource::{
    cache_file_path, fresh_cache_path, is_success, ResourceAction, ResourceEvent, ResourceResolver,
};

fn record(id: i64, url: &str, path: &str, hash: &str) -> Resource {
    Resource {
        id,
        url: url.to_string(),
        path: path.to_string(),
        hash_code: hash.to_string(),
        cache_ctrl: "".to_string(),
    }
}

fn looked_up(url: &str, disable_cache: bool, found: Option<Resource>) -> (ResourceResolver, ResourceAction) {
    let (mut m, first) = ResourceResolver::new(url, "test_cache", disable_cache);
    assert!(matches!(first, ResourceAction::EnsureDir(ref d) if d == "test_cache"));
    assert!(matches!(m.step(ResourceEvent::DirReady), ResourceAction::EnsureSchema));
    assert!(matches!(m.step(ResourceEvent::SchemaReady), ResourceAction::Lookup(ref u) if u == url));
    let a = m.step(ResourceEvent::LookedUp(found));
    (m, a)
}

#[test]
fn status_success_range() {
    assert!(is_success(200));
    assert!(is_success(299));
    assert!(!is_success(199));
    assert!(!is_success(300));
    assert!(!is_success(404));
}

#[test]
fn paths_join_under_directory() {
    assert_eq!(cache_file_path("test_cache", "x"), "test_cache/x");
    assert_eq!(cache_file_path("test_cache/", "x"), "test_cache/x");
    assert_eq!(cache_file_path("", "x"), "x");
    let p = fresh_cache_path("test_cache");
    assert!(p.starts_with("test_cache/"));
    assert_eq!(p.len(), "test_cache/".len() + 36);
    assert_ne!(p, fresh_cache_path("test_cache"));
}

#[test]
fn first_lookup_downloads_and_records() {
    let url = "http://127.0.0.1:1/test.js";
    let (mut m, a) = looked_up(url, false, None);
    assert!(matches!(a, ResourceAction::Request(ref u) if u == url));
    let fresh = m.request().fresh_path.clone();
    assert!(matches!(m.step(ResourceEvent::Responded(200)), ResourceAction::WriteFile(ref p) if *p == fresh));
    assert!(matches!(m.step(ResourceEvent::Written), ResourceAction::HashFile(ref p) if *p == fresh));
    let h = md5("console.log('Hello, world!');");
    match m.step(ResourceEvent::Hashed(Some(h.clone()))) {
        ResourceAction::Insert { url: u, path, hash_code, cache_ctrl } => {
            assert_eq!(u, url);
            assert_eq!(path, fresh);
            assert_eq!(hash_code, h);
            assert_eq!(cache_ctrl, "");
        }
        _ => panic!("expected an insert"),
    }
    assert!(matches!(m.step(ResourceEvent::Inserted), ResourceAction::Finish(Ok(ref p)) if *p == fresh));
}

#[test]
fn valid_record_is_served_without_download() {
    let url = "http://127.0.0.1:1/test.js";
    let h = md5("body");
    let (mut m, a) = looked_up(url, false, Some(record(4, url, "test_cache/old", &h)));
    assert!(matches!(a, ResourceAction::Delete(4)));
    assert!(matches!(m.step(ResourceEvent::Deleted), ResourceAction::HashFile(ref p) if p == "test_cache/old"));
    match m.step(ResourceEvent::Hashed(Some(h.clone()))) {
        ResourceAction::Insert { url: u, path, hash_code, cache_ctrl } => {
            assert_eq!(u, url);
            assert_eq!(path, "test_cache/old");
            assert_eq!(hash_code, h);
            assert_eq!(cache_ctrl, "");
        }
        _ => panic!("expected the record to be stored again"),
    }
    let a = m.step(ResourceEvent::Inserted);
    assert!(matches!(a, ResourceAction::Finish(Ok(ref p)) if p == "test_cache/old"));
}

#[test]
fn mismatched_digest_downloads_again() {
    let url = "http://127.0.0.1:1/test.js";
    let (mut m, _) = looked_up(url, false, Some(record(4, url, "test_cache/old", &md5("body"))));
    m.step(ResourceEvent::Deleted);
    let a = m.step(ResourceEvent::Hashed(Some(md5("tampered"))));
    assert!(matches!(a, ResourceAction::Request(ref u) if u == url));
}

#[test]
fn missing_file_downloads_again() {
    let url = "http://127.0.0.1:1/test.js";
    let (mut m, _) = looked_up(url, false, Some(record(4, url, "test_cache/old", &md5("body"))));
    m.step(ResourceEvent::Deleted);
    let a = m.step(ResourceEvent::Hashed(None));
    assert!(matches!(a, ResourceAction::Request(_)));
}

#[test]
fn bypass_downloads_despite_valid_record() {
    let url = "http://127.0.0.1:1/test.js";
    let (mut m, a) = looked_up(url, true, Some(record(4, url, "test_cache/old", &md5("body"))));
    assert!(matches!(a, ResourceAction::Delete(4)));
    let a = m.step(ResourceEvent::Deleted);
    assert!(matches!(a, ResourceAction::Request(ref u) if u == url));
}

#[test]
fn not_found_is_download_failure() {
    let url = "http://127.0.0.1:1/missing.js";
    let (mut m, _) = looked_up(url, false, None);
    let a = m.step(ResourceEvent::Responded(404));
    assert!(matches!(a, ResourceAction::Finish(Err(ApplicationError::FileDownloadFail(ref u))) if u == url));
}

#[test]
fn unparsable_url_is_refused() {
    let (_, a) = looked_up("not a url", false, None);
    assert!(matches!(a, ResourceAction::Finish(Err(ApplicationError::UrlParseError))));
}

#[test]
fn transport_error_is_surfaced() {
    let url = "http://127.0.0.1:1/test.js";
    let (mut m, _) = looked_up(url, false, None);
    let a = m.step(ResourceEvent::Failed(ApplicationError::ReqwestError("refused".to_string())));
    assert!(matches!(a, ResourceAction::Finish(Err(ApplicationError::ReqwestError(_)))));
}
