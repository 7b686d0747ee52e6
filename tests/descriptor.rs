use std::collections::HashMap;

use ones_core::application::{AppInfo, ApplicationError, ModuleInfo, Source};
use ones_core::descriptor::{
    descriptor_url, DescriptorAction, DescriptorEvent, DescriptorResolver, FetchOutcome,
};

fn sample(version: i32) -> AppInfo {
    AppInfo {
        app_id: "fbbca092cdce4694a3d43f1ba002b6f1".to_string(),
        version,
        force: false,
        os: "Android".to_string(),
        use_app_store: false,
        app_uri: "http://www.nikoeureka33.gr".to_string(),
        meta_info: HashMap::new(),
        entry: ModuleInfo {
            app_id: "fbbca092cdce4694a3d43f1ba002b6f1".to_string(),
            id: "0c0ed7fd985049d5a3dd9ae827e06e65".to_string(),
            version: "1.0.0".to_string(),
            os: "Android".to_string(),
            agent: "RN".to_string(),
            script: vec![Source {
                src: "http://10.20.0.18:3000/main.0cf488c4cf7f6668c126.bundle.js".to_string(),
                is_async: false,
            }],
            ttf: "".to_string(),
        },
    }
}

fn started(server: &str, id: &str) -> DescriptorResolver {
    let (mut m, first) = DescriptorResolver::new(server, id);
    assert!(matches!(first, DescriptorAction::EnsureSchema));
    let a = m.step(DescriptorEvent::SchemaReady);
    assert!(matches!(a, DescriptorAction::Request(ref u) if *u == descriptor_url(server, id)));
    m
}

#[test]
fn url_of_descriptor() {
    assert_eq!(descriptor_url("http://127.0.0.1:8080", "abc"), "http://127.0.0.1:8080/appinfo/abc");
}

#[test]
fn authoritative_answer_is_stored_and_returned() {
    let mut m = started("http://h", "app");
    assert_eq!(m.id(), "app");
    let a = m.step(DescriptorEvent::Fetched(FetchOutcome::Answered { code: 0, data: sample(7) }));
    assert!(matches!(a, DescriptorAction::Persist));
    assert_eq!(m.pending().map(|d| d.version), Some(7));
    let a = m.step(DescriptorEvent::Persisted);
    assert!(matches!(a, DescriptorAction::Finish(Ok(Some(ref d))) if d.version == 7));
}

#[test]
fn stored_descriptor_served_when_unreachable() {
    let mut m = started("http://h", "app");
    let a = m.step(DescriptorEvent::Fetched(FetchOutcome::Unreachable));
    assert!(matches!(a, DescriptorAction::ReadCache));
    assert!(m.pending().is_none());
    let a = m.step(DescriptorEvent::CacheRead(Some(sample(3))));
    assert!(matches!(a, DescriptorAction::Finish(Ok(Some(ref d))) if d.version == 3));
}

#[test]
fn negative_answer_without_cache_is_no_descriptor() {
    let mut m = started("http://h", "app");
    let a = m.step(DescriptorEvent::Fetched(FetchOutcome::Answered { code: 1, data: sample(9) }));
    assert!(matches!(a, DescriptorAction::ReadCache));
    let a = m.step(DescriptorEvent::CacheRead(None));
    assert!(matches!(a, DescriptorAction::Finish(Ok(None))));
}

#[test]
fn failure_status_falls_back() {
    let mut m = started("http://h", "app");
    let a = m.step(DescriptorEvent::Fetched(FetchOutcome::Rejected(500)));
    assert!(matches!(a, DescriptorAction::ReadCache));
}

#[test]
fn store_error_is_surfaced() {
    let (mut m, _) = DescriptorResolver::new("http://h", "app");
    let a = m.step(DescriptorEvent::Failed(ApplicationError::SqliteError("locked".to_string())));
    assert!(matches!(a, DescriptorAction::Finish(Err(ApplicationError::SqliteError(_)))));
}

#[test]
fn out_of_order_event_is_refused() {
    let (mut m, _) = DescriptorResolver::new("http://h", "app");
    let a = m.step(DescriptorEvent::Persisted);
    assert!(matches!(a, DescriptorAction::Finish(Err(ApplicationError::UnexpectedEvent))));
}
