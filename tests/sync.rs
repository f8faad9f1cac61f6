use list_of_lists::sync::{
    remote_content, remote_modified_time, stored_metadata, strip_quotes, StoredMetadata,
    SyncAction, SyncEvent, SyncOutcome, SyncPhase, Synchronizer, Timestamp,
};
use list_of_lists::{ListError, MetadataField};

const BODY: &str = r#"{ "a" : 1 }"#;
const CONTENT: &str = BODY;
const CONTENT_MD5: &str = "3578519ce226de270c08039ae3ee3c2e";

fn ts(seconds: i64) -> Timestamp {
    Timestamp { seconds, nanos: 0 }
}

fn metadata(remote: &str, e_tag: &str, stored: i64) -> SyncEvent {
    SyncEvent::Metadata {
        remote_response: format!(r#"{{"name":"list.json","client_modified":"{}"}}"#, remote),
        e_tag: Some(e_tag.to_string()),
        last_modified: Some(ts(stored)),
    }
}

/// Runs one synchronization, answering every action; returns the actions.
fn run(force: bool, meta: SyncEvent, body: &str) -> Vec<SyncAction> {
    let (mut sync, first) = Synchronizer::start(force);
    let mut actions = vec![first];
    let mut meta = Some(meta);
    loop {
        let event = match actions.last().unwrap() {
            SyncAction::FetchMetadata => meta.take().unwrap(),
            SyncAction::FetchContent => SyncEvent::Content { body: body.to_string() },
            SyncAction::Write { .. } => SyncEvent::Written,
            SyncAction::Finish { .. } | SyncAction::Fail { .. } => return actions,
        };
        actions.push(sync.step(event));
    }
}

#[test]
fn reads_remote_modification_time() {
    let t = remote_modified_time(r#"{"client_modified":"2021-03-04T05:06:07Z"}"#);
    assert_eq!(t, Ok(Timestamp { seconds: 1614834367, nanos: 0 }));
}

#[test]
fn remote_time_errors() {
    assert_eq!(remote_modified_time("nope"), Err(ListError::Parse));
    assert_eq!(
        remote_modified_time(r#"{"name":"x"}"#),
        Err(ListError::MissingField { field: MetadataField::ClientModified })
    );
    assert_eq!(
        remote_modified_time(r#"{"client_modified":7}"#),
        Err(ListError::MissingField { field: MetadataField::ClientModified })
    );
    assert_eq!(
        remote_modified_time(r#"{"client_modified":"yesterday"}"#),
        Err(ListError::Timestamp)
    );
}

#[test]
fn timestamps_compare_by_seconds_then_nanos() {
    assert!(ts(5).is_not_after(&ts(5)));
    assert!(ts(4).is_not_after(&ts(5)));
    assert!(!ts(6).is_not_after(&ts(5)));
    let a = Timestamp { seconds: 5, nanos: 10 };
    let b = Timestamp { seconds: 5, nanos: 20 };
    assert!(a.is_not_after(&b));
    assert!(!b.is_not_after(&a));
}

#[test]
fn entity_tag_loses_its_quotes() {
    assert_eq!(strip_quotes("\"abc\""), "abc");
    assert_eq!(strip_quotes("a\"b"), "ab");
    assert_eq!(strip_quotes(""), "");
}

#[test]
fn stored_metadata_needs_both_fields() {
    assert_eq!(
        stored_metadata(&Some("\"tag\"".to_string()), Some(ts(3))),
        Ok(StoredMetadata { fingerprint: "tag".to_string(), modified: ts(3) })
    );
    assert_eq!(
        stored_metadata(&None, Some(ts(3))),
        Err(ListError::MissingField { field: MetadataField::ETag })
    );
    assert_eq!(
        stored_metadata(&Some("tag".to_string()), None),
        Err(ListError::MissingField { field: MetadataField::LastModified })
    );
}

#[test]
fn downloaded_content_is_kept_as_it_came_and_fingerprinted() {
    let c = remote_content(BODY).unwrap();
    assert_eq!(c.content, CONTENT);
    assert_eq!(c.fingerprint, CONTENT_MD5);
    assert_eq!(remote_content("{"), Err(ListError::Parse));
}

#[test]
fn stale_remote_is_skipped_without_download() {
    // Remote 2021-03-04T05:06:07Z, stored a second later.
    let actions = run(false, metadata("2021-03-04T05:06:07Z", "\"other\"", 1614834368), BODY);
    assert_eq!(
        actions,
        vec![SyncAction::FetchMetadata, SyncAction::Finish { outcome: SyncOutcome::Unchanged }]
    );

    // Equal times are not newer either.
    let actions = run(false, metadata("2021-03-04T05:06:07Z", "\"other\"", 1614834367), BODY);
    assert!(!actions.contains(&SyncAction::FetchContent));
}

#[test]
fn newer_remote_with_new_content_is_written() {
    let actions = run(false, metadata("2021-03-04T05:06:07Z", "\"other\"", 1577836800), BODY);
    assert_eq!(
        actions,
        vec![
            SyncAction::FetchMetadata,
            SyncAction::FetchContent,
            SyncAction::Write { content: CONTENT.to_string() },
            SyncAction::Finish { outcome: SyncOutcome::Updated },
        ]
    );
}

#[test]
fn newer_remote_with_same_content_is_not_written() {
    let tag = format!("\"{}\"", CONTENT_MD5);
    let actions = run(false, metadata("2021-03-04T05:06:07Z", &tag, 1577836800), BODY);
    assert_eq!(
        actions,
        vec![
            SyncAction::FetchMetadata,
            SyncAction::FetchContent,
            SyncAction::Finish { outcome: SyncOutcome::Unchanged },
        ]
    );
}

#[test]
fn force_always_fetches_and_writes() {
    let tag = format!("\"{}\"", CONTENT_MD5);
    let expected = vec![
        SyncAction::FetchMetadata,
        SyncAction::FetchContent,
        SyncAction::Write { content: CONTENT.to_string() },
        SyncAction::Finish { outcome: SyncOutcome::Updated },
    ];
    // Stale remote and same content: both checks would skip, unforced.
    assert_eq!(run(true, metadata("2021-03-04T05:06:07Z", &tag, 1614834368), BODY), expected);
    assert_eq!(run(true, metadata("2021-03-04T05:06:07Z", "x", 1577836800), BODY), expected);
}

#[test]
fn second_run_after_update_is_unchanged() {
    let first = run(false, metadata("2021-03-04T05:06:07Z", "\"old\"", 1577836800), BODY);
    let written = match &first[2] {
        SyncAction::Write { content } => content.clone(),
        other => panic!("expected a write, got {:?}", other),
    };
    // The store now holds what was written; its tag is that content's MD5.
    let tag = format!("\"{}\"", remote_content(&written).unwrap().fingerprint);
    // Even with the store's clock behind the remote one, nothing is written.
    let second = run(false, metadata("2021-03-04T05:06:07Z", &tag, 1577836801), BODY);
    assert_eq!(second.last(), Some(&SyncAction::Finish { outcome: SyncOutcome::Unchanged }));
    assert!(!second.iter().any(|a| matches!(a, SyncAction::Write { .. })));
}

#[test]
fn failures_end_the_run() {
    let meta = SyncEvent::Metadata {
        remote_response: "{}".to_string(),
        e_tag: Some("t".to_string()),
        last_modified: Some(ts(1)),
    };
    assert_eq!(
        run(false, meta, BODY).last(),
        Some(&SyncAction::Fail { error: ListError::MissingField { field: MetadataField::ClientModified } })
    );

    let meta = SyncEvent::Metadata {
        remote_response: r#"{"client_modified":"2021-03-04T05:06:07Z"}"#.to_string(),
        e_tag: None,
        last_modified: Some(ts(1)),
    };
    assert_eq!(
        run(false, meta, BODY).last(),
        Some(&SyncAction::Fail { error: ListError::MissingField { field: MetadataField::ETag } })
    );

    let actions = run(false, metadata("2021-03-04T05:06:07Z", "x", 1), "not json");
    assert_eq!(actions.last(), Some(&SyncAction::Fail { error: ListError::Parse }));
}

#[test]
fn out_of_order_event_fails() {
    let (mut sync, _) = Synchronizer::start(false);
    assert_eq!(sync.step(SyncEvent::Written), SyncAction::Fail { error: ListError::UnexpectedEvent });
    assert_eq!(sync.phase, SyncPhase::Finished);
}
