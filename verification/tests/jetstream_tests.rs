use following_feed::jetstream::metrics::Metrics;
use following_feed::jetstream::processor::{
    cursor_endpoint, kind_of_collection, plan_commit, process_message, queue_endpoint, subscribe_url, CommitEvent,
    JetstreamMessage, QueuedOp, RecordKind,
};

fn like_event() -> CommitEvent {
    CommitEvent {
        did: "did:plc:uhtptnlcrj4wrxfjfcanf34q".to_string(),
        time_us: 1731539977109649,
        operation: "create".to_string(),
        collection: "app.bsky.feed.like".to_string(),
        rkey: "3lauicnw5op2f".to_string(),
        cid: Some("bafyreifsdaip3s5nm3hcz4fbgkxodnils75oi3rmqhipwtom34rxw4vwdi".to_string()),
        record: Some(RecordKind::Like),
    }
}

#[test]
fn test_read_commit_create_like() {
    let mut metrics = Metrics::new();
    let plan = process_message(&mut metrics, &Some(JetstreamMessage::Commit(like_event())), true).unwrap();
    assert_eq!(metrics.messages_processed, 1);
    assert_eq!(metrics.likes_created, 1);
    assert_eq!(metrics.errors, 0);
    assert_eq!(plan.cursor, None);
    match plan.op {
        Some(QueuedOp::Create { kind, uri, cid, author }) => {
            assert_eq!(kind, RecordKind::Like);
            assert_eq!(uri, "at://did:plc:uhtptnlcrj4wrxfjfcanf34q/app.bsky.feed.like/3lauicnw5op2f");
            assert_eq!(cid, "bafyreifsdaip3s5nm3hcz4fbgkxodnils75oi3rmqhipwtom34rxw4vwdi");
            assert_eq!(author, "did:plc:uhtptnlcrj4wrxfjfcanf34q");
        },
        _ => panic!("expected a creation"),
    }
}

#[test]
fn test_read_error_increments_metrics() {
    let mut metrics = Metrics::new();
    let plan = process_message(&mut metrics, &None, true);
    assert!(plan.is_none());
    assert_eq!(metrics.messages_processed, 1);
    assert_eq!(metrics.errors, 1);
}

#[test]
fn deletes_and_cursor_updates() {
    let mut e = like_event();
    e.operation = "delete".to_string();
    e.collection = "app.bsky.graph.follow".to_string();
    e.cid = None;
    e.record = None;
    e.time_us = 40;
    let plan = plan_commit(&e, false);
    assert_eq!(plan.cursor, Some(40));
    match plan.op {
        Some(QueuedOp::Delete { kind, uri }) => {
            assert_eq!(kind, RecordKind::Follow);
            assert_eq!(uri, "at://did:plc:uhtptnlcrj4wrxfjfcanf34q/app.bsky.graph.follow/3lauicnw5op2f");
        },
        _ => panic!("expected a deletion"),
    }
    e.time_us = -41;
    assert_eq!(plan_commit(&e, false).cursor, None);
    e.time_us = -40;
    assert_eq!(plan_commit(&e, false).cursor, Some(-40));
    assert_eq!(plan_commit(&e, true).cursor, None);
    e.operation = "update".to_string();
    assert!(plan_commit(&e, false).op.is_none());
    let mut created = like_event();
    created.cid = None;
    assert!(plan_commit(&created, false).op.is_none());
}

#[test]
fn counters_wrap_around() {
    let mut metrics = Metrics::new();
    metrics.messages_processed = u64::MAX;
    process_message(&mut metrics, &Some(JetstreamMessage::Account), false);
    assert_eq!(metrics.messages_processed, 0);
    let snap = metrics.snapshot(12);
    assert_eq!(snap.uptime_seconds, 12);
    assert_eq!(snap.messages_processed, 0);
}

#[test]
fn endpoints() {
    assert_eq!(queue_endpoint("http://q", RecordKind::Post, true), "http://q/queue/posts/create");
    assert_eq!(queue_endpoint("http://q", RecordKind::Like, false), "http://q/queue/likes/delete");
    assert_eq!(cursor_endpoint("http://q"), "http://q/cursor");
    assert_eq!(subscribe_url("wss://j", "w=a", Some(-17)), "wss://j/subscribe?w=a&cursor=-17");
    assert_eq!(subscribe_url("wss://j", "w=a", None), "wss://j/subscribe?w=a");
}

#[test]
fn collections_by_nsid() {
    assert_eq!(kind_of_collection("app.bsky.feed.post"), Some(RecordKind::Post));
    assert_eq!(kind_of_collection("app.bsky.feed.repost"), Some(RecordKind::Repost));
    assert_eq!(kind_of_collection("app.bsky.feed.like"), Some(RecordKind::Like));
    assert_eq!(kind_of_collection("app.bsky.graph.follow"), Some(RecordKind::Follow));
    assert_eq!(kind_of_collection("app.bsky.graph.block"), None);
}
