//! What a firehose message leads to: the record it queues, whether the
//! stored cursor moves, and what the counters record.
use vstd::prelude::*;
use crate::decimal::{push_i64_text, spec_int_text};
use crate::jetstream::metrics::{Counter, Metrics, spec_bump};
use crate::text::str_eq;

verus! {

/// The collections that the subscriber queues.
#[derive(Clone, Copy, Debug, PartialEq, Eq, Structural)]
pub enum RecordKind {
    Post,
    Repost,
    Like,
    Follow,
}

impl RecordKind {
    /// The collection's NSID.
    pub open spec fn spec_nsid(self) -> Seq<char> {
        match self {
            RecordKind::Post => "app.bsky.feed.post"@,
            RecordKind::Repost => "app.bsky.feed.repost"@,
            RecordKind::Like => "app.bsky.feed.like"@,
            RecordKind::Follow => "app.bsky.graph.follow"@,
        }
    }

    /// The collection's NSID.
    pub fn nsid(&self) -> (s: &'static str)
        ensures
            s@ == self.spec_nsid(),
    {
        match self {
            RecordKind::Post => "app.bsky.feed.post",
            RecordKind::Repost => "app.bsky.feed.repost",
            RecordKind::Like => "app.bsky.feed.like",
            RecordKind::Follow => "app.bsky.graph.follow",
        }
    }

    /// The path segment of the collection's queue endpoints.
    pub open spec fn spec_queue_segment(self) -> Seq<char> {
        match self {
            RecordKind::Post => "posts"@,
            RecordKind::Repost => "reposts"@,
            RecordKind::Like => "likes"@,
            RecordKind::Follow => "follows"@,
        }
    }

    /// The path segment of the collection's queue endpoints.
    pub fn queue_segment(&self) -> (s: &'static str)
        ensures
            s@ == self.spec_queue_segment(),
    {
        match self {
            RecordKind::Post => "posts",
            RecordKind::Repost => "reposts",
            RecordKind::Like => "likes",
            RecordKind::Follow => "follows",
        }
    }

    /// The counter of created records of the collection.
    pub open spec fn spec_created_counter(self) -> Counter {
        match self {
            RecordKind::Post => Counter::PostsCreated,
            RecordKind::Repost => Counter::RepostsCreated,
            RecordKind::Like => Counter::LikesCreated,
            RecordKind::Follow => Counter::FollowsCreated,
        }
    }

    /// The counter of deleted records of the collection.
    pub open spec fn spec_deleted_counter(self) -> Counter {
        match self {
            RecordKind::Post => Counter::PostsDeleted,
            RecordKind::Repost => Counter::RepostsDeleted,
            RecordKind::Like => Counter::LikesDeleted,
            RecordKind::Follow => Counter::FollowsDeleted,
        }
    }
}

/// A commit event of the firehose: the repository, the event time in
/// microseconds, the operation and the record's collection and key; for a
/// creation, the record's content id and the collection its body parsed as
/// (`None` where it has none the subscriber queues).
pub struct CommitEvent {
    pub did: String,
    pub time_us: i64,
    pub operation: String,
    pub collection: String,
    pub rkey: String,
    pub cid: Option<String>,
    pub record: Option<RecordKind>,
}

/// A firehose message that could be read.
pub enum JetstreamMessage {
    Commit(CommitEvent),
    Account,
    Identity,
}

/// A record to queue.
pub enum QueuedOp {
    Create { kind: RecordKind, uri: String, cid: String, author: String },
    Delete { kind: RecordKind, uri: String },
}

/// What a commit leads to: the cursor to store, if any, and the record to
/// queue, if any.
pub struct CommitPlan {
    pub cursor: Option<i64>,
    pub op: Option<QueuedOp>,
}

/// The AT URI of a record.
pub open spec fn spec_record_uri(did: Seq<char>, kind: RecordKind, rkey: Seq<char>) -> Seq<char> {
    "at://"@ + did + "/"@ + kind.spec_nsid() + "/"@ + rkey
}

/// The AT URI of a record.
pub fn record_uri(did: &str, kind: RecordKind, rkey: &str) -> (s: String)
    ensures
        s@ == spec_record_uri(did@, kind, rkey@),
{
    let mut s = String::from_str("at://");
    s.append(did);
    s.append("/");
    s.append(kind.nsid());
    s.append("/");
    s.append(rkey);
    s
}

/// The stored cursor moves on every event whose time is a multiple of 20,
/// unless cursors are skipped.
pub open spec fn spec_commit_cursor(time_us: i64, skip_cursor: bool) -> Option<i64> {
    if !skip_cursor && (time_us as int) % 20 == 0 { Some(time_us) } else { None }
}

/// The collection whose NSID is `collection`.
pub open spec fn spec_kind_of_collection(collection: Seq<char>) -> Option<RecordKind> {
    if collection == RecordKind::Post.spec_nsid() {
        Some(RecordKind::Post)
    } else if collection == RecordKind::Repost.spec_nsid() {
        Some(RecordKind::Repost)
    } else if collection == RecordKind::Like.spec_nsid() {
        Some(RecordKind::Like)
    } else if collection == RecordKind::Follow.spec_nsid() {
        Some(RecordKind::Follow)
    } else {
        None
    }
}

/// The record a commit queues: a creation of a record with a content id and
/// a body of a queued collection, or a deletion in a queued collection.
pub open spec fn spec_commit_op(e: CommitEvent, op: Option<QueuedOp>) -> bool {
    if e.operation@ == "create"@ && e.cid is Some && e.record is Some {
        op matches Some(QueuedOp::Create { kind, uri, cid, author })
            && kind == e.record->Some_0
            && uri@ == spec_record_uri(e.did@, kind, e.rkey@)
            && cid@ == e.cid->Some_0@
            && author@ == e.did@
    } else if e.operation@ == "delete"@ && spec_kind_of_collection(e.collection@) is Some {
        op matches Some(QueuedOp::Delete { kind, uri })
            && kind == spec_kind_of_collection(e.collection@)->Some_0
            && uri@ == spec_record_uri(e.did@, kind, e.rkey@)
    } else {
        op is None
    }
}

/// Whether `t` is a multiple of 20.
fn is_multiple_of_20(t: i64) -> (r: bool)
    ensures
        r == ((t as int) % 20 == 0),
{
    let mag: u64 = if t >= 0 { t as u64 } else if t == i64::MIN { 9_223_372_036_854_775_808u64 } else { (-t) as u64 };
    assert((t as int) % 20 == 0 <==> (mag as int) % 20 == 0) by {
        if t < 0 {
            assert(mag as int == -(t as int));
            assert(((t as int) + (mag as int)) % 20 == 0);
        }
    }
    mag % 20 == 0
}

/// The collection whose NSID is `collection`.
pub fn kind_of_collection(collection: &str) -> (r: Option<RecordKind>)
    ensures
        r == spec_kind_of_collection(collection@),
{
    if str_eq(collection, "app.bsky.feed.post") {
        Some(RecordKind::Post)
    } else if str_eq(collection, "app.bsky.feed.repost") {
        Some(RecordKind::Repost)
    } else if str_eq(collection, "app.bsky.feed.like") {
        Some(RecordKind::Like)
    } else if str_eq(collection, "app.bsky.graph.follow") {
        Some(RecordKind::Follow)
    } else {
        None
    }
}

/// What a commit leads to.
pub fn plan_commit(e: &CommitEvent, skip_cursor: bool) -> (p: CommitPlan)
    ensures
        p.cursor == spec_commit_cursor(e.time_us, skip_cursor),
        spec_commit_op(*e, p.op),
{
    proof {
        reveal_strlit("create");
        reveal_strlit("delete");
        assert("create"@[0] != "delete"@[0]);
    }
    let cursor = if !skip_cursor && is_multiple_of_20(e.time_us) { Some(e.time_us) } else { None };
    let op = if str_eq(e.operation.as_str(), "create") {
        match (&e.cid, e.record) {
            (Some(cid), Some(kind)) => Some(QueuedOp::Create {
                kind,
                uri: record_uri(e.did.as_str(), kind, e.rkey.as_str()),
                cid: cid.clone(),
                author: e.did.clone(),
            }),
            _ => None,
        }
    } else if str_eq(e.operation.as_str(), "delete") {
        match kind_of_collection(e.collection.as_str()) {
            Some(kind) => Some(QueuedOp::Delete { kind, uri: record_uri(e.did.as_str(), kind, e.rkey.as_str()) }),
            None => None,
        }
    } else {
        None
    };
    CommitPlan { cursor, op }
}

/// The counters after a message: one more message; one more error where it
/// could not be read; one more of the queued record's kind.
pub open spec fn spec_counted_message(m: Metrics, message: Option<JetstreamMessage>, plan: Option<CommitPlan>) -> Metrics {
    let m1 = Metrics { messages_processed: spec_bump(m.messages_processed), ..m };
    match message {
        None => Metrics { errors: spec_bump(m1.errors), ..m1 },
        Some(JetstreamMessage::Commit(_)) => match plan {
            Some(p) => match p.op {
                Some(QueuedOp::Create { kind, .. }) => m1.spec_counted(kind.spec_created_counter()),
                Some(QueuedOp::Delete { kind, .. }) => m1.spec_counted(kind.spec_deleted_counter()),
                None => m1,
            },
            None => m1,
        },
        Some(_) => m1,
    }
}

/// Handles one firehose message (`None` where it could not be read): counts
/// it, and for a commit says what it leads to.
pub fn process_message(metrics: &mut Metrics, message: &Option<JetstreamMessage>, skip_cursor: bool) -> (r: Option<CommitPlan>)
    ensures
        match *message {
            Some(JetstreamMessage::Commit(e)) => r matches Some(p)
                && p.cursor == spec_commit_cursor(e.time_us, skip_cursor) && spec_commit_op(e, p.op),
            _ => r is None,
        },
        *final(metrics) == spec_counted_message(*old(metrics), *message, r),
{
    metrics.count_message();
    match message {
        None => {
            metrics.count_error();
            None
        },
        Some(JetstreamMessage::Commit(e)) => {
            let p = plan_commit(e, skip_cursor);
            match &p.op {
                Some(QueuedOp::Create { kind, .. }) => metrics.count(match kind {
                    RecordKind::Post => Counter::PostsCreated,
                    RecordKind::Repost => Counter::RepostsCreated,
                    RecordKind::Like => Counter::LikesCreated,
                    RecordKind::Follow => Counter::FollowsCreated,
                }),
                Some(QueuedOp::Delete { kind, .. }) => metrics.count(match kind {
                    RecordKind::Post => Counter::PostsDeleted,
                    RecordKind::Repost => Counter::RepostsDeleted,
                    RecordKind::Like => Counter::LikesDeleted,
                    RecordKind::Follow => Counter::FollowsDeleted,
                }),
                None => {},
            }
            Some(p)
        },
        Some(_) => None,
    }
}

/// The endpoint that queues creations or deletions of a collection.
pub open spec fn spec_queue_endpoint(queue_path: Seq<char>, kind: RecordKind, create: bool) -> Seq<char> {
    queue_path + "/queue/"@ + kind.spec_queue_segment() + if create { "/create"@ } else { "/delete"@ }
}

/// The endpoint that queues creations or deletions of a collection.
pub fn queue_endpoint(queue_path: &str, kind: RecordKind, create: bool) -> (s: String)
    ensures
        s@ == spec_queue_endpoint(queue_path@, kind, create),
{
    let mut s = String::from_str(queue_path);
    s.append("/queue/");
    s.append(kind.queue_segment());
    if create {
        s.append("/create");
    } else {
        s.append("/delete");
    }
    s
}

/// The endpoint that stores the subscriber's cursor.
pub fn cursor_endpoint(queue_path: &str) -> (s: String)
    ensures
        s@ == queue_path@ + "/cursor"@,
{
    let mut s = String::from_str(queue_path);
    s.append("/cursor");
    s
}

/// The subscription URL: the filter of wanted collections, and the cursor to
/// resume from, if any.
pub open spec fn spec_subscribe_url(subscriber: Seq<char>, filter: Seq<char>, cursor: Option<i64>) -> Seq<char> {
    subscriber + "/subscribe?"@ + filter + match cursor {
        Some(c) => "&cursor="@ + spec_int_text(c as int),
        None => Seq::empty(),
    }
}

/// The subscription URL.
pub fn subscribe_url(subscriber: &str, filter: &str, cursor: Option<i64>) -> (s: String)
    ensures
        s@ == spec_subscribe_url(subscriber@, filter@, cursor),
{
    let mut s = String::from_str(subscriber);
    s.append("/subscribe?");
    s.append(filter);
    match cursor {
        Some(c) => {
            s.append("&cursor=");
            push_i64_text(&mut s, c);
        },
        None => {},
    }
    assert(s@ =~= spec_subscribe_url(subscriber@, filter@, cursor));
    s
}

/// The subscriber's position in the firehose, as the feed generator stores it.
pub struct SubState {
    pub service: String,
    pub cursor: i64,
}

} // verus!
