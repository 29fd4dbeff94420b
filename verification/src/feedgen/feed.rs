//! Assembling feed skeletons and the decisions around serving a feed.
use vstd::prelude::*;
use crate::decimal::{push_i64_text, spec_int_text};
use crate::feedgen::cursor::{
    apply_cursor_to_queries, apply_cursor_to_single_query, generate_cursor_from_last_post,
    spec_and_filter, spec_cursor_in_range, spec_cursor_text, spec_cursor_time,
    spec_cursor_timestamp, spec_malformed_cursor, spec_rfc3339_millis, spec_utc_rfc3339,
};
use crate::feedgen::models::{
    AlgoResponse, DescribeFeedGenerator, FeedDescription, InternalErrorCode,
    FetchedPost, InternalErrorMessageResponse, KnownService, NotFoundErrorCode, PathUnknownErrorMessageResponse,
    Post, PostResult, PostResultReason, UserFeedPreference, ValidationErrorMessageResponse,
    WellKnown,
};
use crate::feedgen::query::{
    mutuals_query_str, post_media_query_str, post_query_str, repost_query_str,
    spec_mutuals_query, spec_post_media_query, spec_post_query, spec_repost_query,
};
use crate::feedgen::order::{opt_posts, sort_by_indexed_time, spec_sorted_by_time};
use crate::text::{push_char, seq_starts_with, str_eq, str_starts_with};

verus! {

/// The following feed of the classic generator.
pub const FOLLOWING_CLASSIC: &'static str = "at://did:plc:cimwguwdlh2i2mebdqczgcyl/app.bsky.feed.generator/follow-orig";
/// The traditional following feed.
pub const FOLLOWING_TRAD: &'static str = "at://did:plc:khvyd3oiw46vif5gm7hijslk/app.bsky.feed.generator/following-trad";
/// The feed of posts with media.
pub const MEDIA: &'static str = "at://did:plc:nffcjkyymm3pzutbxobso2pa/app.bsky.feed.generator/media";
/// The feed of posts by mutual follows.
pub const MUTUALS: &'static str = "at://did:web:following.ripperoni.com/app.bsky.feed.generator/mutuals";
/// The post that the traditional following feed serves.
pub const FOLLOWING_TRAD_POST: &'static str = "at://did:plc:cimwguwdlh2i2mebdqczgcyl/app.bsky.feed.post/3l4pi6irzsg2m";
/// The reason type of a repost entry.
pub const REPOST_REASON: &'static str = "app.bsky.feed.defs#skeletonReasonRepost";
/// Page size of a feed request that names none.
pub const DEFAULT_LIMIT: i64 = 30;
/// Fetches after which fetched posts count as seen.
pub const SEEN_FETCH_THRESHOLD: i64 = 60;
/// Hours after which a user's cached follows are reconciled with their PDS.
pub const FOLLOW_REFRESH_HOURS: i64 = 24;

/// The entry of a feed skeleton for a post row: a repost row (one with a
/// quoted subject) names its subject, with itself as the reason.
pub open spec fn spec_post_result(p: Post) -> (Seq<char>, Option<(Seq<char>, Seq<char>)>) {
    match p.quote_uri {
        Some(q) => (q@, Some((REPOST_REASON@, p.uri@))),
        None => (p.uri@, None),
    }
}

/// The plain content of a feed entry.
pub open spec fn spec_result_view(r: PostResult) -> (Seq<char>, Option<(Seq<char>, Seq<char>)>) {
    (r.post@, match r.reason {
        Some(reason) => Some((reason.reason_type@, reason.repost_uri@)),
        None => None,
    })
}

/// The plain content of feed entries.
pub open spec fn spec_results_view(v: Seq<PostResult>) -> Seq<(Seq<char>, Option<(Seq<char>, Seq<char>)>)> {
    v.map_values(|r: PostResult| spec_result_view(r))
}

/// The entry of a feed skeleton for a post row.
pub fn to_post_result(p: &Post) -> (r: PostResult)
    ensures
        spec_result_view(r) == spec_post_result(*p),
{
    match &p.quote_uri {
        Some(q) => PostResult {
            post: q.clone(),
            reason: Some(PostResultReason { reason_type: String::from_str(REPOST_REASON), repost_uri: p.uri.clone() }),
        },
        None => PostResult { post: p.uri.clone(), reason: None },
    }
}

/// The entries of a feed skeleton for post rows, in order.
pub fn post_results(posts: &[Post]) -> (r: Vec<PostResult>)
    ensures
        spec_results_view(r@) == posts@.map_values(|p: Post| spec_post_result(p)),
{
    let mut r: Vec<PostResult> = Vec::new();
    let mut i: usize = 0;
    while i < posts.len()
        invariant
            i <= posts@.len(),
            r@.len() == i,
            forall|j: int| 0 <= j < i ==> spec_result_view(#[trigger] r@[j]) == spec_post_result(posts@[j]),
        decreases posts@.len() - i,
    {
        r.push(to_post_result(&posts[i]));
        i = i + 1;
    }
    assert(spec_results_view(r@) =~= posts@.map_values(|p: Post| spec_post_result(p)));
    r
}

/// The entries of the mutuals feed for post rows: each names its own row.
pub fn plain_post_results(posts: &[Post]) -> (r: Vec<PostResult>)
    ensures
        spec_results_view(r@) == posts@.map_values(|p: Post| (p.uri@, None::<(Seq<char>, Seq<char>)>)),
{
    let mut r: Vec<PostResult> = Vec::new();
    let mut i: usize = 0;
    while i < posts.len()
        invariant
            i <= posts@.len(),
            r@.len() == i,
            forall|j: int| 0 <= j < i ==> spec_result_view(#[trigger] r@[j]) == (posts@[j].uri@, None::<(Seq<char>, Seq<char>)>),
        decreases posts@.len() - i,
    {
        r.push(PostResult { post: posts[i].uri.clone(), reason: None });
        i = i + 1;
    }
    assert(spec_results_view(r@) =~= posts@.map_values(|p: Post| (p.uri@, None::<(Seq<char>, Seq<char>)>)));
    r
}

/// The cursor of a page of post rows: that of its last row.
pub open spec fn spec_page_cursor(posts: Seq<Post>) -> Option<Seq<char>> {
    if posts.len() == 0 {
        None
    } else {
        match spec_rfc3339_millis(posts.last().indexed_at@) {
            Some(ms) => Some(spec_cursor_text(ms, posts.last().cid@)),
            None => None,
        }
    }
}

/// The plain content of an optional string.
pub open spec fn opt_text(v: Option<String>) -> Option<Seq<char>> {
    match v {
        Some(s) => Some(s@),
        None => None,
    }
}

/// The cursor of a page of post rows.
pub fn page_cursor(posts: &Vec<Post>) -> (r: Option<String>)
    ensures
        opt_text(r) == spec_page_cursor(posts@),
{
    if posts.len() == 0 {
        None
    } else {
        generate_cursor_from_last_post(Some(&posts[posts.len() - 1]))
    }
}

/// The skeleton of a page of the media or following feed: each row's entry
/// and the cursor of the last row.
pub fn feed_page(posts: &Vec<Post>) -> (r: AlgoResponse)
    ensures
        opt_text(r.cursor) == spec_page_cursor(posts@),
        spec_results_view(r.feed@) == posts@.map_values(|p: Post| spec_post_result(p)),
{
    AlgoResponse { cursor: page_cursor(posts), feed: post_results(posts.as_slice()) }
}

/// The skeleton of a page of the mutuals feed.
pub fn mutuals_page(posts: &Vec<Post>) -> (r: AlgoResponse)
    ensures
        opt_text(r.cursor) == spec_page_cursor(posts@),
        spec_results_view(r.feed@) == posts@.map_values(|p: Post| (p.uri@, None::<(Seq<char>, Seq<char>)>)),
{
    AlgoResponse { cursor: page_cursor(posts), feed: plain_post_results(posts.as_slice()) }
}

/// How many rows a page of at most `limit` rows keeps of `len` rows; a
/// negative limit keeps them all.
pub open spec fn spec_page_len(limit: i64, len: nat) -> nat {
    if limit < 0 || limit >= len { len } else { limit as nat }
}

/// The answer of the following feed to a user who follows no one: no
/// entries and no cursor.
pub fn no_follows_page() -> (r: AlgoResponse)
    ensures
        r.cursor is None,
        r.feed@.len() == 0,
{
    AlgoResponse { cursor: None, feed: Vec::new() }
}

/// The rows of a following-feed page before it is cut to size: the post
/// rows as the query gave them, or, where the user shows reposts, the post
/// rows and then the repost rows, ordered newest first; `None` where some
/// row's time cannot be read.
pub fn user_feed_rows(posts: Vec<Post>, reposts: Vec<Post>, show_reposts: bool) -> (r: Option<Vec<Post>>)
    ensures
        !show_reposts ==> (r matches Some(v) && v@ == posts@),
        show_reposts ==> spec_sorted_by_time(posts@ + reposts@, opt_posts(r)),
{
    if show_reposts {
        let mut rows = posts;
        let mut more = reposts;
        rows.append(&mut more);
        sort_by_indexed_time(rows)
    } else {
        Some(posts)
    }
}

/// The rows that a page of the following feed keeps: the first `limit`.
pub fn page_rows(rows: Vec<Post>, limit: i64) -> (r: Vec<Post>)
    ensures
        r@ == rows@.take(spec_page_len(limit, rows@.len()) as int),
{
    let mut kept = rows;
    let n: usize = if limit < 0 || limit as u64 >= kept.len() as u64 { kept.len() } else { limit as usize };
    kept.truncate(n);
    kept
}

/// The skeleton of a page of the following feed: its first `limit` rows.
pub fn user_feed_page(rows: Vec<Post>, limit: i64) -> (r: AlgoResponse)
    ensures
        opt_text(r.cursor) == spec_page_cursor(rows@.take(spec_page_len(limit, rows@.len()) as int)),
        spec_results_view(r.feed@) == rows@.take(spec_page_len(limit, rows@.len()) as int).map_values(|p: Post| spec_post_result(p)),
{
    let kept = page_rows(rows, limit);
    feed_page(&kept)
}

/// The response of the traditional following feed: one fixed post.
pub fn following_trad_response() -> (r: AlgoResponse)
    ensures
        opt_text(r.cursor) == Some("none"@),
        spec_results_view(r.feed@) == seq![(FOLLOWING_TRAD_POST@, None::<(Seq<char>, Seq<char>)>)],
{
    let mut feed: Vec<PostResult> = Vec::new();
    feed.push(PostResult { post: String::from_str(FOLLOWING_TRAD_POST), reason: None });
    let r = AlgoResponse { cursor: Some(String::from_str("none")), feed };
    assert(spec_results_view(r.feed@) =~= seq![(FOLLOWING_TRAD_POST@, None::<(Seq<char>, Seq<char>)>)]);
    r
}

/// Which way a feed request is served.
#[derive(Clone, Copy, Debug, PartialEq, Eq, Structural)]
pub enum FeedRoute {
    /// The following feed, built from the user's follows and settings.
    Following,
    /// The traditional following feed's fixed response.
    FollowingTrad,
    /// The media feed.
    Media,
    /// The mutuals feed.
    Mutuals,
    /// A media or mutuals request without a requester DID.
    NoDid,
    /// A feed that this generator does not serve.
    Unsupported,
}

/// How a request for `feed` by the requester `did` is served.
pub open spec fn spec_route(feed: Seq<char>, did: Seq<char>) -> FeedRoute {
    if feed == FOLLOWING_CLASSIC@ {
        FeedRoute::Following
    } else if feed == FOLLOWING_TRAD@ {
        FeedRoute::FollowingTrad
    } else if feed == MEDIA@ {
        if did.len() == 0 { FeedRoute::NoDid } else { FeedRoute::Media }
    } else if feed == MUTUALS@ {
        if did.len() == 0 { FeedRoute::NoDid } else { FeedRoute::Mutuals }
    } else {
        FeedRoute::Unsupported
    }
}

/// How a request for `feed` by the requester `did` is served.
pub fn route_feed_request(feed: &str, did: &str) -> (r: FeedRoute)
    ensures
        r == spec_route(feed@, did@),
{
    let no_did = crate::text::chars_of(did).len() == 0;
    if str_eq(feed, FOLLOWING_CLASSIC) {
        FeedRoute::Following
    } else if str_eq(feed, FOLLOWING_TRAD) {
        FeedRoute::FollowingTrad
    } else if str_eq(feed, MEDIA) {
        if no_did { FeedRoute::NoDid } else { FeedRoute::Media }
    } else if str_eq(feed, MUTUALS) {
        if no_did { FeedRoute::NoDid } else { FeedRoute::Mutuals }
    } else {
        FeedRoute::Unsupported
    }
}

/// The error body of a media or mutuals request without a requester DID.
pub fn no_did_error() -> (r: InternalErrorMessageResponse)
    ensures
        r.code == Some(InternalErrorCode::InternalError),
        r.message matches Some(m) && m@ == "No DID"@,
{
    InternalErrorMessageResponse::with(InternalErrorCode::InternalError, "No DID")
}

/// The error body of a request for a feed this generator does not serve.
pub fn unsupported_feed_error() -> (r: InternalErrorMessageResponse)
    ensures
        r.code == Some(InternalErrorCode::Unavailable),
        r.message matches Some(m) && m@ == "Unsupported feed"@,
{
    InternalErrorMessageResponse::with(InternalErrorCode::Unavailable, "Unsupported feed")
}

/// The page size of a request: its limit, or 30.
pub fn request_limit(limit: Option<i64>) -> (r: i64)
    ensures
        r == match limit { Some(l) => l, None => DEFAULT_LIMIT },
{
    match limit {
        Some(l) => l,
        None => DEFAULT_LIMIT,
    }
}

/// The feeds that the generator serves, in the order it lists them.
pub fn feed_descriptions() -> (r: Vec<FeedDescription>)
    ensures
        r@.map_values(|d: FeedDescription| d.uri@) == seq![FOLLOWING_CLASSIC@, FOLLOWING_TRAD@, MEDIA@, MUTUALS@],
{
    let mut r: Vec<FeedDescription> = Vec::new();
    r.push(FeedDescription { uri: String::from_str(FOLLOWING_CLASSIC) });
    r.push(FeedDescription { uri: String::from_str(FOLLOWING_TRAD) });
    r.push(FeedDescription { uri: String::from_str(MEDIA) });
    r.push(FeedDescription { uri: String::from_str(MUTUALS) });
    assert(r@.map_values(|d: FeedDescription| d.uri@) =~= seq![FOLLOWING_CLASSIC@, FOLLOWING_TRAD@, MEDIA@, MUTUALS@]);
    r
}

/// The response of `app.bsky.feed.describeFeedGenerator`.
pub fn describe_feed_generator(service_did: String) -> (r: DescribeFeedGenerator)
    ensures
        r.did@ == service_did@,
        r.feeds@.map_values(|d: FeedDescription| d.uri@) == seq![FOLLOWING_CLASSIC@, FOLLOWING_TRAD@, MEDIA@, MUTUALS@],
{
    DescribeFeedGenerator { did: service_did, feeds: feed_descriptions() }
}

/// The generator's DID document, where its service DID is a DID; else the
/// not-found body.
pub fn well_known(hostname: &str, service_did: String) -> (r: Result<WellKnown, PathUnknownErrorMessageResponse>)
    ensures
        match r {
            Ok(w) => seq_starts_with(service_did@, "did:"@)
                && w.id@ == service_did@
                && w.context@.len() == 1 && w.context@[0]@ == "https://www.w3.org/ns/did/v1"@
                && w.service@.len() == 1
                && w.service@[0].id@ == "#bsky_fg"@
                && w.service@[0].type_@ == "BskyFeedGenerator"@
                && w.service@[0].service_endpoint@ == "https://"@ + hostname@,
            Err(e) => !seq_starts_with(service_did@, "did:"@)
                && e.code == Some(NotFoundErrorCode::NotFoundError)
                && (e.message matches Some(m) && m@ == "Not Found"@),
        },
{
    if str_starts_with(service_did.as_str(), "did:") {
        let mut endpoint = String::from_str("https://");
        endpoint.append(hostname);
        let mut context: Vec<String> = Vec::new();
        context.push(String::from_str("https://www.w3.org/ns/did/v1"));
        let mut service: Vec<KnownService> = Vec::new();
        service.push(KnownService {
            id: String::from_str("#bsky_fg"),
            type_: String::from_str("BskyFeedGenerator"),
            service_endpoint: endpoint,
        });
        Ok(WellKnown { context, id: service_did, service })
    } else {
        Err(PathUnknownErrorMessageResponse {
            code: Some(NotFoundErrorCode::NotFoundError),
            message: Some(String::from_str("Not Found")),
        })
    }
}

/// The settings of a user who has set none.
pub fn default_user_config(did: String) -> (r: UserFeedPreference)
    ensures
        r.did@ == did@,
        r.show_replies && r.reply_filter_likes == 0 && !r.reply_filter_followed_only,
        r.show_reposts && r.show_quote_posts && !r.hide_seen_posts && !r.hide_no_alt_text,
{
    UserFeedPreference {
        did,
        show_replies: true,
        reply_filter_likes: 0,
        reply_filter_followed_only: false,
        show_reposts: true,
        show_quote_posts: true,
        hide_seen_posts: false,
        hide_no_alt_text: false,
    }
}

/// What to do with a user's fetched posts before serving a page.
#[derive(Clone, Copy, Debug, PartialEq, Eq, Structural)]
pub enum SeenPostsStep {
    /// Nothing: the user does not hide seen posts, or asked for one post.
    Nothing,
    /// A first page: forget what was fetched before.
    InvalidateAll,
    /// A later page: mark fetched posts as seen once there are enough.
    CheckFetches,
}

/// What to do with a user's fetched posts before serving a page.
pub fn seen_posts_step(hide_seen_posts: bool, limit: i64, has_cursor: bool) -> (r: SeenPostsStep)
    ensures
        r == if hide_seen_posts && limit != 1 {
            if has_cursor { SeenPostsStep::CheckFetches } else { SeenPostsStep::InvalidateAll }
        } else {
            SeenPostsStep::Nothing
        },
{
    if hide_seen_posts && limit != 1 {
        if has_cursor { SeenPostsStep::CheckFetches } else { SeenPostsStep::InvalidateAll }
    } else {
        SeenPostsStep::Nothing
    }
}

/// Whether fetched posts now count as seen: after 60 fetches.
pub fn should_mark_seen(total_fetches: i64) -> (r: bool)
    ensures
        r == (total_fetches >= SEEN_FETCH_THRESHOLD),
{
    total_fetches >= SEEN_FETCH_THRESHOLD
}

/// Whether the posts served on a page are recorded as fetched.
pub fn should_track_fetched(hide_seen_posts: bool, limit: i64) -> (r: bool)
    ensures
        r == (hide_seen_posts && limit != 1),
{
    hide_seen_posts && limit != 1
}

/// Nanoseconds in `FOLLOW_REFRESH_HOURS` hours.
pub open spec fn spec_refresh_window_nanos() -> int {
    FOLLOW_REFRESH_HOURS * 3600 * 1_000_000_000
}

/// Whether a user's cached follows are reconciled with their PDS: when they
/// never were, or last were more than `FOLLOW_REFRESH_HOURS` before `now`.
/// Times are nanoseconds since the Unix epoch.
pub fn follows_need_refresh(last_refreshed: Option<i128>, now: i128) -> (r: bool)
    requires
        -1_000_000_000_000_000_000_000_000i128 <= now <= 1_000_000_000_000_000_000_000_000i128,
    ensures
        r == match last_refreshed {
            None => true,
            Some(t) => t < now - spec_refresh_window_nanos(),
        },
{
    match last_refreshed {
        None => true,
        Some(t) => {
            let window: i128 = 24 * 3600 * 1_000_000_000;
            t < now - window
        },
    }
}

/// What to do next about a user's cached follows.
#[derive(Debug, PartialEq, Eq, Structural)]
pub enum FollowRefreshAction {
    /// None are cached: fetch them from the PDS, store them and mark them refreshed.
    FetchFromPds,
    /// Some are cached: read when they were last reconciled.
    ReadLastRefresh,
    /// They are stale: reconcile them with the PDS.
    Reconcile,
    /// They are fresh: answer with them.
    KeepCached,
}

/// The step of refreshing a user's follows, given how many are cached,
/// what was read of their last reconciliation (`None` while it was not read,
/// `Some(None)` where they never were) and the time `now` (nanoseconds since
/// the Unix epoch).
pub fn follow_refresh_action(cached: usize, last_refreshed: Option<Option<i128>>, now: i128) -> (r: FollowRefreshAction)
    requires
        -1_000_000_000_000_000_000_000_000i128 <= now <= 1_000_000_000_000_000_000_000_000i128,
    ensures
        cached == 0 ==> r == FollowRefreshAction::FetchFromPds,
        cached > 0 ==> match last_refreshed {
            None => r == FollowRefreshAction::ReadLastRefresh,
            Some(None) => r == FollowRefreshAction::Reconcile,
            Some(Some(t)) => r == if t < now - spec_refresh_window_nanos() {
                FollowRefreshAction::Reconcile
            } else {
                FollowRefreshAction::KeepCached
            },
        },
{
    if cached == 0 {
        FollowRefreshAction::FetchFromPds
    } else {
        match last_refreshed {
            None => FollowRefreshAction::ReadLastRefresh,
            Some(last) => if follows_need_refresh(last, now) {
                FollowRefreshAction::Reconcile
            } else {
                FollowRefreshAction::KeepCached
            },
        }
    }
}

/// The following list of the media feed: each DID quoted, unescaped,
/// separated by commas.
pub open spec fn spec_plain_did_list(dids: Seq<Seq<char>>) -> Seq<char>
    decreases dids.len(),
{
    if dids.len() == 0 {
        Seq::empty()
    } else if dids.len() == 1 {
        seq!['\''] + dids[0] + seq!['\'']
    } else {
        spec_plain_did_list(dids.drop_last()) + seq![','] + (seq!['\''] + dids.last() + seq!['\''])
    }
}

/// The following list of the media feed.
pub fn plain_did_list(dids: &[String]) -> (r: String)
    ensures
        r@ == spec_plain_did_list(dids@.map_values(|s: String| s@)),
{
    let ghost ds = dids@.map_values(|s: String| s@);
    let mut r = String::new();
    let mut i: usize = 0;
    assert(ds.take(0) =~= Seq::<Seq<char>>::empty());
    while i < dids.len()
        invariant
            ds == dids@.map_values(|s: String| s@),
            i <= dids@.len(),
            r@ == spec_plain_did_list(ds.take(i as int)),
        decreases dids@.len() - i,
    {
        assert(ds.take(i + 1).drop_last() =~= ds.take(i as int));
        assert(ds.take(i + 1).last() == dids@[i as int]@);
        let ghost before = r@;
        if i > 0 {
            push_char(&mut r, ',');
        }
        push_char(&mut r, '\'');
        r.append(dids[i].as_str());
        push_char(&mut r, '\'');
        proof {
            if i == 0 {
                assert(ds.take(1)[0] == dids@[0]@);
                assert(r@ =~= seq!['\''] + ds.take(1)[0] + seq!['\'']);
            } else {
                assert(r@ =~= before + seq![','] + (seq!['\''] + ds.take(i + 1).last() + seq!['\'']));
            }
        }
        i = i + 1;
    }
    assert(ds.take(i as int) =~= ds);
    r
}

/// The ordering and limit that end a feed query.
pub open spec fn spec_order_clause(limit: i64) -> Seq<char> {
    " ORDER BY \"indexedAt\" DESC, cid DESC LIMIT "@ + spec_int_text(limit as int) + " "@
}

/// A query with its ordering and limit, ended with `;`.
pub open spec fn spec_finished(query: Seq<char>, limit: i64) -> Seq<char> {
    query + spec_order_clause(limit) + ";"@
}

/// Appends the ordering and limit and the closing `;` to a query.
fn finish_query(query: &mut String, limit: i64)
    ensures
        final(query)@ == spec_finished(old(query)@, limit),
{
    query.append(" ORDER BY \"indexedAt\" DESC, cid DESC LIMIT ");
    push_i64_text(query, limit);
    query.append(" ");
    query.append(";");
}

/// The post and repost queries of a page of the following feed.
pub open spec fn spec_user_feed_queries(
    cfg: UserFeedPreference,
    following: Seq<char>,
    following_reposts: Seq<char>,
    did: Seq<char>,
    cursor: Option<Seq<char>>,
    limit: i64,
) -> Option<(Seq<char>, Seq<char>)> {
    let q = spec_post_query(cfg.hide_seen_posts, cfg.hide_no_alt_text, following, cfg, did);
    let rq = spec_repost_query(cfg.hide_seen_posts, following_reposts, did);
    match cursor {
        None => Some((spec_finished(q, limit), spec_finished(rq, limit))),
        Some(c) => match spec_cursor_timestamp(c) {
            None => None,
            Some(ts) => Some((
                spec_finished(q + spec_and_filter(spec_cursor_time(ts)), limit),
                spec_finished(rq + crate::feedgen::cursor::spec_where_filter(spec_cursor_time(ts)), limit),
            )),
        },
    }
}

/// The post and repost queries of a page of the following feed for the user
/// `did` with settings `cfg`; the malformed-cursor error where the cursor
/// names no timestamp.
pub fn user_feed_queries(
    cfg: &UserFeedPreference,
    following: &str,
    following_reposts: &str,
    did: &str,
    cursor: Option<&str>,
    limit: i64,
) -> (r: Result<(String, String), ValidationErrorMessageResponse>)
    requires
        cursor matches Some(c) ==> spec_cursor_in_range(c@),
    ensures
        match spec_user_feed_queries(*cfg, following@, following_reposts@, did@, match cursor { Some(c) => Some(c@), None => None }, limit) {
            Some((q, rq)) => r matches Ok((a, b)) && a@ == q && b@ == rq,
            None => r matches Err(e) && spec_malformed_cursor(e),
        },
{
    let mut q = post_query_str(cfg.hide_seen_posts, cfg.hide_no_alt_text, following, cfg, did);
    let mut rq = repost_query_str(cfg.hide_seen_posts, following_reposts, did);
    match cursor {
        Some(c) => match apply_cursor_to_queries(c, q.as_str(), rq.as_str()) {
            Ok((q2, rq2)) => {
                q = q2;
                rq = rq2;
            },
            Err(e) => return Err(e),
        },
        None => {},
    }
    finish_query(&mut q, limit);
    finish_query(&mut rq, limit);
    Ok((q, rq))
}

/// The query of a page of the media feed.
pub open spec fn spec_media_feed_query(following: Seq<char>, cursor: Option<Seq<char>>, limit: i64) -> Option<Seq<char>> {
    let q = spec_post_media_query(following);
    match cursor {
        None => Some(spec_finished(q, limit)),
        Some(c) => match spec_cursor_timestamp(c) {
            None => None,
            Some(ts) => Some(spec_finished(q + spec_and_filter(spec_cursor_time(ts)), limit)),
        },
    }
}

/// The query of a page of the media feed over the authors of `following`.
pub fn media_feed_query(following: &str, cursor: Option<&str>, limit: i64) -> (r: Result<String, ValidationErrorMessageResponse>)
    requires
        cursor matches Some(c) ==> spec_cursor_in_range(c@),
    ensures
        match spec_media_feed_query(following@, match cursor { Some(c) => Some(c@), None => None }, limit) {
            Some(q) => r matches Ok(a) && a@ == q,
            None => r matches Err(e) && spec_malformed_cursor(e),
        },
{
    let mut q = post_media_query_str(following);
    match cursor {
        Some(c) => match apply_cursor_to_single_query(c, &mut q) {
            Ok(()) => {},
            Err(e) => return Err(e),
        },
        None => {},
    }
    finish_query(&mut q, limit);
    Ok(q)
}

/// The query of a page of the mutuals feed: the mutuals query, with the
/// cursor's filter added after it.
pub open spec fn spec_mutuals_feed_query(did: Seq<char>, cursor: Option<Seq<char>>, limit: i64) -> Option<Seq<char>> {
    let q = spec_mutuals_query(did, limit);
    match cursor {
        None => Some(q),
        Some(c) => match spec_cursor_timestamp(c) {
            None => None,
            Some(ts) => Some(q + spec_and_filter(spec_cursor_time(ts))),
        },
    }
}

/// The query of a page of the mutuals feed of `did`.
pub fn mutuals_feed_query(did: &str, cursor: Option<&str>, limit: i64) -> (r: Result<String, ValidationErrorMessageResponse>)
    requires
        cursor matches Some(c) ==> spec_cursor_in_range(c@),
    ensures
        match spec_mutuals_feed_query(did@, match cursor { Some(c) => Some(c@), None => None }, limit) {
            Some(q) => r matches Ok(a) && a@ == q,
            None => r matches Err(e) && spec_malformed_cursor(e),
        },
{
    let mut q = mutuals_query_str(did, limit);
    match cursor {
        Some(c) => match apply_cursor_to_single_query(c, &mut q) {
            Ok(()) => {},
            Err(e) => return Err(e),
        },
        None => {},
    }
    Ok(q)
}

/// The posts of a page as fetched by the user `did`, in order.
pub fn fetched_posts_for(did: &str, posts: &[Post]) -> (r: Vec<FetchedPost>)
    ensures
        r@.len() == posts@.len(),
        forall|i: int| 0 <= i < r@.len() ==> #[trigger] r@[i].did@ == did@ && r@[i].uri@ == posts@[i].uri@,
{
    let mut r: Vec<FetchedPost> = Vec::new();
    let mut i: usize = 0;
    while i < posts.len()
        invariant
            i <= posts@.len(),
            r@.len() == i,
            forall|j: int| 0 <= j < i ==> #[trigger] r@[j].did@ == did@ && r@[j].uri@ == posts@[j].uri@,
        decreases posts@.len() - i,
    {
        r.push(FetchedPost { did: String::from_str(did), uri: posts[i].uri.clone() });
        i = i + 1;
    }
    r
}

/// The URIs of fetched posts, in order.
pub fn fetched_uris(fetched: &[FetchedPost]) -> (r: Vec<String>)
    ensures
        r@.map_values(|s: String| s@) == fetched@.map_values(|f: FetchedPost| f.uri@),
{
    let mut r: Vec<String> = Vec::new();
    let mut i: usize = 0;
    while i < fetched.len()
        invariant
            i <= fetched@.len(),
            r@.len() == i,
            forall|j: int| 0 <= j < i ==> #[trigger] r@[j]@ == fetched@[j].uri@,
        decreases fetched@.len() - i,
    {
        r.push(fetched[i].uri.clone());
        i = i + 1;
    }
    assert(r@.map_values(|s: String| s@) =~= fetched@.map_values(|f: FetchedPost| f.uri@));
    r
}

/// Each feed this generator serves is routed by its URI alone: the classic
/// following feed to the following feed and the traditional one to its fixed
/// post, whoever asks; the media and mutuals feeds to themselves for a
/// requester with a DID; and the four served feeds never share a route.
pub proof fn law_feed_routes(did: Seq<char>)
    ensures
        spec_route(FOLLOWING_CLASSIC@, did) == FeedRoute::Following,
        spec_route(FOLLOWING_TRAD@, did) == FeedRoute::FollowingTrad,
        spec_route(FOLLOWING_CLASSIC@, did) != spec_route(FOLLOWING_TRAD@, did),
        did.len() > 0 ==> {
            let r = seq![
                spec_route(FOLLOWING_CLASSIC@, did),
                spec_route(FOLLOWING_TRAD@, did),
                spec_route(MEDIA@, did),
                spec_route(MUTUALS@, did),
            ];
            &&& forall|i: int, j: int| 0 <= i < j < 4 ==> r[i] != r[j]
            &&& forall|i: int| 0 <= i < 4 ==> r[i] != FeedRoute::Unsupported && r[i] != FeedRoute::NoDid
        },
{
    reveal_strlit("at://did:plc:cimwguwdlh2i2mebdqczgcyl/app.bsky.feed.generator/follow-orig");
    reveal_strlit("at://did:plc:khvyd3oiw46vif5gm7hijslk/app.bsky.feed.generator/following-trad");
    reveal_strlit("at://did:plc:nffcjkyymm3pzutbxobso2pa/app.bsky.feed.generator/media");
    reveal_strlit("at://did:web:following.ripperoni.com/app.bsky.feed.generator/mutuals");
    assert(FOLLOWING_CLASSIC@.len() == 73);
    assert(FOLLOWING_TRAD@.len() == 76);
    assert(MEDIA@.len() == 67);
    assert(MUTUALS@.len() == 68);
}

/// The cursor of a page depends on its last row alone: a page's cursor is
/// the one that page's last row would have on its own, whatever comes
/// before it; and where that row's time reads, the cursor names that time
/// (in milliseconds) and the row's content id.
pub proof fn law_page_cursor_is_last_row(posts: Seq<Post>)
    requires
        posts.len() > 0,
    ensures
        spec_page_cursor(posts) == spec_page_cursor(seq![posts[posts.len() - 1]]),
        forall|before: Seq<Post>| #[trigger] spec_page_cursor(before + posts) == spec_page_cursor(posts),
        spec_rfc3339_millis(posts[posts.len() - 1].indexed_at@) matches Some(ms) ==> (
            spec_page_cursor(posts) matches Some(c)
                && spec_cursor_timestamp(c) == Some(ms)
                && c == spec_int_text(ms as int) + "::"@ + posts[posts.len() - 1].cid@),
        spec_rfc3339_millis(posts[posts.len() - 1].indexed_at@) is None ==> spec_page_cursor(posts) is None,
{
    let last = posts[posts.len() - 1];
    assert(seq![last].last() == last);
    assert forall|before: Seq<Post>| #[trigger] spec_page_cursor(before + posts) == spec_page_cursor(posts) by {
        assert((before + posts).last() == last);
    }
    match spec_rfc3339_millis(last.indexed_at@) {
        Some(ms) => {
            crate::feedgen::cursor::law_cursor_roundtrip(ms, last.cid@);
        },
        None => {},
    }
}

/// With a cursor that names a time, the mutuals query is the query without
/// a cursor followed by the filter on that time, so the page differs from the
/// first one.
pub proof fn law_mutuals_cursor_filters(did: Seq<char>, cursor: Seq<char>, limit: i64)
    requires
        spec_cursor_timestamp(cursor) is Some,
    ensures
        ({
            let ts = spec_cursor_timestamp(cursor)->Some_0;
            let first = spec_mutuals_feed_query(did, None, limit);
            let next = spec_mutuals_feed_query(did, Some(cursor), limit);
            &&& first is Some && next is Some
            &&& next->Some_0 == first->Some_0 + " AND (\"indexedAt\" < '"@ + spec_utc_rfc3339(
                crate::feedgen::cursor::spec_cursor_second(ts), crate::feedgen::cursor::CURSOR_TIMESTAMP_TOLERANCE_NS) + "')"@
            &&& next->Some_0 != first->Some_0
        }),
{
    let ts = spec_cursor_timestamp(cursor)->Some_0;
    let first = spec_mutuals_feed_query(did, None, limit)->Some_0;
    let next = spec_mutuals_feed_query(did, Some(cursor), limit)->Some_0;
    assert(next =~= first + (" AND (\"indexedAt\" < '"@ + spec_cursor_time(ts) + "')"@));
    reveal_strlit(" AND (\"indexedAt\" < '");
    assert(" AND (\"indexedAt\" < '"@.len() == 21);
    assert(next.len() > first.len());
}

/// With a cursor that names a time, the media query is the query without a
/// cursor with the filter on that time put before its ordering clause, so
/// the page differs from the first one.
pub proof fn law_media_cursor_filters(following: Seq<char>, cursor: Seq<char>, limit: i64)
    requires
        spec_cursor_timestamp(cursor) is Some,
    ensures
        ({
            let ts = spec_cursor_timestamp(cursor)->Some_0;
            let tail = " ORDER BY \"indexedAt\" DESC, cid DESC LIMIT "@ + spec_int_text(limit as int) + " ;"@;
            let filter = " AND (\"indexedAt\" < '"@ + spec_utc_rfc3339(
                crate::feedgen::cursor::spec_cursor_second(ts), crate::feedgen::cursor::CURSOR_TIMESTAMP_TOLERANCE_NS) + "')"@;
            let first = spec_media_feed_query(following, None, limit);
            let next = spec_media_feed_query(following, Some(cursor), limit);
            &&& first == Some(spec_post_media_query(following) + tail)
            &&& next == Some(spec_post_media_query(following) + filter + tail)
            &&& next != first
        }),
{
    let ts = spec_cursor_timestamp(cursor)->Some_0;
    let q = spec_post_media_query(following);
    let tail = " ORDER BY \"indexedAt\" DESC, cid DESC LIMIT "@ + spec_int_text(limit as int) + " ;"@;
    let filter = " AND (\"indexedAt\" < '"@ + spec_cursor_time(ts) + "')"@;
    reveal_strlit(" ");
    reveal_strlit(";");
    reveal_strlit(" ;");
    assert(spec_finished(q, limit) =~= q + tail);
    assert(spec_finished(q + filter, limit) =~= q + filter + tail);
    reveal_strlit(" AND (\"indexedAt\" < '");
    assert(" AND (\"indexedAt\" < '"@.len() == 21);
    assert((q + filter + tail).len() > (q + tail).len());
}

} // verus!
