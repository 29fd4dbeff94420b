//! Building the feeds' SQL queries.
use vstd::prelude::*;
use crate::decimal::{push_i64_text, spec_int_text};
use crate::feedgen::models::UserFeedPreference;
use crate::feedgen::sql::{
    MEDIA_QUERY_0,
    MEDIA_QUERY_1,
    POST_QUERY_SEEN_0,
    POST_QUERY_SEEN_1,
    POST_QUERY_SEEN_2,
    POST_QUERY_SEEN_3,
    POST_QUERY_SEEN_4,
    POST_QUERY_SEEN_5,
    POST_QUERY_SEEN_6,
    POST_QUERY_SEEN_7,
    POST_QUERY_SEEN_8,
    POST_QUERY_SEEN_9,
    POST_QUERY_SEEN_10,
    POST_QUERY_0,
    POST_QUERY_1,
    POST_QUERY_2,
    POST_QUERY_3,
    POST_QUERY_4,
    POST_QUERY_5,
    POST_QUERY_6,
    POST_QUERY_7,
    POST_QUERY_8,
    REPOST_QUERY_SEEN_0,
    REPOST_QUERY_SEEN_1,
    REPOST_QUERY_SEEN_2,
    REPOST_QUERY_0,
    REPOST_QUERY_1,
    MUTUALS_QUERY_0,
    MUTUALS_QUERY_1,
    MUTUALS_QUERY_2,
};

verus! {

/// `s` with every `'` doubled, so that it can stand inside a quoted SQL
/// string.
pub open spec fn spec_sanitize(s: Seq<char>) -> Seq<char>
    decreases s.len(),
{
    if s.len() == 0 {
        Seq::empty()
    } else if s.last() == '\'' {
        spec_sanitize(s.drop_last()) + seq!['\'', '\'']
    } else {
        spec_sanitize(s.drop_last()).push(s.last())
    }
}

/// A DID as a quoted SQL string.
pub open spec fn spec_quoted(did: Seq<char>) -> Seq<char> {
    seq!['\''] + spec_sanitize(did) + seq!['\'']
}

/// The DIDs as a comma-separated list of quoted SQL strings.
pub open spec fn spec_did_list(dids: Seq<Seq<char>>) -> Seq<char>
    decreases dids.len(),
{
    if dids.len() == 0 {
        Seq::empty()
    } else if dids.len() == 1 {
        spec_quoted(dids[0])
    } else {
        spec_did_list(dids.drop_last()) + seq![','] + spec_quoted(dids.last())
    }
}

/// How a boolean is written in SQL text.
pub open spec fn spec_bool_text(b: bool) -> Seq<char> {
    if b { "true"@ } else { "false"@ }
}

/// The text that a quoted SQL string body stands for, where every `'` in it
/// is doubled; `None` where some `'` stands alone.
pub open spec fn spec_sql_unescape(s: Seq<char>) -> Option<Seq<char>>
    decreases s.len(),
{
    if s.len() == 0 {
        Some(Seq::empty())
    } else if s.last() == '\'' {
        if s.len() >= 2 && s[s.len() - 2] == '\'' {
            match spec_sql_unescape(s.take(s.len() - 2)) {
                Some(t) => Some(t.push('\'')),
                None => None,
            }
        } else {
            None
        }
    } else {
        match spec_sql_unescape(s.drop_last()) {
            Some(t) => Some(t.push(s.last())),
            None => None,
        }
    }
}

/// A DID escaped for SQL stands, inside quotes, for exactly that DID: no
/// quote of the DID can end the SQL string early.
pub proof fn law_sanitized_did_reads_back(did: Seq<char>)
    ensures
        spec_sql_unescape(spec_sanitize(did)) == Some(did),
    decreases did.len(),
{
    if did.len() > 0 {
        law_sanitized_did_reads_back(did.drop_last());
        let prev = spec_sanitize(did.drop_last());
        let s = spec_sanitize(did);
        if did.last() == '\'' {
            assert(s == prev + seq!['\'', '\'']);
            assert(s.take(s.len() - 2) =~= prev);
        } else {
            assert(s == prev.push(did.last()));
            assert(s.drop_last() =~= prev);
        }
        assert(did.drop_last().push(did.last()) =~= did);
    }
}

/// Escapes a DID for use inside a quoted SQL string: every `'` is doubled.
pub fn sanitize_did(did: &str) -> (r: String)
    ensures
        r@ == spec_sanitize(did@),
{
    let cs = crate::text::chars_of(did);
    let mut r = String::new();
    let mut i: usize = 0;
    assert(did@.take(0) =~= Seq::<char>::empty());
    while i < cs.len()
        invariant
            cs@ == did@,
            i <= cs@.len(),
            r@ == spec_sanitize(did@.take(i as int)),
        decreases cs@.len() - i,
    {
        assert(did@.take(i + 1).drop_last() =~= did@.take(i as int));
        if cs[i] == '\'' {
            crate::text::push_char(&mut r, '\'');
            crate::text::push_char(&mut r, '\'');
            assert(r@ =~= spec_sanitize(did@.take(i as int)) + seq!['\'', '\'']);
        } else {
            crate::text::push_char(&mut r, cs[i]);
        }
        i = i + 1;
    }
    assert(did@.take(i as int) =~= did@);
    r
}

/// The characters of each string of a list.
pub open spec fn seqs_of(v: Seq<String>) -> Seq<Seq<char>> {
    v.map_values(|s: String| s@)
}

/// Appends `'did'`, the DID escaped, to `r`.
fn push_quoted(r: &mut String, did: &str)
    ensures
        final(r)@ == old(r)@ + spec_quoted(did@),
{
    let sanitized = sanitize_did(did);
    crate::text::push_char(r, '\'');
    r.append(sanitized.as_str());
    crate::text::push_char(r, '\'');
    assert(final(r)@ =~= old(r)@ + spec_quoted(did@));
}

/// Formats DIDs as a comma-separated list of quoted SQL strings, for an `IN`
/// clause.
pub fn format_did_list(dids: &[String]) -> (r: String)
    ensures
        r@ == spec_did_list(seqs_of(dids@)),
{
    let ghost ds = seqs_of(dids@);
    let mut r = String::new();
    let mut i: usize = 0;
    assert(ds.take(0) =~= Seq::<Seq<char>>::empty());
    while i < dids.len()
        invariant
            ds == seqs_of(dids@),
            i <= dids@.len(),
            r@ == spec_did_list(ds.take(i as int)),
        decreases dids@.len() - i,
    {
        assert(ds.take(i + 1).drop_last() =~= ds.take(i as int));
        assert(ds.take(i + 1).last() == dids@[i as int]@);
        if i > 0 {
            crate::text::push_char(&mut r, ',');
        } else {
            assert(ds.take(1)[0] == dids@[0]@);
        }
        push_quoted(&mut r, dids[i].as_str());
        proof {
            if i == 0 {
                assert(r@ =~= spec_quoted(ds.take(1)[0]));
            } else {
                assert(r@ =~= spec_did_list(ds.take(i as int)) + seq![','] + spec_quoted(ds.take(i + 1).last()));
            }
        }
        i = i + 1;
    }
    assert(ds.take(i as int) =~= ds);
    r
}

/// Appends `true` or `false` to `s`.
fn push_bool_text(s: &mut String, b: bool)
    ensures
        final(s)@ == old(s)@ + spec_bool_text(b),
{
    if b {
        s.append("true");
    } else {
        s.append("false");
    }
}

/// The query of the media feed: posts with media by the listed authors.
pub open spec fn spec_post_media_query(following: Seq<char>) -> Seq<char> {
    MEDIA_QUERY_0@
        + following + MEDIA_QUERY_1@
}

/// The query of the following feed's posts.
pub open spec fn spec_post_query(hide_seen_posts: bool, hide_no_alt_text: bool, following: Seq<char>, cfg: UserFeedPreference, did: Seq<char>) -> Seq<char> {
    if hide_seen_posts {
        POST_QUERY_SEEN_0@
            + following + POST_QUERY_SEEN_1@
            + following + POST_QUERY_SEEN_2@
            + spec_sanitize(did) + POST_QUERY_SEEN_3@
            + following + POST_QUERY_SEEN_4@
            + spec_bool_text(cfg.show_quote_posts) + POST_QUERY_SEEN_5@
            + spec_bool_text(hide_no_alt_text) + POST_QUERY_SEEN_6@
            + spec_bool_text(cfg.show_replies) + POST_QUERY_SEEN_7@
            + spec_bool_text(!cfg.reply_filter_followed_only) + POST_QUERY_SEEN_8@
            + following + POST_QUERY_SEEN_9@
            + spec_int_text(cfg.reply_filter_likes as int) + POST_QUERY_SEEN_10@
    } else {
        POST_QUERY_0@
            + following + POST_QUERY_1@
            + following + POST_QUERY_2@
            + spec_bool_text(cfg.show_quote_posts) + POST_QUERY_3@
            + spec_bool_text(hide_no_alt_text) + POST_QUERY_4@
            + spec_bool_text(cfg.show_replies) + POST_QUERY_5@
            + spec_bool_text(!cfg.reply_filter_followed_only) + POST_QUERY_6@
            + following + POST_QUERY_7@
            + spec_int_text(cfg.reply_filter_likes as int) + POST_QUERY_8@
    }
}

/// The query of the following feed's reposts.
pub open spec fn spec_repost_query(hide_seen_posts: bool, following: Seq<char>, did: Seq<char>) -> Seq<char> {
    if hide_seen_posts {
        REPOST_QUERY_SEEN_0@
            + spec_sanitize(did) + REPOST_QUERY_SEEN_1@
            + following + REPOST_QUERY_SEEN_2@
    } else {
        REPOST_QUERY_0@
            + following + REPOST_QUERY_1@
    }
}

/// The query of the mutuals feed.
pub open spec fn spec_mutuals_query(did: Seq<char>, limit: i64) -> Seq<char> {
    MUTUALS_QUERY_0@
        + spec_sanitize(did) + MUTUALS_QUERY_1@
        + spec_int_text(limit as int) + MUTUALS_QUERY_2@
}

/// The SQL query of the media feed: posts with media by the authors of
/// `following`, a list of quoted DIDs.
pub fn post_media_query_str(following: &str) -> (s: String)
    ensures
        s@ == spec_post_media_query(following@),
{
    let mut s = String::from_str(MEDIA_QUERY_0);
    s.append(following);
    s.append(MEDIA_QUERY_1);
    s
}

/// The SQL query of the following feed's posts, by the user's settings; with
/// `hide_seen_posts` it leaves out what the user `did` has seen.
pub fn post_query_str(
    hide_seen_posts: bool,
    hide_no_alt_text: bool,
    following: &str,
    cfg: &UserFeedPreference,
    did: &str,
) -> (s: String)
    ensures
        s@ == spec_post_query(hide_seen_posts, hide_no_alt_text, following@, *cfg, did@),
{
    let sanitized = sanitize_did(did);
    if hide_seen_posts {
        let mut s = String::from_str(POST_QUERY_SEEN_0);
        s.append(following);
        s.append(POST_QUERY_SEEN_1);
        s.append(following);
        s.append(POST_QUERY_SEEN_2);
        s.append(sanitized.as_str());
        s.append(POST_QUERY_SEEN_3);
        s.append(following);
        s.append(POST_QUERY_SEEN_4);
        push_bool_text(&mut s, cfg.show_quote_posts);
        s.append(POST_QUERY_SEEN_5);
        push_bool_text(&mut s, hide_no_alt_text);
        s.append(POST_QUERY_SEEN_6);
        push_bool_text(&mut s, cfg.show_replies);
        s.append(POST_QUERY_SEEN_7);
        push_bool_text(&mut s, !cfg.reply_filter_followed_only);
        s.append(POST_QUERY_SEEN_8);
        s.append(following);
        s.append(POST_QUERY_SEEN_9);
        push_i64_text(&mut s, cfg.reply_filter_likes as i64);
        s.append(POST_QUERY_SEEN_10);
        s
    } else {
        let mut s = String::from_str(POST_QUERY_0);
        s.append(following);
        s.append(POST_QUERY_1);
        s.append(following);
        s.append(POST_QUERY_2);
        push_bool_text(&mut s, cfg.show_quote_posts);
        s.append(POST_QUERY_3);
        push_bool_text(&mut s, hide_no_alt_text);
        s.append(POST_QUERY_4);
        push_bool_text(&mut s, cfg.show_replies);
        s.append(POST_QUERY_5);
        push_bool_text(&mut s, !cfg.reply_filter_followed_only);
        s.append(POST_QUERY_6);
        s.append(following);
        s.append(POST_QUERY_7);
        push_i64_text(&mut s, cfg.reply_filter_likes as i64);
        s.append(POST_QUERY_8);
        s
    }
}

/// The SQL query of the following feed's reposts by the authors of
/// `following_reposts`; with `hide_seen_posts` it leaves out what the user
/// `did` has seen.
pub fn repost_query_str(hide_seen_posts: bool, following: &str, did: &str) -> (s: String)
    ensures
        s@ == spec_repost_query(hide_seen_posts, following@, did@),
{
    let sanitized = sanitize_did(did);
    if hide_seen_posts {
        let mut s = String::from_str(REPOST_QUERY_SEEN_0);
        s.append(sanitized.as_str());
        s.append(REPOST_QUERY_SEEN_1);
        s.append(following);
        s.append(REPOST_QUERY_SEEN_2);
        s
    } else {
        let mut s = String::from_str(REPOST_QUERY_0);
        s.append(following);
        s.append(REPOST_QUERY_1);
        s
    }
}

/// The SQL query of the mutuals feed of `did`: posts of the accounts that it
/// follows and that follow it back, newest first, at most `limit`.
pub fn mutuals_query_str(did: &str, limit: i64) -> (s: String)
    ensures
        s@ == spec_mutuals_query(did@, limit),
{
    let sanitized = sanitize_did(did);
    let mut s = String::from_str(MUTUALS_QUERY_0);
    s.append(sanitized.as_str());
    s.append(MUTUALS_QUERY_1);
    push_i64_text(&mut s, limit);
    s.append(MUTUALS_QUERY_2);
    s
}

/// The start of the reply condition of the following feed's post query for a
/// user who does (`true`) or does not restrict replies to followed accounts.
pub open spec fn spec_reply_condition(followed_only: bool) -> Seq<char> {
    "("@ + (if followed_only { "false"@ } else { "true"@ }) + " or p2.author is null"@
}

/// The reply filter of the following feed's post query: right after the
/// opening bracket of the reply condition stands `true` where the user does
/// not restrict replies to followed accounts and `false` where they do,
/// followed by ` or p2.author is null`, whether or not seen posts are hidden.
pub proof fn law_post_query_reply_filter(
    hide_seen_posts: bool,
    hide_no_alt_text: bool,
    following: Seq<char>,
    cfg: UserFeedPreference,
    did: Seq<char>,
)
    ensures
        ({
            let q = spec_post_query(hide_seen_posts, hide_no_alt_text, following, cfg, did);
            let marker = spec_reply_condition(cfg.reply_filter_followed_only);
            exists|i: int| 0 <= i && i + marker.len() <= q.len() && #[trigger] q.subrange(i, i + marker.len()) == marker
        }),
{
    reveal_strlit("(");
    reveal_strlit("true");
    reveal_strlit("false");
    reveal_strlit(" or p2.author is null");
    reveal_strlit(" or p2.author is null or (p2.author in (");
    reveal_strlit(" or p1.\"replyParent\" is null)\n        and s1.id is null\n        and (");
    reveal_strlit(" or p1.\"replyParent\" is null)\n        and (");
    let b = spec_bool_text(!cfg.reply_filter_followed_only);
    let marker = spec_reply_condition(cfg.reply_filter_followed_only);
    assert(b == (if cfg.reply_filter_followed_only { "false"@ } else { "true"@ }));
    let q = spec_post_query(hide_seen_posts, hide_no_alt_text, following, cfg, did);
    if hide_seen_posts {
        let pre = POST_QUERY_SEEN_0@
            + following + POST_QUERY_SEEN_1@
            + following + POST_QUERY_SEEN_2@
            + spec_sanitize(did) + POST_QUERY_SEEN_3@
            + following + POST_QUERY_SEEN_4@
            + spec_bool_text(cfg.show_quote_posts) + POST_QUERY_SEEN_5@
            + spec_bool_text(hide_no_alt_text) + POST_QUERY_SEEN_6@
            + spec_bool_text(cfg.show_replies) + POST_QUERY_SEEN_7@;
        let post = following + POST_QUERY_SEEN_9@
            + spec_int_text(cfg.reply_filter_likes as int) + POST_QUERY_SEEN_10@;
        assert(q =~= pre + b + POST_QUERY_SEEN_8@ + post);
        let i = pre.len() - 1;
        assert(q.subrange(i, i + marker.len()) =~= marker);
    } else {
        let pre = POST_QUERY_0@
            + following + POST_QUERY_1@
            + following + POST_QUERY_2@
            + spec_bool_text(cfg.show_quote_posts) + POST_QUERY_3@
            + spec_bool_text(hide_no_alt_text) + POST_QUERY_4@
            + spec_bool_text(cfg.show_replies) + POST_QUERY_5@;
        let post = following + POST_QUERY_7@
            + spec_int_text(cfg.reply_filter_likes as int) + POST_QUERY_8@;
        assert(q =~= pre + b + POST_QUERY_6@ + post);
        let i = pre.len() - 1;
        assert(q.subrange(i, i + marker.len()) =~= marker);
    }
}

} // verus!
