//! Turning queued firehose records into rows, and the settings that likes
//! and replies of the settings posts change.
use vstd::prelude::*;
use crate::decimal::{parse_i32, spec_parse_i32};
use crate::feedgen::models::{Follow, Post, UserFeedPreference};
use crate::text::str_eq;

verus! {

/// Replying to this post sets the number of likes a reply needs.
pub const NUMBER_OF_LIKES: &'static str = "at://did:plc:cimwguwdlh2i2mebdqczgcyl/app.bsky.feed.post/3l5fyvglu472z";
/// Liking this post shows only replies to followed accounts.
pub const SHOW_REPLIES_FOR_FOLLOWING_ONLY: &'static str = "at://did:plc:cimwguwdlh2i2mebdqczgcyl/app.bsky.feed.post/3l5fyouhr7z26";
/// Liking this post hides reposts.
pub const DONT_SHOW_REPOSTS: &'static str = "at://did:plc:cimwguwdlh2i2mebdqczgcyl/app.bsky.feed.post/3l5fyptviqu2f";
/// Liking this post hides quote posts.
pub const DONT_SHOW_QUOTEPOSTS: &'static str = "at://did:plc:cimwguwdlh2i2mebdqczgcyl/app.bsky.feed.post/3l5fyqh7fbr26";
/// Liking this post resets the settings.
pub const RESET_PREF: &'static str = "at://did:plc:cimwguwdlh2i2mebdqczgcyl/app.bsky.feed.post/3l5g74kd7my26";
/// Liking this post hides posts already seen.
pub const HIDE_SEEN_POSTS: &'static str = "at://did:plc:cimwguwdlh2i2mebdqczgcyl/app.bsky.feed.post/3l7edu2ufdp2u";
/// Liking this post hides media posts without alt text.
pub const HIDE_NOT_ALT_TEXT_POSTS: &'static str = "at://did:plc:cimwguwdlh2i2mebdqczgcyl/app.bsky.feed.post/3lbsxswsgus2f";

/// The replies-likes threshold of a settings row created by a like.
pub const DEFAULT_LIKE_THRESHOLD: i32 = 2;

/// A firehose record queued for indexing, without its record body.
pub struct CreateRequest {
    pub uri: String,
    pub cid: String,
    pub author: String,
    pub prev: Option<String>,
    pub sequence: Option<i64>,
}

/// The parent and root of a reply.
pub struct ReplyRef {
    pub parent_uri: String,
    pub root_uri: String,
}

/// A link card.
pub struct ExternalEmbed {
    pub uri: String,
    pub title: String,
    pub description: String,
    pub thumb_cid: Option<String>,
}

/// The media beside a quoted record.
pub enum MediaEmbed {
    /// Images, by their alt texts.
    Images(Vec<String>),
    /// A gallery, by its items' alt texts.
    Gallery(Vec<String>),
    /// A video and its alt text.
    Video(Option<String>),
    /// A link card.
    External,
}

/// What a post embeds.
pub enum PostEmbed {
    /// Images, by their alt texts.
    Images(Vec<String>),
    /// A gallery, by its items' alt texts.
    Gallery(Vec<String>),
    /// A video and its alt text.
    Video(Option<String>),
    /// A quoted record with media.
    RecordWithMedia(MediaEmbed),
    /// A link card.
    External(ExternalEmbed),
    /// A quoted record.
    Record { cid: String, uri: String },
}

/// The fields of a post record that indexing reads.
pub struct PostRecord {
    pub text: String,
    pub reply: Option<ReplyRef>,
    pub langs: Option<Vec<String>>,
    pub embed: Option<PostEmbed>,
}

/// The last non-empty alt text of a list, if any.
pub open spec fn spec_last_alt(alts: Seq<Seq<char>>) -> Option<Seq<char>>
    decreases alts.len(),
{
    if alts.len() == 0 {
        None
    } else if alts.last().len() > 0 {
        Some(alts.last())
    } else {
        spec_last_alt(alts.drop_last())
    }
}

/// The characters of each string of a list.
pub open spec fn texts(v: Seq<String>) -> Seq<Seq<char>> {
    v.map_values(|s: String| s@)
}

/// The characters of an optional string.
pub open spec fn opt_chars(v: Option<String>) -> Option<Seq<char>> {
    match v {
        Some(s) => Some(s@),
        None => None,
    }
}

/// Strings joined with commas.
pub open spec fn spec_join_commas(parts: Seq<Seq<char>>) -> Seq<char>
    decreases parts.len(),
{
    if parts.len() == 0 {
        Seq::empty()
    } else if parts.len() == 1 {
        parts[0]
    } else {
        spec_join_commas(parts.drop_last()) + seq![','] + parts.last()
    }
}

/// Whether a post's embed carries media, and the alt text it carries.
pub open spec fn spec_embed_media(embed: Option<PostEmbed>) -> (bool, Option<Seq<char>>) {
    match embed {
        Some(PostEmbed::Images(alts)) => (true, spec_last_alt(texts(alts@))),
        Some(PostEmbed::Gallery(alts)) => (true, spec_last_alt(texts(alts@))),
        Some(PostEmbed::Video(alt)) => (true, opt_chars(alt)),
        Some(PostEmbed::RecordWithMedia(m)) => match m {
            MediaEmbed::Images(alts) => (true, spec_last_alt(texts(alts@))),
            MediaEmbed::Gallery(alts) => (true, spec_last_alt(texts(alts@))),
            MediaEmbed::Video(alt) => (true, opt_chars(alt)),
            MediaEmbed::External => (true, None),
        },
        _ => (false, None),
    }
}

/// The row of a queued post: its identity from the request, and its text,
/// reply, languages, media, alt text, link card and quote from the record
/// (a request without a post record gives an empty text and no media).
pub open spec fn spec_post_row(req: CreateRequest, record: Option<PostRecord>, indexed_at: Seq<char>, p: Post) -> bool {
    &&& p.uri@ == req.uri@
    &&& p.cid@ == req.cid@
    &&& p.author@ == req.author@
    &&& opt_chars(p.prev) == opt_chars(req.prev)
    &&& p.sequence == req.sequence
    &&& p.indexed_at@ == indexed_at
    &&& match record {
        None => {
            &&& opt_chars(p.text) == Some(Seq::<char>::empty())
            &&& p.reply_parent is None && p.reply_root is None && p.lang is None
            &&& !p.media && p.alt is None
            &&& p.external_uri is None && p.external_title is None
            &&& p.external_description is None && p.external_thumb is None
            &&& p.quote_cid is None && p.quote_uri is None
        },
        Some(r) => {
            &&& opt_chars(p.text) == Some(r.text@)
            &&& opt_chars(p.reply_parent) == match r.reply { Some(x) => Some(x.parent_uri@), None => None }
            &&& opt_chars(p.reply_root) == match r.reply { Some(x) => Some(x.root_uri@), None => None }
            &&& opt_chars(p.lang) == match r.langs { Some(l) => Some(spec_join_commas(texts(l@))), None => None }
            &&& p.media == spec_embed_media(r.embed).0
            &&& opt_chars(p.alt) == spec_embed_media(r.embed).1
            &&& opt_chars(p.external_uri) == match r.embed { Some(PostEmbed::External(e)) => Some(e.uri@), _ => None }
            &&& opt_chars(p.external_title) == match r.embed { Some(PostEmbed::External(e)) => Some(e.title@), _ => None }
            &&& opt_chars(p.external_description) == match r.embed { Some(PostEmbed::External(e)) => Some(e.description@), _ => None }
            &&& opt_chars(p.external_thumb) == match r.embed { Some(PostEmbed::External(e)) => opt_chars(e.thumb_cid), _ => None }
            &&& opt_chars(p.quote_cid) == match r.embed { Some(PostEmbed::Record { cid, uri }) => Some(cid@), _ => None }
            &&& opt_chars(p.quote_uri) == match r.embed { Some(PostEmbed::Record { cid, uri }) => Some(uri@), _ => None }
        },
    }
}

/// The last non-empty alt text of a list.
fn last_alt(alts: &Vec<String>) -> (r: Option<String>)
    ensures
        opt_chars(r) == spec_last_alt(texts(alts@)),
{
    let ghost ts = texts(alts@);
    let mut r: Option<String> = None;
    let mut i: usize = 0;
    assert(ts.take(0) =~= Seq::<Seq<char>>::empty());
    while i < alts.len()
        invariant
            ts == texts(alts@),
            i <= alts@.len(),
            opt_chars(r) == spec_last_alt(ts.take(i as int)),
        decreases alts@.len() - i,
    {
        assert(ts.take(i + 1).drop_last() =~= ts.take(i as int));
        assert(ts.take(i + 1).last() == alts@[i as int]@);
        if alts[i].as_str().unicode_len() > 0 {
            r = Some(alts[i].clone());
        }
        i = i + 1;
    }
    assert(ts.take(i as int) =~= ts);
    r
}

/// Strings joined with commas.
fn join_commas(parts: &Vec<String>) -> (r: String)
    ensures
        r@ == spec_join_commas(texts(parts@)),
{
    let ghost ts = texts(parts@);
    let mut r = String::new();
    let mut i: usize = 0;
    assert(ts.take(0) =~= Seq::<Seq<char>>::empty());
    while i < parts.len()
        invariant
            ts == texts(parts@),
            i <= parts@.len(),
            r@ == spec_join_commas(ts.take(i as int)),
        decreases parts@.len() - i,
    {
        assert(ts.take(i + 1).drop_last() =~= ts.take(i as int));
        assert(ts.take(i + 1).last() == parts@[i as int]@);
        let ghost before = r@;
        if i > 0 {
            crate::text::push_char(&mut r, ',');
        } else {
            assert(ts.take(1)[0] == parts@[0]@);
        }
        r.append(parts[i].as_str());
        proof {
            if i > 0 {
                assert(r@ =~= before + seq![','] + ts.take(i + 1).last());
            }
        }
        i = i + 1;
    }
    assert(ts.take(i as int) =~= ts);
    r
}

/// A copy of an optional string.
fn copy_opt(v: &Option<String>) -> (r: Option<String>)
    ensures
        opt_chars(r) == opt_chars(*v),
{
    match v {
        Some(s) => Some(s.clone()),
        None => None,
    }
}

/// Whether an embed carries media, and the alt text it carries.
fn embed_media(embed: &Option<PostEmbed>) -> (r: (bool, Option<String>))
    ensures
        (r.0, opt_chars(r.1)) == spec_embed_media(*embed),
{
    match embed {
        Some(PostEmbed::Images(alts)) => (true, last_alt(alts)),
        Some(PostEmbed::Gallery(alts)) => (true, last_alt(alts)),
        Some(PostEmbed::Video(alt)) => (true, copy_opt(alt)),
        Some(PostEmbed::RecordWithMedia(m)) => match m {
            MediaEmbed::Images(alts) => (true, last_alt(alts)),
            MediaEmbed::Gallery(alts) => (true, last_alt(alts)),
            MediaEmbed::Video(alt) => (true, copy_opt(alt)),
            MediaEmbed::External => (true, None),
        },
        _ => (false, None),
    }
}

/// The row of a queued post, indexed at `indexed_at`.
pub fn build_post_row(req: &CreateRequest, record: &Option<PostRecord>, indexed_at: String) -> (p: Post)
    ensures
        spec_post_row(*req, *record, indexed_at@, p),
{
    let mut p = Post {
        uri: req.uri.clone(),
        cid: req.cid.clone(),
        reply_parent: None,
        reply_root: None,
        indexed_at,
        prev: copy_opt(&req.prev),
        sequence: req.sequence,
        text: Some(String::new()),
        lang: None,
        author: req.author.clone(),
        external_uri: None,
        external_title: None,
        external_description: None,
        external_thumb: None,
        quote_cid: None,
        quote_uri: None,
        media: false,
        alt: None,
    };
    match record {
        None => {},
        Some(r) => {
            p.text = Some(r.text.clone());
            match &r.reply {
                Some(reply) => {
                    p.reply_parent = Some(reply.parent_uri.clone());
                    p.reply_root = Some(reply.root_uri.clone());
                },
                None => {},
            }
            match &r.langs {
                Some(langs) => p.lang = Some(join_commas(langs)),
                None => {},
            }
            let (media, alt) = embed_media(&r.embed);
            p.media = media;
            p.alt = alt;
            match &r.embed {
                Some(PostEmbed::External(e)) => {
                    p.external_uri = Some(e.uri.clone());
                    p.external_title = Some(e.title.clone());
                    p.external_description = Some(e.description.clone());
                    p.external_thumb = copy_opt(&e.thumb_cid);
                },
                Some(PostEmbed::Record { cid, uri }) => {
                    p.quote_cid = Some(cid.clone());
                    p.quote_uri = Some(uri.clone());
                },
                _ => {},
            }
        },
    }
    p
}

/// The replies-likes threshold that a post sets, where it replies to the
/// settings post for it: its text as a number, or 2 where it is none.
pub open spec fn spec_like_threshold(p: Post) -> Option<i32> {
    match p.reply_parent {
        Some(parent) => if parent@ == NUMBER_OF_LIKES@ {
            let text = match p.text { Some(t) => t@, None => "2"@ };
            match spec_parse_i32(text) {
                Some(n) => Some(n),
                None => Some(2i32),
            }
        } else {
            None
        },
        None => None,
    }
}

/// The replies-likes threshold that a post sets, if any.
pub fn like_threshold_update(p: &Post) -> (r: Option<i32>)
    ensures
        r == spec_like_threshold(*p),
{
    match &p.reply_parent {
        Some(parent) => if str_eq(parent.as_str(), NUMBER_OF_LIKES) {
            let parsed = match &p.text {
                Some(t) => parse_i32(t.as_str()),
                None => parse_i32("2"),
            };
            match parsed {
                Some(n) => Some(n),
                None => Some(2),
            }
        } else {
            None
        },
        None => None,
    }
}

/// How a like or a reply changes a user's settings row.
pub enum PreferenceChange {
    /// The row stays as it is.
    Unchanged,
    /// A new row is inserted.
    Insert(UserFeedPreference),
    /// The row is replaced.
    Update(UserFeedPreference),
    /// The row is deleted.
    Delete,
}

/// A settings row as a like or a threshold reply creates it: replies, reposts
/// and quote posts shown, and the given replies-likes threshold.
pub open spec fn spec_created_settings(did: Seq<char>, likes: i32, p: UserFeedPreference) -> bool {
    &&& p.did@ == did
    &&& p.show_replies && p.reply_filter_likes == likes && !p.reply_filter_followed_only
    &&& p.show_reposts && p.show_quote_posts && !p.hide_seen_posts && !p.hide_no_alt_text
}

/// The settings row of `did` with a given replies-likes threshold.
fn created_settings(did: &str, likes: i32) -> (p: UserFeedPreference)
    ensures
        spec_created_settings(did@, likes, p),
{
    UserFeedPreference {
        did: String::from_str(did),
        show_replies: true,
        reply_filter_likes: likes,
        reply_filter_followed_only: false,
        show_reposts: true,
        show_quote_posts: true,
        hide_seen_posts: false,
        hide_no_alt_text: false,
    }
}

/// `a` and `b` are the same settings but for the fields `changed` names.
pub open spec fn spec_same_settings(a: UserFeedPreference, b: UserFeedPreference) -> bool {
    &&& a.did@ == b.did@
    &&& a.show_replies == b.show_replies
    &&& a.reply_filter_likes == b.reply_filter_likes
    &&& a.reply_filter_followed_only == b.reply_filter_followed_only
    &&& a.show_reposts == b.show_reposts
    &&& a.show_quote_posts == b.show_quote_posts
    &&& a.hide_seen_posts == b.hide_seen_posts
    &&& a.hide_no_alt_text == b.hide_no_alt_text
}

/// A copy of a settings row.
fn copy_settings(p: &UserFeedPreference) -> (r: UserFeedPreference)
    ensures
        spec_same_settings(r, *p),
{
    UserFeedPreference {
        did: p.did.clone(),
        show_replies: p.show_replies,
        reply_filter_likes: p.reply_filter_likes,
        reply_filter_followed_only: p.reply_filter_followed_only,
        show_reposts: p.show_reposts,
        show_quote_posts: p.show_quote_posts,
        hide_seen_posts: p.hide_seen_posts,
        hide_no_alt_text: p.hide_no_alt_text,
    }
}

/// How a threshold reply by `author` changes their settings: a new row with
/// the threshold, or the existing row with the threshold replaced.
pub fn threshold_change(existing: &Option<UserFeedPreference>, author: &str, likes: i32) -> (r: PreferenceChange)
    ensures
        match *existing {
            None => r matches PreferenceChange::Insert(p) && spec_created_settings(author@, likes, p),
            Some(old) => r matches PreferenceChange::Update(p)
                && spec_same_settings(p, UserFeedPreference { reply_filter_likes: likes, ..old }),
        },
{
    match existing {
        None => PreferenceChange::Insert(created_settings(author, likes)),
        Some(old) => {
            let mut p = copy_settings(old);
            p.reply_filter_likes = likes;
            PreferenceChange::Update(p)
        },
    }
}

/// The liked post is one of the settings posts.
pub open spec fn spec_is_settings_post(uri: Seq<char>) -> bool {
    uri == RESET_PREF@ || uri == DONT_SHOW_QUOTEPOSTS@ || uri == DONT_SHOW_REPOSTS@
        || uri == SHOW_REPLIES_FOR_FOLLOWING_ONLY@ || uri == HIDE_SEEN_POSTS@ || uri == HIDE_NOT_ALT_TEXT_POSTS@
}

/// How a like of `subject_uri` by `author` changes their settings. A like of
/// a settings post by a user without settings creates their row with a
/// threshold of 2; with settings, it turns on or off the setting the post
/// names, or deletes the row for the reset post. Other likes change nothing.
pub open spec fn spec_like_change(subject_uri: Seq<char>, existing: Option<UserFeedPreference>, author: Seq<char>, r: PreferenceChange) -> bool {
    if !spec_is_settings_post(subject_uri) {
        r is Unchanged
    } else {
        match existing {
            None => r matches PreferenceChange::Insert(p) && spec_created_settings(author, DEFAULT_LIKE_THRESHOLD, p),
            Some(old) => if subject_uri == SHOW_REPLIES_FOR_FOLLOWING_ONLY@ {
                r matches PreferenceChange::Update(p) && spec_same_settings(p, UserFeedPreference { reply_filter_followed_only: true, ..old })
            } else if subject_uri == DONT_SHOW_REPOSTS@ {
                r matches PreferenceChange::Update(p) && spec_same_settings(p, UserFeedPreference { show_reposts: false, ..old })
            } else if subject_uri == DONT_SHOW_QUOTEPOSTS@ {
                r matches PreferenceChange::Update(p) && spec_same_settings(p, UserFeedPreference { show_quote_posts: false, ..old })
            } else if subject_uri == RESET_PREF@ {
                r is Delete
            } else if subject_uri == HIDE_SEEN_POSTS@ {
                r matches PreferenceChange::Update(p) && spec_same_settings(p, UserFeedPreference { hide_seen_posts: true, ..old })
            } else {
                r matches PreferenceChange::Update(p) && spec_same_settings(p, UserFeedPreference { hide_no_alt_text: true, ..old })
            },
        }
    }
}

/// How a like of `subject_uri` by `author` changes their settings row.
pub fn like_preference_change(subject_uri: &str, existing: &Option<UserFeedPreference>, author: &str) -> (r: PreferenceChange)
    ensures
        spec_like_change(subject_uri@, *existing, author@, r),
{
    let is_settings = str_eq(subject_uri, RESET_PREF) || str_eq(subject_uri, DONT_SHOW_QUOTEPOSTS)
        || str_eq(subject_uri, DONT_SHOW_REPOSTS) || str_eq(subject_uri, SHOW_REPLIES_FOR_FOLLOWING_ONLY)
        || str_eq(subject_uri, HIDE_SEEN_POSTS) || str_eq(subject_uri, HIDE_NOT_ALT_TEXT_POSTS);
    if !is_settings {
        return PreferenceChange::Unchanged;
    }
    match existing {
        None => PreferenceChange::Insert(created_settings(author, DEFAULT_LIKE_THRESHOLD)),
        Some(old) => {
            let mut p = copy_settings(old);
            if str_eq(subject_uri, SHOW_REPLIES_FOR_FOLLOWING_ONLY) {
                p.reply_filter_followed_only = true;
                PreferenceChange::Update(p)
            } else if str_eq(subject_uri, DONT_SHOW_REPOSTS) {
                p.show_reposts = false;
                PreferenceChange::Update(p)
            } else if str_eq(subject_uri, DONT_SHOW_QUOTEPOSTS) {
                p.show_quote_posts = false;
                PreferenceChange::Update(p)
            } else if str_eq(subject_uri, RESET_PREF) {
                PreferenceChange::Delete
            } else if str_eq(subject_uri, HIDE_SEEN_POSTS) {
                p.hide_seen_posts = true;
                PreferenceChange::Update(p)
            } else {
                p.hide_no_alt_text = true;
                PreferenceChange::Update(p)
            }
        },
    }
}

/// A like's row.
pub struct LikeRow {
    pub uri: String,
    pub author: String,
    pub subject_uri: String,
    pub indexed_at: String,
}

/// The row of a queued like of `subject_uri`.
pub fn build_like_row(req: &CreateRequest, subject_uri: &str, indexed_at: String) -> (r: LikeRow)
    ensures
        r.uri@ == req.uri@ && r.author@ == req.author@,
        r.subject_uri@ == subject_uri@ && r.indexed_at@ == indexed_at@,
{
    LikeRow { uri: req.uri.clone(), author: req.author.clone(), subject_uri: String::from_str(subject_uri), indexed_at }
}

/// A repost's row.
pub struct RepostRow {
    pub uri: String,
    pub cid: String,
    pub author: String,
    pub subject_cid: String,
    pub subject_uri: String,
    pub created_at: String,
    pub indexed_at: String,
    pub prev: Option<String>,
    pub sequence: Option<i64>,
}

/// The row of a queued repost of the record `subject_uri` with content id
/// `subject_cid`, created at `created_at`.
pub fn build_repost_row(
    req: &CreateRequest,
    subject_cid: &str,
    subject_uri: &str,
    created_at: &str,
    indexed_at: String,
) -> (r: RepostRow)
    ensures
        r.uri@ == req.uri@ && r.cid@ == req.cid@ && r.author@ == req.author@,
        r.subject_cid@ == subject_cid@ && r.subject_uri@ == subject_uri@,
        r.created_at@ == created_at@ && r.indexed_at@ == indexed_at@,
        opt_chars(r.prev) == opt_chars(req.prev) && r.sequence == req.sequence,
{
    RepostRow {
        uri: req.uri.clone(),
        cid: req.cid.clone(),
        author: req.author.clone(),
        subject_cid: String::from_str(subject_cid),
        subject_uri: String::from_str(subject_uri),
        created_at: String::from_str(created_at),
        indexed_at,
        prev: copy_opt(&req.prev),
        sequence: req.sequence,
    }
}

/// The row of a queued follow of `subject`, created at `created_at`.
pub fn build_follow_row(req: &CreateRequest, subject: &str, created_at: &str, indexed_at: String) -> (r: Follow)
    ensures
        r.uri@ == req.uri@ && r.cid@ == req.cid@ && r.author@ == req.author@,
        r.subject@ == subject@ && r.created_at@ == created_at@ && r.indexed_at@ == indexed_at@,
        opt_chars(r.prev) == opt_chars(req.prev) && r.sequence == req.sequence,
{
    Follow {
        uri: req.uri.clone(),
        cid: req.cid.clone(),
        author: req.author.clone(),
        subject: String::from_str(subject),
        created_at: String::from_str(created_at),
        indexed_at,
        prev: copy_opt(&req.prev),
        sequence: req.sequence,
    }
}

/// Whether a follow is indexed: when the author's follows are indexed, or
/// the author or the followed account is a known user.
pub fn should_index_follow(author_follows_indexed: bool, author_known: bool, subject_known: bool) -> (r: bool)
    ensures
        r == (author_follows_indexed || author_known || subject_known),
{
    author_follows_indexed || author_known || subject_known
}

/// The collections that the queue endpoints accept.
#[derive(Clone, Copy, Debug, PartialEq, Eq, Structural)]
pub enum QueueLexicon {
    Posts,
    Reposts,
    Likes,
    Follows,
}

/// The collection that a queue endpoint's path segment names.
pub open spec fn spec_queue_lexicon(lex: Seq<char>) -> Option<QueueLexicon> {
    if lex == "posts"@ {
        Some(QueueLexicon::Posts)
    } else if lex == "reposts"@ {
        Some(QueueLexicon::Reposts)
    } else if lex == "likes"@ {
        Some(QueueLexicon::Likes)
    } else if lex == "follows"@ {
        Some(QueueLexicon::Follows)
    } else {
        None
    }
}

/// The collection that a queue endpoint's path segment names, if any.
pub fn queue_lexicon(lex: &str) -> (r: Option<QueueLexicon>)
    ensures
        r == spec_queue_lexicon(lex@),
{
    if str_eq(lex, "posts") {
        Some(QueueLexicon::Posts)
    } else if str_eq(lex, "reposts") {
        Some(QueueLexicon::Reposts)
    } else if str_eq(lex, "likes") {
        Some(QueueLexicon::Likes)
    } else if str_eq(lex, "follows") {
        Some(QueueLexicon::Follows)
    } else {
        None
    }
}

} // verus!
