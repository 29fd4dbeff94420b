use following_feed::feedgen::auth::{
    bearer_token, check_alg, AccessToken, check_api_key, check_claims, check_hs_signature, decode_segment,
    header_json, optional_access_token, payload_json, session_payload, session_token,
    signature_check, signing_input, split_jwt, HeaderText, JwtAlg, JwtError, KeySource, SignatureCheck,
};
use following_feed::feedgen::cursor::{apply_cursor_to_queries, apply_cursor_to_single_query, cursor_in_range, cursor_timestamp, generate_cursor_from_last_post};
use following_feed::feedgen::feed::{
    feed_page, follows_need_refresh, mutuals_feed_query, page_rows, route_feed_request, seen_posts_step,
    user_feed_page, user_feed_queries, well_known, FeedRoute, SeenPostsStep, MEDIA, MUTUALS,
};
use following_feed::feedgen::follows::{get_following_reposts_string, reconcile_follow_sets};
use following_feed::feedgen::ingest::{
    build_post_row, like_preference_change, like_threshold_update, queue_lexicon,
    should_index_follow, CreateRequest, PostEmbed, PostRecord, PreferenceChange, QueueLexicon,
    ReplyRef, DONT_SHOW_REPOSTS, NUMBER_OF_LIKES, RESET_PREF,
};
use following_feed::feedgen::models::{
    AlgoResponse, ErrorCode, Follow, FollowingPreference, InternalErrorCode,
    InternalErrorMessageResponse, JwtParts, Post, UsageStats, UserFeedPreference,
    ValidationErrorMessageResponse,
};
use following_feed::feedgen::oauth::{authorize_url, client_id, id_token_payload, issuer_matches, redirect_uri};
use following_feed::feedgen::order::newest_first;
use following_feed::feedgen::query::{format_did_list, mutuals_query_str, post_media_query_str, post_query_str, repost_query_str, sanitize_did};

use base64::Engine;
use hmac::Mac;

fn b64url(s: &str) -> String {
    base64::engine::general_purpose::URL_SAFE_NO_PAD.encode(s)
}

fn b64std(s: &str) -> String {
    base64::engine::general_purpose::STANDARD_NO_PAD.encode(s)
}

#[test]
fn test_format_did_list() {
    let dids = vec!["did:plc:123".to_string(), "did:plc:456".to_string()];
    assert_eq!(format_did_list(&dids), "'did:plc:123','did:plc:456'");
    let empty: Vec<String> = vec![];
    assert_eq!(format_did_list(&empty), "");
    let single = vec!["did:plc:abc".to_string()];
    assert_eq!(format_did_list(&single), "'did:plc:abc'");
}

#[test]
fn test_format_did_list_special_chars() {
    let dids = vec!["did:key:zQ3sh...abc".to_string()];
    assert_eq!(format_did_list(&dids), "'did:key:zQ3sh...abc'");
}

#[test]
fn format_did_list_escapes_quotes() {
    let dids = vec!["a'b".to_string(), "''".to_string()];
    assert_eq!(format_did_list(&dids), "'a''b',''''''");
    assert_eq!(sanitize_did("x'y'"), "x''y''");
}

#[test]
fn test_generate_cursor_from_last_post() {
    let post = Post {
        uri: "at://did:plc:abc/app.bsky.feed.post/123".to_string(),
        cid: "bafyreih".to_string(),
        indexed_at: "2023-10-20T10:00:00.000000+00:00".to_string(),
        ..Default::default()
    };
    let cursor = generate_cursor_from_last_post(Some(&post)).unwrap();
    assert_eq!(cursor, "1697796000000::bafyreih");
    assert!(generate_cursor_from_last_post(None).is_none());
}

#[test]
fn test_apply_cursor_to_queries() {
    let query = "SELECT * FROM posts";
    let repost_query = "SELECT * FROM reposts";
    let cursor = "1697796000000::bafyreih";
    let (q, rq) = apply_cursor_to_queries(cursor, query, repost_query).unwrap();
    assert!(q.contains("SELECT * FROM posts"));
    assert!(q.contains("AND (\"indexedAt\" < '2023-10-20T10:00:00.230"));
    assert!(rq.contains("SELECT * FROM reposts"));
    assert!(rq.contains("WHERE (\"indexedAt\" < '2023-10-20T10:00:00.230"));
}

#[test]
fn test_apply_cursor_to_queries_malformed() {
    let result = apply_cursor_to_queries("invalid", "SELECT * FROM posts", "SELECT * FROM reposts");
    assert!(result.is_err());
}

#[test]
fn cursor_read_back_and_malformed_forms() {
    assert_eq!(cursor_timestamp("1697796000000::bafyreih"), Some(1697796000000));
    assert_eq!(cursor_timestamp("-5::x::y"), Some(-5));
    assert_eq!(cursor_timestamp("+7::"), Some(7));
    assert_eq!(cursor_timestamp("12:34::x"), None);
    assert_eq!(cursor_timestamp("::x"), None);
    assert_eq!(cursor_timestamp("99999999999999999999::x"), None);
    assert_eq!(cursor_timestamp("-9223372036854775808::x"), Some(i64::MIN));
    let mut q = "Q".to_string();
    let e = apply_cursor_to_single_query("nope", &mut q).unwrap_err();
    assert_eq!(e.message.as_deref(), Some("malformed cursor"));
    assert_eq!(e.code, Some(ErrorCode::ValidationError));
    assert_eq!(q, "Q");
}

#[test]
fn generated_cursor_is_accepted_back() {
    let post = Post {
        cid: "cid1".to_string(),
        indexed_at: "2023-10-20T10:00:00.500000+00:00".to_string(),
        ..Default::default()
    };
    let cursor = generate_cursor_from_last_post(Some(&post)).unwrap();
    assert_eq!(cursor, "1697796000500::cid1");
    assert_eq!(cursor_timestamp(&cursor), Some(1697796000500));
}

#[test]
fn test_mutuals_query_str() {
    let query = mutuals_query_str("did:plc:123", 30);
    assert!(query.contains("did:plc:123"));
    assert!(query.contains("LIMIT 30"));
    assert!(query.contains("JOIN follow f2 ON f1.subject = f2.author AND f1.author = f2.subject"));
    assert!(query.contains("SELECT uri"));
    assert!(query.contains("FROM post"));
    assert!(query.contains("ORDER BY \"indexedAt\" DESC, cid DESC"));
}

#[test]
fn test_mutuals_query_str_edge_cases() {
    let query = mutuals_query_str("", 30);
    assert!(query.contains("WHERE f1.author = ''"));
    let query = mutuals_query_str("did:plc:abc", 0);
    assert!(query.contains("LIMIT 0"));
    let query = mutuals_query_str("did:plc:abc", 9999);
    assert!(query.contains("LIMIT 9999"));
}

#[test]
fn test_post_media_query_str() {
    let following = "'did:plc:123','did:plc:456'";
    let query = post_media_query_str(following);
    assert!(query.contains("p1.media is true"));
    assert!(query.contains("did:plc:123"));
    assert!(query.contains("did:plc:456"));
    assert!(query.contains("select uri"));
    assert!(query.contains("p1.author in ('did:plc:123','did:plc:456')"));
}

#[test]
fn test_post_media_query_str_empty_following() {
    let query = post_media_query_str("");
    assert!(query.contains("p1.author in ()"));
}

#[test]
fn test_post_query_str_with_seen_posts() {
    let following = "'did:plc:abc'";
    let config = UserFeedPreference {
        show_quote_posts: true,
        show_replies: true,
        reply_filter_followed_only: false,
        reply_filter_likes: 0,
        ..Default::default()
    };
    let query = post_query_str(true, false, following, &config, "did:plc:requester");
    assert!(query.contains("seen_post"));
    assert!(query.contains("s1.uri = p1.uri"));
}

#[test]
fn test_post_query_str_without_seen_posts() {
    let config = UserFeedPreference::default();
    let query = post_query_str(false, false, "'did:plc:abc'", &config, "did:plc:requester");
    assert!(!query.contains("seen_post"));
}

#[test]
fn test_post_query_str_with_hide_no_alt_text() {
    let config = UserFeedPreference::default();
    let query = post_query_str(false, true, "'did:plc:abc'", &config, "did:plc:requester");
    assert!(query.contains("alt"));
    assert!(query.contains("media"));
}

#[test]
fn post_query_interpolates_settings() {
    let config = UserFeedPreference {
        show_quote_posts: false,
        show_replies: true,
        reply_filter_followed_only: true,
        reply_filter_likes: -12,
        ..Default::default()
    };
    let query = post_query_str(true, true, "'a'", &config, "did:o'k");
    assert!(query.contains("(false or p1.\"quoteUri\" is null)"));
    assert!(query.contains("(true=false or p1.\"media\" is false"));
    assert!(query.contains("(true or p1.\"replyParent\" is null)"));
    assert!(query.contains("(false or p2.author is null"));
    assert!(query.contains("likeCount >= -12)"));
    assert!(query.contains("s1.did = 'did:o''k'"));
    let rq = repost_query_str(true, "'a'", "did:o'k");
    assert!(rq.contains("s1.did = 'did:o''k'"));
    assert!(rq.contains("r1.author in ('a')"));
    assert!(!repost_query_str(false, "'a'", "d").contains("seen_post"));
}

#[test]
fn test_mutuals_query_str_sql_injection_attempt() {
    let query = mutuals_query_str("did:plc:abc'; DROP TABLE post; --", 30);
    assert!(query.contains("SELECT uri"));
    assert!(query.contains("FROM post"));
    assert!(query.contains("ORDER BY"));
    assert!(query.contains("LIMIT 30"));
    assert!(query.contains("DROP TABLE post"));
    assert!(query.contains("'did:plc:abc''; DROP TABLE post; --'"));
}

#[test]
fn test_queue_deletion_lexicon_routing() {
    assert_eq!(queue_lexicon("posts"), Some(QueueLexicon::Posts));
    assert_eq!(queue_lexicon("likes"), Some(QueueLexicon::Likes));
    assert_eq!(queue_lexicon("blocks"), None);
}

#[test]
fn test_queue_creation_lexicon_routing() {
    assert_eq!(queue_lexicon("posts"), Some(QueueLexicon::Posts));
    assert_eq!(queue_lexicon("reposts"), Some(QueueLexicon::Reposts));
    assert_eq!(queue_lexicon("likes"), Some(QueueLexicon::Likes));
    assert_eq!(queue_lexicon("follows"), Some(QueueLexicon::Follows));
    assert_eq!(queue_lexicon("unknown_lex"), None);
}

#[test]
fn test_queue_follow_creation_filtering_logic() {
    assert!(should_index_follow(false, true, false), "A known author's follows should be indexed");
    assert!(!should_index_follow(false, false, false), "Unknown users' follows should not be indexed");
}

fn request() -> CreateRequest {
    CreateRequest {
        uri: "at://did:plc:a/app.bsky.feed.post/1".to_string(),
        cid: "c1".to_string(),
        author: "did:plc:a".to_string(),
        prev: None,
        sequence: Some(9),
    }
}

#[test]
fn post_row_from_record() {
    let record = PostRecord {
        text: "5".to_string(),
        reply: Some(ReplyRef { parent_uri: NUMBER_OF_LIKES.to_string(), root_uri: "root".to_string() }),
        langs: Some(vec!["en".to_string(), "de".to_string()]),
        embed: Some(PostEmbed::Images(vec!["first".to_string(), "".to_string(), "last".to_string(), "".to_string()])),
    };
    let row = build_post_row(&request(), &Some(record), "now".to_string());
    assert_eq!(row.text.as_deref(), Some("5"));
    assert_eq!(row.lang.as_deref(), Some("en,de"));
    assert!(row.media);
    assert_eq!(row.alt.as_deref(), Some("last"));
    assert_eq!(row.reply_root.as_deref(), Some("root"));
    assert_eq!(row.sequence, Some(9));
    assert_eq!(like_threshold_update(&row), Some(5));

    let quote = PostRecord {
        text: "x".to_string(),
        reply: Some(ReplyRef { parent_uri: NUMBER_OF_LIKES.to_string(), root_uri: "r".to_string() }),
        langs: None,
        embed: Some(PostEmbed::Record { cid: "qc".to_string(), uri: "qu".to_string() }),
    };
    let row = build_post_row(&request(), &Some(quote), "now".to_string());
    assert_eq!(row.quote_uri.as_deref(), Some("qu"));
    assert!(!row.media);
    assert_eq!(like_threshold_update(&row), Some(2));

    let bare = build_post_row(&request(), &None, "t".to_string());
    assert_eq!(bare.text.as_deref(), Some(""));
    assert_eq!(like_threshold_update(&bare), None);
}

#[test]
fn like_preferences() {
    let existing = Some(UserFeedPreference {
        did: "did:plc:a".to_string(),
        show_replies: true,
        reply_filter_likes: 4,
        reply_filter_followed_only: false,
        show_reposts: true,
        show_quote_posts: true,
        hide_seen_posts: false,
        hide_no_alt_text: false,
    });
    match like_preference_change(DONT_SHOW_REPOSTS, &existing, "did:plc:a") {
        PreferenceChange::Update(p) => {
            assert!(!p.show_reposts);
            assert_eq!(p.reply_filter_likes, 4);
        },
        _ => panic!("expected an update"),
    }
    assert!(matches!(like_preference_change(RESET_PREF, &existing, "did:plc:a"), PreferenceChange::Delete));
    assert!(matches!(like_preference_change("at://other", &existing, "did:plc:a"), PreferenceChange::Unchanged));
    match like_preference_change(DONT_SHOW_REPOSTS, &None, "did:plc:b") {
        PreferenceChange::Insert(p) => {
            assert_eq!(p.did, "did:plc:b");
            assert_eq!(p.reply_filter_likes, 2);
            assert!(p.show_reposts);
        },
        _ => panic!("expected an insert"),
    }
}

fn follow(uri: &str) -> Follow {
    Follow { uri: uri.to_string(), ..follow_template() }
}

fn follow_template() -> Follow {
    Follow {
        uri: String::new(),
        cid: "c".to_string(),
        author: "a".to_string(),
        subject: "s".to_string(),
        created_at: "t".to_string(),
        indexed_at: "t".to_string(),
        prev: None,
        sequence: None,
    }
}

#[test]
fn reconcile_follows_diff() {
    let db = vec![follow("u1"), follow("u2"), follow("u3")];
    let pds = vec![follow("u2"), follow("u4"), follow("u3"), follow("u5")];
    let (stale, missing) = reconcile_follow_sets(&db, pds);
    assert_eq!(stale, vec!["u1".to_string()]);
    let uris: Vec<String> = missing.iter().map(|f| f.uri.clone()).collect();
    assert_eq!(uris, vec!["u4".to_string(), "u5".to_string()]);
}

#[test]
fn following_reposts_string_leaves_out_muted() {
    let dids = vec!["d1".to_string(), "d2".to_string(), "d3".to_string()];
    let prefs = vec![
        FollowingPreference { author: "me".to_string(), did: "d2".to_string(), show_reposts: false },
        FollowingPreference { author: "me".to_string(), did: "d3".to_string(), show_reposts: true },
    ];
    assert_eq!(get_following_reposts_string(&dids, &prefs), "'d1','d3'");
}

fn timed_post(uri: &str, quote: Option<&str>) -> Post {
    Post {
        uri: uri.to_string(),
        cid: "c".to_string(),
        indexed_at: "2023-10-20T10:00:00.000000+00:00".to_string(),
        quote_uri: quote.map(|q| q.to_string()),
        ..Default::default()
    }
}

#[test]
fn newest_first_is_stable() {
    let posts = vec![timed_post("a", None), timed_post("b", None), timed_post("c", None), timed_post("d", None)];
    let sorted = newest_first(posts, vec![1, 3, 1, 3]);
    let uris: Vec<String> = sorted.iter().map(|p| p.uri.clone()).collect();
    assert_eq!(uris, vec!["b", "d", "a", "c"]);
}

#[test]
fn feed_pages() {
    let rows = vec![timed_post("p1", None), timed_post("r1", Some("q1")), timed_post("p2", None)];
    let page = user_feed_page(rows.clone(), 2);
    assert_eq!(page.feed.len(), 2);
    assert_eq!(page.feed[1].post, "q1");
    assert_eq!(page.feed[1].reason.as_ref().unwrap().repost_uri, "r1");
    assert_eq!(page.feed[1].reason.as_ref().unwrap().reason_type, "app.bsky.feed.defs#skeletonReasonRepost");
    assert_eq!(page.cursor.as_deref(), Some("1697796000000::c"));
    assert_eq!(user_feed_page(rows.clone(), -1).feed.len(), 3);
    let all: AlgoResponse = feed_page(&rows);
    assert_eq!(all.feed.len(), 3);
    assert!(feed_page(&vec![]).cursor.is_none());
}

#[test]
fn feed_routing() {
    assert_eq!(route_feed_request(MEDIA, ""), FeedRoute::NoDid);
    assert_eq!(route_feed_request(MUTUALS, "did:plc:a"), FeedRoute::Mutuals);
    assert_eq!(route_feed_request("at://x", "did:plc:a"), FeedRoute::Unsupported);
    assert_eq!(seen_posts_step(true, 30, false), SeenPostsStep::InvalidateAll);
    assert_eq!(seen_posts_step(true, 1, true), SeenPostsStep::Nothing);
    assert!(follows_need_refresh(None, 0));
    let day: i128 = 24 * 3600 * 1_000_000_000;
    assert!(!follows_need_refresh(Some(0), day));
    assert!(follows_need_refresh(Some(0), day + 1));
}

#[test]
fn feed_queries_with_cursor() {
    let cfg = UserFeedPreference::default();
    let (q, rq) = user_feed_queries(&cfg, "'a'", "'a'", "me", Some("1697796000000::c"), 30).unwrap();
    assert!(q.ends_with(" ORDER BY \"indexedAt\" DESC, cid DESC LIMIT 30 ;"));
    assert!(q.contains("AND (\"indexedAt\" < '2023-10-20T10:00:00.230"));
    assert!(rq.contains("WHERE (\"indexedAt\" < '2023-10-20T10:00:00.230"));
    assert!(user_feed_queries(&cfg, "'a'", "'a'", "me", Some("bad"), 30).is_err());
    let m = mutuals_feed_query("me", None, 5).unwrap();
    assert!(m.ends_with("LIMIT 5"));
}

#[test]
fn well_known_document() {
    let w = well_known("feed.example", "did:web:feed.example".to_string()).unwrap();
    assert_eq!(w.service[0].service_endpoint, "https://feed.example");
    assert_eq!(w.service[0].type_, "BskyFeedGenerator");
    let e = well_known("feed.example", "nope".to_string()).unwrap_err();
    assert_eq!(e.message.as_deref(), Some("Not Found"));
}

#[test]
fn test_usage_stats_default() {
    let stats = UsageStats::default();
    assert_eq!(stats.total_visits, 0);
    assert_eq!(stats.unique_visitors, 0);
    assert_eq!(stats.weekly_unique_visitors, 0);
}

#[test]
fn test_internal_error_code_display() {
    assert_eq!(InternalErrorCode::NoInternalError.display_text(), "no_internal_error");
    assert_eq!(InternalErrorCode::InternalError.display_text(), "internal_error");
    assert_eq!(InternalErrorCode::DataLoss.display_text(), "data_loss");
}

#[test]
fn test_internal_error_message_response_default() {
    let resp = InternalErrorMessageResponse::new();
    assert_eq!(resp.code, None);
    assert_eq!(resp.message, None);
}

#[test]
fn test_validation_error_message_response_default() {
    let resp = ValidationErrorMessageResponse::new();
    assert_eq!(resp.code, None);
    assert_eq!(resp.message, None);
}

#[test]
fn test_validation_error_message_response_display() {
    let resp = ValidationErrorMessageResponse {
        code: Some(ErrorCode::ValidationError),
        message: Some("invalid input".to_string()),
    };
    assert_eq!(resp.display_text(), "validation_error: invalid input");
}

#[test]
fn test_validation_error_message_response_display_empty_message() {
    let resp = ValidationErrorMessageResponse::new();
    assert_eq!(resp.display_text(), "validation_error: ");
}

#[test]
fn test_verify_jwt_invalid_alg() {
    let header = r#"{"typ":"JWT","alg":"RS256"}"#.to_string();
    let payload = r#"{"iss":"did:example:alice","aud":"did:example:feedGenerator","exp":9999999999}"#.to_string();
    let jwt = format!("{}.{}.sig", b64std(&header), b64std(&payload));
    let seg = split_jwt(&jwt).unwrap();
    let text = header_json(&seg).unwrap();
    let parsed: serde_json::Value = serde_json::from_str(&text).unwrap();
    let err = check_alg(parsed["alg"].as_str().unwrap()).unwrap_err();
    assert_eq!(err.message(), "unsupported algorithm: RS256");
}

#[test]
fn test_verify_jwt_hs256_success() {
    let secret = "test-secret";
    let header = r#"{"typ":"JWT","alg":"HS256"}"#.to_string();
    let payload = r#"{"iss":"did:example:alice","aud":"did:example:feedGenerator","exp":4000000000}"#.to_string();
    let message = format!("{}.{}", b64std(&header), b64std(&payload));
    let mut mac = hmac::Hmac::<sha2::Sha256>::new_from_slice(secret.as_bytes()).unwrap();
    mac.update(message.as_bytes());
    let sig = base64::engine::general_purpose::STANDARD_NO_PAD.encode(mac.finalize().into_bytes());
    let jwt = format!("{}.{}", message, sig);

    let seg = split_jwt(&jwt).unwrap();
    let h: serde_json::Value = serde_json::from_str(&header_json(&seg).unwrap()).unwrap();
    check_alg(h["alg"].as_str().unwrap()).unwrap();
    let p: serde_json::Value = serde_json::from_str(&payload_json(&seg).unwrap()).unwrap();
    let claims = JwtParts {
        iss: p["iss"].as_str().unwrap().to_string(),
        aud: p["aud"].as_str().unwrap().to_string(),
        exp: p["exp"].as_u64().unwrap() as u128,
    };
    check_claims(&claims, "did:example:feedGenerator", 1000).unwrap();
    assert_eq!(check_claims(&claims, "did:other", 1000).unwrap_err().message(), "jwt audience does not match service did");
    assert_eq!(check_claims(&claims, "did:example:feedGenerator", 4000000001).unwrap_err().message(), "jwt expired");
    let input = signing_input(&seg);
    let sig_bytes = decode_segment(&seg.signature).unwrap();
    check_hs_signature(secret, &input, &sig_bytes).unwrap();
    assert!(check_hs_signature("other", &input, &sig_bytes).is_err());
    assert_eq!(claims.iss, "did:example:alice");
}

#[test]
fn jwt_needs_three_parts() {
    assert!(split_jwt("a.b").is_none());
    assert!(split_jwt("a.b.c.d").is_none());
    let seg = split_jwt("a.b.c").unwrap();
    assert_eq!((seg.header.as_str(), seg.payload.as_str(), seg.signature.as_str()), ("a", "b", "c"));
    let seg = split_jwt("..").unwrap();
    assert_eq!(seg.header, "");
}

#[test]
fn test_api_key_extractor_success() {
    let result = check_api_key(Some("test-key"), &HeaderText::Text("test-key".to_string()));
    assert!(result.is_ok());
    assert_eq!(result.ok().unwrap().0, "test-key");
}

#[test]
fn test_api_key_extractor_missing_header() {
    let rej = check_api_key(Some("test-key"), &HeaderText::Absent).err().unwrap();
    assert_eq!(rej.status, 401);
    assert_eq!(rej.body.message.unwrap(), "Missing API Key");
}

#[test]
fn test_api_key_extractor_invalid_key() {
    let rej = check_api_key(Some("test-key"), &HeaderText::Text("wrong-key".to_string())).err().unwrap();
    assert_eq!(rej.status, 401);
    assert_eq!(rej.body.message.unwrap(), "Invalid API Key");
}

#[test]
fn test_api_key_extractor_not_configured() {
    let rej = check_api_key(None, &HeaderText::Text("test-key".to_string())).err().unwrap();
    assert_eq!(rej.status, 400);
    assert_eq!(rej.body.message.unwrap(), "API Key not configured");
}

#[test]
fn test_access_token_missing_header() {
    let rej = bearer_token(&HeaderText::Absent).err().unwrap();
    assert_eq!(rej.status, 401);
    assert_eq!(rej.body.message.unwrap(), "Missing Authorization header");
}

#[test]
fn test_access_token_invalid_format() {
    let rej = bearer_token(&HeaderText::Text("NotBearer token".to_string())).err().unwrap();
    assert_eq!(rej.status, 401);
    assert_eq!(rej.body.message.unwrap(), "Invalid token format");
}

#[test]
fn test_optional_access_token_none_on_unauthorized() {
    let r = optional_access_token(bearer_token(&HeaderText::Absent).map(AccessToken));
    assert!(r.ok().unwrap().0.is_none());
    assert_eq!(bearer_token(&HeaderText::Text("Bearer abc.def".to_string())).ok().unwrap(), "abc.def");
}

#[test]
fn test_extract_did_from_id_token() {
    let header = r#"{"typ":"JWT","alg":"HS256"}"#.to_string();
    let payload = r#"{"sub":"did:plc:testuser123","iss":"https://bsky.social","aud":"http://localhost:8000/oauth/client-metadata.json","exp":9999999999,"iat":1000000000}"#.to_string();
    let id_token = format!("{}.{}.fakesignature", b64url(&header), b64url(&payload));
    let text = id_token_payload(&id_token).unwrap();
    let value: serde_json::Value = serde_json::from_str(&text).unwrap();
    assert_eq!(value["sub"].as_str().map(|s| s.to_string()), Some("did:plc:testuser123".to_string()));
}

#[test]
fn test_issue_session_token_and_extract() {
    let header = r#"{"typ":"JWT","alg":"HS256"}"#.to_string();
    let payload = r#"{"sub":"did:plc:testuser","iat":1,"exp":86401}"#.to_string();
    let token = session_token(&header, &payload, "test-secret");
    assert!(token.split('.').count() == 3);
    let text = session_payload(&token, Some("test-secret")).ok().unwrap();
    let value: serde_json::Value = serde_json::from_str(&text).unwrap();
    assert_eq!(value["sub"], "did:plc:testuser");
    assert!(value["exp"].as_u64().unwrap() > 0);
    assert!(session_payload(&token, Some("other-secret")).is_err());
    assert!(session_payload(&token, None).is_err());
}

#[test]
fn oauth_urls() {
    assert_eq!(client_id("localhost:8000"), "http://localhost:8000/oauth/client-metadata.json");
    assert_eq!(redirect_uri("feed.example"), "https://feed.example/auth/bluesky/callback");
    assert_eq!(
        authorize_url("https://pds", "cid", "ruri", "st"),
        "https://pds/oauth/authorize?client_id=cid&redirect_uri=ruri&response_type=code&scope=atproto&state=st"
    );
    assert!(issuer_matches("https://pds.example//", "https://pds.example"));
    assert!(!issuer_matches("https://pds.example", "https://other.example"));
}

#[test]
fn cursor_range_check() {
    assert!(cursor_in_range("1730000000000::bafy"));
    assert!(cursor_in_range("no separator"));
    assert!(cursor_in_range("abc::bafy"));
    assert!(cursor_in_range("-8334601228800000::c"));
    assert!(!cursor_in_range("-8334601228801000::c"));
    assert!(cursor_in_range("8210266876799999::c"));
    assert!(!cursor_in_range("8210266876800000::c"));
    assert!(!cursor_in_range("9223372036854775807::c"));
    for edge in ["-8334601228800000::c", "-8334601228800999::c", "8210266876799999::c"] {
        let mut q = String::from("select 1");
        assert!(apply_cursor_to_single_query(edge, &mut q).is_ok());
        assert!(q.starts_with("select 1 AND (\"indexedAt\" < '"));
        assert!(q.len() > "select 1 AND (\"indexedAt\" < '')".len());
    }
}

#[test]
fn page_keeps_first_rows() {
    let rows = vec![timed_post("p1", None), timed_post("p2", None), timed_post("p3", None)];
    let uris = |v: Vec<Post>| v.iter().map(|p| p.uri.clone()).collect::<Vec<String>>();
    assert_eq!(uris(page_rows(rows.clone(), 2)), vec!["p1", "p2"]);
    assert_eq!(uris(page_rows(rows.clone(), 0)), Vec::<String>::new());
    assert_eq!(uris(page_rows(rows.clone(), 5)), vec!["p1", "p2", "p3"]);
    assert_eq!(uris(page_rows(rows, -3)), vec!["p1", "p2", "p3"]);
}

#[test]
fn signature_check_orders_its_checks() {
    let token = format!("{}.{}.{}", b64url("{\"alg\":\"HS256\"}"), b64url("{}"), b64url("sig"));
    let seg = split_jwt(&token).unwrap();
    let claims = |iss: &str, aud: &str, exp: u128| JwtParts { iss: iss.to_string(), aud: aud.to_string(), exp };
    let service = "did:example:feedGenerator";
    assert!(matches!(
        signature_check(&seg, JwtAlg::Hs256, &claims("did:plc:a", service, 99), service, 100),
        Err(JwtError::Expired)
    ));
    assert!(matches!(
        signature_check(&seg, JwtAlg::Hs256, &claims("did:plc:a", "did:other", 100), service, 100),
        Err(JwtError::AudienceMismatch)
    ));
    match signature_check(&seg, JwtAlg::Hs256, &claims("did:plc:a", service, 100), service, 100) {
        Ok(SignatureCheck::Hs { input, sig }) => {
            assert_eq!(input, signing_input(&seg));
            assert_eq!(sig, b"sig".to_vec());
        }
        _ => panic!("expected an HS256 check"),
    }
    match signature_check(&seg, JwtAlg::Es256k, &claims("did:key:zQ3sh", service, 100), service, 100) {
        Ok(SignatureCheck::Es { key: KeySource::DidKey(k), .. }) => assert_eq!(k, "did:key:zQ3sh"),
        _ => panic!("expected a did:key check"),
    }
    match signature_check(&seg, JwtAlg::Es256, &claims("did:plc:a", service, 100), service, 100) {
        Ok(SignatureCheck::Es { key: KeySource::Resolve(d), .. }) => assert_eq!(d, "did:plc:a"),
        _ => panic!("expected a resolved key"),
    }
    let bad = split_jwt(&format!("{}.{}.%%%", b64url("{}"), b64url("{}"))).unwrap();
    assert!(matches!(
        signature_check(&bad, JwtAlg::Hs256, &claims("did:plc:a", service, 100), service, 100),
        Err(JwtError::DecodeSignature)
    ));
}
