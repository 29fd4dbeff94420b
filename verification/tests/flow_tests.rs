use following_feed::crypto::did::{format_did_key, format_multikey, parse_did_key, parse_multikey};
use following_feed::crypto::multibase::multibase_to_bytes;
use following_feed::crypto::{p256, secp256k1};
use following_feed::feedgen::auth::{
    jwt_verdict, session_claims, session_payload, session_token, JwtError, KeySource, SignatureCheck,
    SESSION_LIFETIME_SECS,
};
use following_feed::feedgen::cursor::{CHRONO_MAX_SECS, CHRONO_MIN_SECS};
use following_feed::feedgen::feed::{follow_refresh_action, no_follows_page, user_feed_rows, FollowRefreshAction};
use following_feed::feedgen::follows::{FollowListing, ListedRecord};
use following_feed::feedgen::models::{JwtParts, Post};
use following_feed::feedgen::oauth_state::OAuthStates;
use following_feed::identity::atproto_data::{get_did_key_from_multibase, VerificationMaterial};
use following_feed::identity::cache::DidCache;
use following_feed::identity::types::DidDocument;
use following_feed::janitor::{backfill_update, next_cleanup, BackfillState};

use base64::Engine;

fn b64url(s: &str) -> String {
    base64::engine::general_purpose::URL_SAFE_NO_PAD.encode(s)
}

fn claims(iss: &str, aud: &str, exp: u128) -> JwtParts {
    JwtParts { iss: iss.to_string(), aud: aud.to_string(), exp }
}

fn token(sig: &str) -> (String, String, String) {
    let h = b64url("{\"alg\":\"HS256\",\"typ\":\"JWT\"}");
    let p = b64url("{\"iss\":\"did:plc:a\",\"aud\":\"did:web:feed\",\"exp\":200}");
    let t = format!("{}.{}.{}", h, p, sig);
    (t, h, p)
}

#[test]
fn jwt_verdict_reports_the_first_failing_check() {
    let service = "did:web:feed";
    let sig = b64url("signature");
    let (jwt, _, _) = token(&sig);
    let c = claims("did:plc:a", service, 200);

    assert!(matches!(jwt_verdict("a.b", Some("HS256"), Some(&c), Some(100), service), Err(JwtError::PoorlyFormatted)));
    let bad_header = format!("!!!.{}.{}", b64url("{}"), sig);
    assert!(matches!(jwt_verdict(&bad_header, Some("HS256"), Some(&c), Some(100), service), Err(JwtError::DecodeHeader)));
    assert!(matches!(jwt_verdict(&jwt, None, Some(&c), Some(100), service), Err(JwtError::ParseHeader)));
    match jwt_verdict(&jwt, Some("RS256"), Some(&c), Some(100), service) {
        Err(JwtError::UnsupportedAlgorithm(a)) => assert_eq!(a, "RS256"),
        _ => panic!("expected an unsupported algorithm"),
    }
    let bad_payload = format!("{}.!!!.{}", b64url("{}"), sig);
    assert!(matches!(jwt_verdict(&bad_payload, Some("HS256"), Some(&c), Some(100), service), Err(JwtError::DecodePayload)));
    assert!(matches!(jwt_verdict(&jwt, Some("HS256"), None, Some(100), service), Err(JwtError::ParsePayload)));
    assert!(matches!(jwt_verdict(&jwt, Some("HS256"), Some(&c), None, service), Err(JwtError::ClockBeforeEpoch)));
    assert!(matches!(jwt_verdict(&jwt, Some("HS256"), Some(&c), Some(201), service), Err(JwtError::Expired)));
    assert!(matches!(
        jwt_verdict(&jwt, Some("HS256"), Some(&claims("did:plc:a", "did:web:other", 200)), Some(100), service),
        Err(JwtError::AudienceMismatch)
    ));
    let (bad_sig, _, _) = token("!!!");
    assert!(matches!(jwt_verdict(&bad_sig, Some("HS256"), Some(&c), Some(100), service), Err(JwtError::DecodeSignature)));
}

#[test]
fn jwt_verdict_accepts_when_every_check_passes() {
    let service = "did:web:feed";
    let sig = b64url("signature");
    let (jwt, h, p) = token(&sig);
    match jwt_verdict(&jwt, Some("HS256"), Some(&claims("did:plc:a", service, 200)), Some(200), service) {
        Ok(SignatureCheck::Hs { input, sig }) => {
            assert_eq!(input, format!("{}.{}", h, p));
            assert_eq!(sig, b"signature".to_vec());
        },
        _ => panic!("expected an HS256 check"),
    }
    match jwt_verdict(&jwt, Some("ES256K"), Some(&claims("did:key:zQ3abc", service, 200)), Some(0), service) {
        Ok(SignatureCheck::Es { key: KeySource::DidKey(k), input, .. }) => {
            assert_eq!(k, "did:key:zQ3abc");
            assert_eq!(input, format!("{}.{}", h, p));
        },
        _ => panic!("expected an ES256K check with a did:key"),
    }
    match jwt_verdict(&jwt, Some("ES256"), Some(&claims("did:plc:a", service, 200)), Some(0), service) {
        Ok(SignatureCheck::Es { key: KeySource::Resolve(d), .. }) => assert_eq!(d, "did:plc:a"),
        _ => panic!("expected an ES256 check through the resolver"),
    }
}

#[test]
fn session_claims_expire_a_day_later() {
    let c = session_claims("did:plc:alice", 1_700_000_000);
    assert_eq!(c.sub, "did:plc:alice");
    assert_eq!(c.iat, 1_700_000_000);
    assert_eq!(c.exp, 1_700_086_400);
    assert_eq!(SESSION_LIFETIME_SECS, 86400);
    let payload = format!("{{\"exp\":{},\"iat\":{},\"sub\":\"{}\"}}", c.exp, c.iat, c.sub);
    let header = "{\"alg\":\"HS256\",\"typ\":\"JWT\"}";
    let t = session_token(header, &payload, "k");
    assert_eq!(session_payload(&t, Some("k")).ok().unwrap(), payload);
    assert_eq!(t.split('.').count(), 3);
}

#[test]
fn oauth_state_is_redeemed_once() {
    let mut states = OAuthStates::new();
    states.insert("s1".to_string(), "did:plc:a".to_string(), "https://pds.a".to_string());
    states.insert("s2".to_string(), "did:plc:b".to_string(), "https://pds.b".to_string());
    assert!(states.take("unknown").is_none());
    let login = states.take("s1").unwrap();
    assert_eq!(login.did, "did:plc:a");
    assert_eq!(login.pds_url, "https://pds.a");
    assert!(states.take("s1").is_none());
    assert_eq!(states.take("s2").unwrap().pds_url, "https://pds.b");
}

#[test]
fn oauth_state_insert_replaces_the_same_state() {
    let mut states = OAuthStates::new();
    states.insert("s".to_string(), "did:plc:a".to_string(), "https://one".to_string());
    states.insert("s".to_string(), "did:plc:a".to_string(), "https://two".to_string());
    assert_eq!(states.take("s").unwrap().pds_url, "https://two");
    assert!(states.take("s").is_none());
}

fn doc(id: &str, aka: Option<Vec<String>>) -> DidDocument {
    DidDocument { context: None, id: id.to_string(), also_known_as: aka, verification_method: None, service: None }
}

#[test]
fn refresh_at_a_fixed_time() {
    let mut cache = DidCache::new(Some(10), Some(20));
    let did = "did:plc:t".to_string();
    cache.cache_did_at(did.clone(), doc(&did, None), 100);
    cache.refresh_cache_at(did.clone(), None, 150);
    let r = cache.check_cache_at(did.clone(), 150).unwrap();
    assert_eq!(r.updated_at, 100);
    assert!(r.expired);
    cache.refresh_cache_at(did.clone(), Some(doc(&did, Some(vec!["at://newhandle.com".to_string()]))), 150);
    let r = cache.check_cache_at(did.clone(), 150).unwrap();
    assert_eq!(r.updated_at, 150);
    assert!(!r.stale && !r.expired);
    assert_eq!(r.doc.also_known_as, Some(vec!["at://newhandle.com".to_string()]));
    assert!(cache.check_cache_at("did:plc:other".to_string(), 150).is_none());
    assert!(cache.check_cache("did:plc:other".to_string()).unwrap().is_none());
}

fn at(uri: &str, indexed_at: &str) -> Post {
    Post { uri: uri.to_string(), indexed_at: indexed_at.to_string(), ..Default::default() }
}

#[test]
fn user_feed_rows_merge_reposts_newest_first() {
    let posts = vec![at("p1", "2023-10-20T10:00:00.000000+00:00"), at("p2", "2023-10-20T08:00:00.000000+00:00")];
    let reposts = vec![at("r1", "2023-10-20T09:00:00.000000+00:00")];
    let plain = user_feed_rows(posts.clone(), reposts.clone(), false).unwrap();
    let uris: Vec<&str> = plain.iter().map(|p| p.uri.as_str()).collect();
    assert_eq!(uris, vec!["p1", "p2"]);
    let merged = user_feed_rows(posts.clone(), reposts, true).unwrap();
    let uris: Vec<&str> = merged.iter().map(|p| p.uri.as_str()).collect();
    assert_eq!(uris, vec!["p1", "r1", "p2"]);
    assert!(user_feed_rows(posts, vec![at("bad", "yesterday")], true).is_none());
}

#[test]
fn no_follows_page_is_empty() {
    let page = no_follows_page();
    assert!(page.cursor.is_none());
    assert!(page.feed.is_empty());
}

#[test]
fn next_cleanup_near_the_last_representable_second() {
    assert!(next_cleanup("0 0 * * * *", CHRONO_MAX_SECS - 1).is_none());
    assert!(next_cleanup("* * * * * *", CHRONO_MAX_SECS - 1).is_none());
}

#[test]
fn did_key_round_trip_keeps_the_uncompressed_key() {
    let secp = ::secp256k1::Secp256k1::new();
    let secret_key = ::secp256k1::SecretKey::from_byte_array(&[0xcd; 32]).unwrap();
    let public_key = ::secp256k1::PublicKey::from_secret_key(&secp, &secret_key);
    let uncompressed = public_key.serialize_uncompressed().to_vec();
    for key in [public_key.serialize().to_vec(), uncompressed.clone()] {
        let did = format_did_key("ES256K".to_string(), key).unwrap();
        let parsed = parse_did_key(&did).unwrap();
        assert_eq!(parsed.jwt_alg, "ES256K");
        assert_eq!(parsed.key_bytes, uncompressed);
        assert_eq!(parsed.key_bytes[0], 4);
    }
}

#[test]
fn multikey_type_gives_did_key_of_the_same_multikey() {
    let secp = ::secp256k1::Secp256k1::new();
    let secret_key = ::secp256k1::SecretKey::from_byte_array(&[0x11; 32]).unwrap();
    let public_key = ::secp256k1::PublicKey::from_secret_key(&secp, &secret_key);
    let mb = format_multikey("ES256K".to_string(), public_key.serialize().to_vec()).unwrap();
    let parsed = parse_multikey(mb.clone()).unwrap();
    assert_eq!(parsed.key_bytes.len(), 65);
    assert_eq!(parsed.key_bytes[0], 4);
    let d = get_did_key_from_multibase(VerificationMaterial { type_: "Multikey".to_string(), public_key_multibase: mb.clone() })
        .unwrap()
        .unwrap();
    assert_eq!(d, format!("did:key:{}", mb));
}

#[test]
fn crypto_errors_carry_the_outside_texts() {
    assert_eq!(multibase_to_bytes("".to_string()).unwrap_err().message(), "Invalid base string");
    assert_eq!(multibase_to_bytes("!abc".to_string()).unwrap_err().message(), "Unknown base code: !");
    assert_eq!(multibase_to_bytes("z0OIl".to_string()).unwrap_err().message(), "Invalid base string");
    assert_eq!(p256::compress_pubkey(vec![0u8; 65]).unwrap_err().message(), "signature error");
    assert_eq!(secp256k1::compress_pubkey(vec![0u8; 65]).unwrap_err().message(), "malformed public key");
    let secp = ::secp256k1::Secp256k1::new();
    let secret_key = ::secp256k1::SecretKey::from_byte_array(&[0xcd; 32]).unwrap();
    let key = ::secp256k1::PublicKey::from_secret_key(&secp, &secret_key).serialize();
    let msg = ::secp256k1::Message::from_digest([7u8; 32]);
    let sig = secp.sign_ecdsa(&msg, &secret_key).serialize_compact();
    assert_eq!(
        secp256k1::verify_sig(&key, &[7u8; 31], &sig, None).unwrap_err().message(),
        "message was not 32 bytes (do you need to hash?)"
    );
    assert_eq!(p256::verify_sig(&[0u8; 33], &[7u8; 32], &[1u8; 64], Some(following_feed::crypto::types::VerifyOptions { allow_malleable_sig: Some(true) })).unwrap_err().message(), "signature error");
}

#[test]
fn chrono_range_ends_match_the_cursor_bounds() {
    assert!(chrono::DateTime::from_timestamp(CHRONO_MIN_SECS, 0).is_some());
    assert!(chrono::DateTime::from_timestamp(CHRONO_MIN_SECS - 1, 0).is_none());
    assert!(chrono::DateTime::from_timestamp(CHRONO_MAX_SECS, 0).is_some());
    assert!(chrono::DateTime::from_timestamp(CHRONO_MAX_SECS + 1, 0).is_none());
}

#[test]
fn p256_compact_point_recompresses_to_a_tagged_point() {
    let raw = vec![
        0x04, 0x6b, 0x17, 0xd1, 0xf2, 0xe1, 0x2c, 0x42, 0x47, 0xf8, 0xbc, 0xe6, 0xe5, 0x63,
        0xa4, 0x40, 0xf2, 0x77, 0x03, 0x7d, 0x81, 0x2d, 0xeb, 0x33, 0xa0, 0xf4, 0xa1, 0x39,
        0x45, 0xd8, 0x98, 0xc2, 0x96, 0x4f, 0xe3, 0x42, 0xe2, 0xfe, 0x1a, 0x7f, 0x9b, 0x8e,
        0xe7, 0xeb, 0x4a, 0x7c, 0x0f, 0x9e, 0x16, 0x2b, 0xce, 0x33, 0x57, 0x6b, 0x31, 0x5e,
        0xce, 0xcb, 0xb6, 0x40, 0x68, 0x37, 0xbf, 0x51, 0xf5,
    ];
    let compressed = p256::compress_pubkey(raw.clone()).unwrap();
    assert!(compressed[0] == 2 || compressed[0] == 3);
    assert_eq!(p256::decompress_pubkey(compressed.clone()).unwrap(), raw);
    let mut compact = vec![0x05u8];
    compact.extend_from_slice(&raw[1..33]);
    if let Ok(u) = p256::decompress_pubkey(compact.clone()) {
        let again = p256::compress_pubkey(u).unwrap();
        assert!(again[0] == 2 || again[0] == 3);
        assert_ne!(again, compact);
    }
}

#[test]
fn follow_listing_pages_until_no_cursor() {
    let rec = |uri: &str| ListedRecord {
        uri: uri.to_string(),
        cid: "c".to_string(),
        record_type: None,
        subject: None,
        created_at: None,
    };
    let mut listing = FollowListing::new();
    assert_eq!(listing.next_request(), Some(None));
    listing.absorb(Some((vec![rec("a")], Some("next".to_string()))));
    assert_eq!(listing.next_request(), Some(Some("next".to_string())));
    listing.absorb(Some((vec![rec("b"), rec("c")], None)));
    assert_eq!(listing.next_request(), None);
    let uris: Vec<&str> = listing.records.iter().map(|r| r.uri.as_str()).collect();
    assert_eq!(uris, vec!["a", "b", "c"]);
    let mut failed = FollowListing::new();
    failed.absorb(Some((vec![rec("a")], Some("next".to_string()))));
    failed.absorb(None);
    assert_eq!(failed.next_request(), None);
    assert_eq!(failed.records.len(), 1);
}

#[test]
fn follow_refresh_follows_the_day_rule() {
    let day: i128 = 24 * 3600 * 1_000_000_000;
    let now: i128 = 1_700_000_000 * 1_000_000_000;
    assert_eq!(follow_refresh_action(0, None, now), FollowRefreshAction::FetchFromPds);
    assert_eq!(follow_refresh_action(0, Some(Some(now)), now), FollowRefreshAction::FetchFromPds);
    assert_eq!(follow_refresh_action(3, None, now), FollowRefreshAction::ReadLastRefresh);
    assert_eq!(follow_refresh_action(3, Some(None), now), FollowRefreshAction::Reconcile);
    assert_eq!(follow_refresh_action(3, Some(Some(now - day - 1)), now), FollowRefreshAction::Reconcile);
    assert_eq!(follow_refresh_action(3, Some(Some(now - day)), now), FollowRefreshAction::KeepCached);
}

#[test]
fn backfill_success_at_the_largest_attempt_count() {
    let done = backfill_update(true, i32::MAX);
    assert_eq!(done.state, BackfillState::Completed);
    assert!(done.attempts.is_none());
}
