use std::time::Duration;

use following_feed::identity::atproto_data::{get_atproto_data, get_did_key_from_multibase, VerificationMaterial};
use following_feed::identity::cache::DidCache;
use following_feed::identity::common::{decode_uri_component, encode_uri_component};
use following_feed::identity::did_resolver::did_document_url;
use following_feed::identity::errors::Error;
use following_feed::identity::handle::{parse_well_known_body, HandleResolver};
use following_feed::identity::types::{DidDocument, HandleResolverOpts, Service, VerificationMethod};

fn resolver() -> HandleResolver {
    HandleResolver::new(HandleResolverOpts { timeout_ms: Some(3000), backup_nameservers: None })
}

fn doc(id: &str, aka: Option<Vec<String>>) -> DidDocument {
    DidDocument { context: None, id: id.to_string(), also_known_as: aka, verification_method: None, service: None }
}

#[test]
fn test_get_did_key_from_multibase_unsupported_type() {
    let material = VerificationMaterial {
        type_: "SomeUnsupportedKeyType".to_string(),
        public_key_multibase: "z".to_string(),
    };
    let result = get_did_key_from_multibase(material);
    assert!(result.is_ok());
    assert!(result.unwrap().is_none());
}

#[test]
fn test_get_did_key_from_multibase_invalid_multibase() {
    let material = VerificationMaterial {
        type_: "EcdsaSecp256k1VerificationKey2019".to_string(),
        public_key_multibase: "invalid!".to_string(),
    };
    let result = get_did_key_from_multibase(material);
    assert!(result.is_err());
}

#[test]
fn test_get_atproto_data_missing_handle() {
    let result = get_atproto_data(doc("did:plc:test", None));
    assert!(result.is_err());
    assert!(result.unwrap_err().message().contains("No handle"));
}

#[test]
fn test_get_atproto_data_missing_services_and_key() {
    let result = get_atproto_data(doc("did:plc:test", Some(vec!["at://alice.com".to_string()])));
    assert!(result.is_err());
    let err = result.unwrap_err().message();
    assert!(err.contains("No signing key") || err.contains("No PDS endpoint"));
}

#[test]
fn test_get_atproto_data_missing_verification_method() {
    let mut d = doc("did:plc:test", Some(vec!["at://alice.com".to_string()]));
    d.service = Some(vec![Service {
        id: "#pds".to_string(),
        type_: "AtprotoPersonalDataServer".to_string(),
        service_endpoint: "https://pds.example.com".to_string(),
    }]);
    let result = get_atproto_data(d);
    assert!(result.is_err());
    assert!(result.unwrap_err().message().contains("No signing key"));
}

#[test]
fn test_get_atproto_data_handle_without_at_prefix() {
    let result = get_atproto_data(doc("did:plc:test", Some(vec!["alice.com".to_string()])));
    assert!(result.is_err());
    let err = result.unwrap_err().message();
    assert!(err.contains("No PDS endpoint") || err.contains("No signing key"));
}

#[test]
fn test_get_did_key_from_multibase_empty_multibase() {
    let material = VerificationMaterial {
        type_: "EcdsaSecp256k1VerificationKey2019".to_string(),
        public_key_multibase: "".to_string(),
    };
    let result = get_did_key_from_multibase(material);
    assert!(result.is_err());
}

#[test]
fn atproto_data_of_a_complete_document() {
    let secp = ::secp256k1::Secp256k1::new();
    let sk = ::secp256k1::SecretKey::from_byte_array(&[0xcd; 32]).unwrap();
    let pk = ::secp256k1::PublicKey::from_secret_key(&secp, &sk);
    let mut prefixed = vec![0xe7u8, 0x01];
    prefixed.extend_from_slice(&pk.serialize());
    let multikey = ::multibase::encode(::multibase::Base::Base58Btc, prefixed);
    let mut d = doc("did:plc:alice", Some(vec!["at://at://alice.test".to_string(), "at://other".to_string()]));
    d.service = Some(vec![
        Service { id: "#x".to_string(), type_: "Other".to_string(), service_endpoint: "https://no".to_string() },
        Service { id: "#pds".to_string(), type_: "AtprotoPersonalDataServer".to_string(), service_endpoint: "https://pds.one".to_string() },
        Service { id: "#pds2".to_string(), type_: "AtprotoPersonalDataServer".to_string(), service_endpoint: "https://pds.two".to_string() },
    ]);
    d.verification_method = Some(vec![VerificationMethod {
        id: "did:plc:alice#atproto".to_string(),
        type_: "Multikey".to_string(),
        controller: "did:plc:alice".to_string(),
        public_key_multibase: Some(multikey.clone()),
    }]);
    let data = get_atproto_data(d).unwrap();
    assert_eq!(data.did, "did:plc:alice");
    assert_eq!(data.handle, "alice.test");
    assert_eq!(data.pds, "https://pds.one");
    assert_eq!(data.signing_key, format!("did:key:{}", multikey));
}

#[test]
fn test_did_not_found_error_display() {
    let err = Error::DidNotFoundError("did:plc:test123".to_string());
    assert_eq!(err.message(), "Could not resolve DID: `did:plc:test123`");
}

#[test]
fn test_poorly_formatted_did_error_display() {
    let err = Error::PoorlyFormattedDidError("invalid".to_string());
    assert_eq!(err.message(), "Poorly formatted DID: `invalid`");
}

#[test]
fn test_unsupported_did_method_error_display() {
    let err = Error::UnsupportedDidMethodError("did:eth:123".to_string());
    assert_eq!(err.message(), "Unsupported DID method: `did:eth:123`");
}

#[test]
fn test_unsupported_did_web_path_error_display() {
    let err = Error::UnsupportedDidWebPathError("did:web:example.com:path".to_string());
    assert_eq!(err.message(), "Unsupported did:web paths: `did:web:example.com:path`");
}

#[test]
fn test_error_is_debug() {
    let err = Error::DidNotFoundError("test".to_string());
    let debug = format!("{:?}", err);
    assert!(debug.contains("DidNotFoundError"));
}

#[test]
fn test_encode_uri_component() {
    assert_eq!(encode_uri_component("hello world"), "hello%20world");
}

#[test]
fn test_encode_uri_component_special_chars() {
    assert_eq!(encode_uri_component("a=b&c=d"), "a%3Db%26c%3Dd");
}

#[test]
fn test_encode_uri_component_already_encoded() {
    assert_eq!(encode_uri_component("hello%20world"), "hello%2520world");
}

#[test]
fn test_decode_uri_component() {
    assert_eq!(decode_uri_component("hello%20world").unwrap(), "hello world");
}

#[test]
fn test_decode_uri_component_multiple() {
    assert_eq!(decode_uri_component("a%3Db%26c%3Dd").unwrap(), "a=b&c=d");
}

#[test]
fn test_decode_uri_component_no_encoding() {
    assert_eq!(decode_uri_component("plaintext").unwrap(), "plaintext");
}

#[test]
fn test_decode_uri_component_empty() {
    assert_eq!(decode_uri_component("").unwrap(), "");
}

#[test]
fn test_encode_decode_roundtrip() {
    let original = "some text with spaces & special chars = test?";
    let encoded = encode_uri_component(original);
    let decoded = decode_uri_component(&encoded).unwrap();
    assert_eq!(original, decoded);
}

#[test]
fn decode_uri_component_refuses_invalid_utf8() {
    assert!(decode_uri_component("%FF").is_err());
}

#[test]
fn test_parse_dns_result_single_match() {
    let result = resolver().parse_dns_result(vec!["did=did:plc:test123".to_string()]);
    assert_eq!(result, Some("did:plc:test123".to_string()));
}

#[test]
fn test_parse_dns_result_no_match() {
    let result = resolver().parse_dns_result(vec!["some=other".to_string()]);
    assert_eq!(result, None);
}

#[test]
fn test_parse_dns_result_multiple_matches() {
    let results = vec!["did=did:plc:first".to_string(), "did=did:plc:second".to_string()];
    assert_eq!(resolver().parse_dns_result(results), None);
}

#[test]
fn test_parse_dns_result_empty_list() {
    let results: Vec<String> = vec![];
    assert_eq!(resolver().parse_dns_result(results), None);
}

#[test]
fn test_parse_dns_result_did_without_prefix() {
    let result = resolver().parse_dns_result(vec!["not-starting-with-prefix".to_string()]);
    assert_eq!(result, None);
}

#[test]
fn test_parse_dns_result_mixed_results() {
    let results = vec![
        "some=other".to_string(),
        "did=did:plc:the-one".to_string(),
        "another=record".to_string(),
    ];
    assert_eq!(resolver().parse_dns_result(results), Some("did:plc:the-one".to_string()));
}

#[test]
fn test_parse_dns_result_empty_string_entries() {
    let results = vec!["".to_string(), "did=did:plc:valid".to_string()];
    assert_eq!(resolver().parse_dns_result(results), Some("did:plc:valid".to_string()));
}

#[test]
fn handle_resolver_default_timeout() {
    let r = HandleResolver::new(HandleResolverOpts { timeout_ms: None, backup_nameservers: None });
    assert_eq!(r.timeout_ms, 3000);
}

#[test]
fn well_known_body_first_line_trimmed() {
    assert_eq!(parse_well_known_body("  did:plc:abc \r\nmore"), Some("did:plc:abc".to_string()));
    assert_eq!(parse_well_known_body("\u{3000}did:web:x.test"), Some("did:web:x.test".to_string()));
    assert_eq!(parse_well_known_body("not a did\ndid:plc:abc"), None);
    assert_eq!(parse_well_known_body(""), None);
}

#[test]
fn test_did_cache_new() {
    let cache = DidCache::new(None, None);
    assert_eq!(cache.stale_ttl, Duration::new(3_600_000, 0).as_micros());
    assert_eq!(cache.max_ttl, Duration::new(86_400_000, 0).as_micros());
}

#[test]
fn test_did_cache_new_custom_ttl() {
    let cache = DidCache::new(Some(Duration::new(60, 0).as_micros()), Some(Duration::new(600, 0).as_micros()));
    assert_eq!(cache.stale_ttl, Duration::new(60, 0).as_micros());
    assert_eq!(cache.max_ttl, Duration::new(600, 0).as_micros());
}

#[test]
fn test_did_cache_cache_and_check() {
    let mut cache = DidCache::new(Some(Duration::new(3600, 0).as_micros()), Some(Duration::new(86400, 0).as_micros()));
    let did = "did:plc:test123".to_string();
    let d = DidDocument {
        context: Some(vec!["https://www.w3.org/ns/did/v1".to_string()]),
        id: did.clone(),
        also_known_as: Some(vec!["at://alice.com".to_string()]),
        verification_method: None,
        service: None,
    };
    cache.cache_did(did.clone(), d).unwrap();
    let result = cache.check_cache(did.clone()).unwrap();
    assert!(result.is_some());
    let cached = result.unwrap();
    assert_eq!(cached.did, did);
    assert_eq!(cached.doc.id, "did:plc:test123");
    assert!(!cached.expired);
}

#[test]
fn test_did_cache_check_missing() {
    let cache = DidCache::new(None, None);
    let result = cache.check_cache("did:plc:nonexistent".to_string()).unwrap();
    assert!(result.is_none());
}

#[test]
fn test_did_cache_clear_entry() {
    let mut cache = DidCache::new(None, None);
    cache.cache_did("did:plc:test1".to_string(), doc("did:plc:test1", None)).unwrap();
    cache.cache_did("did:plc:test2".to_string(), doc("did:plc:test2", None)).unwrap();
    assert!(cache.check_cache("did:plc:test1".to_string()).unwrap().is_some());
    cache.clear_entry("did:plc:test1".to_string());
    assert!(cache.check_cache("did:plc:test1".to_string()).unwrap().is_none());
    assert!(cache.check_cache("did:plc:test2".to_string()).unwrap().is_some());
}

#[test]
fn test_did_cache_clear_all() {
    let mut cache = DidCache::new(None, None);
    cache.cache_did("did:plc:a".to_string(), doc("did:plc:a", None)).unwrap();
    cache.cache_did("did:plc:b".to_string(), doc("did:plc:b", None)).unwrap();
    cache.clear();
    assert!(cache.check_cache("did:plc:a".to_string()).unwrap().is_none());
    assert!(cache.check_cache("did:plc:b".to_string()).unwrap().is_none());
}

#[test]
fn test_did_cache_refresh() {
    let mut cache = DidCache::new(None, None);
    let did = "did:plc:test".to_string();
    cache.cache_did(did.clone(), doc(&did, None)).unwrap();
    let fetched = Some(doc("did:plc:test", Some(vec!["at://newhandle.com".to_string()])));
    cache.refresh_cache(did.clone(), fetched).unwrap();
    let result = cache.check_cache(did.clone()).unwrap().unwrap();
    assert_eq!(result.doc.also_known_as, Some(vec!["at://newhandle.com".to_string()]));
}

#[test]
fn test_did_cache_refresh_none() {
    let mut cache = DidCache::new(None, None);
    let did = "did:plc:test".to_string();
    cache.cache_did(did.clone(), doc(&did, None)).unwrap();
    cache.refresh_cache(did.clone(), None).unwrap();
    assert!(cache.check_cache(did.clone()).unwrap().is_some());
}

#[test]
fn test_did_cache_expiry() {
    let mut cache = DidCache::new(Some(Duration::from_secs(0).as_micros()), Some(Duration::from_secs(0).as_micros()));
    cache.cache_did("did:plc:expired".to_string(), doc("did:plc:expired", None)).unwrap();
    let start = std::time::Instant::now();
    while start.elapsed() < Duration::from_millis(2) {}
    let result = cache.check_cache("did:plc:expired".to_string()).unwrap().unwrap();
    assert!(result.stale);
    assert!(result.expired);
}

#[test]
fn cache_lookup_at_fixed_times() {
    let mut cache = DidCache::new(Some(10), Some(20));
    cache.cache_did_at("did:plc:t".to_string(), doc("did:plc:t", None), 100);
    let r = cache.check_cache_at("did:plc:t".to_string(), 110).unwrap();
    assert_eq!(r.updated_at, 100);
    assert!(!r.stale && !r.expired);
    let r = cache.check_cache_at("did:plc:t".to_string(), 111).unwrap();
    assert!(r.stale && !r.expired);
    let r = cache.check_cache_at("did:plc:t".to_string(), 121).unwrap();
    assert!(r.stale && r.expired);
    cache.cache_did_at("did:plc:t".to_string(), doc("did:plc:t", None), 200);
    let r = cache.check_cache_at("did:plc:t".to_string(), 205).unwrap();
    assert_eq!(r.updated_at, 200);
    assert!(!r.stale);
}

#[test]
fn cache_ages_near_u128_max_do_not_overflow() {
    let mut cache = DidCache::new(Some(u128::MAX), Some(u128::MAX));
    cache.cache_did_at("did:plc:t".to_string(), doc("did:plc:t", None), 5);
    let r = cache.check_cache_at("did:plc:t".to_string(), u128::MAX).unwrap();
    assert!(!r.stale && !r.expired);
}

#[test]
fn did_document_urls() {
    let plc = "https://plc.directory";
    assert_eq!(did_document_url("did:plc:abc123", plc).unwrap(), "https://plc.directory/did%3Aplc%3Aabc123");
    assert_eq!(did_document_url("did:web:example.com", plc).unwrap(), "https://example.com/.well-known/did.json");
    assert_eq!(
        did_document_url("did:web:localhost%3A2582", plc).unwrap(),
        "http://localhost:2582/.well-known/did.json"
    );
    assert!(matches!(did_document_url("did:web:example.com:user", plc), Err(Error::UnsupportedDidWebPathError(d)) if d == "did:web:example.com:user"));
    assert!(matches!(did_document_url("did:key:zQ3sh", plc), Err(Error::UnsupportedDidMethodError(d)) if d == "did:key:zQ3sh"));
    assert!(matches!(did_document_url("not-a-did", plc), Err(Error::PoorlyFormattedDidError(d)) if d == "not-a-did"));
    assert!(matches!(did_document_url("did:web:", plc), Err(Error::PoorlyFormattedDidError(_))));
    assert!(matches!(did_document_url("did:web:%FF", plc), Err(Error::PoorlyFormattedDidError(_))));
    assert_eq!(
        did_document_url("did:web:x.dev", plc).map_err(|e| e.message()),
        Ok("https://x.dev/.well-known/did.json".to_string())
    );
    assert_eq!(
        did_document_url("did:foo:bar", plc).map_err(|e| e.message()),
        Err("Unsupported DID method: `did:foo:bar`".to_string())
    );
}

fn bob_document(aka: Option<Vec<String>>) -> DidDocument {
    let secp = ::secp256k1::Secp256k1::new();
    let sk = ::secp256k1::SecretKey::from_byte_array(&[0xcd; 32]).unwrap();
    let pk = ::secp256k1::PublicKey::from_secret_key(&secp, &sk);
    let mut prefixed = vec![0xe7u8, 0x01];
    prefixed.extend_from_slice(&pk.serialize());
    let multikey = ::multibase::encode(::multibase::Base::Base58Btc, prefixed);
    let mut d = doc("did:plc:bob", aka);
    d.service = Some(vec![Service {
        id: "#pds".to_string(),
        type_: "AtprotoPersonalDataServer".to_string(),
        service_endpoint: "https://pds.bob".to_string(),
    }]);
    d.verification_method = Some(vec![
        VerificationMethod {
            id: "#atproto".to_string(),
            type_: "Multikey".to_string(),
            controller: "did:plc:bob".to_string(),
            public_key_multibase: None,
        },
        VerificationMethod {
            id: "did:plc:bob#atproto".to_string(),
            type_: "Multikey".to_string(),
            controller: "did:plc:bob".to_string(),
            public_key_multibase: Some(multikey),
        },
    ]);
    d
}

#[test]
fn first_atproto_method_decides_the_signing_key() {
    let d = bob_document(Some(vec!["at://bob.test".to_string()]));
    assert_eq!(get_atproto_data(d).unwrap_err().message(), "No signing key found");
    let d = bob_document(None);
    assert!(get_atproto_data(d).unwrap_err().message().contains("No handle"));
}

#[test]
fn decode_uri_component_keeps_incomplete_escapes() {
    assert_eq!(decode_uri_component("%G5").unwrap(), "%G5");
    assert_eq!(decode_uri_component("%41%zz%4").unwrap(), "A%zz%4");
    assert_eq!(decode_uri_component("%c3%a9%").unwrap(), "é%");
    assert!(decode_uri_component("%FF").is_err());
    assert_eq!(encode_uri_component("a b/é~"), "a%20b%2F%C3%A9~");
}
