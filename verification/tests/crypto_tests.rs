use following_feed::crypto::constants::{DID_KEY_PREFIX, P256_DID_PREFIX, SECP256K1_DID_PREFIX};
use following_feed::crypto::did::{format_did_key, format_multikey, parse_did_key, parse_multikey};
use following_feed::crypto::multibase::multibase_to_bytes;
use following_feed::crypto::utils::{extract_multikey, extract_prefixed_bytes, has_prefix};
use following_feed::crypto::verify::verify_signature;
use following_feed::crypto::{p256, secp256k1};

fn known_p256_uncompressed() -> Vec<u8> {
    vec![
        0x04, 0x6b, 0x17, 0xd1, 0xf2, 0xe1, 0x2c, 0x42, 0x47, 0xf8, 0xbc, 0xe6, 0xe5, 0x63,
        0xa4, 0x40, 0xf2, 0x77, 0x03, 0x7d, 0x81, 0x2d, 0xeb, 0x33, 0xa0, 0xf4, 0xa1, 0x39,
        0x45, 0xd8, 0x98, 0xc2, 0x96, 0x4f, 0xe3, 0x42, 0xe2, 0xfe, 0x1a, 0x7f, 0x9b, 0x8e,
        0xe7, 0xeb, 0x4a, 0x7c, 0x0f, 0x9e, 0x16, 0x2b, 0xce, 0x33, 0x57, 0x6b, 0x31, 0x5e,
        0xce, 0xcb, 0xb6, 0x40, 0x68, 0x37, 0xbf, 0x51, 0xf5,
    ]
}

fn known_secp256k1_uncompressed() -> Vec<u8> {
    let secp = ::secp256k1::Secp256k1::new();
    let secret_key = ::secp256k1::SecretKey::from_byte_array(&[0xcd; 32]).unwrap();
    let public_key = ::secp256k1::PublicKey::from_secret_key(&secp, &secret_key);
    public_key.serialize_uncompressed().to_vec()
}

#[test]
fn test_secp256k1_roundtrip() {
    let secp = ::secp256k1::Secp256k1::new();
    let secret_key = ::secp256k1::SecretKey::from_byte_array(&[0xcd; 32]).unwrap();
    let public_key = ::secp256k1::PublicKey::from_secret_key(&secp, &secret_key);
    let pubkey_bytes = public_key.serialize();
    assert_eq!(pubkey_bytes.len(), 33);

    let did = format_did_key("ES256K".to_string(), pubkey_bytes.to_vec()).unwrap();
    assert!(did.starts_with("did:key:z"));

    let result = parse_did_key(&did).unwrap();
    assert_eq!(result.jwt_alg, "ES256K");
    assert_eq!(result.key_bytes.len(), 65);
}

#[test]
fn test_p256_roundtrip() {
    let raw = known_p256_uncompressed();
    assert_eq!(raw.len(), 65);

    let did = format_did_key("ES256".to_string(), raw.to_vec()).unwrap();
    assert!(did.starts_with("did:key:z"));

    let result = parse_did_key(&did).unwrap();
    assert_eq!(result.jwt_alg, "ES256");
}

#[test]
fn test_parse_did_key_invalid_prefix() {
    let err = parse_did_key(&"did:web:example.com".to_string()).unwrap_err();
    assert!(err.message().contains("Incorrect prefix"));
}

#[test]
fn test_parse_did_key_empty_multikey() {
    let err = parse_did_key(&"did:key:".to_string()).unwrap_err();
    assert!(err.message().contains("Empty multikey"));
}

#[test]
fn test_format_did_key_unsupported_jwt_alg() {
    let err = format_did_key("UNSUPPORTED".to_string(), vec![0u8; 33]).unwrap_err();
    assert!(err.message().contains("Unsupported key type"));
}

#[test]
fn test_multibase_to_bytes_base58btc() {
    let encoded = ::multibase::encode(::multibase::Base::Base58Btc, vec![0x01, 0x02]);
    let result = multibase_to_bytes(encoded.clone()).unwrap();
    assert_eq!(result, vec![0x01, 0x02]);
}

#[test]
fn test_multibase_to_bytes_base16() {
    let result = multibase_to_bytes("f001122".to_string()).unwrap();
    assert_eq!(result, vec![0x00, 0x11, 0x22]);
}

#[test]
fn test_multibase_to_bytes_invalid() {
    let result = multibase_to_bytes("!!!invalid".to_string());
    assert!(result.is_err());
}

#[test]
fn test_multibase_to_bytes_empty() {
    let result = multibase_to_bytes("".to_string());
    assert!(result.is_err());
}

#[test]
fn encoding_test_compress_pubkey_length() {
    let uncompressed = known_p256_uncompressed();
    assert_eq!(uncompressed.len(), 65);
    let compressed = p256::compress_pubkey(uncompressed).unwrap();
    assert_eq!(compressed.len(), 33);

    let uncompressed = known_secp256k1_uncompressed();
    assert_eq!(uncompressed.len(), 65);
    let compressed = secp256k1::compress_pubkey(uncompressed).unwrap();
    assert_eq!(compressed.len(), 33);
}

#[test]
fn encoding_test_decompress_pubkey_length() {
    let uncompressed = known_p256_uncompressed();
    let compressed = p256::compress_pubkey(uncompressed.clone()).unwrap();
    assert_eq!(compressed.len(), 33);
    let decompressed = p256::decompress_pubkey(compressed).unwrap();
    assert_eq!(decompressed.len(), 65);

    let uncompressed = known_secp256k1_uncompressed();
    let compressed = secp256k1::compress_pubkey(uncompressed).unwrap();
    assert_eq!(compressed.len(), 33);
    let decompressed = secp256k1::decompress_pubkey(compressed).unwrap();
    assert_eq!(decompressed.len(), 65);
}

#[test]
fn encoding_test_compress_decompress_roundtrip() {
    let original = known_p256_uncompressed();
    let compressed = p256::compress_pubkey(original.clone()).unwrap();
    let decompressed = p256::decompress_pubkey(compressed).unwrap();
    assert_eq!(decompressed, original);

    let original = known_secp256k1_uncompressed();
    let compressed = secp256k1::compress_pubkey(original.clone()).unwrap();
    let decompressed = secp256k1::decompress_pubkey(compressed).unwrap();
    assert_eq!(decompressed, original);
}

#[test]
fn encoding_test_compress_pubkey_invalid_length() {
    assert!(p256::compress_pubkey(vec![0u8; 10]).is_err());
    assert!(secp256k1::compress_pubkey(vec![0u8; 10]).is_err());
}

#[test]
fn encoding_test_compress_pubkey_all_zeros() {
    assert!(p256::compress_pubkey(vec![0u8; 65]).is_err());
    assert!(secp256k1::compress_pubkey(vec![0u8; 65]).is_err());
}

#[test]
fn encoding_test_decompress_pubkey_wrong_length() {
    let result = p256::decompress_pubkey(vec![0u8; 32]);
    assert!(result.is_err());
    assert!(result.unwrap_err().message().contains("33 byte"));
    let result = p256::decompress_pubkey(vec![0u8; 34]);
    assert!(result.is_err());
    assert!(result.unwrap_err().message().contains("33 byte"));

    let result = secp256k1::decompress_pubkey(vec![0u8; 32]);
    assert!(result.is_err());
    assert!(result.unwrap_err().message().contains("33 byte"));
    let result = secp256k1::decompress_pubkey(vec![0u8; 34]);
    assert!(result.is_err());
    assert!(result.unwrap_err().message().contains("33 byte"));
}

#[test]
fn encoding_test_decompress_pubkey_empty() {
    assert!(p256::decompress_pubkey(vec![]).is_err());
    assert!(secp256k1::decompress_pubkey(vec![]).is_err());
}

#[test]
fn test_is_compact_format_parseable_only() {
    let sig = [0xabu8; 64];
    let _result = p256::is_compact_format(&sig);
}

#[test]
fn operations_test_is_compact_format_invalid_length() {
    assert!(!p256::is_compact_format(&[0u8; 32]));
    assert!(!p256::is_compact_format(&[0u8; 63]));
    assert!(!p256::is_compact_format(&[0u8; 65]));
    assert!(!p256::is_compact_format(&[]));

    assert!(!secp256k1::is_compact_format(&[0u8; 32]));
    assert!(!secp256k1::is_compact_format(&[0u8; 63]));
    assert!(!secp256k1::is_compact_format(&[0u8; 65]));
    assert!(!secp256k1::is_compact_format(&[]));
}

#[test]
fn test_is_compact_format_high_s_not_normalized() {
    let mut sig = [0xffu8; 64];
    sig[32] = 0x80;
    let result = p256::is_compact_format(&sig);
    let _ = result;
}

#[test]
fn operations_test_is_compact_format_random_bytes() {
    let sig = [0xabu8; 64];
    let result = p256::is_compact_format(&sig);
    let _ = result;

    let sig = [0xabu8; 64];
    let result = secp256k1::is_compact_format(&sig);
    assert!(result);
}

#[test]
fn operations_test_verify_sig_invalid_key() {
    let _result = p256::verify_sig(&[], b"data", b"sig", None);
    let _result = secp256k1::verify_sig(&[], b"data", b"sig", None);
}

#[test]
fn operations_test_verify_sig_invalid_key_length() {
    let _result = p256::verify_sig(&[0u8; 5], b"data", b"sig", None);
    let _result = secp256k1::verify_sig(&[0u8; 10], b"data", b"sig", None);
}

#[test]
fn operations_test_verify_did_sig_invalid_did() {
    let result = p256::verify_did_sig(&"not-a-did".to_string(), b"data", b"sig", None);
    assert!(result.is_err());
    let result = secp256k1::verify_did_sig(&"did:key:invalid".to_string(), b"data", b"sig", None);
    assert!(result.is_err());
}

#[test]
fn test_verify_did_sig_non_p256_did() {
    let result = p256::verify_did_sig(&"did:web:example.com".to_string(), b"data", b"sig", None);
    assert!(result.is_err());
}

#[test]
fn test_is_compact_format_valid_64_bytes() {
    let sig = [0u8; 64];
    assert!(secp256k1::is_compact_format(&sig));
}

#[test]
fn test_is_compact_format_der_format() {
    let der_sig = [
        0x30, 0x44, 0x02, 0x20, 0x5a, 0x5a, 0x5a, 0x5a, 0x02, 0x20, 0x5a, 0x5a, 0x5a, 0x5a,
    ];
    assert!(!secp256k1::is_compact_format(&der_sig));
}

#[test]
fn test_verify_did_sig_non_secp256k1_did() {
    let result = secp256k1::verify_did_sig(&"did:web:example.com".to_string(), b"data", b"sig", None);
    assert!(result.is_err());
}

#[test]
fn test_extract_multikey_valid() {
    let result = extract_multikey(&"did:key:zabc123".to_string()).unwrap();
    assert_eq!(result, "zabc123");
}

#[test]
fn test_extract_multikey_invalid_prefix() {
    let err = extract_multikey(&"did:web:example.com".to_string()).unwrap_err();
    assert!(err.message().contains("Incorrect prefix"));
}

#[test]
fn test_extract_multikey_empty() {
    let err = extract_multikey(&format!("{DID_KEY_PREFIX}")).unwrap_err();
    assert!(err.message().contains("Empty multikey"));
}

#[test]
fn test_extract_prefixed_bytes_valid_hex() {
    let result = extract_prefixed_bytes("f001122".to_string()).unwrap();
    assert_eq!(result, vec![0x00, 0x11, 0x22]);
}

#[test]
fn test_extract_prefixed_bytes_invalid_multibase() {
    let err = extract_prefixed_bytes("!!!invalid".to_string());
    assert!(err.is_err());
}

#[test]
fn test_has_prefix_match() {
    let bytes = vec![0xe7, 0x01, 0x01, 0x02, 0x03];
    assert!(has_prefix(&bytes, &SECP256K1_DID_PREFIX));
}

#[test]
fn test_has_prefix_no_match() {
    let bytes = vec![0x01, 0x02, 0x03];
    assert!(!has_prefix(&bytes, &SECP256K1_DID_PREFIX));
}

#[test]
fn test_has_prefix_shorter_than_prefix() {
    let bytes = vec![0xe7];
    assert!(!has_prefix(&bytes, &SECP256K1_DID_PREFIX));
}

#[test]
fn test_has_prefix_p256_match() {
    let bytes = vec![0x80, 0x24, 0x01, 0x02];
    assert!(has_prefix(&bytes, &P256_DID_PREFIX));
}

#[test]
fn test_has_prefix_empty_bytes() {
    assert!(!has_prefix(&[], &SECP256K1_DID_PREFIX));
}

#[test]
fn test_verify_signature_invalid_did_format() {
    let result = verify_signature(&"not-a-did-key".to_string(), b"data", b"sig", None);
    assert!(result.is_err());
    assert!(result.unwrap_err().message().contains("Incorrect prefix"));
}

#[test]
fn test_verify_signature_unsupported_jwt_alg() {
    let result = verify_signature(
        &"did:key:z6MkhaXgBZDqoKtUfP1YqYbVJmZGzZ8zZ8zZ8zZ8zZ8zZ8zZ8zZ8zZ8".to_string(),
        b"data",
        b"sig",
        None,
    );
    assert!(result.is_err());
}

#[test]
fn test_verify_signature_empty_data() {
    let result = verify_signature(&"did:key:z".to_string(), b"", b"", None);
    assert!(result.is_err());
}

#[test]
fn multikey_format_then_parse_gives_key_back() {
    let raw = known_p256_uncompressed();
    let multikey = format_multikey("ES256".to_string(), raw.clone()).unwrap();
    assert!(multikey.starts_with('z'));
    let parsed = parse_multikey(multikey).unwrap();
    assert_eq!(parsed.jwt_alg, "ES256");
    assert_eq!(parsed.key_bytes, raw);
}

#[test]
fn secp256k1_signature_verifies_with_its_did_key() {
    let secp = ::secp256k1::Secp256k1::new();
    let secret_key = ::secp256k1::SecretKey::from_byte_array(&[0xcd; 32]).unwrap();
    let public_key = ::secp256k1::PublicKey::from_secret_key(&secp, &secret_key);
    let did = format_did_key("ES256K".to_string(), public_key.serialize().to_vec()).unwrap();
    let digest = [7u8; 32];
    let msg = ::secp256k1::Message::from_digest(digest);
    let sig = secp.sign_ecdsa(&msg, &secret_key).serialize_compact();
    assert_eq!(verify_signature(&did, &digest, &sig, None).unwrap(), true);
    assert_eq!(verify_signature(&did, &[8u8; 32], &sig, None).unwrap(), false);
}

#[test]
fn did_key_of_wrong_curve_is_refused() {
    let raw = known_p256_uncompressed();
    let did = format_did_key("ES256".to_string(), raw).unwrap();
    let err = secp256k1::verify_did_sig(&did, b"data", &[0u8; 64], None).unwrap_err();
    assert!(err.message().contains("Not a secp256k1 did:key"));
}
