use k256::ecdsa::{RecoveryId, Signature, VerifyingKey};
use predict_agent::auth;
use predict_agent::auth::{AddressSource, Headers, KeyError, Signing, SigningMode};
use predict_agent::failure::Failure;
use predict_agent::json;

const ONE: &str = "0x0000000000000000000000000000000000000000000000000000000000000001";
const ADDRESS_OF_ONE: &str = "0x7e5f4552091a69125d5dfcb7b8c2659029395bdf";

/// The address that made a signature of a hash.
fn signer(hash: &[u8], signature: &str) -> String {
    let bytes = hex::decode(&signature[2..]).unwrap();
    assert_eq!(bytes.len(), 65);
    let sig = Signature::from_slice(&bytes[..64]).unwrap();
    let id = RecoveryId::from_byte(bytes[64] - 27).unwrap();
    let key = VerifyingKey::recover_from_prehash(hash, &sig, id).unwrap();
    auth::point_address(&key.to_encoded_point(false).as_bytes().to_vec())
}

fn hex_error(cause: &str) -> Result<String, KeyError> {
    Err(KeyError::Hex(cause.to_string()))
}

fn no_key() -> Result<String, KeyError> {
    Err(KeyError::Bytes("signature error".to_string()))
}

fn plain<T>(detail: &str) -> Result<T, Failure> {
    Err(Failure { detail: detail.to_string(), chain: detail.to_string() })
}

fn caused<T>(detail: &str, cause: &str) -> Result<T, Failure> {
    Err(Failure { detail: detail.to_string(), chain: format!("{}: {}", detail, cause) })
}

#[test]
fn errors_of_keys_in_words() {
    let words = |e: KeyError| Err::<(), Failure>(e.failure());
    assert_eq!(words(KeyError::Hex("why".to_string())), caused("Invalid AWP_PRIVATE_KEY hex", "why"));
    assert_eq!(words(KeyError::Bytes("why".to_string())), caused("Invalid private key bytes", "why"));
    assert_eq!(words(KeyError::Signing("why".to_string())), plain("why"));
}

#[test]
fn the_prefix_of_a_key_makes_no_difference() {
    assert_eq!(auth::sign_with_key(ONE, "0xab", "t"), auth::sign_with_key(&ONE[2..], "0xab", "t"));
}

#[test]
fn addresses_of_keys() {
    assert_eq!(auth::derive_address_from_key(ONE), Ok(ADDRESS_OF_ONE.to_string()));
    assert_eq!(auth::derive_address_from_key(&ONE[2..]), Ok(ADDRESS_OF_ONE.to_string()));
    assert_eq!(
        auth::derive_address_from_key("0000000000000000000000000000000000000000000000000000000000000002"),
        Ok("0x2b5ad5c4795c026514f8317c7a215e218dccd6cf".to_string())
    );
}

#[test]
fn short_keys_are_padded() {
    let short = "000000000000000000000000000000000000000000000001";
    assert_eq!(short.len(), 48);
    assert_eq!(auth::derive_address_from_key(short), Ok(ADDRESS_OF_ONE.to_string()));
    assert_eq!(auth::derive_address_from_key(&short[2..]), no_key());
}

#[test]
fn keys_that_are_none() {
    assert_eq!(auth::derive_address_from_key("0x12z4"), hex_error("Invalid character 'z' at position 2"));
    assert_eq!(auth::derive_address_from_key("0x123"), hex_error("Odd number of digits"));
    assert_eq!(auth::derive_address_from_key("0X01"), hex_error("Invalid character 'X' at position 1"));
    assert_eq!(auth::derive_address_from_key(""), no_key());
    let zero = "0".repeat(64);
    assert_eq!(auth::derive_address_from_key(&zero), no_key());
    let order = "fffffffffffffffffffffffffffffffebaaedce6af48a03bbfd25e8cd0364141";
    assert_eq!(auth::derive_address_from_key(order), no_key());
    let last = "fffffffffffffffffffffffffffffffebaaedce6af48a03bbfd25e8cd0364140";
    assert!(auth::derive_address_from_key(last).is_ok());
    let long = "0".repeat(64) + "01";
    assert_eq!(auth::derive_address_from_key(&long), no_key());
    assert_eq!(auth::sign_with_key("zz", "0xab", "t"), hex_error("Invalid character 'z' at position 0"));
    assert_eq!(auth::sign_with_key("00", "0xab", "t"), no_key());
}

#[test]
fn address_is_the_end_of_the_hash() {
    // The Keccak-256 hash of no bytes ends so.
    assert_eq!(auth::point_address(&vec![4]), "0xdcc703c0e500b653ca82273b7bfad8045d85a470");
}

#[test]
fn hash_of_a_personal_message() {
    assert_eq!(
        hex::encode(auth::personal_sign_hash(b"Some data")),
        "1da44b586eb0729ff70a73c326926f6ed5a25f5b056e7f47fbc6e58d86871655"
    );
    assert_eq!(
        hex::encode(auth::personal_sign_hash(b"Hello World")),
        "a1de988600a42c4b4ab089b619297c17d53cffae5d5120d82d8a92d0bb3b78f2"
    );
}

#[test]
fn signed_message() {
    assert_eq!(
        auth::message_text("0xab", "2025-01-01T00:00:00Z"),
        "AWP Predict WorkNet\nAddress: 0xab\nTimestamp: 2025-01-01T00:00:00Z"
    );
}

#[test]
fn signature_text_ends_in_the_raised_recovery_id() {
    let s = auth::write_signature(vec![0xab; 64], 1);
    assert_eq!(s, format!("0x{}1c", "ab".repeat(64)));
    assert_eq!(s.len(), 132);
    assert!(auth::write_signature(vec![0; 64], 0).ends_with("001b"));
}

#[test]
fn signatures_lead_back_to_the_signer() {
    let stamp = "2025-01-01T00:00:00Z";
    let s = auth::sign_with_key(ONE, ADDRESS_OF_ONE, stamp).unwrap();
    let hash = auth::personal_sign_hash(auth::message_text(ADDRESS_OF_ONE, stamp).as_bytes());
    assert_eq!(signer(&hash, &s), ADDRESS_OF_ONE);
    assert_eq!(auth::sign_with_key(ONE, ADDRESS_OF_ONE, stamp), Ok(s.clone()));
    assert_ne!(auth::sign_with_key(ONE, ADDRESS_OF_ONE, "2025-01-01T00:00:01Z"), Ok(s));
}

#[test]
fn ways_to_sign() {
    assert_eq!(auth::signing_mode(true, Some("true")), SigningMode::PrivateKey);
    assert_eq!(auth::signing_mode(false, Some("true")), SigningMode::DevMode);
    assert_eq!(auth::signing_mode(false, Some("1")), SigningMode::DevMode);
    assert_eq!(auth::signing_mode(false, Some("TRUE")), SigningMode::Wallet);
    assert_eq!(auth::signing_mode(false, None), SigningMode::Wallet);
    assert!(auth::is_dev_mode(Some("true")));
    assert!(!auth::is_dev_mode(Some("yes")));
}

#[test]
fn a_key_comes_before_development_mode_and_the_wallet() {
    let stamp = "2025-01-01T00:00:00Z";
    let upper = "0x7E5F4552091A69125D5DFCB7B8C2659029395BDF";
    let with_key = auth::sign_with_key(ONE, ADDRESS_OF_ONE, stamp).unwrap();
    assert_eq!(
        auth::sign_message(upper, stamp, Some(ONE), Some("true")),
        Signing::Signed(with_key)
    );
    assert_eq!(auth::sign_message(upper, stamp, None, Some("1")), Signing::Signed("dev".to_string()));
    assert_eq!(
        auth::sign_message(upper, stamp, None, None),
        Signing::AskWallet(auth::message_text(ADDRESS_OF_ONE, stamp))
    );
    assert_eq!(auth::sign_message(upper, stamp, Some("xy"), None), Signing::Failed(KeyError::Hex("Invalid character 'x' at position 0".to_string())));
}

#[test]
fn headers_of_a_request() {
    match auth::build_auth_headers("0xAB", 1735689600, None, Some("true")) {
        Headers::Ready(h) => {
            assert_eq!(h.address, "0xAB");
            assert_eq!(h.timestamp, "2025-01-01T00:00:00Z");
            assert_eq!(h.signature, "dev");
        }
        other => panic!("{:?}", other),
    }
    assert_eq!(
        auth::build_auth_headers("0xAB", 0, None, None),
        Headers::AskWallet {
            timestamp: "1970-01-01T00:00:00Z".to_string(),
            message: "AWP Predict WorkNet\nAddress: 0xab\nTimestamp: 1970-01-01T00:00:00Z".to_string(),
        }
    );
    assert_eq!(auth::build_auth_headers("0xAB", i64::MAX, None, None), Headers::BadClock);
    assert_eq!(auth::build_auth_headers("0xAB", 0, Some("00"), None), Headers::Failed(KeyError::Bytes("signature error".to_string())));
    let h = auth::wallet_headers("0xAB", "t".to_string(), "s".to_string());
    assert_eq!((h.address.as_str(), h.timestamp.as_str(), h.signature.as_str()), ("0xAB", "t", "s"));
}

#[test]
fn where_the_address_comes_from() {
    assert_eq!(
        auth::get_address(Some("0xABCdef"), Some(ONE)),
        AddressSource::Known("0xabcdef".to_string())
    );
    assert_eq!(auth::get_address(None, Some(ONE)), AddressSource::Known(ADDRESS_OF_ONE.to_string()));
    assert_eq!(auth::get_address(None, Some("q")), AddressSource::Failed(KeyError::Hex("Odd number of digits".to_string())));
    assert_eq!(auth::get_address(None, None), AddressSource::AskWallet);
}

#[test]
fn arguments_for_the_wallet() {
    assert_eq!(auth::get_address_from_wallet("", ""), vec!["receive"]);
    assert_eq!(
        auth::get_address_from_wallet("me", "tok"),
        vec!["receive", "--agent", "me", "--token", "tok"]
    );
    assert_eq!(auth::get_address_from_wallet("", "tok"), vec!["receive", "--token", "tok"]);
    assert_eq!(
        auth::sign_with_wallet(Some("tok"), "hello").unwrap(),
        vec!["sign-message", "--token", "tok", "--message", "hello"]
    );
    assert_eq!(
        auth::sign_with_wallet(None, "hello"),
        caused(
            "AWP_WALLET_TOKEN not set. Run: awp-wallet unlock --duration 86400",
            "environment variable not found"
        )
    );
}

#[test]
fn addresses_from_the_wallet() {
    assert_eq!(auth::take_address(true, "{\"eoaAddress\":\"0xAA\",\"address\":\"0xBB\"}"), Ok("0xaa".to_string()));
    assert_eq!(auth::take_address(true, "{\"eoaAddress\":5,\"address\":\"0xBB\"}"), Ok("0xbb".to_string()));
    assert_eq!(
        auth::take_address(true, "[]"),
        plain("awp-wallet response missing 'eoaAddress' field")
    );
    assert_eq!(
        auth::take_address(true, "oops"),
        caused("awp-wallet returned invalid JSON", "expected value at line 1 column 1")
    );
    assert_eq!(
        auth::take_address(false, "{\"eoaAddress\":\"0xAA\"}"),
        plain("awp-wallet is locked. Run: awp-wallet unlock --duration 86400 --scope full")
    );
    assert_eq!(auth::read_address(&json::parse("{\"address\":\"0xCC\"}").unwrap()), Ok("0xcc".to_string()));
}

#[test]
fn signatures_from_the_wallet() {
    assert_eq!(auth::take_message_signature(true, "{\"signature\":\"0x12\"}", ""), Ok("0x12".to_string()));
    assert_eq!(
        auth::take_message_signature(true, "{}", ""),
        plain("awp-wallet response missing 'signature' field")
    );
    assert_eq!(
        auth::take_message_signature(true, "", "x"),
        caused("awp-wallet returned invalid JSON", "EOF while parsing a value at line 1 column 0")
    );
    assert_eq!(
        auth::take_message_signature(false, "{\"signature\":\"0x12\"}", "locked"),
        plain("awp-wallet sign failed: locked")
    );
    assert_eq!(
        auth::take_signature(false, "", "no", "failed: "),
        plain("failed: no")
    );
    assert_eq!(auth::read_signature(&json::parse("{\"signature\":\"s\"}").unwrap()), Ok("s".to_string()));
}

#[test]
fn places_of_the_wallet() {
    let files: Vec<String> = auth::find_awp_wallet("/a:/b/", "/home/u").into_iter().map(|p| p.file).collect();
    assert_eq!(
        files,
        vec![
            "/a/awp-wallet",
            "/b/awp-wallet",
            "/home/u/.local/bin/awp-wallet",
            "/home/u/.npm-global/bin/awp-wallet",
            "/home/u/.yarn/bin/awp-wallet",
            "/usr/local/bin/awp-wallet",
            "/usr/bin/awp-wallet",
        ]
    );
}
