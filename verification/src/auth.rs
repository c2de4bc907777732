//! Who the agent is, and how it signs its requests (EIP-191 `personal_sign`).
//!
//! A request is signed, in this order of preference,
//!   1. with a private key that is given,
//!   2. not at all, in development mode,
//!   3. by the wallet program.

use vstd::prelude::*;

use crate::crypto;
use crate::failure;
use crate::failure::{Failure, FailureView};
use crate::json;
use crate::json::{Json, JsonView};
use crate::places;
use crate::places::{Place, PlaceView};
use crate::text;
use crate::time;

verus! {

/// The headers that sign a request.
#[derive(Debug, PartialEq, Eq)]
pub struct AuthHeaders {
    pub address: String,
    pub timestamp: String,
    pub signature: String,
}

#[verifier::ext_equal]
pub struct AuthView {
    pub address: Seq<char>,
    pub timestamp: Seq<char>,
    pub signature: Seq<char>,
}

impl AuthHeaders {
    pub open spec fn view(&self) -> AuthView {
        AuthView {
            address: self.address@,
            timestamp: self.timestamp@,
            signature: self.signature@,
        }
    }
}

/// What is wrong with a private key, or with signing by it, and why.
#[derive(Debug, PartialEq, Eq)]
pub enum KeyError {
    /// It is not written in hexadecimal.
    Hex(String),
    /// It is no private key.
    Bytes(String),
    /// The signature could not be made.
    Signing(String),
}

#[verifier::ext_equal]
pub enum KeyErrorView {
    Hex(Seq<char>),
    Bytes(Seq<char>),
    Signing(Seq<char>),
}

impl KeyError {
    pub open spec fn view(&self) -> KeyErrorView {
        match self {
            KeyError::Hex(cause) => KeyErrorView::Hex(cause@),
            KeyError::Bytes(cause) => KeyErrorView::Bytes(cause@),
            KeyError::Signing(cause) => KeyErrorView::Signing(cause@),
        }
    }

    /// The error in words.
    pub fn failure(&self) -> (r: Failure)
        ensures
            r@ == self@.in_words(),
    {
        match self {
            KeyError::Hex(cause) => Failure::caused("Invalid AWP_PRIVATE_KEY hex", cause.as_str()),
            KeyError::Bytes(cause) => Failure::caused("Invalid private key bytes", cause.as_str()),
            KeyError::Signing(cause) => Failure::plain(cause.clone()),
        }
    }
}

impl KeyErrorView {
    /// The error in words.
    pub open spec fn in_words(self) -> FailureView {
        match self {
            KeyErrorView::Hex(cause) => FailureView::caused("Invalid AWP_PRIVATE_KEY hex"@, cause),
            KeyErrorView::Bytes(cause) => FailureView::caused("Invalid private key bytes"@, cause),
            KeyErrorView::Signing(cause) => FailureView::plain(cause),
        }
    }
}

/// A text without the prefix `0x`, if it has it.
pub open spec fn without_0x(s: Seq<char>) -> Seq<char> {
    if s.len() >= 2 && s[0] == '0' && s[1] == 'x' {
        s.skip(2)
    } else {
        s
    }
}

/// The private key that a text writes.
pub open spec fn key_in(pk_hex: Seq<char>) -> Result<Seq<u8>, KeyErrorView> {
    match crypto::hex_value(without_0x(pk_hex)) {
        None => Err(KeyErrorView::Hex(crypto::hex_fault(without_0x(pk_hex)))),
        Some(b) => if crypto::is_key(b) {
            Ok(b)
        } else {
            Err(KeyErrorView::Bytes("signature error"@))
        },
    }
}

/// What the agent signs.
pub open spec fn signed_text(address: Seq<char>, timestamp: Seq<char>) -> Seq<char> {
    "AWP Predict WorkNet\nAddress: "@ + address + "\nTimestamp: "@ + timestamp
}

/// The hash of a message under EIP-191: the message behind a prefix that tells its length.
pub open spec fn personal_hash(message: Seq<u8>) -> Seq<u8> {
    crypto::keccak(
        vstd::utf8::encode_utf8(
            "\x19Ethereum Signed Message:\n"@ + text::decimal(message.len()),
        ) + message,
    )
}

/// A signature in hexadecimal: the two numbers, and the recovery id raised by 27.
pub open spec fn signature_text(sig: Seq<u8>, recovery_id: u8) -> Seq<char> {
    "0x"@ + crypto::hex_text(sig.push((recovery_id + 27) as u8))
}

/// The signature of a request with a private key.
pub open spec fn signed_with_key(
    pk_hex: Seq<char>,
    address: Seq<char>,
    timestamp: Seq<char>,
) -> Result<Seq<char>, KeyErrorView> {
    match key_in(pk_hex) {
        Err(e) => Err(e),
        Ok(key) => match crypto::signature_of(
            key,
            personal_hash(vstd::utf8::encode_utf8(signed_text(address, timestamp))),
        ) {
            Some((sig, recovery_id)) => Ok(signature_text(sig, recovery_id)),
            None => Err(KeyErrorView::Signing("signature error"@)),
        },
    }
}

/// The address of a public key in uncompressed form: the last twenty bytes of the hash of what
/// follows the first byte.
pub open spec fn address_of_point(point: Seq<u8>) -> Seq<char> {
    "0x"@ + crypto::hex_text(crypto::keccak(point.skip(1)).skip(12))
}

/// Whether a signature is two lower-case digits for each of 65 bytes behind `0x`, and the signer
/// that is recovered from a hash, the first 64 bytes and the last one, lowered by 27, has an
/// address.
pub open spec fn signer_recovered(
    signature: Seq<char>,
    hash: Seq<u8>,
    address: Result<Seq<char>, KeyErrorView>,
) -> bool {
    match crypto::hex_value(signature.skip(2)) {
        None => false,
        Some(b) => {
            &&& b.len() == 65
            &&& 27 <= b[64] <= 30
            &&& signature == "0x"@ + crypto::hex_text(b)
            &&& match crypto::recovered(hash, b.take(64), (b[64] - 27) as u8) {
                Some(point) => address == Ok::<Seq<char>, KeyErrorView>(address_of_point(point)),
                None => false,
            }
        },
    }
}

/// The address of a private key.
pub open spec fn address_of_key(pk_hex: Seq<char>) -> Result<Seq<char>, KeyErrorView> {
    match key_in(pk_hex) {
        Err(e) => Err(e),
        Ok(key) => Ok(address_of_point(crypto::public_of(key))),
    }
}

/// The view of a text or what is wrong with the key.
pub open spec fn keyed(r: Result<String, KeyError>) -> Result<Seq<char>, KeyErrorView> {
    match r {
        Ok(t) => Ok(t@),
        Err(e) => Err(e@),
    }
}

fn strip_0x(s: &str) -> (r: &str)
    ensures
        r@ == without_0x(s@),
{
    let n = s.unicode_len();
    if n >= 2 && s.get_char(0) == '0' && s.get_char(1) == 'x' {
        assert(s@.subrange(2, n as int) =~= s@.skip(2));
        s.substring_char(2, n)
    } else {
        s
    }
}

fn read_key(pk_hex: &str) -> (r: Result<Vec<u8>, KeyError>)
    ensures
        key_in(pk_hex@) == match r {
            Ok(b) => Ok(b@),
            Err(e) => Err(e@),
        },
{
    match crypto::from_hex(strip_0x(pk_hex)) {
        Err(e) => Err(KeyError::Hex(e)),
        Ok(b) => match crypto::check_key(b.as_slice()) {
            Ok(_) => Ok(b),
            Err(e) => Err(KeyError::Bytes(e)),
        },
    }
}

/// What the agent signs.
pub fn message_text(address: &str, timestamp: &str) -> (r: String)
    ensures
        r@ == signed_text(address@, timestamp@),
{
    let mut m = "AWP Predict WorkNet\nAddress: ".to_owned();
    m.append(address);
    m.append("\nTimestamp: ");
    m.append(timestamp);
    m
}

/// The hash of a message under EIP-191.
pub fn personal_sign_hash(message: &[u8]) -> (r: Vec<u8>)
    ensures
        r@ == personal_hash(message@),
        r@.len() == 32,
{
    let mut prefix = "\x19Ethereum Signed Message:\n".to_owned();
    prefix.append(text::u64_text(message.len() as u64).as_str());
    let mut all: Vec<u8> = vstd::slice::slice_to_vec(prefix.as_str().as_bytes());
    all.extend_from_slice(message);
    assert(all@ =~= vstd::utf8::encode_utf8(prefix@) + message@);
    crypto::keccak256(all.as_slice())
}

/// A signature in hexadecimal.
pub fn write_signature(sig: Vec<u8>, recovery_id: u8) -> (r: String)
    requires
        recovery_id <= 3,
    ensures
        r@ == signature_text(sig@, recovery_id),
{
    let mut all = sig;
    all.push(recovery_id + 27);
    let mut s = "0x".to_owned();
    s.append(crypto::to_hex(all.as_slice()).as_str());
    s
}

/// Signs a request with a private key.
pub fn sign_with_key(pk_hex: &str, addr_lower: &str, timestamp: &str) -> (r: Result<
    String,
    KeyError,
>)
    ensures
        keyed(r) == signed_with_key(pk_hex@, addr_lower@, timestamp@),
        r matches Ok(s) ==> s@.len() == 132 && signer_recovered(
            s@,
            personal_hash(vstd::utf8::encode_utf8(signed_text(addr_lower@, timestamp@))),
            address_of_key(pk_hex@),
        ),
{
    let key = match read_key(pk_hex) {
        Ok(b) => b,
        Err(e) => return Err(e),
    };
    let message = message_text(addr_lower, timestamp);
    let hash = personal_sign_hash(message.as_str().as_bytes());
    match crypto::sign(key.as_slice(), hash.as_slice()) {
        Ok(made) => {
            proof {
                lemma_signature_length(made.0@, made.1);
                lemma_signer(made.0@, made.1, hash@, key@);
            }
            Ok(write_signature(made.0, made.1))
        },
        Err(e) => Err(KeyError::Signing(e)),
    }
}

/// The address of a public key in uncompressed form.
pub fn point_address(point: &Vec<u8>) -> (r: String)
    requires
        point@.len() > 0,
    ensures
        r@ == address_of_point(point@),
        r@.len() == 42,
{
    let hash = crypto::keccak256(vstd::slice::slice_subrange(point.as_slice(), 1, point.len()));
    assert(point@.subrange(1, point@.len() as int) =~= point@.skip(1));
    assert(hash@.subrange(12, 32) =~= hash@.skip(12));
    let mut s = "0x".to_owned();
    s.append(crypto::to_hex(vstd::slice::slice_subrange(hash.as_slice(), 12, 32)).as_str());
    proof {
        crypto::lemma_hex_text_len(hash@.skip(12));
        reveal_strlit("0x");
    }
    s
}

/// The address of a private key.
pub fn derive_address_from_key(pk_hex: &str) -> (r: Result<String, KeyError>)
    ensures
        keyed(r) == address_of_key(pk_hex@),
        r matches Ok(a) ==> a@.len() == 42,
{
    let key = match read_key(pk_hex) {
        Ok(b) => b,
        Err(e) => return Err(e),
    };
    match crypto::public_key(key.as_slice()) {
        Ok(point) => Ok(point_address(&point)),
        Err(e) => Err(KeyError::Bytes(e)),
    }
}

/// A signature that is made with a private key is `0x` and 130 hexadecimal digits.
pub proof fn lemma_signature_length(sig: Seq<u8>, recovery_id: u8)
    requires
        sig.len() == 64,
        recovery_id <= 3,
    ensures
        signature_text(sig, recovery_id).len() == 132,
        crypto::hex_value(signature_text(sig, recovery_id).skip(2)) == Some(
            sig.push((recovery_id + 27) as u8),
        ),
{
    let all = sig.push((recovery_id + 27) as u8);
    crypto::lemma_hex_text_len(all);
    crypto::lemma_hex_read_back(all);
    reveal_strlit("0x");
    assert(signature_text(sig, recovery_id).skip(2) =~= crypto::hex_text(all));
}

proof fn lemma_signer(sig: Seq<u8>, recovery_id: u8, hash: Seq<u8>, key: Seq<u8>)
    requires
        sig.len() == 64,
        recovery_id <= 3,
        crypto::recovered(hash, sig, recovery_id) == Some(crypto::public_of(key)),
    ensures
        signer_recovered(
            signature_text(sig, recovery_id),
            hash,
            Ok(address_of_point(crypto::public_of(key))),
        ),
{
    lemma_signature_length(sig, recovery_id);
    assert(sig.push((recovery_id + 27) as u8).take(64) =~= sig);
}

/// The prefix `0x` of a private key makes no difference.
pub proof fn lemma_prefix_ignored(pk_hex: Seq<char>, address: Seq<char>, timestamp: Seq<char>)
    requires
        without_0x(pk_hex) == pk_hex,
    ensures
        signed_with_key("0x"@ + pk_hex, address, timestamp) == signed_with_key(
            pk_hex,
            address,
            timestamp,
        ),
        address_of_key("0x"@ + pk_hex) == address_of_key(pk_hex),
{
    reveal_strlit("0x");
    assert(("0x"@ + pk_hex).skip(2) =~= pk_hex);
}

// How requests are signed.

/// How a request is signed.
#[derive(Clone, Copy, Debug, PartialEq, Eq, Structural)]
pub enum SigningMode {
    PrivateKey,
    DevMode,
    Wallet,
}

/// Whether the setting turns development mode on.
pub open spec fn dev_mode_on(setting: Option<Seq<char>>) -> bool {
    setting == Some("true"@) || setting == Some("1"@)
}

/// How requests are signed: a private key comes before development mode, and that before the
/// wallet.
pub open spec fn mode_of(has_key: bool, dev_mode: Option<Seq<char>>) -> SigningMode {
    if has_key {
        SigningMode::PrivateKey
    } else if dev_mode_on(dev_mode) {
        SigningMode::DevMode
    } else {
        SigningMode::Wallet
    }
}

/// Whether the setting turns development mode on.
pub fn is_dev_mode(setting: Option<&str>) -> (r: bool)
    ensures
        r == dev_mode_on(json::maybe_text(setting)),
{
    match setting {
        Some(s) => text::same(s, "true") || text::same(s, "1"),
        None => false,
    }
}

/// How requests are signed.
pub fn signing_mode(has_key: bool, dev_mode: Option<&str>) -> (r: SigningMode)
    ensures
        r == mode_of(has_key, json::maybe_text(dev_mode)),
{
    if has_key {
        SigningMode::PrivateKey
    } else if is_dev_mode(dev_mode) {
        SigningMode::DevMode
    } else {
        SigningMode::Wallet
    }
}

/// A signature, or what to have the wallet sign.
#[derive(Debug, PartialEq, Eq)]
pub enum Signing {
    Signed(String),
    Failed(KeyError),
    /// The message for the wallet.
    AskWallet(String),
}

#[verifier::ext_equal]
pub enum SigningView {
    Signed(Seq<char>),
    Failed(KeyErrorView),
    AskWallet(Seq<char>),
}

impl Signing {
    pub open spec fn view(&self) -> SigningView {
        match self {
            Signing::Signed(s) => SigningView::Signed(s@),
            Signing::Failed(e) => SigningView::Failed(e@),
            Signing::AskWallet(m) => SigningView::AskWallet(m@),
        }
    }
}

/// How a request is signed. The address is signed in lower case.
pub open spec fn signing(
    address: Seq<char>,
    timestamp: Seq<char>,
    private_key: Option<Seq<char>>,
    dev_mode: Option<Seq<char>>,
) -> SigningView {
    match private_key {
        Some(pk) => match signed_with_key(pk, text::lower(address), timestamp) {
            Ok(s) => SigningView::Signed(s),
            Err(e) => SigningView::Failed(e),
        },
        None => if dev_mode_on(dev_mode) {
            SigningView::Signed("dev"@)
        } else {
            SigningView::AskWallet(signed_text(text::lower(address), timestamp))
        },
    }
}

/// Signs a request, or gives the message that the wallet has to sign.
pub fn sign_message(
    address: &str,
    timestamp: &str,
    private_key: Option<&str>,
    dev_mode: Option<&str>,
) -> (r: Signing)
    ensures
        r@ == signing(
            address@,
            timestamp@,
            json::maybe_text(private_key),
            json::maybe_text(dev_mode),
        ),
{
    let addr_lower = text::to_lower(address);
    if let Some(pk) = private_key {
        return match sign_with_key(pk, addr_lower.as_str(), timestamp) {
            Ok(s) => Signing::Signed(s),
            Err(e) => Signing::Failed(e),
        };
    }
    if is_dev_mode(dev_mode) {
        return Signing::Signed("dev".to_owned());
    }
    Signing::AskWallet(message_text(addr_lower.as_str(), timestamp))
}

/// Headers, or what is missing for them.
#[derive(Debug, PartialEq, Eq)]
pub enum Headers {
    Ready(AuthHeaders),
    Failed(KeyError),
    /// The time is out of range.
    BadClock,
    /// The wallet has to sign the message; [`wallet_headers`] then makes the headers.
    AskWallet { timestamp: String, message: String },
}

#[verifier::ext_equal]
pub enum HeadersView {
    Ready(AuthView),
    Failed(KeyErrorView),
    BadClock,
    AskWallet { timestamp: Seq<char>, message: Seq<char> },
}

impl Headers {
    pub open spec fn view(&self) -> HeadersView {
        match self {
            Headers::Ready(h) => HeadersView::Ready(h@),
            Headers::Failed(e) => HeadersView::Failed(e@),
            Headers::BadClock => HeadersView::BadClock,
            Headers::AskWallet { timestamp, message } => HeadersView::AskWallet {
                timestamp: timestamp@,
                message: message@,
            },
        }
    }
}

/// The headers for a request, by the text of its time.
pub open spec fn headers_at(
    address: Seq<char>,
    timestamp: Option<Seq<char>>,
    private_key: Option<Seq<char>>,
    dev_mode: Option<Seq<char>>,
) -> HeadersView {
    match timestamp {
        None => HeadersView::BadClock,
        Some(t) => match signing(address, t, private_key, dev_mode) {
            SigningView::Signed(signature) => HeadersView::Ready(
                AuthView { address, timestamp: t, signature },
            ),
            SigningView::Failed(e) => HeadersView::Failed(e),
            SigningView::AskWallet(message) => HeadersView::AskWallet { timestamp: t, message },
        },
    }
}

/// The headers for a request whose time is written as `timestamp`.
pub fn headers_with(
    address: &str,
    timestamp: Option<String>,
    private_key: Option<&str>,
    dev_mode: Option<&str>,
) -> (r: Headers)
    ensures
        r@ == headers_at(
            address@,
            crate::output::opt_text(timestamp),
            json::maybe_text(private_key),
            json::maybe_text(dev_mode),
        ),
{
    let timestamp = match timestamp {
        Some(t) => t,
        None => return Headers::BadClock,
    };
    match sign_message(address, timestamp.as_str(), private_key, dev_mode) {
        Signing::Signed(signature) => Headers::Ready(
            AuthHeaders { address: address.to_owned(), timestamp, signature },
        ),
        Signing::Failed(e) => Headers::Failed(e),
        Signing::AskWallet(message) => Headers::AskWallet { timestamp, message },
    }
}

/// The headers for a request at a second since the start of 1970.
pub fn build_auth_headers(
    address: &str,
    now_secs: i64,
    private_key: Option<&str>,
    dev_mode: Option<&str>,
) -> (r: Headers)
    ensures
        r@ == headers_at(
            address@,
            time::rfc3339(now_secs),
            json::maybe_text(private_key),
            json::maybe_text(dev_mode),
        ),
{
    headers_with(address, time::rfc3339_text(now_secs), private_key, dev_mode)
}

/// The headers for a request that the wallet signed.
pub fn wallet_headers(address: &str, timestamp: String, signature: String) -> (r: AuthHeaders)
    ensures
        r@ == (AuthView { address: address@, timestamp: timestamp@, signature: signature@ }),
{
    AuthHeaders { address: address.to_owned(), timestamp, signature }
}

/// A private key is used where there is one, whatever else is set; the wallet is asked only where
/// there is neither a key nor development mode.
pub proof fn lemma_signing_order(
    address: Seq<char>,
    timestamp: Seq<char>,
    private_key: Option<Seq<char>>,
    dev_mode: Option<Seq<char>>,
)
    ensures
        signing(address, timestamp, private_key, dev_mode) is AskWallet <==> mode_of(
            private_key is Some,
            dev_mode,
        ) == SigningMode::Wallet,
        mode_of(private_key is Some, dev_mode) == SigningMode::DevMode ==> signing(
            address,
            timestamp,
            private_key,
            dev_mode,
        ) == SigningView::Signed("dev"@),
        private_key is Some ==> signing(address, timestamp, private_key, dev_mode) == signing(
            address,
            timestamp,
            private_key,
            None,
        ),
{
}

// The wallet program.

/// The arguments that have the wallet sign a message, or an error where the wallet's token is not
/// set.
pub open spec fn sign_args(token: Option<Seq<char>>, message: Seq<char>) -> Result<
    Seq<Seq<char>>,
    FailureView,
> {
    match token {
        Some(t) => Ok(seq!["sign-message"@, "--token"@, t, "--message"@, message]),
        None => Err(
            FailureView::caused(
                "AWP_WALLET_TOKEN not set. Run: awp-wallet unlock --duration 86400"@,
                "environment variable not found"@,
            ),
        ),
    }
}

/// The arguments that have the wallet sign a message; `token` is the wallet's token, if it is set.
pub fn sign_with_wallet(token: Option<&str>, message: &str) -> (r: Result<Vec<String>, Failure>)
    ensures
        sign_args(json::maybe_text(token), message@) == match r {
            Ok(v) => Ok(v@.map_values(|s: String| s@)),
            Err(f) => Err(f@),
        },
{
    let token = match token {
        Some(t) => t,
        None => return Err(
            Failure::caused(
                "AWP_WALLET_TOKEN not set. Run: awp-wallet unlock --duration 86400",
                "environment variable not found",
            ),
        ),
    };
    let mut v: Vec<String> = Vec::new();
    v.push("sign-message".to_owned());
    v.push("--token".to_owned());
    v.push(token.to_owned());
    v.push("--message".to_owned());
    v.push(message.to_owned());
    assert(v@.map_values(|s: String| s@) =~= seq![
        "sign-message"@,
        "--token"@,
        token@,
        "--message"@,
        message@,
    ]);
    Ok(v)
}

/// The signature in the wallet's answer.
pub open spec fn signature_field(v: JsonView) -> Result<Seq<char>, FailureView> {
    match v.str_at("signature"@) {
        Some(s) => Ok(s),
        None => Err(FailureView::plain("awp-wallet response missing 'signature' field"@)),
    }
}

/// The signature that the wallet wrote, or an error. `failed` is the error for a wallet that did
/// not succeed.
pub open spec fn wallet_signature(
    success: bool,
    stdout: Seq<char>,
    failed: Seq<char>,
) -> Result<Seq<char>, FailureView> {
    if !success {
        Err(FailureView::plain(failed))
    } else {
        match json::text_read(stdout) {
            Err(cause) => Err(FailureView::caused("awp-wallet returned invalid JSON"@, cause)),
            Ok(v) => signature_field(v),
        }
    }
}

/// The signature in the wallet's answer.
pub fn read_signature(v: &Json) -> (r: Result<String, Failure>)
    ensures
        failure::told(r) == signature_field(v@),
{
    match v.str_at("signature") {
        Some(s) => Ok(s.to_owned()),
        None => Err(Failure::plain("awp-wallet response missing 'signature' field".to_owned())),
    }
}

/// The signature that the wallet wrote, or an error, which is `failed` and what the wallet
/// complained about where it did not succeed.
pub fn take_signature(success: bool, stdout: &str, stderr: &str, failed: &str) -> (r: Result<
    String,
    Failure,
>)
    ensures
        failure::told(r) == wallet_signature(success, stdout@, failed@ + stderr@),
{
    if !success {
        let mut e = failed.to_owned();
        e.append(stderr);
        return Err(Failure::plain(e));
    }
    match json::read(stdout) {
        Ok(v) => read_signature(&v),
        Err(cause) => Err(Failure::caused("awp-wallet returned invalid JSON", cause.as_str())),
    }
}

/// The signature of a message that the wallet was asked to sign.
pub fn take_message_signature(success: bool, stdout: &str, stderr: &str) -> (r: Result<
    String,
    Failure,
>)
    ensures
        failure::told(r) == wallet_signature(
            success,
            stdout@,
            "awp-wallet sign failed: "@ + stderr@,
        ),
{
    take_signature(success, stdout, stderr, "awp-wallet sign failed: ")
}

/// Where the agent's address comes from.
#[derive(Debug, PartialEq, Eq)]
pub enum AddressSource {
    Known(String),
    Failed(KeyError),
    AskWallet,
}

#[verifier::ext_equal]
pub enum AddressSourceView {
    Known(Seq<char>),
    Failed(KeyErrorView),
    AskWallet,
}

impl AddressSource {
    pub open spec fn view(&self) -> AddressSourceView {
        match self {
            AddressSource::Known(a) => AddressSourceView::Known(a@),
            AddressSource::Failed(e) => AddressSourceView::Failed(e@),
            AddressSource::AskWallet => AddressSourceView::AskWallet,
        }
    }
}

/// Where the agent's address comes from: an address that is given comes before a private key, and
/// that before the wallet.
pub open spec fn address_source(
    address: Option<Seq<char>>,
    private_key: Option<Seq<char>>,
) -> AddressSourceView {
    match address {
        Some(a) => AddressSourceView::Known(text::lower(a)),
        None => match private_key {
            Some(pk) => match address_of_key(pk) {
                Ok(a) => AddressSourceView::Known(a),
                Err(e) => AddressSourceView::Failed(e),
            },
            None => AddressSourceView::AskWallet,
        },
    }
}

/// The agent's address, or that the wallet has to be asked for it.
pub fn get_address(address: Option<&str>, private_key: Option<&str>) -> (r: AddressSource)
    ensures
        r@ == address_source(json::maybe_text(address), json::maybe_text(private_key)),
{
    if let Some(a) = address {
        return AddressSource::Known(text::to_lower(a));
    }
    match private_key {
        Some(pk) => match derive_address_from_key(pk) {
            Ok(a) => AddressSource::Known(a),
            Err(e) => AddressSource::Failed(e),
        },
        None => AddressSource::AskWallet,
    }
}

/// The arguments that ask the wallet for the address. An empty agent id or token is left out.
pub open spec fn receive_args(agent_id: Seq<char>, token: Seq<char>) -> Seq<Seq<char>> {
    seq!["receive"@] + (if agent_id.len() == 0 {
        Seq::empty()
    } else {
        seq!["--agent"@, agent_id]
    }) + (if token.len() == 0 {
        Seq::empty()
    } else {
        seq!["--token"@, token]
    })
}

/// The arguments that ask the wallet for the address.
pub fn get_address_from_wallet(agent_id: &str, token: &str) -> (r: Vec<String>)
    ensures
        r@.map_values(|s: String| s@) == receive_args(agent_id@, token@),
{
    let mut v: Vec<String> = Vec::new();
    v.push("receive".to_owned());
    if !agent_id.is_empty() {
        v.push("--agent".to_owned());
        v.push(agent_id.to_owned());
    }
    if !token.is_empty() {
        v.push("--token".to_owned());
        v.push(token.to_owned());
    }
    assert(v@.map_values(|s: String| s@) =~= receive_args(agent_id@, token@));
    v
}

/// The address in the wallet's answer, in lower case.
pub open spec fn address_field(v: JsonView) -> Result<Seq<char>, FailureView> {
    match v.str_at("eoaAddress"@) {
        Some(a) => Ok(text::lower(a)),
        None => match v.str_at("address"@) {
            Some(a) => Ok(text::lower(a)),
            None => Err(FailureView::plain("awp-wallet response missing 'eoaAddress' field"@)),
        },
    }
}

/// The address that the wallet wrote, or an error.
pub open spec fn wallet_address(success: bool, stdout: Seq<char>) -> Result<
    Seq<char>,
    FailureView,
> {
    if !success {
        Err(
            FailureView::plain(
                "awp-wallet is locked. Run: awp-wallet unlock --duration 86400 --scope full"@,
            ),
        )
    } else {
        match json::text_read(stdout) {
            Err(cause) => Err(FailureView::caused("awp-wallet returned invalid JSON"@, cause)),
            Ok(v) => address_field(v),
        }
    }
}

/// The address in the wallet's answer.
pub fn read_address(v: &Json) -> (r: Result<String, Failure>)
    ensures
        failure::told(r) == address_field(v@),
{
    if let Some(a) = v.str_at("eoaAddress") {
        return Ok(text::to_lower(a));
    }
    match v.str_at("address") {
        Some(a) => Ok(text::to_lower(a)),
        None => Err(Failure::plain("awp-wallet response missing 'eoaAddress' field".to_owned())),
    }
}

/// The address that the wallet wrote, or an error.
pub fn take_address(success: bool, stdout: &str) -> (r: Result<String, Failure>)
    ensures
        failure::told(r) == wallet_address(success, stdout@),
{
    if !success {
        return Err(
            Failure::plain(
                "awp-wallet is locked. Run: awp-wallet unlock --duration 86400 --scope full"
                    .to_owned(),
            ),
        );
    }
    match json::read(stdout) {
        Ok(v) => read_address(&v),
        Err(cause) => Err(Failure::caused("awp-wallet returned invalid JSON", cause.as_str())),
    }
}

/// Where the wallet may be, in the order in which it is looked for: on the search path, and then
/// where installers put it.
pub open spec fn wallet_places(path_var: Seq<char>, home: Seq<char>) -> Seq<PlaceView> {
    places::path_places(path_var, "awp-wallet"@, None) + seq![
        places::fixed(home + "/.local/bin/awp-wallet"@),
        places::fixed(home + "/.npm-global/bin/awp-wallet"@),
        places::fixed(home + "/.yarn/bin/awp-wallet"@),
        places::fixed("/usr/local/bin/awp-wallet"@),
        places::fixed("/usr/bin/awp-wallet"@),
    ]
}

/// Where the wallet may be, in the order in which it is looked for.
pub fn find_awp_wallet(path_var: &str, home: &str) -> (r: Vec<Place>)
    ensures
        places::places_view(r@) == wallet_places(path_var@, home@),
{
    let mut list = places::search_path(path_var, "awp-wallet", None);
    let ghost a = list@;
    list.push(places::below(home, "/.local/bin/awp-wallet"));
    list.push(places::below(home, "/.npm-global/bin/awp-wallet"));
    list.push(places::below(home, "/.yarn/bin/awp-wallet"));
    list.push(places::exactly("/usr/local/bin/awp-wallet"));
    list.push(places::exactly("/usr/bin/awp-wallet"));
    proof {
        assert(list@.take(a.len() as int) =~= a);
        assert(places::places_view(list@) =~= wallet_places(path_var@, home@));
    }
    list
}

} // verus!
