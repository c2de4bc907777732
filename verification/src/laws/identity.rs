//! Laws of who the agent is and how it signs.

use vstd::prelude::*;

use crate::auth;
use crate::auth::{AddressSource, AddressSourceView, AuthHeaders, AuthView, Headers, HeadersView,
    KeyError, KeyErrorView, Signing, SigningMode, SigningView};
use crate::crypto;
use crate::failure::FailureView;
use crate::json;
use crate::json::JsonView;
use crate::places;
use crate::places::PlaceView;
use crate::text;

verus! {

/// Two settings turn development mode on, and nothing else does.
pub proof fn lemma_dev_mode(setting: Seq<char>)
    ensures
        auth::dev_mode_on(Some(setting)) <==> setting == "true"@ || setting == "1"@,
        !auth::dev_mode_on(None),
{
}

/// A private key comes first, then development mode, then the wallet.
pub proof fn lemma_mode(setting: Seq<char>)
    ensures
        auth::mode_of(true, Some(setting)) == SigningMode::PrivateKey,
        auth::mode_of(true, None) == SigningMode::PrivateKey,
        setting == "true"@ || setting == "1"@ ==> auth::mode_of(false, Some(setting))
            == SigningMode::DevMode,
        setting != "true"@ && setting != "1"@ ==> auth::mode_of(false, Some(setting))
            == SigningMode::Wallet,
        auth::mode_of(false, None) == SigningMode::Wallet,
{
}

/// What is signed names the network, the address in lower case and the time, whoever signs it. In
/// development mode nothing is signed.
pub proof fn lemma_what_is_signed(
    address: Seq<char>,
    timestamp: Seq<char>,
    key: Seq<char>,
    setting: Option<Seq<char>>,
)
    ensures
        ({
            let message = "AWP Predict WorkNet\nAddress: "@ + text::lower(address)
                + "\nTimestamp: "@ + timestamp;
            &&& auth::signed_text(text::lower(address), timestamp) == message
            &&& setting != Some("true"@) && setting != Some("1"@) ==> auth::signing(
                address,
                timestamp,
                None,
                setting,
            ) == SigningView::AskWallet(message)
            &&& setting == Some("true"@) || setting == Some("1"@) ==> auth::signing(
                address,
                timestamp,
                None,
                setting,
            ) == SigningView::Signed("dev"@)
            &&& auth::signing(address, timestamp, Some(key), setting) == (
            match auth::signed_with_key(key, text::lower(address), timestamp) {
                Ok(s) => SigningView::Signed(s),
                Err(e) => SigningView::Failed(e),
            })
        }),
{
}

/// A message is hashed behind "\x19Ethereum Signed Message:\n" and its length in bytes.
pub proof fn lemma_message_hash(message: Seq<u8>)
    ensures
        auth::personal_hash(message) == crypto::keccak(
            vstd::utf8::encode_utf8(
                "\x19Ethereum Signed Message:\n"@ + text::decimal(message.len()),
            ) + message,
        ),
{
}

/// Signing with a key signs that hash with that key, and writes the two numbers and the recovery
/// id raised by 27 in hexadecimal behind "0x". Where no signature comes of it, that is the error.
/// The prefix "0x" of a key makes no difference.
pub proof fn lemma_signed_with_key(
    digits: Seq<char>,
    key: Seq<u8>,
    address: Seq<char>,
    timestamp: Seq<char>,
    sig: Seq<u8>,
    recovery_id: u8,
)
    requires
        crypto::hex_value(digits) == Some(key),
        24 <= key.len() <= 32,
        0 < crypto::big_endian(key) < crypto::group_order(),
        digits.len() >= 2 ==> !(digits[0] == '0' && digits[1] == 'x'),
        recovery_id <= 3,
    ensures
        ({
            let message = vstd::utf8::encode_utf8(
                "AWP Predict WorkNet\nAddress: "@ + address + "\nTimestamp: "@ + timestamp,
            );
            let hash = crypto::keccak(
                vstd::utf8::encode_utf8(
                    "\x19Ethereum Signed Message:\n"@ + text::decimal(message.len()),
                ) + message,
            );
            &&& crypto::signature_of(key, hash) == Some((sig, recovery_id)) ==> auth::signed_with_key(
                digits,
                address,
                timestamp,
            ) == Ok::<Seq<char>, KeyErrorView>(
                "0x"@ + crypto::hex_text(sig.push((27 + recovery_id) as u8)),
            )
            &&& crypto::signature_of(key, hash) is None ==> auth::signed_with_key(
                digits,
                address,
                timestamp,
            ) == Err::<Seq<char>, KeyErrorView>(KeyErrorView::Signing("signature error"@))
        }),
        auth::address_of_key(digits) == Ok::<Seq<char>, KeyErrorView>(
            "0x"@ + crypto::hex_text(crypto::keccak(crypto::public_of(key).skip(1)).skip(12)),
        ),
        auth::signed_with_key("0x"@ + digits, address, timestamp) == auth::signed_with_key(
            digits,
            address,
            timestamp,
        ),
        auth::address_of_key("0x"@ + digits) == auth::address_of_key(digits),
{
    auth::lemma_prefix_ignored(digits, address, timestamp);
}

/// A key that is not hexadecimal, and one that is no private key, is refused before anything is
/// signed.
pub proof fn lemma_bad_keys(digits: Seq<char>, key: Seq<u8>, address: Seq<char>, timestamp: Seq<char>)
    requires
        digits.len() >= 2 ==> !(digits[0] == '0' && digits[1] == 'x'),
    ensures
        crypto::hex_value(digits) is None ==> auth::signed_with_key(digits, address, timestamp)
            == Err::<Seq<char>, KeyErrorView>(KeyErrorView::Hex(crypto::hex_fault(digits)))
            && auth::address_of_key(digits) == Err::<Seq<char>, KeyErrorView>(
            KeyErrorView::Hex(crypto::hex_fault(digits)),
        ),
        crypto::hex_value(digits) == Some(key) && !(24 <= key.len() <= 32 && 0 < crypto::big_endian(
            key,
        ) < crypto::group_order()) ==> auth::signed_with_key(digits, address, timestamp) == Err::<
            Seq<char>,
            KeyErrorView,
        >(KeyErrorView::Bytes("signature error"@)) && auth::address_of_key(digits) == Err::<
            Seq<char>,
            KeyErrorView,
        >(KeyErrorView::Bytes("signature error"@)),
{
}

/// What is wrong with a key is told with its cause.
pub proof fn lemma_key_errors(cause: Seq<char>)
    ensures
        KeyErrorView::Hex(cause).in_words().detail == "Invalid AWP_PRIVATE_KEY hex"@,
        KeyErrorView::Hex(cause).in_words().chain == "Invalid AWP_PRIVATE_KEY hex"@ + ": "@ + cause,
        KeyErrorView::Bytes(cause).in_words().detail == "Invalid private key bytes"@,
        KeyErrorView::Bytes(cause).in_words().chain == "Invalid private key bytes"@ + ": "@ + cause,
        KeyErrorView::Signing(cause).in_words().detail == cause,
        KeyErrorView::Signing(cause).in_words().chain == cause,
{
}

/// The headers have the address as it was given, the time that was signed, and the signature.
pub proof fn lemma_headers_made(
    address: Seq<char>,
    timestamp: Seq<char>,
    private_key: Option<Seq<char>>,
    dev_mode: Option<Seq<char>>,
)
    ensures
        auth::headers_at(address, None, private_key, dev_mode) == HeadersView::BadClock,
        match auth::signing(address, timestamp, private_key, dev_mode) {
            SigningView::Signed(signature) => auth::headers_at(
                address,
                Some(timestamp),
                private_key,
                dev_mode,
            ) == HeadersView::Ready(AuthView { address, timestamp, signature }),
            SigningView::Failed(e) => auth::headers_at(
                address,
                Some(timestamp),
                private_key,
                dev_mode,
            ) == HeadersView::Failed(e),
            SigningView::AskWallet(message) => auth::headers_at(
                address,
                Some(timestamp),
                private_key,
                dev_mode,
            ) == (HeadersView::AskWallet { timestamp, message }),
        },
{
}

/// The agent's address is the one that is given, in lower case; or else that of the private key;
/// or else the wallet is asked for it.
pub proof fn lemma_address_source(given: Seq<char>, key: Seq<char>, private_key: Option<Seq<char>>)
    ensures
        auth::address_source(Some(given), private_key) == AddressSourceView::Known(
            text::lower(given),
        ),
        auth::address_source(None, Some(key)) == (match auth::address_of_key(key) {
            Ok(a) => AddressSourceView::Known(a),
            Err(e) => AddressSourceView::Failed(e),
        }),
        auth::address_source(None, None) == AddressSourceView::AskWallet,
{
}

/// The wallet is asked with the agent and the token that are set, and without those that are
/// empty.
pub proof fn lemma_receive_args(agent_id: Seq<char>, token: Seq<char>)
    requires
        agent_id.len() > 0,
        token.len() > 0,
    ensures
        auth::receive_args(agent_id, token) == seq![
            "receive"@,
            "--agent"@,
            agent_id,
            "--token"@,
            token,
        ],
        auth::receive_args(Seq::empty(), token) == seq!["receive"@, "--token"@, token],
        auth::receive_args(agent_id, Seq::empty()) == seq!["receive"@, "--agent"@, agent_id],
        auth::receive_args(Seq::empty(), Seq::empty()) == seq!["receive"@],
{
    assert(auth::receive_args(agent_id, token) =~= seq![
        "receive"@,
        "--agent"@,
        agent_id,
        "--token"@,
        token,
    ]);
    assert(auth::receive_args(Seq::empty(), token) =~= seq!["receive"@, "--token"@, token]);
    assert(auth::receive_args(agent_id, Seq::empty()) =~= seq!["receive"@, "--agent"@, agent_id]);
    assert(auth::receive_args(Seq::empty(), Seq::empty()) =~= seq!["receive"@]);
}

/// The wallet's address is the text under "eoaAddress", or else under "address", in lower case.
pub proof fn lemma_wallet_address(
    m: Map<Seq<char>, JsonView>,
    a: Seq<char>,
    stdout: Seq<char>,
    cause: Seq<char>,
)
    ensures
        m.contains_pair("eoaAddress"@, JsonView::String(a)) ==> auth::address_field(
            JsonView::Object(m),
        ) == Ok::<Seq<char>, FailureView>(text::lower(a)),
        !m.contains_key("eoaAddress"@) && m.contains_pair("address"@, JsonView::String(a))
            ==> auth::address_field(JsonView::Object(m)) == Ok::<Seq<char>, FailureView>(
            text::lower(a),
        ),
        !m.contains_key("eoaAddress"@) && !m.contains_key("address"@) ==> auth::address_field(
            JsonView::Object(m),
        ) == Err::<Seq<char>, FailureView>(
            FailureView {
                detail: "awp-wallet response missing 'eoaAddress' field"@,
                chain: "awp-wallet response missing 'eoaAddress' field"@,
            },
        ),
        json::text_read(stdout) == Ok::<JsonView, Seq<char>>(JsonView::Object(m))
            ==> auth::wallet_address(true, stdout) == auth::address_field(JsonView::Object(m)),
        json::text_read(stdout) == Err::<JsonView, Seq<char>>(cause) ==> auth::wallet_address(
            true,
            stdout,
        ) == Err::<Seq<char>, FailureView>(
            FailureView {
                detail: "awp-wallet returned invalid JSON"@,
                chain: "awp-wallet returned invalid JSON"@ + ": "@ + cause,
            },
        ),
        auth::wallet_address(false, stdout) == Err::<Seq<char>, FailureView>(
            FailureView {
                detail: "awp-wallet is locked. Run: awp-wallet unlock --duration 86400 --scope full"@,
                chain: "awp-wallet is locked. Run: awp-wallet unlock --duration 86400 --scope full"@,
            },
        ),
{
}

/// The wallet's signature is the text under "signature"; a wallet that fails, writes no JSON or
/// gives no signature is an error each.
pub proof fn lemma_wallet_signature(
    m: Map<Seq<char>, JsonView>,
    signature: Seq<char>,
    stdout: Seq<char>,
    failed: Seq<char>,
    cause: Seq<char>,
)
    ensures
        m.contains_pair("signature"@, JsonView::String(signature)) ==> auth::signature_field(
            JsonView::Object(m),
        ) == Ok::<Seq<char>, FailureView>(signature),
        !m.contains_key("signature"@) ==> auth::signature_field(JsonView::Object(m)) == Err::<
            Seq<char>,
            FailureView,
        >(
            FailureView {
                detail: "awp-wallet response missing 'signature' field"@,
                chain: "awp-wallet response missing 'signature' field"@,
            },
        ),
        json::text_read(stdout) == Ok::<JsonView, Seq<char>>(JsonView::Object(m))
            ==> auth::wallet_signature(true, stdout, failed) == auth::signature_field(
            JsonView::Object(m),
        ),
        json::text_read(stdout) == Err::<JsonView, Seq<char>>(cause) ==> auth::wallet_signature(
            true,
            stdout,
            failed,
        ) == Err::<Seq<char>, FailureView>(
            FailureView {
                detail: "awp-wallet returned invalid JSON"@,
                chain: "awp-wallet returned invalid JSON"@ + ": "@ + cause,
            },
        ),
        auth::wallet_signature(false, stdout, failed) == Err::<Seq<char>, FailureView>(
            FailureView { detail: failed, chain: failed },
        ),
{
}

/// The wallet signs a message with its token; without a token it cannot be asked.
pub proof fn lemma_sign_args(token: Seq<char>, message: Seq<char>)
    ensures
        auth::sign_args(Some(token), message) == Ok::<Seq<Seq<char>>, FailureView>(
            seq!["sign-message"@, "--token"@, token, "--message"@, message],
        ),
        auth::sign_args(None, message) == Err::<Seq<Seq<char>>, FailureView>(
            FailureView {
                detail: "AWP_WALLET_TOKEN not set. Run: awp-wallet unlock --duration 86400"@,
                chain: "AWP_WALLET_TOKEN not set. Run: awp-wallet unlock --duration 86400"@ + ": "@
                    + "environment variable not found"@,
            },
        ),
{
}

/// The wallet is looked for along the search path, where it is called by its own path, and then in
/// five fixed places.
pub proof fn lemma_wallet_places(path_var: Seq<char>, home: Seq<char>, i: int)
    requires
        0 <= i < places::split_colons(path_var).len(),
    ensures
        ({
            let dirs = places::split_colons(path_var);
            let n = dirs.len() as int;
            let list = auth::wallet_places(path_var, home);
            &&& list.len() == n + 5
            &&& list[i] == (PlaceView {
                file: places::joined(dirs[i], "awp-wallet"@),
                command: places::joined(dirs[i], "awp-wallet"@),
            })
            &&& list[n].file == home + "/.local/bin/awp-wallet"@
            &&& list[n + 1].file == home + "/.npm-global/bin/awp-wallet"@
            &&& list[n + 2].file == home + "/.yarn/bin/awp-wallet"@
            &&& list[n + 3].file == "/usr/local/bin/awp-wallet"@
            &&& list[n + 4].file == "/usr/bin/awp-wallet"@
            &&& forall|j: int| n <= j < n + 5 ==> (#[trigger] list[j]).command == list[j].file
        }),
{
}

/// Headers, keys and addresses stand for what they hold.
pub proof fn lemma_identity_values(h: AuthHeaders, s: String, t: String, e: KeyError)
    ensures
        h@.address == h.address@,
        h@.timestamp == h.timestamp@,
        h@.signature == h.signature@,
        KeyError::Hex(s)@ == KeyErrorView::Hex(s@),
        KeyError::Bytes(s)@ == KeyErrorView::Bytes(s@),
        KeyError::Signing(s)@ == KeyErrorView::Signing(s@),
        Signing::Signed(s)@ == SigningView::Signed(s@),
        Signing::Failed(e)@ == SigningView::Failed(e@),
        Signing::AskWallet(s)@ == SigningView::AskWallet(s@),
        Headers::Ready(h)@ == HeadersView::Ready(h@),
        Headers::Failed(e)@ == HeadersView::Failed(e@),
        Headers::BadClock@ == HeadersView::BadClock,
        (Headers::AskWallet { timestamp: s, message: t })@ == (HeadersView::AskWallet {
            timestamp: s@,
            message: t@,
        }),
        AddressSource::Known(s)@ == AddressSourceView::Known(s@),
        AddressSource::Failed(e)@ == AddressSourceView::Failed(e@),
        AddressSource::AskWallet@ == AddressSourceView::AskWallet,
{
}

/// Hexadecimal text writes a byte with the digits of its sixteens and of its ones.
pub proof fn lemma_hex(b: Seq<u8>, i: int)
    requires
        0 <= i < b.len(),
    ensures
        crypto::hex_text(b).len() == 2 * b.len(),
        crypto::digit_value(crypto::hex_text(b)[2 * i]) == Some(b[i] as int / 16),
        crypto::digit_value(crypto::hex_text(b)[2 * i + 1]) == Some(b[i] as int % 16),
        !('A' <= crypto::hex_text(b)[2 * i] <= 'F'),
        !('A' <= crypto::hex_text(b)[2 * i + 1] <= 'F'),
    decreases b.len(),
{
    crypto::lemma_hex_text_len(b);
    crypto::lemma_hex_text_len(b.drop_last());
    if i < b.len() - 1 {
        lemma_hex(b.drop_last(), i);
        assert(b.drop_last()[i] == b[i]);
        assert(crypto::hex_text(b)[2 * i] == crypto::hex_text(b.drop_last())[2 * i]);
        assert(crypto::hex_text(b)[2 * i + 1] == crypto::hex_text(b.drop_last())[2 * i + 1]);
    } else {
        assert(crypto::hex_text(b)[2 * i] == crypto::hex_digit(b[i] as int / 16));
        assert(crypto::hex_text(b)[2 * i + 1] == crypto::hex_digit(b[i] as int % 16));
    }
}

} // verus!
