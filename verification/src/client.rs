//! Requests to the coordinator, and what its answers mean.

use vstd::prelude::*;

use crate::auth::{AuthHeaders, AuthView};
use crate::failure;
use crate::failure::{Failure, FailureView};
use crate::json;
use crate::json::{Json, JsonView};
use crate::output;

verus! {

/// The error for an agent without an address.
pub const NO_ADDRESS: &'static str =
    "Could not determine wallet address. Set AWP_ADDRESS, AWP_PRIVATE_KEY, or configure awp-wallet.";

/// Who asks the coordinator, and where it is.
#[derive(Debug, PartialEq, Eq)]
pub struct ApiClient {
    pub base_url: String,
    pub address: String,
}

/// A request to the coordinator: one that fetches where it has no body, one that posts where it
/// has one.
#[derive(Debug, PartialEq, Eq)]
pub struct HttpRequest {
    pub url: String,
    pub headers: Vec<(String, String)>,
    pub body: Option<Json>,
}

#[verifier::ext_equal]
pub struct RequestView {
    pub url: Seq<char>,
    pub headers: Seq<(Seq<char>, Seq<char>)>,
    pub body: Option<JsonView>,
}

impl HttpRequest {
    pub open spec fn view(&self) -> RequestView {
        RequestView {
            url: self.url@,
            headers: self.headers@.map_values(|h: (String, String)| (h.0@, h.1@)),
            body: output::opt_json(self.body),
        }
    }
}

/// The headers that sign a request.
pub open spec fn auth_fields(auth: AuthView) -> Seq<(Seq<char>, Seq<char>)> {
    seq![
        ("X-AWP-Address"@, auth.address),
        ("X-AWP-Timestamp"@, auth.timestamp),
        ("X-AWP-Signature"@, auth.signature),
    ]
}

fn signed_headers(auth: &AuthHeaders) -> (r: Vec<(String, String)>)
    ensures
        r@.map_values(|h: (String, String)| (h.0@, h.1@)) == auth_fields(auth@),
{
    let mut v: Vec<(String, String)> = Vec::new();
    v.push(("X-AWP-Address".to_owned(), auth.address.clone()));
    v.push(("X-AWP-Timestamp".to_owned(), auth.timestamp.clone()));
    v.push(("X-AWP-Signature".to_owned(), auth.signature.clone()));
    assert(v@.map_values(|h: (String, String)| (h.0@, h.1@)) =~= auth_fields(auth@));
    v
}

fn full_url(base: &str, path: &str) -> (r: String)
    ensures
        r@ == base@ + path@,
{
    let mut url = base.to_owned();
    url.append(path);
    url
}

impl ApiClient {
    /// A client for an address, or an error where there is none.
    pub fn new(base_url: String, address: Result<String, Failure>) -> (r: Result<
        ApiClient,
        Failure,
    >)
        ensures
            match address {
                Ok(a) => r == Ok::<ApiClient, Failure>(ApiClient { base_url, address: a }),
                Err(f) => r matches Err(e) && e@ == FailureView::caused(NO_ADDRESS@, f.chain@),
            },
    {
        match address {
            Ok(address) => Ok(ApiClient { base_url, address }),
            Err(f) => Err(Failure::caused(NO_ADDRESS, f.chain.as_str())),
        }
    }

    /// The request that fetches a path.
    pub fn get(&self, path: &str) -> (r: HttpRequest)
        ensures
            r@ == (RequestView {
                url: self.base_url@ + path@,
                headers: Seq::empty(),
                body: None,
            }),
    {
        let headers: Vec<(String, String)> = Vec::new();
        assert(headers@.map_values(|h: (String, String)| (h.0@, h.1@)) =~= Seq::empty());
        HttpRequest { url: full_url(self.base_url.as_str(), path), headers, body: None }
    }

    /// The signed request that fetches a path.
    pub fn get_auth(&self, path: &str, auth: &AuthHeaders) -> (r: HttpRequest)
        ensures
            r@ == (RequestView {
                url: self.base_url@ + path@,
                headers: auth_fields(auth@),
                body: None,
            }),
    {
        HttpRequest {
            url: full_url(self.base_url.as_str(), path),
            headers: signed_headers(auth),
            body: None,
        }
    }

    /// The signed request that posts to a path.
    pub fn post_auth(&self, path: &str, auth: &AuthHeaders, body: Json) -> (r: HttpRequest)
        ensures
            r@ == (RequestView {
                url: self.base_url@ + path@,
                headers: auth_fields(auth@),
                body: Some(body@),
            }),
    {
        HttpRequest {
            url: full_url(self.base_url.as_str(), path),
            headers: signed_headers(auth),
            body: Some(body),
        }
    }
}

/// What an answer in JSON means: it counts where the status is 200 or 201, and is an error that
/// quotes it otherwise.
pub open spec fn judged(
    status: u16,
    status_text: Seq<char>,
    body: JsonView,
    written: Seq<char>,
) -> Result<JsonView, FailureView> {
    if status == 200 || status == 201 {
        Ok(body)
    } else {
        Err(FailureView::plain("HTTP "@ + status_text + ": "@ + written))
    }
}

/// The error for an answer that is not JSON, with what is wrong with it.
pub open spec fn not_json(detail: Seq<char>, cause: Seq<char>) -> FailureView {
    FailureView::caused(detail, "error decoding response body: "@ + cause)
}

/// What an answer means: it has to be JSON, and is then judged by its status.
pub open spec fn response(status: u16, status_text: Seq<char>, body: Seq<u8>) -> Result<
    JsonView,
    FailureView,
> {
    match json::bytes_read(body) {
        Err(cause) => Err(not_json("Response was not valid JSON"@, cause)),
        Ok(v) => judged(status, status_text, v, json::compact_text(v)),
    }
}

/// What an answer in JSON means; `written` is its text.
pub fn judge(status: u16, status_text: &str, body: Json, written: &str) -> (r: Result<
    Json,
    Failure,
>)
    ensures
        failure::answered(r) == judged(status, status_text@, body@, written@),
{
    if status == 200 || status == 201 {
        Ok(body)
    } else {
        let mut e = "HTTP ".to_owned();
        e.append(status_text);
        e.append(": ");
        e.append(written);
        Err(Failure::plain(e))
    }
}

/// The error for an answer that is not JSON, with what is wrong with it.
pub fn undecodable(detail: &str, cause: &str) -> (r: Failure)
    ensures
        r@ == not_json(detail@, cause@),
{
    let mut why = "error decoding response body: ".to_owned();
    why.append(cause);
    Failure::caused(detail, why.as_str())
}

/// What an answer means; `status_text` is its status in words.
pub fn parse_response(status: u16, status_text: &str, body: &[u8]) -> (r: Result<Json, Failure>)
    ensures
        failure::answered(r) == response(status, status_text@, body@),
{
    match json::parse_bytes(body) {
        Ok(read) => judge(status, status_text, read.0, read.1.as_str()),
        Err(cause) => Err(undecodable("Response was not valid JSON", cause.as_str())),
    }
}

/// The URL that tells whether the coordinator is there.
pub fn check_server_url(base_url: &str) -> (r: String)
    ensures
        r@ == base_url@ + "/api/v1/feed/stats"@,
{
    full_url(base_url, "/api/v1/feed/stats")
}

/// Whether the coordinator is there, by the status of its answer: any success will do.
pub fn check_server(status: u16, status_text: &str) -> (r: Result<(), Failure>)
    ensures
        match r {
            Ok(_) => 200 <= status < 300,
            Err(f) => !(200 <= status < 300) && f@ == FailureView::plain(
                "Coordinator returned HTTP "@ + status_text@,
            ),
        },
{
    if 200 <= status && status < 300 {
        Ok(())
    } else {
        let mut e = "Coordinator returned HTTP ".to_owned();
        e.append(status_text);
        Err(Failure::plain(e))
    }
}

} // verus!
