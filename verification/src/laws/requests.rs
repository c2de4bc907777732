//! Laws of requests to the coordinator and of what its answers mean, and of the tool that runs the
//! model.

use vstd::prelude::*;

use crate::auth::AuthView;
use crate::client;
use crate::client::HttpRequest;
use crate::cmd::openclaw;
use crate::failure::FailureView;
use crate::json;
use crate::json::JsonView;
use crate::laws::texts;
use crate::places;
use crate::places::{Place, PlaceView};
use crate::text;

verus! {

/// The address, the time and the signature of a request each go into the header of their name.
pub proof fn lemma_headers(auth: AuthView)
    ensures
        client::auth_fields(auth).len() == 3,
        client::auth_fields(auth)[0] == ("X-AWP-Address"@, auth.address),
        client::auth_fields(auth)[1] == ("X-AWP-Timestamp"@, auth.timestamp),
        client::auth_fields(auth)[2] == ("X-AWP-Signature"@, auth.signature),
{
}

/// An answer in JSON counts with a status of 200 or 201, and with no other: it is then the value
/// itself, and otherwise an error that quotes the status and the value.
pub proof fn lemma_status(status: u16, status_text: Seq<char>, v: JsonView, written: Seq<char>)
    ensures
        status == 200 || status == 201 ==> client::judged(status, status_text, v, written) == Ok::<
            JsonView,
            FailureView,
        >(v),
        status != 200 && status != 201 ==> {
            let words = "HTTP "@ + status_text + ": "@ + written;
            client::judged(status, status_text, v, written) == Err::<JsonView, FailureView>(
                FailureView { detail: words, chain: words },
            )
        },
{
}

/// The bytes of an answer count where they are JSON, by their status; otherwise they are an error,
/// whatever the status is.
pub proof fn lemma_response(
    status: u16,
    status_text: Seq<char>,
    body: Seq<u8>,
    v: JsonView,
    cause: Seq<char>,
)
    ensures
        json::bytes_read(body) == Ok::<JsonView, Seq<char>>(v) && (status == 200 || status == 201)
            ==> client::response(status, status_text, body) == Ok::<JsonView, FailureView>(v),
        json::bytes_read(body) == Ok::<JsonView, Seq<char>>(v) && status != 200 && status != 201
            ==> {
            let words = "HTTP "@ + status_text + ": "@ + json::compact_text(v);
            client::response(status, status_text, body) == Err::<JsonView, FailureView>(
                FailureView { detail: words, chain: words },
            )
        },
        json::bytes_read(body) == Err::<JsonView, Seq<char>>(cause) ==> client::response(
            status,
            status_text,
            body,
        ) == Err::<JsonView, FailureView>(
            FailureView {
                detail: "Response was not valid JSON"@,
                chain: "Response was not valid JSON"@ + ": "@ + ("error decoding response body: "@
                    + cause),
            },
        ),
{
}

/// A request stands for its URL, its headers and its body.
pub proof fn lemma_request_values(q: HttpRequest, i: int)
    ensures
        q@.url == q.url@,
        q@.headers.len() == q.headers@.len(),
        0 <= i < q.headers@.len() ==> q@.headers[i] == (q.headers@[i].0@, q.headers@[i].1@),
        q.body is None ==> q@.body is None,
        q.body is Some ==> q@.body == Some(q.body->0@),
{
}

// The tool that runs the model.

/// An agent is created unless the tool could list its agents and the list has its id somewhere.
pub proof fn lemma_agent_created(before: Seq<char>, agent_id: Seq<char>, after: Seq<char>, listing: Seq<char>)
    ensures
        openclaw::must_create(None, agent_id),
        !openclaw::must_create(Some(before + agent_id + after), agent_id),
        openclaw::must_create(Some(listing), agent_id) <==> !text::contains(listing, agent_id),
{
    texts::lemma_contained(before, agent_id, after);
}

/// An agent is created under its id, with a workspace of its own below the home directory, or
/// below /tmp where there is none.
pub proof fn lemma_create_args(home: Seq<char>, agent_id: Seq<char>)
    ensures
        openclaw::create_args(Some(home), agent_id) == seq![
            "agents"@,
            "add"@,
            agent_id,
            "--workspace"@,
            home + "/.openclaw/workspace-"@ + agent_id,
            "--non-interactive"@,
        ],
        openclaw::create_args(None, agent_id) == openclaw::create_args(Some("/tmp"@), agent_id),
{
}

/// What the tool wrote is the model's answer, unchanged, where the tool succeeded and wrote more
/// than white space. A tool that failed gives an error with its status and what it complained
/// about, which says so where it speaks of a rate limit or of 429.
pub proof fn lemma_tool_answer(
    code: Option<i32>,
    stdout: Seq<char>,
    stderr: Seq<char>,
    i: int,
)
    ensures
        0 <= i < stdout.len() && !text::white(stdout[i]) ==> openclaw::answer_of(
            true,
            code,
            stdout,
            stderr,
        ) == Ok::<Seq<char>, Seq<char>>(stdout),
        (forall|j: int| 0 <= j < stdout.len() ==> text::white(#[trigger] stdout[j]))
            ==> openclaw::answer_of(true, code, stdout, stderr) == Err::<Seq<char>, Seq<char>>(
            "openclaw returned empty response"@,
        ),
        ({
            let shown = match code {
                Some(c) => text::signed_decimal(c as int),
                None => text::signed_decimal(-1),
            };
            let limited = text::contains(stderr, "rate limit"@) || text::contains(stderr, "429"@);
            let front = if limited {
                "OpenClaw rate limited (exit "@
            } else {
                "openclaw failed (exit "@
            };
            openclaw::answer_of(false, code, stdout, stderr) == Err::<Seq<char>, Seq<char>>(
                front + shown + "): "@ + text::trimmed(stderr),
            )
        }),
{
    let bounds = texts::lemma_trimming(stdout);
    if bounds.0 < bounds.1 {
        assert(!text::white(stdout[bounds.0]));
    }
}

/// The tool is looked for under each of its three names along the search path, name by name, and
/// then in three fixed places.
pub proof fn lemma_tool_places(path_var: Seq<char>, home: Seq<char>, i: int)
    requires
        0 <= i < places::split_colons(path_var).len(),
    ensures
        ({
            let dirs = places::split_colons(path_var);
            let n = dirs.len() as int;
            let list = openclaw::tool_places(path_var, home);
            &&& list.len() == 3 * n + 3
            &&& list[i] == (PlaceView {
                file: places::joined(dirs[i], "openclaw"@),
                command: "openclaw"@,
            })
            &&& list[n + i] == (PlaceView {
                file: places::joined(dirs[i], "openclaw.mjs"@),
                command: "openclaw.mjs"@,
            })
            &&& list[2 * n + i] == (PlaceView {
                file: places::joined(dirs[i], "openclaw.cmd"@),
                command: "openclaw.cmd"@,
            })
            &&& list[3 * n].file == home + "/.local/bin/openclaw"@
            &&& list[3 * n + 1].file == home + "/.npm-global/bin/openclaw"@
            &&& list[3 * n + 2].file == "/usr/local/bin/openclaw"@
            &&& list[3 * n].command == list[3 * n].file
            &&& list[3 * n + 1].command == list[3 * n + 1].file
            &&& list[3 * n + 2].command == list[3 * n + 2].file
        }),
{
}

/// A place stands for its file and its command, and a list of places for its places in order.
pub proof fn lemma_place_values(p: Place, list: Seq<Place>, i: int)
    ensures
        p@.file == p.file@,
        p@.command == p.command@,
        places::places_view(list).len() == list.len(),
        0 <= i < list.len() ==> places::places_view(list)[i] == list[i]@,
{
}

} // verus!
