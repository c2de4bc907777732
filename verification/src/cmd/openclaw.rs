//! The command line tool that runs the model.

use vstd::prelude::*;

use crate::json;
use crate::places;
use crate::places::{Place, PlaceView};
use crate::text;

verus! {

/// Where the tool may be, in the order in which it is looked for: under any of its names on the
/// search path, and then where installers put it.
pub open spec fn tool_places(path_var: Seq<char>, home: Seq<char>) -> Seq<PlaceView> {
    places::path_places(path_var, "openclaw"@, Some("openclaw"@)) + places::path_places(
        path_var,
        "openclaw.mjs"@,
        Some("openclaw.mjs"@),
    ) + places::path_places(path_var, "openclaw.cmd"@, Some("openclaw.cmd"@)) + seq![
        places::fixed(home + "/.local/bin/openclaw"@),
        places::fixed(home + "/.npm-global/bin/openclaw"@),
        places::fixed("/usr/local/bin/openclaw"@),
    ]
}

/// Where the tool may be, in the order in which it is looked for.
pub fn detect_openclaw(path_var: &str, home: &str) -> (r: Vec<Place>)
    ensures
        places::places_view(r@) == tool_places(path_var@, home@),
{
    let mut list = places::search_path(path_var, "openclaw", Some("openclaw"));
    let mut second = places::search_path(path_var, "openclaw.mjs", Some("openclaw.mjs"));
    let mut third = places::search_path(path_var, "openclaw.cmd", Some("openclaw.cmd"));
    let ghost a = list@;
    let ghost b = second@;
    let ghost c = third@;
    list.append(&mut second);
    list.append(&mut third);
    list.push(places::below(home, "/.local/bin/openclaw"));
    list.push(places::below(home, "/.npm-global/bin/openclaw"));
    list.push(places::exactly("/usr/local/bin/openclaw"));
    proof {
        assert(places::places_view(a + b + c) =~= places::places_view(a) + places::places_view(b)
            + places::places_view(c));
        assert(list@.take((a + b + c).len() as int) =~= a + b + c);
        assert(places::places_view(list@) =~= tool_places(path_var@, home@));
    }
    list
}

/// The views of some arguments.
pub open spec fn args_view(args: Seq<String>) -> Seq<Seq<char>> {
    args.map_values(|s: String| s@)
}

/// The arguments that list the tool's agents.
pub fn list_agents_args() -> (r: Vec<String>)
    ensures
        args_view(r@) == seq!["agents"@, "list"@],
{
    let mut v: Vec<String> = Vec::new();
    v.push("agents".to_owned());
    v.push("list".to_owned());
    assert(args_view(v@) =~= seq!["agents"@, "list"@]);
    v
}

/// Whether an agent has to be created: unless the tool could list its agents and the list names
/// it.
pub open spec fn must_create(listing: Option<Seq<char>>, agent_id: Seq<char>) -> bool {
    match listing {
        Some(t) => !text::contains(t, agent_id),
        None => true,
    }
}

/// Whether an agent has to be created; `listing` is what the tool wrote when it was asked for its
/// agents.
pub fn needs_agent(listing: Option<&str>, agent_id: &str) -> (r: bool)
    ensures
        r == must_create(json::maybe_text(listing), agent_id@),
{
    match listing {
        Some(t) => !text::contains_text(t, agent_id),
        None => true,
    }
}

/// The arguments that create an agent, with its workspace below the home directory.
pub open spec fn create_args(home: Option<Seq<char>>, agent_id: Seq<char>) -> Seq<Seq<char>> {
    let base = match home {
        Some(h) => h,
        None => "/tmp"@,
    };
    seq![
        "agents"@,
        "add"@,
        agent_id,
        "--workspace"@,
        base + "/.openclaw/workspace-"@ + agent_id,
        "--non-interactive"@,
    ]
}

/// The arguments that create an agent.
pub fn ensure_agent(home: Option<&str>, agent_id: &str) -> (r: Vec<String>)
    ensures
        args_view(r@) == create_args(json::maybe_text(home), agent_id@),
{
    let mut workspace = match home {
        Some(h) => h.to_owned(),
        None => "/tmp".to_owned(),
    };
    workspace.append("/.openclaw/workspace-");
    workspace.append(agent_id);
    let mut v: Vec<String> = Vec::new();
    v.push("agents".to_owned());
    v.push("add".to_owned());
    v.push(agent_id.to_owned());
    v.push("--workspace".to_owned());
    v.push(workspace);
    v.push("--non-interactive".to_owned());
    assert(args_view(v@) =~= create_args(json::maybe_text(home), agent_id@));
    v
}

/// The arguments that clear an agent's sessions.
pub fn purge_args(agent_id: &str) -> (r: Vec<String>)
    ensures
        args_view(r@) == seq!["sessions"@, "purge"@, "--agent"@, agent_id@, "--yes"@],
{
    let mut v: Vec<String> = Vec::new();
    v.push("sessions".to_owned());
    v.push("purge".to_owned());
    v.push("--agent".to_owned());
    v.push(agent_id.to_owned());
    v.push("--yes".to_owned());
    assert(args_view(v@) =~= seq!["sessions"@, "purge"@, "--agent"@, agent_id@, "--yes"@]);
    v
}

/// The arguments that put a prompt to an agent.
pub fn ask_args(agent_id: &str, prompt: &str) -> (r: Vec<String>)
    ensures
        args_view(r@) == seq!["agent"@, "--agent"@, agent_id@, "--message"@, prompt@],
{
    let mut v: Vec<String> = Vec::new();
    v.push("agent".to_owned());
    v.push("--agent".to_owned());
    v.push(agent_id.to_owned());
    v.push("--message".to_owned());
    v.push(prompt.to_owned());
    assert(args_view(v@) =~= seq!["agent"@, "--agent"@, agent_id@, "--message"@, prompt@]);
    v
}

/// The text for a tool that failed.
pub open spec fn failure_text(code: Option<i32>, stderr: Seq<char>) -> Seq<char> {
    let shown = text::signed_decimal(
        match code {
            Some(c) => c as int,
            None => -1,
        },
    );
    (if text::contains(stderr, "rate limit"@) || text::contains(stderr, "429"@) {
        "OpenClaw rate limited (exit "@
    } else {
        "openclaw failed (exit "@
    }) + shown + "): "@ + text::trimmed(stderr)
}

/// What the tool answered: what it wrote, unless it failed or wrote nothing but white space.
pub open spec fn answer_of(
    success: bool,
    code: Option<i32>,
    stdout: Seq<char>,
    stderr: Seq<char>,
) -> Result<Seq<char>, Seq<char>> {
    if !success {
        Err(failure_text(code, stderr))
    } else if text::trimmed(stdout).len() == 0 {
        Err("openclaw returned empty response"@)
    } else {
        Ok(stdout)
    }
}

/// What the tool answered; `code` is the status that it ended with, if it ended by itself.
pub fn call_openclaw(success: bool, code: Option<i32>, stdout: String, stderr: &str) -> (r: Result<
    String,
    String,
>)
    ensures
        answer_of(success, code, stdout@, stderr@) == match r {
            Ok(t) => Ok(t@),
            Err(e) => Err(e@),
        },
{
    if !success {
        let shown: i64 = match code {
            Some(c) => c as i64,
            None => -1,
        };
        let mut e = if text::contains_text(stderr, "rate limit") || text::contains_text(
            stderr,
            "429",
        ) {
            "OpenClaw rate limited (exit ".to_owned()
        } else {
            "openclaw failed (exit ".to_owned()
        };
        e.append(text::i64_text(shown).as_str());
        e.append("): ");
        e.append(text::trim(stderr));
        return Err(e);
    }
    if text::trim(stdout.as_str()).is_empty() {
        return Err("openclaw returned empty response".to_owned());
    }
    Ok(stdout)
}

} // verus!
