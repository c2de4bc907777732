use predict_agent::cmd::openclaw;

#[test]
fn where_the_tool_may_be() {
    let list = openclaw::detect_openclaw("/a:/b", "/h");
    let shown: Vec<(String, String)> = list.into_iter().map(|p| (p.file, p.command)).collect();
    assert_eq!(shown.len(), 9);
    assert_eq!(shown[0], ("/a/openclaw".to_string(), "openclaw".to_string()));
    assert_eq!(shown[1], ("/b/openclaw".to_string(), "openclaw".to_string()));
    assert_eq!(shown[3], ("/b/openclaw.mjs".to_string(), "openclaw.mjs".to_string()));
    assert_eq!(shown[4], ("/a/openclaw.cmd".to_string(), "openclaw.cmd".to_string()));
    assert_eq!(shown[6], ("/h/.local/bin/openclaw".to_string(), "/h/.local/bin/openclaw".to_string()));
    assert_eq!(shown[7].0, "/h/.npm-global/bin/openclaw");
    assert_eq!(shown[8].0, "/usr/local/bin/openclaw");
}

#[test]
fn agents_of_the_tool() {
    assert_eq!(openclaw::list_agents_args(), vec!["agents", "list"]);
    assert!(!openclaw::needs_agent(Some("main\npredict-worker\n"), "predict-worker"));
    assert!(openclaw::needs_agent(Some("main"), "predict-worker"));
    assert!(openclaw::needs_agent(None, "predict-worker"));
    assert_eq!(
        openclaw::ensure_agent(Some("/h"), "w"),
        vec!["agents", "add", "w", "--workspace", "/h/.openclaw/workspace-w", "--non-interactive"]
    );
    assert_eq!(openclaw::ensure_agent(None, "w")[4], "/tmp/.openclaw/workspace-w");
}

#[test]
fn arguments_of_a_call() {
    assert_eq!(openclaw::purge_args("w"), vec!["sessions", "purge", "--agent", "w", "--yes"]);
    assert_eq!(openclaw::ask_args("w", "hi"), vec!["agent", "--agent", "w", "--message", "hi"]);
}

#[test]
fn answers_of_the_tool() {
    assert_eq!(openclaw::call_openclaw(true, Some(0), " x\n".to_string(), "noise"), Ok(" x\n".to_string()));
    assert_eq!(
        openclaw::call_openclaw(true, Some(0), " \n".to_string(), ""),
        Err("openclaw returned empty response".to_string())
    );
    assert_eq!(
        openclaw::call_openclaw(false, Some(3), "x".to_string(), " boom \n"),
        Err("openclaw failed (exit 3): boom".to_string())
    );
    assert_eq!(
        openclaw::call_openclaw(false, None, "x".to_string(), "HTTP 429"),
        Err("OpenClaw rate limited (exit -1): HTTP 429".to_string())
    );
    assert_eq!(
        openclaw::call_openclaw(false, Some(1), "x".to_string(), "hit the rate limit"),
        Err("OpenClaw rate limited (exit 1): hit the rate limit".to_string())
    );
}
