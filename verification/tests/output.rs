use predict_agent::json::Json;
use predict_agent::output::{Internal, Output};

#[test]
fn successes_have_data() {
    let o = Output::success("m".to_string(), Json::Null, Internal::default());
    assert!(o.ok);
    assert_eq!(o.user_message, "m");
    assert_eq!(o.data, Some(Json::Null));
    assert_eq!(o.error, None);
    assert_eq!(o._internal, Internal::act(""));
}

#[test]
fn failures_have_an_error() {
    let o = Output::error("m".to_string(), "C", "k", true, "s", Internal::act("a").run("c").wait(5).at("1/4"));
    assert!(!o.ok);
    assert_eq!(o.data, None);
    let e = o.error.unwrap();
    assert_eq!((e.code.as_str(), e.category.as_str(), e.retryable, e.suggestion.as_str()), ("C", "k", true, "s"));
    assert_eq!(e.debug, None);
    assert_eq!(o._internal.next_action, "a");
    assert_eq!(o._internal.next_command.as_deref(), Some("c"));
    assert_eq!(o._internal.wait_seconds, Some(5));
    assert_eq!(o._internal.progress.as_deref(), Some("1/4"));
    assert_eq!(o._internal.submittable_markets, None);
    let o = Output::error_with_debug("m".to_string(), "C", "k", false, "s", Json::unsigned(1), Internal::act("a").offer(vec![]));
    assert_eq!(o.error.unwrap().debug, Some(Json::unsigned(1)));
    assert_eq!(o._internal.options, Some(vec![]));
}
