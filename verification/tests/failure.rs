use predict_agent::failure::Failure;

#[test]
fn errors_with_and_without_a_cause() {
    let f = Failure::plain("a".to_string());
    assert_eq!((f.detail.as_str(), f.chain.as_str()), ("a", "a"));
    let f = Failure::caused("a", "b: c");
    assert_eq!((f.detail.as_str(), f.chain.as_str()), ("a", "a: b: c"));
}
