use predict_agent::places;

#[test]
fn search_paths_are_split_at_colons() {
    assert_eq!(places::split("/a:/b"), vec!["/a", "/b"]);
    assert_eq!(places::split(""), vec![""]);
    assert_eq!(places::split(":/b:"), vec!["", "/b", ""]);
}

#[test]
fn joined_paths_are_those_of_the_standard_library() {
    for dir in ["", "/", "/a", "/a/", "a/b", "."] {
        let want = std::path::Path::new(dir).join("tool").to_str().unwrap().to_string();
        assert_eq!(places::join(dir, "tool"), want, "{}", dir);
    }
}

#[test]
fn programs_on_the_search_path() {
    let by_name = places::search_path("/a:/b", "tool", Some("tool"));
    assert_eq!(by_name.len(), 2);
    assert_eq!(by_name[1].file, "/b/tool");
    assert_eq!(by_name[1].command, "tool");
    let by_path = places::search_path("/a:/b", "tool", None);
    assert_eq!(by_path[0].command, "/a/tool");
}

#[test]
fn the_first_place_that_is_there() {
    let list = places::search_path("/a:/b:/c", "tool", None);
    assert_eq!(places::locate(&list, &vec![false, true, true]), Some("/b/tool".to_string()));
    assert_eq!(places::locate(&list, &vec![false, false, false]), None);
}
