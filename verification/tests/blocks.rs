use zutils::blocks::apply_block;
use zutils::blocks::begin_marker;
use zutils::blocks::end_marker;
use zutils::blocks::find_marker_line;

fn lines(v: &[&str]) -> Vec<String> {
    v.iter().map(|s| s.to_string()).collect()
}

#[test]
fn test_markers_render() {
    assert_eq!(begin_marker("x"), "# zws_auto begin x");
    assert_eq!(end_marker("x"), "# zws_auto end x");
}

#[test]
fn test_fresh_block_is_appended() {
    let file = lines(&["export PATH=$PATH:/usr/local/bin"]);
    let content = lines(&["export FOO=1"]);
    let out = apply_block(&file, "x", &content);
    assert_eq!(
        out,
        lines(&[
            "export PATH=$PATH:/usr/local/bin",
            "",
            "# zws_auto begin x",
            "export FOO=1",
            "# zws_auto end x",
        ])
    );
}

#[test]
fn test_existing_block_interior_is_replaced() {
    let file = lines(&[
        "top",
        "# zws_auto begin x",
        "old line 1",
        "old line 2",
        "# zws_auto end x",
        "bottom",
    ]);
    let content = lines(&["export FOO=1"]);
    let out = apply_block(&file, "x", &content);
    assert_eq!(
        out,
        lines(&[
            "top",
            "# zws_auto begin x",
            "export FOO=1",
            "# zws_auto end x",
            "bottom",
        ])
    );
}

#[test]
fn test_apply_twice_equals_apply_once() {
    let file = lines(&["some content"]);
    let content = lines(&["export FOO=1", "export BAR=2"]);
    let once = apply_block(&file, "x", &content);
    let twice = apply_block(&once, "x", &content);
    assert_eq!(once, twice);

    let prior = lines(&["a", "# zws_auto begin y", "stale", "# zws_auto end y", "b"]);
    let once2 = apply_block(&prior, "y", &content);
    let twice2 = apply_block(&once2, "y", &content);
    assert_eq!(once2, twice2);
}

#[test]
fn test_other_ids_are_untouched() {
    let file = lines(&[
        "# zws_auto begin other",
        "keep me",
        "# zws_auto end other",
    ]);
    let content = lines(&["new"]);
    let out = apply_block(&file, "x", &content);
    assert_eq!(
        out,
        lines(&[
            "# zws_auto begin other",
            "keep me",
            "# zws_auto end other",
            "",
            "# zws_auto begin x",
            "new",
            "# zws_auto end x",
        ])
    );
}

#[test]
fn test_find_marker_line() {
    let file = lines(&["a", "b", "a"]);
    assert_eq!(find_marker_line(&file, &"a".to_string(), 0), Some(0));
    assert_eq!(find_marker_line(&file, &"a".to_string(), 1), Some(2));
    assert_eq!(find_marker_line(&file, &"c".to_string(), 0), None);
}
