use phase1_verifier::canonicalize_locator;

#[test]
fn canonicalize_strips_leading_marker() {
    assert_eq!(canonicalize_locator("./foo/bar"), "foo/bar");
    assert_eq!(canonicalize_locator("./chunks/3/challenge"), "chunks/3/challenge");
}

#[test]
fn canonicalize_clean_is_identity() {
    assert_eq!(canonicalize_locator("foo/bar"), "foo/bar");
    assert_eq!(canonicalize_locator("chunks/3/response"), "chunks/3/response");
    let once = canonicalize_locator("foo/bar");
    let twice = canonicalize_locator(&once);
    assert_eq!(once, twice);
}

#[test]
fn canonicalize_leading_and_clean_agree() {
    assert_eq!(
        canonicalize_locator("./chunks/3/challenge"),
        canonicalize_locator("chunks/3/challenge")
    );
}

#[test]
fn canonicalize_empty() {
    assert_eq!(canonicalize_locator(""), "");
}

#[test]
fn canonicalize_strips_inner_markers() {
    assert_eq!(canonicalize_locator("a/./b"), "a/b");
    assert_eq!(canonicalize_locator("././x"), "x");
}

#[test]
fn canonicalize_scans_left_to_right_once() {
    // A single left-to-right pass, like `str::replace`: removing a marker
    // does not re-examine the characters around the removal.
    assert_eq!(canonicalize_locator("..//"), "./");
    assert_eq!(canonicalize_locator("..//".replace("./", "").as_str()), "");
}
