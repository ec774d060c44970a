use randl::util::{agent_timeout, filename_from_url};

#[test]
fn util_filename_from_url_test() {
    assert_eq!(filename_from_url("https://example.com/test"), "test");
}

#[test]
fn util_test_filename_from_url_trailing_slash() {
    assert_eq!(filename_from_url("https://example.com/"), "randl-reward");
}

#[test]
fn util_test_filename_from_url_no_path() {
    assert_eq!(filename_from_url("https://example.com"), "example.com");
}

#[test]
fn pull_filename_from_url_test() {
    assert_eq!(filename_from_url("https://example.com/test"), "test");
}

#[test]
fn pull_test_filename_from_url_trailing_slash() {
    assert_eq!(filename_from_url("https://example.com/"), "randl-reward");
}

#[test]
fn pull_test_filename_from_url_no_path() {
    assert_eq!(filename_from_url("https://example.com"), "example.com");
}

#[test]
fn filename_strips_query_string() {
    assert_eq!(filename_from_url("https://example.com/a/file.tar.gz?token=x/y"), "file.tar.gz");
    assert_eq!(filename_from_url("https://example.com/dir/?x=1"), "randl-reward");
    assert_eq!(filename_from_url("?only"), "randl-reward");
    assert_eq!(filename_from_url(""), "randl-reward");
    assert_eq!(filename_from_url("plain"), "plain");
    assert_eq!(filename_from_url("https://h/ünï/ñame"), "ñame");
}

#[test]
fn filename_is_plain_on_examples() {
    for url in ["a/b/c", "x?y/z", "/", "//", "https://pastebin.com/raw/sqg8Ay0d"] {
        let name = filename_from_url(url);
        assert!(!name.is_empty());
        assert!(!name.contains('/') && !name.contains('?'));
    }
}

#[test]
fn agent_timeout_choice() {
    assert_eq!(agent_timeout(Some(1), Some(99)), 1);
    assert_eq!(agent_timeout(None, Some(99)), 99);
    assert_eq!(agent_timeout(None, Some(-5)), 30);
    assert_eq!(agent_timeout(None, None), 30);
    assert_eq!(agent_timeout(None, Some(0)), 0);
}
