use randl::archive::{codec_for, detect_type, ArchiveError, ArchiveType, Codec};
use randl::repository::{count_entries, parse_repository, RepositoryType};
use randl::text::repository_entries;

#[test]
fn entries_skip_comments_and_blank_lines() {
    let content = "# This is a reward\nhttps://pastebin.com/raw/sqg8Ay0d\n\n   \t\n# nested:\nNested https://gist.example/raw\n";
    assert_eq!(
        repository_entries(content),
        vec!["https://pastebin.com/raw/sqg8Ay0d".to_string(), "Nested https://gist.example/raw".to_string()]
    );
}

#[test]
fn entries_split_like_str_lines() {
    let samples = [
        "a\r\nb\n",
        "a\nb",
        "a\r",
        "\n\n\n",
        "",
        "x\r\n\r\ny\u{3000}\n #z\n\u{a0}\n",
        "one\rtwo\nthree\r\n",
    ];
    for s in samples {
        let expected: Vec<String> = s
            .lines()
            .filter(|l| !l.starts_with('#') && !l.trim().is_empty())
            .map(|l| l.to_string())
            .collect();
        assert_eq!(repository_entries(s), expected, "for {:?}", s);
    }
}

#[test]
fn parse_repository_kinds() {
    let r = parse_repository("https://example.com/file".to_string());
    assert_eq!(r.repo_type, RepositoryType::Reward);
    assert_eq!(r.url.as_deref(), Some("https://example.com/file"));

    let r = parse_repository("Nested https://example.com/list.txt".to_string());
    assert_eq!(r.repo_type, RepositoryType::Nested);
    assert_eq!(r.url.as_deref(), Some("https://example.com/list.txt"));

    let r = parse_repository("Archive https://example.com/a.tar.gz".to_string());
    assert_eq!(r.repo_type, RepositoryType::Archive);
    assert_eq!(r.url.as_deref(), Some("https://example.com/a.tar.gz"));

    let r = parse_repository("Other https://example.com/".to_string());
    assert_eq!(r.repo_type, RepositoryType::Unknown);
    assert_eq!(r.url, None);

    // Only the first space splits: the rest is the URL.
    let r = parse_repository("Nested a b".to_string());
    assert_eq!(r.repo_type, RepositoryType::Nested);
    assert_eq!(r.url.as_deref(), Some("a b"));

    // A keyword alone is a reward URL.
    let r = parse_repository("Nested".to_string());
    assert_eq!(r.repo_type, RepositoryType::Reward);
    assert_eq!(r.url.as_deref(), Some("Nested"));

    let r = parse_repository("Nested ".to_string());
    assert_eq!(r.repo_type, RepositoryType::Nested);
    assert_eq!(r.url.as_deref(), Some(""));
}

#[test]
fn count_entries_by_kind() {
    let c = count_entries("# c\nhttps://a\nNested https://b\nArchive https://c\nfoo bar\nhttps://d\n\n");
    assert_eq!(c.entries, 5);
    assert_eq!(c.reward, 2);
    assert_eq!(c.nested, 1);
    assert_eq!(c.archive, 1);
    assert_eq!(c.unknown, 1);
    assert_eq!(c.reward + c.nested + c.archive + c.unknown, c.entries);
}

#[test]
fn detect_archive_types() {
    assert_eq!(detect_type(&[0x1f, 0x8b, 0x08, 0, 0, 0]), ArchiveType::Gz);
    assert_eq!(detect_type(&[0x1f, 0x8b]), ArchiveType::Gz);
    assert_eq!(detect_type(&[0xfd, 0x37, 0x7a, 0x58, 0x5a, 0x00]), ArchiveType::Xz);
    assert_eq!(detect_type(&[0xfd, 0x37, 0x7a, 0x58, 0x5a]), ArchiveType::Unknown);
    assert_eq!(detect_type(&[0x1f]), ArchiveType::Unknown);
    assert_eq!(detect_type(&[]), ArchiveType::Unknown);
    assert_eq!(detect_type(b"PK\x03\x04zz"), ArchiveType::Unknown);
}

#[test]
fn codec_choice() {
    assert_eq!(codec_for(ArchiveType::Gz), Ok(Codec::Gzip));
    assert_eq!(codec_for(ArchiveType::Xz), Ok(Codec::Xz));
    assert_eq!(codec_for(ArchiveType::Unknown), Err(ArchiveError::UnknownType));
    assert_eq!(ArchiveError::UnknownType.message(), "unknown archive type");
}
