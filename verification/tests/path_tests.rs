use juno::path::FsPath;
use std::path::Path;

fn fs(text: &str) -> FsPath {
    FsPath::new(
        Path::new(text)
            .components()
            .map(|c| c.as_os_str().to_string_lossy().into_owned())
            .collect(),
    )
}

fn text_of(p: &FsPath) -> Vec<String> {
    p.components.clone()
}

#[test]
fn join_relative_appends_components() {
    let joined = fs("/music").join(&fs("albums/one"));
    assert_eq!(text_of(&joined), vec!["/", "music", "albums", "one"]);
    assert!(joined.starts_with(&fs("/music")));
}

#[test]
fn join_matches_std_path_join() {
    for (base, other) in [
        ("/music", "a/b"),
        ("/music", "/etc"),
        ("/music", "./a"),
        ("/music", "."),
        (".", "./x"),
        ("", "./x"),
        ("rel", "../up"),
    ] {
        let expected = fs(Path::new(base).join(other).to_str().unwrap());
        assert_eq!(fs(base).join(&fs(other)), expected, "{} join {}", base, other);
    }
}

#[test]
fn join_absolute_replaces_base() {
    let joined = fs("/music").join(&fs("/etc/passwd"));
    assert_eq!(joined, fs("/etc/passwd"));
    assert!(!joined.starts_with(&fs("/music")));
}

#[test]
fn starts_with_is_componentwise() {
    assert!(fs("/music/a").starts_with(&fs("/music")));
    assert!(!fs("/musical").starts_with(&fs("/music")));
    assert!(fs("/music").starts_with(&fs("/music")));
    assert!(fs("/music").starts_with(&fs("")));
    assert!(!fs("/music").starts_with(&fs("/music/a")));
}

#[test]
fn starts_with_is_transitive_on_examples() {
    let a = fs("/x/y/z");
    let b = fs("/x/y");
    let c = fs("/x");
    assert!(a.starts_with(&b) && b.starts_with(&c) && a.starts_with(&c));
}

#[test]
fn is_absolute_and_len() {
    assert!(fs("/a").is_absolute());
    assert!(!fs("a").is_absolute());
    assert!(!fs("").is_absolute());
    assert_eq!(fs("/a/b").len(), 3);
}

#[test]
fn clone_keeps_components() {
    let p = fs("/a/b");
    assert_eq!(p.clone(), p);
}

#[test]
fn text_matches_std_display() {
    for text in ["/music/a.mp3", "rel/b", "./c", "/", ".", "", "../up/x"] {
        assert_eq!(fs(text).text(), Path::new(text).display().to_string(), "{}", text);
    }
    assert_eq!(FsPath::new(vec!["/".to_string(), "a".to_string()]).text(), "/a");
}
