use juno::configuration::Commands;
use juno::file_explorer::{
    collect_files, scan_base, sound_types, sound_types_builder, walk_dir, WalkEntry, OUTSIDE_BASE,
};
use juno::path::FsPath;
use std::path::Path;

fn fs(text: &str) -> FsPath {
    FsPath::new(
        Path::new(text)
            .components()
            .map(|c| c.as_os_str().to_string_lossy().into_owned())
            .collect(),
    )
}

#[test]
fn sound_types_select_music_files_only() {
    let types = sound_types().unwrap();
    assert!(types.matched("song.mp3", false).is_whitelist());
    assert!(types.matched("dir/song.flac", false).is_whitelist());
    assert!(types.matched("song.wav", false).is_whitelist());
    assert!(types.matched("notes.txt", false).is_ignore());
    assert!(types.matched("main.rs", false).is_ignore());
    assert!(types.matched("albums", true).is_none());
    assert!(types.matched("a.ogg", false).is_ignore());
}

#[test]
fn sound_type_definition_ends_with_music_globs() {
    let builder = sound_types_builder();
    let defs = builder.definitions();
    let sound = defs.iter().find(|d| d.name() == "sound").unwrap();
    let mut globs = sound.globs().to_vec();
    globs.sort();
    assert_eq!(globs, vec!["*.flac", "*.mp3", "*.wav"]);
    assert!(!juno::file_explorer::sound_types().unwrap().matched("a.ogg", false).is_whitelist());
    assert!(defs.iter().any(|d| d.name() == "rust"));
}

#[test]
fn scan_base_uses_start_path_or_current_dir() {
    let start = Commands::Start { base_path: fs("/music"), volume: 0x3f80_0000, daemon: false };
    assert_eq!(scan_base(&start, fs("/home")), fs("/music"));
    assert_eq!(scan_base(&Commands::Play, fs("/home")), fs("/home"));
}

#[test]
fn walk_dir_allows_paths_under_base() {
    let plan = walk_dir(&fs("/music"), fs("/music/albums"), sound_types().unwrap()).unwrap();
    assert_eq!(plan.root, fs("/music/albums"));
    let base = walk_dir(&fs("/music"), fs("/music"), sound_types().unwrap()).unwrap();
    assert_eq!(base.root, fs("/music"));
}

#[test]
fn walk_dir_refuses_paths_outside_base() {
    match walk_dir(&fs("/music"), fs("/etc"), sound_types().unwrap()) {
        Err(m) => assert_eq!(
            m,
            "Tried to access file or directory outside of server `base_path` config."
        ),
        Ok(_) => panic!("a path outside the base was accepted"),
    }
    assert!(walk_dir(&fs("/music"), fs("/musical"), sound_types().unwrap()).is_err());
    assert!(walk_dir(&fs("/srv"), fs("/music"), sound_types().unwrap()).is_err());
    assert!(OUTSIDE_BASE.starts_with("Tried to access"));
}

#[test]
fn collect_files_keeps_readable_files_in_order() {
    let entries = vec![
        Some(WalkEntry { path: fs("/m"), is_dir: true }),
        Some(WalkEntry { path: fs("/m/a.mp3"), is_dir: false }),
        None,
        Some(WalkEntry { path: fs("/m/b.wav"), is_dir: false }),
    ];
    assert_eq!(collect_files(&entries), vec![fs("/m/a.mp3"), fs("/m/b.wav")]);
    assert!(collect_files(&vec![]).is_empty());
}

#[test]
fn walk_dir_with_canonical_form_of_relative_base_admits_inside() {
    // The base "." resolved on the file system to /srv/music.
    let canonical_base = fs("/srv/music");
    let plan = walk_dir(&canonical_base, fs("/srv/music/albums"), sound_types().unwrap()).unwrap();
    assert_eq!(plan.root, fs("/srv/music/albums"));
}
