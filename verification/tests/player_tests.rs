use juno::file_explorer::WalkEntry;
use juno::path::FsPath;
use juno::player::{Player, SinkCommand};
use std::path::Path;

fn fs(text: &str) -> FsPath {
    FsPath::new(
        Path::new(text)
            .components()
            .map(|c| c.as_os_str().to_string_lossy().into_owned())
            .collect(),
    )
}

fn file(text: &str) -> Option<WalkEntry> {
    Some(WalkEntry { path: fs(text), is_dir: false })
}

fn player_with(songs: &[&str]) -> Player {
    let found: Vec<Option<WalkEntry>> = songs.iter().map(|s| file(s)).collect();
    Player::new(fs("/music"), fs("/music"), &found)
}

fn queue_of(p: &Player) -> Vec<FsPath> {
    (0..p.queue_len()).map(|i| p.queued(i).clone()).collect()
}

#[test]
fn new_queues_found_files_in_order_skipping_dirs_and_errors() {
    let found = vec![
        file("/music/a.mp3"),
        Some(WalkEntry { path: fs("/music/sub"), is_dir: true }),
        None,
        file("/music/sub/b.flac"),
    ];
    let p = Player::new(fs("/music"), fs("/music"), &found);
    assert_eq!(queue_of(&p), vec![fs("/music/a.mp3"), fs("/music/sub/b.flac")]);
    assert!(!p.is_paused());
    assert_eq!(p.base_dir(), &fs("/music"));
}

#[test]
fn idle_hands_first_song_when_sink_empty() {
    let mut p = player_with(&["/music/a.mp3", "/music/b.mp3"]);
    assert_eq!(p.handle_idle(0), Some(fs("/music/a.mp3")));
    assert_eq!(queue_of(&p), vec![fs("/music/b.mp3")]);
}

#[test]
fn idle_waits_while_sink_busy() {
    let mut p = player_with(&["/music/a.mp3"]);
    assert_eq!(p.handle_idle(1), None);
    assert_eq!(p.queue_len(), 1);
}

#[test]
fn idle_does_nothing_when_paused_or_queue_empty() {
    let mut p = player_with(&["/music/a.mp3"]);
    p.pause();
    assert_eq!(p.handle_idle(0), None);
    assert_eq!(p.queue_len(), 1);
    let mut empty = player_with(&[]);
    assert_eq!(empty.handle_idle(0), None);
}

#[test]
fn idle_run_plays_in_queue_order() {
    let mut p = player_with(&["/1.mp3", "/2.mp3", "/3.mp3"]);
    let mut played = vec![];
    for len in [0usize, 1, 0, 2, 0, 0] {
        if let Some(s) = p.handle_idle(len) {
            played.push(s);
        }
    }
    assert_eq!(played, vec![fs("/1.mp3"), fs("/2.mp3"), fs("/3.mp3")]);
    assert_eq!(p.queue_len(), 0);
}

#[test]
fn play_pause_toggles_and_twice_restores() {
    let mut p = player_with(&["/1.mp3"]);
    assert_eq!(p.play_pause(), SinkCommand::Pause);
    assert!(p.is_paused());
    assert_eq!(p.play_pause(), SinkCommand::Play);
    assert!(!p.is_paused());
}

#[test]
fn play_and_pause_set_state() {
    let mut p = player_with(&[]);
    p.pause();
    assert!(p.is_paused());
    p.pause();
    assert!(p.is_paused());
    p.play();
    assert!(!p.is_paused());
}

#[test]
fn skip_song_takes_first_waiting_song() {
    let mut p = player_with(&["/1.mp3", "/2.mp3"]);
    assert_eq!(p.skip_song(1), (fs("/1.mp3"), true));
    assert_eq!(queue_of(&p), vec![fs("/2.mp3")]);
}

#[test]
fn skip_with_empty_sink_plays_the_song_instead_of_skipping_it() {
    let mut p = player_with(&["/1.mp3", "/2.mp3"]);
    assert_eq!(p.skip_song(0), (fs("/1.mp3"), false));
    assert_eq!(queue_of(&p), vec![fs("/2.mp3")]);
}

#[test]
fn relative_base_lists_inside_its_canonical_form() {
    let found: Vec<Option<WalkEntry>> = vec![];
    let p = Player::new(fs("."), fs("/srv/music"), &found);
    assert_eq!(p.base_dir(), &fs("."));
    assert_eq!(p.canonical_base(), &fs("/srv/music"));
    assert_eq!(p.search_path(&fs("albums")), fs("./albums"));
    let plan = p.get_files(fs("/srv/music/albums"), juno::file_explorer::sound_types().unwrap());
    assert_eq!(plan.root, fs("/srv/music/albums"));
}

#[test]
fn search_path_joins_base() {
    let p = player_with(&[]);
    assert_eq!(p.search_path(&fs("albums")), fs("/music/albums"));
    assert_eq!(p.search_path(&fs("/etc")), fs("/etc"));
}

#[test]
fn get_files_plans_walk_of_search_path() {
    let p = player_with(&[]);
    let types = juno::file_explorer::sound_types().unwrap();
    let plan = p.get_files(fs("/music/albums"), types);
    assert_eq!(plan.root, fs("/music/albums"));
}

#[test]
fn mixed_events_hand_songs_in_queue_order() {
    let mut p = player_with(&["/1.mp3", "/2.mp3", "/3.mp3", "/4.mp3"]);
    let mut handed = vec![];
    handed.extend(p.handle_idle(0));
    assert_eq!(p.play_pause(), SinkCommand::Pause);
    assert_eq!(p.handle_idle(0), None);
    let (song, skip_current) = p.skip_song(0);
    assert!(!skip_current);
    handed.push(song);
    p.play();
    handed.extend(p.handle_idle(1));
    handed.extend(p.handle_idle(0));
    let mut all = handed.clone();
    all.extend(queue_of(&p));
    assert_eq!(handed, vec![fs("/1.mp3"), fs("/2.mp3"), fs("/3.mp3")]);
    assert_eq!(all, vec![fs("/1.mp3"), fs("/2.mp3"), fs("/3.mp3"), fs("/4.mp3")]);
    assert_eq!(p.base_dir(), &fs("/music"));
}

#[test]
fn server_stops_when_queue_and_sink_are_done_unless_daemon() {
    let mut p = player_with(&["/1.mp3"]);
    assert!(!p.should_stop(0, false));
    assert_eq!(p.handle_idle(0), Some(fs("/1.mp3")));
    assert!(!p.should_stop(1, false));
    assert!(p.should_stop(0, false));
    assert!(!p.should_stop(0, true));
}
