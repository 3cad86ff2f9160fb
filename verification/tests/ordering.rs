use media_library::error::ErrorKind;
use media_library::models::{AudioFile, Playlist, PlaylistAudioItem, PlaylistItem};
use media_library::ordering::arrange;
use media_library::position::{allocate_position, greatest_position};

fn dated_playlist(id: &str, created_at: i64) -> Playlist {
    Playlist { id: id.to_string(), name: id.to_string(), user_id: "u".to_string(), created_at }
}

fn dated_audio(id: &str, created_at: i64) -> AudioFile {
    AudioFile {
        id: id.to_string(),
        filename: "f".to_string(),
        user_id: "u".to_string(),
        created_at,
        mime_type: "audio/mpeg".to_string(),
        user_folder: "./uploads/u".to_string(),
    }
}

fn placed_entry(id: &str, position: i32) -> PlaylistAudioItem {
    PlaylistAudioItem {
        id: id.to_string(),
        audio_id: "a".to_string(),
        position,
        filename: "f".to_string(),
        mime_type: "audio/mpeg".to_string(),
    }
}

fn placed_item(id: &str, playlist: &str, position: i32) -> PlaylistItem {
    PlaylistItem { id: id.to_string(), playlist_id: playlist.to_string(), audio_id: "a".to_string(), position }
}

#[test]
fn playlists_are_arranged_newest_first() {
    let rows = vec![dated_playlist("a", 10), dated_playlist("b", 30), dated_playlist("c", 20)];
    let ids: Vec<String> = arrange(rows).into_iter().map(|p| p.id).collect();
    assert_eq!(ids, vec!["b", "c", "a"]);
}

#[test]
fn audio_of_equal_age_keeps_its_order() {
    let rows = vec![
        dated_audio("a", 5),
        dated_audio("b", 7),
        dated_audio("c", 5),
        dated_audio("d", 7),
        dated_audio("e", i64::MIN),
        dated_audio("f", i64::MAX),
    ];
    let ids: Vec<String> = arrange(rows).into_iter().map(|p| p.id).collect();
    assert_eq!(ids, vec!["f", "b", "d", "a", "c", "e"]);
}

#[test]
fn entries_are_arranged_by_position() {
    let rows = vec![placed_entry("a", 3), placed_entry("b", -1), placed_entry("c", 3), placed_entry("d", 1)];
    let ids: Vec<String> = arrange(rows).into_iter().map(|p| p.id).collect();
    assert_eq!(ids, vec!["b", "d", "a", "c"]);
    assert!(arrange(Vec::<PlaylistAudioItem>::new()).is_empty());
}

#[test]
fn greatest_position_is_taken_within_the_playlist() {
    let items = vec![placed_item("i1", "p1", 4), placed_item("i2", "p2", 9), placed_item("i3", "p1", 2)];
    assert_eq!(greatest_position(&items, "p1"), Some(4));
    assert_eq!(greatest_position(&items, "p2"), Some(9));
    assert_eq!(greatest_position(&items, "p3"), None);
    assert_eq!(greatest_position(&vec![placed_item("i", "p", -7)], "p"), Some(-7));
}

#[test]
fn named_position_is_taken_as_it_is() {
    assert_eq!(allocate_position(Some(3), Some(9)).unwrap(), 3);
    assert_eq!(allocate_position(Some(-2), None).unwrap(), -2);
    assert_eq!(allocate_position(Some(i32::MAX), Some(i32::MAX)).unwrap(), i32::MAX);
}

#[test]
fn unnamed_position_follows_the_last_entry() {
    assert_eq!(allocate_position(None, None).unwrap(), 1);
    assert_eq!(allocate_position(None, Some(5)).unwrap(), 6);
    assert_eq!(allocate_position(None, Some(0)).unwrap(), 1);
    assert_eq!(allocate_position(None, Some(-5)).unwrap(), -4);
    assert_eq!(allocate_position(None, Some(i32::MAX - 1)).unwrap(), i32::MAX);
}

#[test]
fn no_position_follows_the_greatest_number() {
    let failure = allocate_position(None, Some(i32::MAX)).unwrap_err();
    assert_eq!(failure.kind, ErrorKind::Conflict);
    assert_eq!(failure.message, "Playlist has no free position");
}
