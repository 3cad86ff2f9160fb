use media_library::change::{runs_before_commit, BlobStep};
use media_library::error::ErrorKind;
use media_library::models::{AudioFile, Playlist, PlaylistItem, User};
use media_library::schema::Statement;
use media_library::store::{all_referenced, is_key, referenced, Store};
use media_library::tables::{
    copy_rows, find, lookup, matching, without, AudioColumn, ItemColumn, PlaylistColumn,
    UserColumn,
};

fn store_user(id: &str, name: &str) -> User {
    User { id: id.to_string(), username: name.to_string(), password: "pw".to_string(), is_admin: false }
}

fn store_audio(id: &str, owner: &str) -> AudioFile {
    AudioFile {
        id: id.to_string(),
        filename: format!("{}.mp3", id),
        user_id: owner.to_string(),
        created_at: 10,
        mime_type: "audio/mpeg".to_string(),
        user_folder: format!("./uploads/{}", owner),
    }
}

fn store_playlist(id: &str, owner: &str) -> Playlist {
    Playlist { id: id.to_string(), name: id.to_string(), user_id: owner.to_string(), created_at: 5 }
}

fn store_item(id: &str, playlist: &str, audio: &str, position: i32) -> PlaylistItem {
    PlaylistItem {
        id: id.to_string(),
        playlist_id: playlist.to_string(),
        audio_id: audio.to_string(),
        position,
    }
}

fn sample_store() -> Store {
    Store::load(
        vec![store_user("u1", "ann"), store_user("u2", "ben")],
        vec![store_audio("a1", "u1"), store_audio("a2", "u2")],
        vec![store_playlist("p1", "u1"), store_playlist("p2", "u2")],
        vec![store_item("i1", "p1", "a1", 1), store_item("i2", "p2", "a1", 1), store_item("i3", "p2", "a2", 2)],
    )
    .unwrap()
}

fn ids_of_items(store: &Store) -> Vec<String> {
    store.playlist_items().iter().map(|i| i.id.clone()).collect()
}

#[test]
fn new_store_is_empty() {
    let store = Store::new();
    assert!(store.users().is_empty());
    assert!(store.audio_files().is_empty());
    assert!(store.playlists().is_empty());
    assert!(store.playlist_items().is_empty());
}

#[test]
fn load_keeps_consistent_rows_in_order() {
    let store = sample_store();
    assert_eq!(store.users(), &vec![store_user("u1", "ann"), store_user("u2", "ben")]);
    assert_eq!(store.audio_files().len(), 2);
    assert_eq!(store.playlists().len(), 2);
    assert_eq!(ids_of_items(&store), vec!["i1", "i2", "i3"]);
}

#[test]
fn load_rejects_rows_that_break_a_constraint() {
    let cases: Vec<(Vec<User>, Vec<AudioFile>, Vec<Playlist>, Vec<PlaylistItem>)> = vec![
        (vec![store_user("u1", "ann"), store_user("u1", "ben")], vec![], vec![], vec![]),
        (vec![store_user("u1", "ann"), store_user("u2", "ann")], vec![], vec![], vec![]),
        (vec![store_user("u1", "ann")], vec![store_audio("a1", "u1"), store_audio("a1", "u1")], vec![], vec![]),
        (vec![store_user("u1", "ann")], vec![store_audio("a1", "u9")], vec![], vec![]),
        (vec![store_user("u1", "ann")], vec![], vec![store_playlist("p1", "u9")], vec![]),
        (vec![store_user("u1", "ann")], vec![], vec![store_playlist("p1", "u1"), store_playlist("p1", "u1")], vec![]),
        (
            vec![store_user("u1", "ann")],
            vec![store_audio("a1", "u1")],
            vec![store_playlist("p1", "u1")],
            vec![store_item("i1", "p9", "a1", 1)],
        ),
        (
            vec![store_user("u1", "ann")],
            vec![store_audio("a1", "u1")],
            vec![store_playlist("p1", "u1")],
            vec![store_item("i1", "p1", "a9", 1)],
        ),
        (
            vec![store_user("u1", "ann")],
            vec![store_audio("a1", "u1")],
            vec![store_playlist("p1", "u1")],
            vec![store_item("i1", "p1", "a1", 1), store_item("i1", "p1", "a1", 2)],
        ),
    ];
    for (users, audio, playlists, items) in cases {
        let failure = match Store::load(users, audio, playlists, items) {
            Ok(_) => panic!("inconsistent rows were loaded"),
            Err(e) => e,
        };
        assert_eq!(failure.kind, ErrorKind::Internal);
        assert_eq!(failure.message, "Stored data is inconsistent");
    }
}

#[test]
fn load_accepts_entries_that_share_a_position() {
    let store = Store::load(
        vec![store_user("u1", "ann")],
        vec![store_audio("a1", "u1")],
        vec![store_playlist("p1", "u1")],
        vec![store_item("i1", "p1", "a1", 1), store_item("i2", "p1", "a1", 1)],
    );
    assert!(store.is_ok());
}

#[test]
fn inserts_append_rows() {
    let mut store = Store::new();
    store.apply(&Statement::InsertUser(store_user("u1", "ann"))).unwrap();
    store.apply(&Statement::InsertAudioFile(store_audio("a1", "u1"))).unwrap();
    store.apply(&Statement::InsertPlaylist(store_playlist("p1", "u1"))).unwrap();
    store.apply(&Statement::InsertPlaylistItem(store_item("i1", "p1", "a1", 7))).unwrap();
    assert_eq!(store.users(), &vec![store_user("u1", "ann")]);
    assert_eq!(store.audio_files(), &vec![store_audio("a1", "u1")]);
    assert_eq!(store.playlists(), &vec![store_playlist("p1", "u1")]);
    assert_eq!(store.playlist_items(), &vec![store_item("i1", "p1", "a1", 7)]);
}

#[test]
fn inserts_that_break_a_constraint_fail_and_change_nothing() {
    let mut store = sample_store();
    let refused = vec![
        Statement::InsertUser(store_user("u1", "carl")),
        Statement::InsertUser(store_user("u3", "ann")),
        Statement::InsertAudioFile(store_audio("a1", "u2")),
        Statement::InsertAudioFile(store_audio("a3", "u9")),
        Statement::InsertPlaylist(store_playlist("p1", "u2")),
        Statement::InsertPlaylist(store_playlist("p3", "u9")),
        Statement::InsertPlaylistItem(store_item("i1", "p1", "a1", 3)),
        Statement::InsertPlaylistItem(store_item("i9", "p9", "a1", 3)),
        Statement::InsertPlaylistItem(store_item("i9", "p1", "a9", 3)),
    ];
    for statement in refused {
        assert!(store.would_violate(&statement));
        let failure = store.apply(&statement).unwrap_err();
        assert_eq!(failure.kind, ErrorKind::Internal);
        assert_eq!(failure.message, "Storage constraint violated");
        assert_eq!(store.users().len(), 2);
        assert_eq!(store.audio_files().len(), 2);
        assert_eq!(store.playlists().len(), 2);
        assert_eq!(store.playlist_items().len(), 3);
    }
}

#[test]
fn deleting_entries_never_fails() {
    let mut store = sample_store();
    store.apply(&Statement::DeleteItemsByAudio("a1".to_string())).unwrap();
    assert_eq!(ids_of_items(&store), vec!["i3"]);
    store.apply(&Statement::DeleteItemsByAudio("nothing".to_string())).unwrap();
    assert_eq!(ids_of_items(&store), vec!["i3"]);
    let mut store = sample_store();
    store.apply(&Statement::DeleteItemsByPlaylist("p2".to_string())).unwrap();
    assert_eq!(ids_of_items(&store), vec!["i1"]);
    let mut store = sample_store();
    store.apply(&Statement::DeleteItem("i2".to_string())).unwrap();
    assert_eq!(ids_of_items(&store), vec!["i1", "i3"]);
}

#[test]
fn rows_that_are_referred_to_cannot_be_deleted() {
    let mut store = sample_store();
    let refused = vec![
        Statement::DeleteAudio("a1".to_string()),
        Statement::DeleteAudioByUser("u1".to_string()),
        Statement::DeletePlaylist("p1".to_string()),
        Statement::DeletePlaylistsByUser("u2".to_string()),
        Statement::DeleteUser("u1".to_string()),
    ];
    for statement in refused {
        assert!(store.would_violate(&statement));
        let failure = store.apply(&statement).unwrap_err();
        assert_eq!(failure.message, "Storage constraint violated");
        assert_eq!(store.users().len(), 2);
        assert_eq!(store.audio_files().len(), 2);
        assert_eq!(store.playlists().len(), 2);
        assert_eq!(store.playlist_items().len(), 3);
    }
}

#[test]
fn rows_without_references_can_be_deleted() {
    let mut store = sample_store();
    store.apply(&Statement::DeleteItemsByAudio("a2".to_string())).unwrap();
    store.apply(&Statement::DeleteAudio("a2".to_string())).unwrap();
    assert_eq!(store.audio_files(), &vec![store_audio("a1", "u1")]);
    store.apply(&Statement::DeleteItemsByPlaylist("p2".to_string())).unwrap();
    store.apply(&Statement::DeletePlaylistsByUser("u2".to_string())).unwrap();
    assert_eq!(store.playlists(), &vec![store_playlist("p1", "u1")]);
    store.apply(&Statement::DeleteUser("u2".to_string())).unwrap();
    assert_eq!(store.users(), &vec![store_user("u1", "ann")]);
    store.apply(&Statement::DeleteUser("missing".to_string())).unwrap();
    assert_eq!(store.users().len(), 1);
}

#[test]
fn commit_performs_all_statements_in_order() {
    let mut store = sample_store();
    let unit = vec![
        Statement::DeleteItemsByPlaylist("p1".to_string()),
        Statement::DeletePlaylist("p1".to_string()),
        Statement::InsertPlaylist(store_playlist("p1", "u2")),
    ];
    store.commit(&unit).unwrap();
    assert_eq!(store.playlists(), &vec![store_playlist("p2", "u2"), store_playlist("p1", "u2")]);
    assert_eq!(ids_of_items(&store), vec!["i2", "i3"]);
    store.commit(&vec![]).unwrap();
    assert_eq!(store.playlists().len(), 2);
}

#[test]
fn commit_that_fails_changes_nothing() {
    let mut store = sample_store();
    let unit = vec![
        Statement::DeleteItemsByPlaylist("p1".to_string()),
        Statement::DeletePlaylist("p1".to_string()),
        Statement::DeleteUser("u1".to_string()),
    ];
    let failure = store.commit(&unit).unwrap_err();
    assert_eq!(failure.kind, ErrorKind::Internal);
    assert_eq!(failure.message, "Storage constraint violated");
    assert_eq!(store.playlists().len(), 2);
    assert_eq!(ids_of_items(&store), vec!["i1", "i2", "i3"]);
}

#[test]
fn snapshot_is_independent() {
    let mut store = sample_store();
    let copy = store.snapshot();
    store.apply(&Statement::DeleteItem("i1".to_string())).unwrap();
    assert_eq!(ids_of_items(&copy), vec!["i1", "i2", "i3"]);
    assert_eq!(ids_of_items(&store), vec!["i2", "i3"]);
    store.recall_constraints();
}

#[test]
fn tables_are_searched_by_column() {
    let items = vec![store_item("i1", "p1", "a1", 1), store_item("i2", "p2", "a1", 1), store_item("i3", "p2", "a2", 2)];
    assert_eq!(find(&items, &ItemColumn::Id, "i2"), Some(1));
    assert_eq!(find(&items, &ItemColumn::PlaylistId, "p2"), Some(1));
    assert_eq!(find(&items, &ItemColumn::AudioId, "a1"), Some(0));
    assert_eq!(find(&items, &ItemColumn::AudioId, "a9"), None);
    assert_eq!(lookup(&items, &ItemColumn::AudioId, "a2"), Some(&items[2]));
    assert_eq!(lookup(&items, &ItemColumn::Id, "p1"), None);
    assert_eq!(matching(&items, &ItemColumn::PlaylistId, "p2"), vec![items[1].clone(), items[2].clone()]);
    assert_eq!(without(&items, &ItemColumn::PlaylistId, "p2"), vec![items[0].clone()]);
    assert_eq!(copy_rows(&items), items);
    let users = vec![store_user("u1", "ann"), store_user("u2", "ben")];
    assert_eq!(find(&users, &UserColumn::Username, "ben"), Some(1));
    assert_eq!(find(&users, &UserColumn::Id, "ben"), None);
    let audio = vec![store_audio("a1", "u1")];
    assert_eq!(find(&audio, &AudioColumn::UserId, "u1"), Some(0));
    assert_eq!(find(&audio, &AudioColumn::Id, "u1"), None);
    let playlists = vec![store_playlist("p1", "u1")];
    assert_eq!(find(&playlists, &PlaylistColumn::UserId, "u1"), Some(0));
    assert_eq!(find(&playlists, &PlaylistColumn::Id, "p1"), Some(0));
}

#[test]
fn keys_and_references_are_checked() {
    let users = vec![store_user("u1", "ann"), store_user("u2", "ben"), store_user("u3", "ann")];
    assert!(is_key(&users, &UserColumn::Id));
    assert!(!is_key(&users, &UserColumn::Username));
    assert!(is_key(&Vec::<User>::new(), &UserColumn::Id));
    assert!(referenced(&users, &UserColumn::Username, "ben"));
    assert!(!referenced(&users, &UserColumn::Username, "u1"));
    let audio = vec![store_audio("a1", "u1"), store_audio("a2", "u3")];
    assert!(all_referenced(&audio, &AudioColumn::UserId, &users, &UserColumn::Id));
    assert!(!all_referenced(&audio, &AudioColumn::Id, &users, &UserColumn::Id));
    assert!(all_referenced(&Vec::<AudioFile>::new(), &AudioColumn::UserId, &users, &UserColumn::Id));
}

#[test]
fn statements_are_written_in_sql() {
    assert_eq!(
        Statement::InsertUser(store_user("u1", "ann")).sql(),
        "INSERT INTO users (id, username, password, is_admin) VALUES (?, ?, ?, ?)"
    );
    assert_eq!(
        Statement::InsertAudioFile(store_audio("a1", "u1")).sql(),
        "INSERT INTO audio_files (id, filename, user_id, created_at, mime_type, user_folder) VALUES (?, ?, ?, ?, ?, ?)"
    );
    assert_eq!(
        Statement::InsertPlaylist(store_playlist("p1", "u1")).sql(),
        "INSERT INTO playlists (id, name, user_id, created_at) VALUES (?, ?, ?, ?)"
    );
    assert_eq!(
        Statement::InsertPlaylistItem(store_item("i1", "p1", "a1", 1)).sql(),
        "INSERT INTO playlist_items (id, playlist_id, audio_id, position) VALUES (?, ?, ?, ?)"
    );
    let key = || "k".to_string();
    assert_eq!(Statement::DeleteItemsByAudio(key()).sql(), "DELETE FROM playlist_items WHERE audio_id = ?");
    assert_eq!(Statement::DeleteItemsByPlaylist(key()).sql(), "DELETE FROM playlist_items WHERE playlist_id = ?");
    assert_eq!(Statement::DeleteItem(key()).sql(), "DELETE FROM playlist_items WHERE id = ?");
    assert_eq!(Statement::DeleteAudioByUser(key()).sql(), "DELETE FROM audio_files WHERE user_id = ?");
    assert_eq!(Statement::DeleteAudio(key()).sql(), "DELETE FROM audio_files WHERE id = ?");
    assert_eq!(Statement::DeletePlaylistsByUser(key()).sql(), "DELETE FROM playlists WHERE user_id = ?");
    assert_eq!(Statement::DeletePlaylist(key()).sql(), "DELETE FROM playlists WHERE id = ?");
    assert_eq!(Statement::DeleteUser(key()).sql(), "DELETE FROM users WHERE id = ?");
}

#[test]
fn folders_and_blobs_come_before_the_commit_removals_after() {
    assert!(runs_before_commit(&BlobStep::CreateFolder("f".to_string())));
    assert!(runs_before_commit(&BlobStep::Store("f/b".to_string())));
    assert!(!runs_before_commit(&BlobStep::Remove("f/b".to_string())));
    assert!(!runs_before_commit(&BlobStep::RemoveFolder("f".to_string())));
}
