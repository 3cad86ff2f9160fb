use media_library::auth::issue_token;
use media_library::config::AppState;
use media_library::context::RequestContext;
use media_library::error::ErrorKind;
use media_library::handlers::playlist::{
    add_to_playlist, add_to_playlist_as, create_playlist, create_playlist_as, delete_playlist,
    delete_playlist_as, get_playlist, get_playlist_as, get_playlists, get_playlists_as,
    playlist_entries, remove_from_playlist, remove_from_playlist_as,
};
use media_library::models::{
    AddToPlaylistRequest, AudioFile, CreatePlaylistRequest, Playlist, PlaylistAudioItem,
    PlaylistItem, User,
};
use media_library::schema::Statement;
use media_library::store::Store;

const PASS: &str = "playlist secret";

fn member(id: &str, name: &str, is_admin: bool) -> User {
    User { id: id.to_string(), username: name.to_string(), password: "pw".to_string(), is_admin }
}

fn song(id: &str, owner: &str, name: &str, mime: &str) -> AudioFile {
    AudioFile {
        id: id.to_string(),
        filename: name.to_string(),
        user_id: owner.to_string(),
        created_at: 1,
        mime_type: mime.to_string(),
        user_folder: format!("./uploads/{}", owner),
    }
}

fn set(id: &str, owner: &str, created_at: i64) -> Playlist {
    Playlist { id: id.to_string(), name: format!("{} list", id), user_id: owner.to_string(), created_at }
}

fn slot(id: &str, playlist: &str, audio: &str, position: i32) -> PlaylistItem {
    PlaylistItem {
        id: id.to_string(),
        playlist_id: playlist.to_string(),
        audio_id: audio.to_string(),
        position,
    }
}

fn collection() -> AppState {
    let store = Store::load(
        vec![member("admin", "root", true), member("u1", "ann", false), member("u2", "ben", false)],
        vec![song("a1", "u1", "one.mp3", "audio/mpeg"), song("a2", "u2", "two.ogg", "audio/ogg")],
        vec![set("p1", "u1", 100), set("p2", "u2", 300), set("p3", "u1", 200), set("p4", "u2", 300)],
        vec![
            slot("i1", "p1", "a2", 5),
            slot("i2", "p2", "a1", 1),
            slot("i3", "p1", "a1", 2),
            slot("i4", "p1", "a1", 5),
        ],
    )
    .unwrap();
    AppState { store, secret_key: PASS.to_string() }
}

fn now_with(id: &str) -> RequestContext {
    RequestContext { now: 50, created_at: 777, new_id: id.to_string(), spare_id: "s".to_string() }
}

fn pass_for(subject: &str) -> String {
    format!("Bearer {}", issue_token(subject, 100, PASS).unwrap().token)
}

fn adding(audio: &str, position: Option<i32>) -> AddToPlaylistRequest {
    AddToPlaylistRequest { audio_id: audio.to_string(), position }
}

fn ids_in_order(rows: &Vec<Playlist>) -> Vec<&str> {
    rows.iter().map(|p| p.id.as_str()).collect()
}

#[test]
fn create_playlist_makes_the_caller_the_owner() {
    let mut state = collection();
    let req = CreatePlaylistRequest { name: "road trip".to_string() };
    let change = create_playlist(&req, &state, Some(&pass_for("u2")), &now_with("p9")).unwrap();
    let expected = Playlist {
        id: "p9".to_string(),
        name: "road trip".to_string(),
        user_id: "u2".to_string(),
        created_at: 777,
    };
    assert_eq!(change.reply, expected);
    assert_eq!(change.unit, vec![Statement::InsertPlaylist(expected)]);
    assert!(change.blobs.is_empty());
    state.store.commit(&change.unit).unwrap();
    assert_eq!(state.store.playlists().len(), 5);
}

#[test]
fn create_playlist_needs_an_account_and_an_unused_identifier() {
    let state = collection();
    let req = CreatePlaylistRequest { name: "x".to_string() };
    for (caller, id) in [("ghost", "p9"), ("u1", "p2")] {
        let failure = create_playlist_as(caller, &req, &state.store, &now_with(id)).unwrap_err();
        assert_eq!(failure.kind, ErrorKind::Internal);
        assert_eq!(failure.message, "Storage constraint violated");
    }
}

#[test]
fn playlists_are_listed_newest_first_own_or_all() {
    let state = collection();
    let own = get_playlists(&state, Some(&pass_for("u1")), &now_with("x")).unwrap();
    assert_eq!(ids_in_order(&own), vec!["p3", "p1"]);
    let all = get_playlists_as("admin", &state.store).unwrap();
    assert_eq!(ids_in_order(&all), vec!["p2", "p4", "p3", "p1"]);
    let unknown = get_playlists_as("ghost", &state.store).unwrap_err();
    assert_eq!(unknown.kind, ErrorKind::Internal);
}

#[test]
fn playlist_is_read_with_entries_in_playback_order() {
    let state = collection();
    let read = get_playlist("p1", &state, Some(&pass_for("u1")), &now_with("x")).unwrap();
    assert_eq!(read.id, "p1");
    assert_eq!(read.name, "p1 list");
    assert_eq!(read.user_id, "u1");
    assert_eq!(read.created_at, 100);
    assert_eq!(
        read.items,
        vec![
            PlaylistAudioItem {
                id: "i3".to_string(),
                audio_id: "a1".to_string(),
                position: 2,
                filename: "one.mp3".to_string(),
                mime_type: "audio/mpeg".to_string(),
            },
            PlaylistAudioItem {
                id: "i1".to_string(),
                audio_id: "a2".to_string(),
                position: 5,
                filename: "two.ogg".to_string(),
                mime_type: "audio/ogg".to_string(),
            },
            PlaylistAudioItem {
                id: "i4".to_string(),
                audio_id: "a1".to_string(),
                position: 5,
                filename: "one.mp3".to_string(),
                mime_type: "audio/mpeg".to_string(),
            },
        ]
    );
    assert_eq!(get_playlist_as("admin", "p1", &state.store).unwrap(), read);
    assert!(playlist_entries(&state.store, "p3").is_empty());
    assert!(playlist_entries(&state.store, "nothing").is_empty());
}

#[test]
fn playlist_is_closed_to_other_users() {
    let state = collection();
    let refused = get_playlist_as("u2", "p1", &state.store).unwrap_err();
    assert_eq!(refused.kind, ErrorKind::Unauthorized);
    assert_eq!(refused.message, "Not authorized to access this playlist");
    let missing = get_playlist_as("u2", "p9", &state.store).unwrap_err();
    assert_eq!(missing.kind, ErrorKind::NotFound);
    assert_eq!(missing.message, "Playlist not found");
}

#[test]
fn delete_playlist_removes_entries_then_playlist() {
    let mut state = collection();
    let change = delete_playlist("p1", &state, Some(&pass_for("admin")), &now_with("x")).unwrap();
    assert_eq!(
        change.unit,
        vec![
            Statement::DeleteItemsByPlaylist("p1".to_string()),
            Statement::DeletePlaylist("p1".to_string()),
        ]
    );
    assert!(change.blobs.is_empty());
    state.store.commit(&change.unit).unwrap();
    assert!(state.store.playlists().iter().all(|p| p.id != "p1"));
    assert!(state.store.playlist_items().iter().all(|i| i.playlist_id != "p1"));
    assert_eq!(state.store.playlists().len(), 3);
    assert_eq!(state.store.playlist_items(), &vec![slot("i2", "p2", "a1", 1)]);
}

#[test]
fn delete_playlist_is_open_to_owner_and_admin() {
    let state = collection();
    assert!(delete_playlist_as("u1", "p1", &state.store).is_ok());
    let refused = delete_playlist_as("u2", "p1", &state.store).unwrap_err();
    assert_eq!(refused.kind, ErrorKind::Unauthorized);
    assert_eq!(refused.message, "Not authorized to delete this playlist");
    let missing = delete_playlist_as("u1", "p9", &state.store).unwrap_err();
    assert_eq!(missing.kind, ErrorKind::NotFound);
    assert_eq!(missing.message, "Playlist not found");
}

#[test]
fn entry_without_position_goes_behind_the_last() {
    let mut state = collection();
    let change = add_to_playlist("p1", &adding("a2", None), &state, Some(&pass_for("u1")), &now_with("n1")).unwrap();
    assert_eq!(change.reply, slot("n1", "p1", "a2", 6));
    assert_eq!(change.unit, vec![Statement::InsertPlaylistItem(slot("n1", "p1", "a2", 6))]);
    state.store.commit(&change.unit).unwrap();
    let next = add_to_playlist_as("u1", "p1", &adding("a1", None), &state.store, &now_with("n2")).unwrap();
    assert_eq!(next.reply.position, 7);
    state.store.commit(&next.unit).unwrap();
    let first = add_to_playlist_as("u1", "p3", &adding("a1", None), &state.store, &now_with("n3")).unwrap();
    assert_eq!(first.reply.position, 1);
}

#[test]
fn appended_entries_never_share_a_position() {
    let mut state = AppState {
        store: Store::load(
            vec![member("u1", "ann", false)],
            vec![song("a1", "u1", "one.mp3", "audio/mpeg")],
            vec![set("p1", "u1", 1)],
            vec![],
        )
        .unwrap(),
        secret_key: PASS.to_string(),
    };
    for n in 0..20 {
        let change = add_to_playlist_as("u1", "p1", &adding("a1", None), &state.store, &now_with(&format!("n{}", n))).unwrap();
        state.store.commit(&change.unit).unwrap();
    }
    let mut positions: Vec<i32> = state.store.playlist_items().iter().map(|i| i.position).collect();
    assert_eq!(positions, (1..=20).collect::<Vec<i32>>());
    positions.dedup();
    assert_eq!(positions.len(), 20);
}

#[test]
fn named_position_is_used_even_if_taken() {
    let state = collection();
    let change = add_to_playlist_as("u1", "p1", &adding("a1", Some(5)), &state.store, &now_with("n1")).unwrap();
    assert_eq!(change.reply.position, 5);
    let negative = add_to_playlist_as("u1", "p1", &adding("a1", Some(-3)), &state.store, &now_with("n1")).unwrap();
    assert_eq!(negative.reply.position, -3);
}

#[test]
fn full_playlist_takes_no_appended_entry() {
    let mut state = collection();
    let last = add_to_playlist_as("u1", "p1", &adding("a1", Some(i32::MAX)), &state.store, &now_with("n1")).unwrap();
    state.store.commit(&last.unit).unwrap();
    let failure = add_to_playlist_as("u1", "p1", &adding("a1", None), &state.store, &now_with("n2")).unwrap_err();
    assert_eq!(failure.kind, ErrorKind::Conflict);
    assert_eq!(failure.message, "Playlist has no free position");
}

#[test]
fn entries_are_changed_by_the_owner_alone() {
    let state = collection();
    for caller in ["u2", "admin", "ghost"] {
        let refused = add_to_playlist_as(caller, "p1", &adding("a1", None), &state.store, &now_with("n1")).unwrap_err();
        assert_eq!(refused.kind, ErrorKind::Unauthorized);
        assert_eq!(refused.message, "Not authorized to modify this playlist");
        let refused = remove_from_playlist_as(caller, "p1", "i1", &state.store).unwrap_err();
        assert_eq!(refused.kind, ErrorKind::Unauthorized);
        assert_eq!(refused.message, "Not authorized to modify this playlist");
    }
}

#[test]
fn entry_needs_playlist_audio_and_unused_identifier() {
    let state = collection();
    let no_playlist = add_to_playlist_as("u1", "p9", &adding("a1", None), &state.store, &now_with("n1")).unwrap_err();
    assert_eq!(no_playlist.kind, ErrorKind::NotFound);
    assert_eq!(no_playlist.message, "Playlist not found");
    let no_audio = add_to_playlist_as("u1", "p1", &adding("a9", None), &state.store, &now_with("n1")).unwrap_err();
    assert_eq!(no_audio.kind, ErrorKind::NotFound);
    assert_eq!(no_audio.message, "Audio file not found");
    let used = add_to_playlist_as("u1", "p1", &adding("a1", None), &state.store, &now_with("i2")).unwrap_err();
    assert_eq!(used.kind, ErrorKind::Internal);
    assert_eq!(used.message, "Storage constraint violated");
}

#[test]
fn entry_is_removed_from_its_playlist() {
    let mut state = collection();
    let change = remove_from_playlist(("p1", "i3"), &state, Some(&pass_for("u1")), &now_with("x")).unwrap();
    assert_eq!(change.unit, vec![Statement::DeleteItem("i3".to_string())]);
    state.store.commit(&change.unit).unwrap();
    let left: Vec<&str> = state.store.playlist_items().iter().map(|i| i.id.as_str()).collect();
    assert_eq!(left, vec!["i1", "i2", "i4"]);
}

#[test]
fn entry_of_another_playlist_is_not_found() {
    let state = collection();
    for item in ["i2", "i9"] {
        let failure = remove_from_playlist_as("u1", "p1", item, &state.store).unwrap_err();
        assert_eq!(failure.kind, ErrorKind::NotFound);
        assert_eq!(failure.message, "Item not found in playlist");
    }
    let missing = remove_from_playlist_as("u1", "p9", "i1", &state.store).unwrap_err();
    assert_eq!(missing.kind, ErrorKind::NotFound);
    assert_eq!(missing.message, "Playlist not found");
}

#[test]
fn playlist_requests_need_a_credential() {
    let state = collection();
    let context = now_with("x");
    let req = CreatePlaylistRequest { name: "x".to_string() };
    let stale = pass_for("u1");
    let late = RequestContext { now: 101, created_at: 0, new_id: "x".to_string(), spare_id: "s".to_string() };
    assert_eq!(create_playlist(&req, &state, None, &context).unwrap_err().kind, ErrorKind::Unauthenticated);
    assert_eq!(get_playlists(&state, Some("Bearer x"), &context).unwrap_err().kind, ErrorKind::Unauthenticated);
    assert_eq!(get_playlist("p1", &state, Some(&stale), &late).unwrap_err().kind, ErrorKind::Unauthenticated);
    assert_eq!(delete_playlist("p1", &state, Some(""), &context).unwrap_err().kind, ErrorKind::Unauthenticated);
    assert_eq!(
        add_to_playlist("p1", &adding("a1", None), &state, None, &context).unwrap_err().kind,
        ErrorKind::Unauthenticated
    );
    assert_eq!(
        remove_from_playlist(("p1", "i1"), &state, Some(&stale), &late).unwrap_err().message,
        "Invalid token"
    );
}

#[test]
fn appended_entries_lie_above_every_earlier_position() {
    let mut state = collection();
    let before: Vec<i32> = state
        .store
        .playlist_items()
        .iter()
        .filter(|i| i.playlist_id == "p1")
        .map(|i| i.position)
        .collect();
    let mut given = Vec::new();
    for (n, caller_audio) in ["a1", "a2", "a1", "a2"].iter().enumerate() {
        let change = add_to_playlist_as(
            "u1",
            "p1",
            &adding(caller_audio, None),
            &state.store,
            &now_with(&format!("m{}", n)),
        )
        .unwrap();
        state.store.commit(&change.unit).unwrap();
        given.push(change.reply.position);
    }
    assert_eq!(given, vec![6, 7, 8, 9]);
    assert!(given.iter().all(|p| before.iter().all(|b| b < p)));
    let others: Vec<i32> = state
        .store
        .playlist_items()
        .iter()
        .filter(|i| i.playlist_id == "p2")
        .map(|i| i.position)
        .collect();
    assert_eq!(others, vec![1]);
}
