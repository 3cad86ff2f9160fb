use media_library::auth::issue_token;
use media_library::change::BlobStep;
use media_library::config::AppState;
use media_library::context::RequestContext;
use media_library::error::ErrorKind;
use media_library::handlers::audio::{stream_audio, upload_audio, UploadField};
use media_library::handlers::user::{
    create_user, create_user_as, delete_user, delete_user_as, list_users, list_users_as,
};
use media_library::models::{
    AudioFile, CreateUserRequest, Playlist, PlaylistItem, User, UserResponse,
};
use media_library::schema::Statement;
use media_library::store::Store;

const SECRET: &str = "signing secret";

fn person(id: &str, name: &str, is_admin: bool) -> User {
    User { id: id.to_string(), username: name.to_string(), password: "pw".to_string(), is_admin }
}

fn track(id: &str, owner: &str) -> AudioFile {
    AudioFile {
        id: id.to_string(),
        filename: format!("{}.mp3", id),
        user_id: owner.to_string(),
        created_at: 10,
        mime_type: "audio/mpeg".to_string(),
        user_folder: format!("./uploads/{}", owner),
    }
}

fn list(id: &str, owner: &str) -> Playlist {
    Playlist { id: id.to_string(), name: id.to_string(), user_id: owner.to_string(), created_at: 5 }
}

fn entry(id: &str, playlist: &str, audio: &str, position: i32) -> PlaylistItem {
    PlaylistItem {
        id: id.to_string(),
        playlist_id: playlist.to_string(),
        audio_id: audio.to_string(),
        position,
    }
}

fn library() -> AppState {
    let store = Store::load(
        vec![person("admin", "root", true), person("u1", "ann", false), person("u2", "ben", false)],
        vec![track("a1", "u1"), track("a2", "u2"), track("a3", "u1")],
        vec![list("p1", "u1"), list("p2", "u2")],
        vec![
            entry("i1", "p1", "a1", 1),
            entry("i2", "p2", "a1", 1),
            entry("i3", "p2", "a2", 2),
            entry("i4", "p1", "a2", 2),
            entry("i5", "p2", "a3", 3),
        ],
    )
    .unwrap();
    AppState { store, secret_key: SECRET.to_string() }
}

fn at(now: i64, id: &str) -> RequestContext {
    RequestContext {
        now,
        created_at: now * 1_000_000,
        new_id: id.to_string(),
        spare_id: format!("{}-spare", id),
    }
}

fn bearer(subject: &str) -> String {
    format!("Bearer {}", issue_token(subject, 10_000, SECRET).unwrap().token)
}

fn newcomer(name: &str, is_admin: bool) -> CreateUserRequest {
    CreateUserRequest { username: name.to_string(), password: "secret".to_string(), is_admin }
}

#[test]
fn admin_creates_user_who_uploads_and_others_are_kept_out() {
    let mut state = AppState {
        store: Store::load(vec![person("A", "root", true), person("V", "vera", false)], vec![], vec![], vec![]).unwrap(),
        secret_key: SECRET.to_string(),
    };
    let admin = bearer("A");
    let created = create_user(&newcomer("bob", false), &state, Some(&admin), &at(100, "U")).unwrap();
    assert_eq!(
        created.reply,
        UserResponse { id: "U".to_string(), username: "bob".to_string(), is_admin: false }
    );
    state.store.commit(&created.unit).unwrap();

    let bob = bearer("U");
    let field = UploadField {
        content_type: Some("audio/mpeg".to_string()),
        filename: Some("song.mp3".to_string()),
    };
    let uploaded = upload_audio(Some(&field), &state, Some(&bob), &at(200, "S")).unwrap();
    assert_eq!(uploaded.reply.id, "S");
    assert_eq!(uploaded.reply.filename, "song.mp3");
    assert_eq!(uploaded.reply.user_id, "U");
    assert_eq!(uploaded.reply.mime_type, "audio/mpeg");
    state.store.commit(&uploaded.unit).unwrap();

    let vera = bearer("V");
    let refused = stream_audio("S", &state, Some(&vera), &at(300, "x")).unwrap_err();
    assert_eq!(refused.kind, ErrorKind::Unauthorized);

    let stream = stream_audio("S", &state, Some(&admin), &at(300, "x")).unwrap();
    assert_eq!(stream.path, "./uploads/U/S_song.mp3");
    assert_eq!(stream.content_type, "audio/mpeg");

    let own = delete_user("A", &state, Some(&admin), &at(400, "x")).unwrap_err();
    assert_eq!(own.kind, ErrorKind::Conflict);
    assert_eq!(own.message, "Cannot delete your own account");
}

#[test]
fn create_user_plans_row_and_folder() {
    let state = library();
    let change = create_user_as("admin", &newcomer("carl", true), &state.store, &at(1, "u9")).unwrap();
    assert_eq!(
        change.unit,
        vec![Statement::InsertUser(User {
            id: "u9".to_string(),
            username: "carl".to_string(),
            password: "secret".to_string(),
            is_admin: true,
        })]
    );
    assert_eq!(change.blobs, vec![BlobStep::CreateFolder("./uploads/u9".to_string())]);
    assert_eq!(state.store.users().len(), 3);
}

#[test]
fn create_user_is_for_admins() {
    let state = library();
    let refused = create_user_as("u1", &newcomer("carl", false), &state.store, &at(1, "u9")).unwrap_err();
    assert_eq!(refused.kind, ErrorKind::Unauthorized);
    assert_eq!(refused.message, "Only admin users can create new users");
}

#[test]
fn create_user_needs_a_free_username() {
    let state = library();
    let refused = create_user_as("admin", &newcomer("ann", false), &state.store, &at(1, "u9")).unwrap_err();
    assert_eq!(refused.kind, ErrorKind::Validation);
    assert_eq!(refused.message, "Username already exists");
}

#[test]
fn create_user_needs_an_unused_identifier() {
    let state = library();
    let refused = create_user_as("admin", &newcomer("carl", false), &state.store, &at(1, "u1")).unwrap_err();
    assert_eq!(refused.kind, ErrorKind::Internal);
    assert_eq!(refused.message, "Storage constraint violated");
}

#[test]
fn create_user_needs_a_known_caller() {
    let state = library();
    let refused = create_user_as("ghost", &newcomer("carl", false), &state.store, &at(1, "u9")).unwrap_err();
    assert_eq!(refused.kind, ErrorKind::Internal);
    assert_eq!(refused.message, "Account not found");
}

#[test]
fn requests_without_valid_credentials_are_unauthenticated() {
    let state = library();
    let expired = format!("Bearer {}", issue_token("admin", 10, SECRET).unwrap().token);
    let forged = format!("Bearer {}", issue_token("admin", 10_000, "guess").unwrap().token);
    for header in [None, Some("Bearer nonsense"), Some(expired.as_str()), Some(forged.as_str())] {
        let context = at(100, "x");
        let failures = vec![
            create_user(&newcomer("carl", false), &state, header, &context).unwrap_err(),
            list_users(&state, header, &context).unwrap_err(),
            delete_user("u1", &state, header, &context).unwrap_err(),
        ];
        for failure in failures {
            assert_eq!(failure.kind, ErrorKind::Unauthenticated);
        }
    }
}

#[test]
fn list_users_shows_accounts_without_secrets() {
    let state = library();
    let shown = list_users(&state, Some(&bearer("admin")), &at(100, "x")).unwrap();
    assert_eq!(
        shown,
        vec![
            UserResponse { id: "admin".to_string(), username: "root".to_string(), is_admin: true },
            UserResponse { id: "u1".to_string(), username: "ann".to_string(), is_admin: false },
            UserResponse { id: "u2".to_string(), username: "ben".to_string(), is_admin: false },
        ]
    );
}

#[test]
fn list_users_is_for_admins() {
    let state = library();
    let refused = list_users_as("u2", &state.store).unwrap_err();
    assert_eq!(refused.kind, ErrorKind::Unauthorized);
    assert_eq!(refused.message, "Only admin users can list all users");
}

#[test]
fn delete_user_plans_statements_in_dependency_order() {
    let state = library();
    let change = delete_user_as("admin", "u1", &state.store).unwrap();
    assert_eq!(
        change.unit,
        vec![
            Statement::DeleteItemsByAudio("a1".to_string()),
            Statement::DeleteItemsByAudio("a3".to_string()),
            Statement::DeleteAudioByUser("u1".to_string()),
            Statement::DeleteItemsByPlaylist("p1".to_string()),
            Statement::DeletePlaylistsByUser("u1".to_string()),
            Statement::DeleteUser("u1".to_string()),
        ]
    );
    assert_eq!(
        change.blobs,
        vec![
            BlobStep::Remove("./uploads/u1/a1_a1.mp3".to_string()),
            BlobStep::Remove("./uploads/u1/a3_a3.mp3".to_string()),
            BlobStep::RemoveFolder("./uploads/u1".to_string()),
        ]
    );
}

#[test]
fn deleted_user_leaves_no_rows_behind() {
    let mut state = library();
    let change = delete_user("u1", &state, Some(&bearer("admin")), &at(100, "x")).unwrap();
    state.store.commit(&change.unit).unwrap();
    let store = &state.store;
    assert!(store.users().iter().all(|u| u.id != "u1"));
    assert!(store.audio_files().iter().all(|a| a.user_id != "u1"));
    assert!(store.playlists().iter().all(|p| p.user_id != "u1"));
    assert!(store.playlist_items().iter().all(|i| i.audio_id != "a1" && i.audio_id != "a3"));
    assert!(store.playlist_items().iter().all(|i| i.playlist_id != "p1"));
    assert_eq!(store.users().len(), 2);
    assert_eq!(store.audio_files(), &vec![track("a2", "u2")]);
    assert_eq!(store.playlists(), &vec![list("p2", "u2")]);
    assert_eq!(store.playlist_items(), &vec![entry("i3", "p2", "a2", 2)]);
}

#[test]
fn deleting_a_user_without_content_removes_the_account_only() {
    let mut state = library();
    let change = delete_user_as("admin", "u2", &state.store).unwrap();
    state.store.commit(&change.unit).unwrap();
    let change = delete_user_as("admin", "u1", &state.store).unwrap();
    state.store.commit(&change.unit).unwrap();
    assert_eq!(state.store.users(), &vec![person("admin", "root", true)]);
    assert!(state.store.audio_files().is_empty());
    assert!(state.store.playlists().is_empty());
    assert!(state.store.playlist_items().is_empty());
}

#[test]
fn delete_user_is_for_admins() {
    let state = library();
    for target in ["u2", "u1", "nobody"] {
        let refused = delete_user_as("u1", target, &state.store).unwrap_err();
        assert_eq!(refused.kind, ErrorKind::Unauthorized);
        assert_eq!(refused.message, "Only admin users can delete users");
    }
}

#[test]
fn delete_user_needs_an_existing_account() {
    let state = library();
    let refused = delete_user_as("admin", "nobody", &state.store).unwrap_err();
    assert_eq!(refused.kind, ErrorKind::NotFound);
    assert_eq!(refused.message, "User not found");
}
