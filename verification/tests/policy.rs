use media_library::error::ErrorKind;
use media_library::policy::{authorize, is_allowed, Action};

const OWNER_SCOPED_WITH_OVERRIDE: [Action; 5] = [
    Action::ReadAudio,
    Action::DeleteAudio,
    Action::ListUserAudio,
    Action::ReadPlaylist,
    Action::DeletePlaylist,
];

#[test]
fn owner_reads_own_audio() {
    assert!(is_allowed(Action::ReadAudio, "u1", false, "u1"));
}

#[test]
fn owner_or_admin_reads_and_deletes_audio_and_playlists() {
    for action in OWNER_SCOPED_WITH_OVERRIDE {
        assert!(is_allowed(action, "u1", false, "u1"));
        assert!(is_allowed(action, "u1", true, "u1"));
        assert!(is_allowed(action, "admin", true, "u1"));
        assert!(!is_allowed(action, "u2", false, "u1"));
    }
}

#[test]
fn creating_and_listing_own_playlists_is_always_allowed() {
    for action in [Action::CreatePlaylist, Action::ListOwnPlaylists] {
        assert!(is_allowed(action, "u1", false, "u1"));
        assert!(is_allowed(action, "u1", false, "someone else"));
        assert!(is_allowed(action, "u1", true, ""));
    }
}

#[test]
fn listing_all_playlists_is_for_admins() {
    assert!(is_allowed(Action::ListAllPlaylists, "a", true, "a"));
    assert!(!is_allowed(Action::ListAllPlaylists, "u", false, "u"));
}

#[test]
fn admin_does_not_override_entry_changes() {
    for action in [Action::AddPlaylistItem, Action::RemovePlaylistItem] {
        assert!(is_allowed(action, "u1", false, "u1"));
        assert!(is_allowed(action, "a", true, "a"));
        assert!(!is_allowed(action, "a", true, "u1"));
        assert!(!is_allowed(action, "u2", false, "u1"));
    }
}

#[test]
fn account_actions_are_for_admins() {
    for action in [Action::CreateUser, Action::ListUsers] {
        assert!(is_allowed(action, "a", true, "a"));
        assert!(is_allowed(action, "a", true, "u1"));
        assert!(!is_allowed(action, "u1", false, "u1"));
    }
    assert!(is_allowed(Action::DeleteUser, "a", true, "u1"));
    assert!(!is_allowed(Action::DeleteUser, "u1", false, "u2"));
    assert!(!is_allowed(Action::DeleteUser, "u1", false, "u1"));
}

#[test]
fn nobody_deletes_their_own_account() {
    assert!(!is_allowed(Action::DeleteUser, "a", true, "a"));
    let refused = authorize(Action::DeleteUser, "a", true, "a").unwrap_err();
    assert_eq!(refused.kind, ErrorKind::Conflict);
    assert_eq!(refused.message, "Cannot delete your own account");
}

#[test]
fn refusals_are_unauthorized_with_the_message_of_the_action() {
    let cases = [
        (Action::ReadAudio, "Not authorized to access this audio file"),
        (Action::DeleteAudio, "Not authorized to delete this audio file"),
        (Action::ListUserAudio, "Not authorized to access this user's files"),
        (Action::ReadPlaylist, "Not authorized to access this playlist"),
        (Action::DeletePlaylist, "Not authorized to delete this playlist"),
        (Action::AddPlaylistItem, "Not authorized to modify this playlist"),
        (Action::RemovePlaylistItem, "Not authorized to modify this playlist"),
        (Action::CreateUser, "Only admin users can create new users"),
        (Action::ListUsers, "Only admin users can list all users"),
        (Action::DeleteUser, "Only admin users can delete users"),
        (Action::ListAllPlaylists, "Only admin users can list all playlists"),
    ];
    for (action, message) in cases {
        let refused = authorize(action, "u2", false, "u1").unwrap_err();
        assert_eq!(refused.kind, ErrorKind::Unauthorized);
        assert_eq!(refused.message, message);
    }
}

#[test]
fn allowed_actions_are_authorized() {
    assert!(authorize(Action::ReadAudio, "u1", false, "u1").is_ok());
    assert!(authorize(Action::DeleteUser, "a", true, "u1").is_ok());
    assert!(authorize(Action::CreatePlaylist, "u1", false, "").is_ok());
}

#[test]
fn every_failure_is_reported_as_a_bad_request() {
    let refused = authorize(Action::ReadAudio, "u2", false, "u1").unwrap_err();
    assert_eq!(refused.status_code(), 400);
    assert_eq!(refused.text(), "Not authorized to access this audio file");
}
