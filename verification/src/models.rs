//! The entities of the library and the records exchanged with its callers.
//!
//! Each record has a mathematical view in which every string is a sequence of
//! characters; contracts speak of views only.

use vstd::prelude::*;

verus! {

/// The views of the elements of a sequence, in order.
pub open spec fn views<T: View>(s: Seq<T>) -> Seq<T::V> {
    s.map_values(|t: T| t@)
}

/// A signed, time-limited assertion of identity: a subject and the instant,
/// in seconds since the Unix epoch, at which it expires.
#[derive(Debug, PartialEq, Eq)]
pub struct Claims {
    pub sub: String,
    pub exp: usize,
}

/// The mathematical value of [`Claims`].
pub struct ClaimsView {
    pub sub: Seq<char>,
    pub exp: usize,
}

impl View for Claims {
    type V = ClaimsView;

    open spec fn view(&self) -> ClaimsView {
        ClaimsView { sub: self.sub@, exp: self.exp }
    }
}

/// The name and the secret with which an account asks for a credential.
#[derive(Debug, PartialEq, Eq)]
pub struct LoginRequest {
    pub username: String,
    pub password: String,
}

/// The mathematical value of a [`LoginRequest`].
pub struct LoginRequestView {
    pub username: Seq<char>,
    pub password: Seq<char>,
}

impl View for LoginRequest {
    type V = LoginRequestView;

    open spec fn view(&self) -> LoginRequestView {
        LoginRequestView { username: self.username@, password: self.password@ }
    }
}

/// The credential handed out after a login.
#[derive(Debug, PartialEq, Eq)]
pub struct AuthResponse {
    pub token: String,
}

/// The mathematical value of an [`AuthResponse`].
pub struct AuthResponseView {
    pub token: Seq<char>,
}

impl View for AuthResponse {
    type V = AuthResponseView;

    open spec fn view(&self) -> AuthResponseView {
        AuthResponseView { token: self.token@ }
    }
}

/// An account. The credential secret never leaves the store in a reply.
#[derive(Debug, PartialEq, Eq)]
pub struct User {
    pub id: String,
    pub username: String,
    pub password: String,
    pub is_admin: bool,
}

/// The mathematical value of a [`User`].
pub struct UserView {
    pub id: Seq<char>,
    pub username: Seq<char>,
    pub password: Seq<char>,
    pub is_admin: bool,
}

impl View for User {
    type V = UserView;

    open spec fn view(&self) -> UserView {
        UserView {
            id: self.id@,
            username: self.username@,
            password: self.password@,
            is_admin: self.is_admin,
        }
    }
}

impl Clone for User {
    fn clone(&self) -> (r: Self)
        ensures
            r == *self,
    {
        User {
            id: self.id.clone(),
            username: self.username.clone(),
            password: self.password.clone(),
            is_admin: self.is_admin,
        }
    }
}

/// An uploaded audio blob. `created_at` counts microseconds since the Unix
/// epoch; `user_folder` is the directory that holds the blob.
#[derive(Debug, PartialEq, Eq)]
pub struct AudioFile {
    pub id: String,
    pub filename: String,
    pub user_id: String,
    pub created_at: i64,
    pub mime_type: String,
    pub user_folder: String,
}

/// The mathematical value of an [`AudioFile`].
pub struct AudioFileView {
    pub id: Seq<char>,
    pub filename: Seq<char>,
    pub user_id: Seq<char>,
    pub created_at: i64,
    pub mime_type: Seq<char>,
    pub user_folder: Seq<char>,
}

impl View for AudioFile {
    type V = AudioFileView;

    open spec fn view(&self) -> AudioFileView {
        AudioFileView {
            id: self.id@,
            filename: self.filename@,
            user_id: self.user_id@,
            created_at: self.created_at,
            mime_type: self.mime_type@,
            user_folder: self.user_folder@,
        }
    }
}

impl Clone for AudioFile {
    fn clone(&self) -> (r: Self)
        ensures
            r == *self,
    {
        AudioFile {
            id: self.id.clone(),
            filename: self.filename.clone(),
            user_id: self.user_id.clone(),
            created_at: self.created_at,
            mime_type: self.mime_type.clone(),
            user_folder: self.user_folder.clone(),
        }
    }
}

/// An ordered collection of audio files. `created_at` counts microseconds
/// since the Unix epoch.
#[derive(Debug, PartialEq, Eq)]
pub struct Playlist {
    pub id: String,
    pub name: String,
    pub user_id: String,
    pub created_at: i64,
}

/// The mathematical value of a [`Playlist`].
pub struct PlaylistView {
    pub id: Seq<char>,
    pub name: Seq<char>,
    pub user_id: Seq<char>,
    pub created_at: i64,
}

impl View for Playlist {
    type V = PlaylistView;

    open spec fn view(&self) -> PlaylistView {
        PlaylistView {
            id: self.id@,
            name: self.name@,
            user_id: self.user_id@,
            created_at: self.created_at,
        }
    }
}

impl Clone for Playlist {
    fn clone(&self) -> (r: Self)
        ensures
            r == *self,
    {
        Playlist {
            id: self.id.clone(),
            name: self.name.clone(),
            user_id: self.user_id.clone(),
            created_at: self.created_at,
        }
    }
}

/// The membership of one audio file in one playlist, at a position.
#[derive(Debug, PartialEq, Eq)]
pub struct PlaylistItem {
    pub id: String,
    pub playlist_id: String,
    pub audio_id: String,
    pub position: i32,
}

/// The mathematical value of a [`PlaylistItem`].
pub struct PlaylistItemView {
    pub id: Seq<char>,
    pub playlist_id: Seq<char>,
    pub audio_id: Seq<char>,
    pub position: i32,
}

impl View for PlaylistItem {
    type V = PlaylistItemView;

    open spec fn view(&self) -> PlaylistItemView {
        PlaylistItemView {
            id: self.id@,
            playlist_id: self.playlist_id@,
            audio_id: self.audio_id@,
            position: self.position,
        }
    }
}

impl Clone for PlaylistItem {
    fn clone(&self) -> (r: Self)
        ensures
            r == *self,
    {
        PlaylistItem {
            id: self.id.clone(),
            playlist_id: self.playlist_id.clone(),
            audio_id: self.audio_id.clone(),
            position: self.position,
        }
    }
}

/// The request for a new playlist.
#[derive(Debug, PartialEq, Eq)]
pub struct CreatePlaylistRequest {
    pub name: String,
}

/// The mathematical value of a [`CreatePlaylistRequest`].
pub struct CreatePlaylistRequestView {
    pub name: Seq<char>,
}

impl View for CreatePlaylistRequest {
    type V = CreatePlaylistRequestView;

    open spec fn view(&self) -> CreatePlaylistRequestView {
        CreatePlaylistRequestView { name: self.name@ }
    }
}

/// One entry of a playlist joined with the audio file it refers to.
#[derive(Debug, PartialEq, Eq)]
pub struct PlaylistAudioItem {
    pub id: String,
    pub audio_id: String,
    pub position: i32,
    pub filename: String,
    pub mime_type: String,
}

/// The mathematical value of a [`PlaylistAudioItem`].
pub struct PlaylistAudioItemView {
    pub id: Seq<char>,
    pub audio_id: Seq<char>,
    pub position: i32,
    pub filename: Seq<char>,
    pub mime_type: Seq<char>,
}

impl View for PlaylistAudioItem {
    type V = PlaylistAudioItemView;

    open spec fn view(&self) -> PlaylistAudioItemView {
        PlaylistAudioItemView {
            id: self.id@,
            audio_id: self.audio_id@,
            position: self.position,
            filename: self.filename@,
            mime_type: self.mime_type@,
        }
    }
}

/// A playlist with its entries in playback order.
#[derive(Debug, PartialEq, Eq)]
pub struct PlaylistWithItems {
    pub id: String,
    pub name: String,
    pub user_id: String,
    pub created_at: i64,
    pub items: Vec<PlaylistAudioItem>,
}

/// The mathematical value of a [`PlaylistWithItems`].
pub struct PlaylistWithItemsView {
    pub id: Seq<char>,
    pub name: Seq<char>,
    pub user_id: Seq<char>,
    pub created_at: i64,
    pub items: Seq<PlaylistAudioItemView>,
}

impl View for PlaylistWithItems {
    type V = PlaylistWithItemsView;

    open spec fn view(&self) -> PlaylistWithItemsView {
        PlaylistWithItemsView {
            id: self.id@,
            name: self.name@,
            user_id: self.user_id@,
            created_at: self.created_at,
            items: views(self.items@),
        }
    }
}

/// The request to add an audio file to a playlist, at a position if one is
/// named.
#[derive(Debug, PartialEq, Eq)]
pub struct AddToPlaylistRequest {
    pub audio_id: String,
    pub position: Option<i32>,
}

/// The mathematical value of an [`AddToPlaylistRequest`].
pub struct AddToPlaylistRequestView {
    pub audio_id: Seq<char>,
    pub position: Option<i32>,
}

impl View for AddToPlaylistRequest {
    type V = AddToPlaylistRequestView;

    open spec fn view(&self) -> AddToPlaylistRequestView {
        AddToPlaylistRequestView { audio_id: self.audio_id@, position: self.position }
    }
}

/// The request for a new account.
#[derive(Debug, PartialEq, Eq)]
pub struct CreateUserRequest {
    pub username: String,
    pub password: String,
    pub is_admin: bool,
}

/// The mathematical value of a [`CreateUserRequest`].
pub struct CreateUserRequestView {
    pub username: Seq<char>,
    pub password: Seq<char>,
    pub is_admin: bool,
}

impl View for CreateUserRequest {
    type V = CreateUserRequestView;

    open spec fn view(&self) -> CreateUserRequestView {
        CreateUserRequestView {
            username: self.username@,
            password: self.password@,
            is_admin: self.is_admin,
        }
    }
}

/// An account as shown to callers: without its credential secret.
#[derive(Debug, PartialEq, Eq)]
pub struct UserResponse {
    pub id: String,
    pub username: String,
    pub is_admin: bool,
}

/// The mathematical value of a [`UserResponse`].
pub struct UserResponseView {
    pub id: Seq<char>,
    pub username: Seq<char>,
    pub is_admin: bool,
}

impl View for UserResponse {
    type V = UserResponseView;

    open spec fn view(&self) -> UserResponseView {
        UserResponseView { id: self.id@, username: self.username@, is_admin: self.is_admin }
    }
}

} // verus!
