//! A multi-user media library: audio files and ordered playlists, gated by
//! per-resource ownership with an administrative override.
//!
//! Every operation is a function from a snapshot of the library and a
//! request to either a failure or a reply. An operation that changes the
//! library hands back the unit of work that makes the change; committing the
//! unit to the store is all or nothing.

pub mod auth;
pub mod blobs;
pub mod cascade;
pub mod change;
pub mod config;
pub mod context;
pub mod error;
pub mod handlers;
pub mod media;
pub mod models;
pub mod ordering;
pub mod policy;
pub mod position;
pub mod schema;
pub mod seqs;
pub mod store;
pub mod tables;
pub mod text;

pub use auth::{authenticate, check_admin, login, login_at, validate_token, validate_token_at};
pub use change::{BlobStep, Change};
pub use config::AppState;
pub use context::RequestContext;
pub use error::{AppError, ErrorKind};
pub use handlers::audio::{
    delete_audio, get_user_audio, stream_audio, upload_audio, AudioStream, UploadField,
};
pub use handlers::playlist::{
    add_to_playlist, create_playlist, delete_playlist, get_playlist, get_playlists,
    remove_from_playlist,
};
pub use handlers::user::{create_user, delete_user, list_users};
pub use models::{
    AddToPlaylistRequest, AudioFile, AuthResponse, Claims, CreatePlaylistRequest, CreateUserRequest,
    LoginRequest, Playlist, PlaylistAudioItem, PlaylistItem, PlaylistWithItems, User, UserResponse,
};
pub use policy::{authorize, is_allowed, Action};
pub use schema::Statement;
pub use store::Store;
