//! The access policy: who may do what to which resource.
//!
//! The policy is a pure decision over the subject, whether the subject is an
//! administrator, the action, and the user that the action is aimed at: the
//! owner of the audio file or playlist, or the account itself for actions on
//! users. It never touches storage.

use vstd::prelude::*;

use crate::error::{failure, AppError, AppErrorView, ErrorKind};

verus! {

/// Everything a caller can ask for.
#[derive(Debug, Clone, Copy, PartialEq, Eq, Structural)]
pub enum Action {
    ReadAudio,
    DeleteAudio,
    ListUserAudio,
    ReadPlaylist,
    DeletePlaylist,
    CreatePlaylist,
    ListOwnPlaylists,
    ListAllPlaylists,
    AddPlaylistItem,
    RemovePlaylistItem,
    CreateUser,
    ListUsers,
    DeleteUser,
}

/// The decision table. `target` is the owner of the resource, or the account
/// acted upon; it is ignored by the actions that have none.
pub open spec fn permits(action: Action, subject: Seq<char>, is_admin: bool, target: Seq<char>) -> bool {
    match action {
        Action::ReadAudio | Action::DeleteAudio | Action::ListUserAudio => subject == target
            || is_admin,
        Action::ReadPlaylist | Action::DeletePlaylist => subject == target || is_admin,
        Action::CreatePlaylist | Action::ListOwnPlaylists => true,
        Action::ListAllPlaylists => is_admin,
        Action::AddPlaylistItem | Action::RemovePlaylistItem => subject == target,
        Action::CreateUser | Action::ListUsers => is_admin,
        Action::DeleteUser => is_admin && subject != target,
    }
}

/// Whether an administrator may act on another user's resource in place of
/// its owner. Reading and deleting audio files and playlists is open to
/// administrators; changing the entries of a playlist is not.
pub open spec fn admin_overrides(action: Action) -> bool {
    match action {
        Action::ReadAudio | Action::DeleteAudio | Action::ListUserAudio => true,
        Action::ReadPlaylist | Action::DeletePlaylist => true,
        _ => false,
    }
}

/// Whether the action is aimed at a resource that has an owner.
pub open spec fn owner_scoped(action: Action) -> bool {
    admin_overrides(action) || action == Action::AddPlaylistItem || action
        == Action::RemovePlaylistItem
}

/// The message that tells a subject why the action was refused.
pub open spec fn refusal_message(action: Action, is_admin: bool) -> Seq<char> {
    match action {
        Action::ReadAudio => "Not authorized to access this audio file"@,
        Action::DeleteAudio => "Not authorized to delete this audio file"@,
        Action::ListUserAudio => "Not authorized to access this user's files"@,
        Action::ReadPlaylist => "Not authorized to access this playlist"@,
        Action::DeletePlaylist => "Not authorized to delete this playlist"@,
        Action::CreatePlaylist | Action::ListOwnPlaylists => "Not authorized"@,
        Action::ListAllPlaylists => "Only admin users can list all playlists"@,
        Action::AddPlaylistItem | Action::RemovePlaylistItem =>
            "Not authorized to modify this playlist"@,
        Action::CreateUser => "Only admin users can create new users"@,
        Action::ListUsers => "Only admin users can list all users"@,
        Action::DeleteUser => if is_admin {
            "Cannot delete your own account"@
        } else {
            "Only admin users can delete users"@
        },
    }
}

/// The failure that a refused action is answered with. A refusal is
/// `Unauthorized`, except that an administrator who aims a deletion at their
/// own account meets a `Conflict`.
pub open spec fn refusal(action: Action, is_admin: bool) -> AppErrorView {
    let kind = if action == Action::DeleteUser && is_admin {
        ErrorKind::Conflict
    } else {
        ErrorKind::Unauthorized
    };
    failure(kind, refusal_message(action, is_admin))
}

/// The outcome of asking the policy: nothing to report, or the refusal.
pub open spec fn authorization(
    action: Action,
    subject: Seq<char>,
    is_admin: bool,
    target: Seq<char>,
) -> Result<(), AppErrorView> {
    if permits(action, subject, is_admin, target) {
        Ok(())
    } else {
        Err(refusal(action, is_admin))
    }
}

/// Decides whether `subject` may perform `action` on a resource of `target`.
pub fn is_allowed(action: Action, subject: &str, is_admin: bool, target: &str) -> (allowed: bool)
    ensures
        allowed == permits(action, subject@, is_admin, target@),
{
    match action {
        Action::ReadAudio | Action::DeleteAudio | Action::ListUserAudio => subject.eq(target)
            || is_admin,
        Action::ReadPlaylist | Action::DeletePlaylist => subject.eq(target) || is_admin,
        Action::CreatePlaylist | Action::ListOwnPlaylists => true,
        Action::ListAllPlaylists => is_admin,
        Action::AddPlaylistItem | Action::RemovePlaylistItem => subject.eq(target),
        Action::CreateUser | Action::ListUsers => is_admin,
        Action::DeleteUser => is_admin && !subject.eq(target),
    }
}

/// Asks the policy and turns a refusal into the failure owed to the caller.
pub fn authorize(action: Action, subject: &str, is_admin: bool, target: &str) -> (r: Result<
    (),
    AppError,
>)
    ensures
        r is Ok <==> permits(action, subject@, is_admin, target@),
        match r {
            Ok(_) => true,
            Err(e) => e@ == refusal(action, is_admin),
        },
{
    if is_allowed(action, subject, is_admin, target) {
        return Ok(());
    }
    let kind = match action {
        Action::DeleteUser => if is_admin {
            ErrorKind::Conflict
        } else {
            ErrorKind::Unauthorized
        },
        _ => ErrorKind::Unauthorized,
    };
    let message = match action {
        Action::ReadAudio => "Not authorized to access this audio file",
        Action::DeleteAudio => "Not authorized to delete this audio file",
        Action::ListUserAudio => "Not authorized to access this user's files",
        Action::ReadPlaylist => "Not authorized to access this playlist",
        Action::DeletePlaylist => "Not authorized to delete this playlist",
        Action::CreatePlaylist | Action::ListOwnPlaylists => "Not authorized",
        Action::ListAllPlaylists => "Only admin users can list all playlists",
        Action::AddPlaylistItem | Action::RemovePlaylistItem =>
            "Not authorized to modify this playlist",
        Action::CreateUser => "Only admin users can create new users",
        Action::ListUsers => "Only admin users can list all users",
        Action::DeleteUser => if is_admin {
            "Cannot delete your own account"
        } else {
            "Only admin users can delete users"
        },
    };
    Err(AppError::new(kind, message))
}

/// The policy is the decision table, row by row: for every subject, target
/// and action, access is granted exactly when the subject owns the resource,
/// or is an administrator and the action is one that administrators may
/// perform in an owner's place. Entries of a playlist are the owner's alone,
/// actions on accounts are the administrators' alone, and nobody deletes
/// their own account.
pub proof fn policy_follows_decision_table(
    action: Action,
    subject: Seq<char>,
    is_admin: bool,
    target: Seq<char>,
)
    ensures
        owner_scoped(action) ==> (permits(action, subject, is_admin, target) <==> subject
            == target || (is_admin && admin_overrides(action))),
        action == Action::AddPlaylistItem || action == Action::RemovePlaylistItem ==> (permits(
            action,
            subject,
            is_admin,
            target,
        ) <==> subject == target),
        action == Action::CreatePlaylist || action == Action::ListOwnPlaylists ==> permits(
            action,
            subject,
            is_admin,
            target,
        ),
        action == Action::ListAllPlaylists || action == Action::CreateUser || action
            == Action::ListUsers ==> (permits(action, subject, is_admin, target) <==> is_admin),
        action == Action::DeleteUser ==> (permits(action, subject, is_admin, target) <==> is_admin
            && subject != target),
        !permits(Action::DeleteUser, subject, is_admin, subject),
        !permits(action, subject, is_admin, target) ==> (authorization(
            action,
            subject,
            is_admin,
            target,
        ) matches Err(e) && (e.kind == ErrorKind::Unauthorized || (e.kind == ErrorKind::Conflict
            && action == Action::DeleteUser && is_admin && subject == target))),
{
}

} // verus!
