//! Accounts: creating, listing and removing them. All three are reserved to
//! administrators, and nobody removes their own account.

use vstd::prelude::*;

use crate::auth::{admin_flag, authenticate, check_admin, identity_at};
use crate::blobs::{folder_of, user_folder};
use crate::cascade::{
    plan_user_blob_removal, plan_user_deletion, user_blob_steps,
    user_deletion_leaves_nothing_behind, user_deletion_unit, without_user,
};
use crate::change::{answers, commits, lists, BlobStep, BlobStepView, Change, ChangeView};
use crate::config::AppState;
use crate::context::RequestContext;
use crate::error::{failure, AppError, AppErrorView, ErrorKind};
use crate::models::{
    views, AudioFile, CreateUserRequest, CreateUserRequestView, Playlist, User, UserResponse,
    UserResponseView, UserView,
};
use crate::policy::{authorization, authorize, Action};
use crate::schema::{consistent, effect_of_all, refers, Library, Statement, StatementView};
use crate::store::{constraint_failure, referenced, Store};
use crate::tables::{AudioColumn, PlaylistColumn, UserColumn};
use crate::text::text_of;

verus! {

/// The failure that answers the request for a username that is in use.
pub open spec fn username_taken() -> AppErrorView {
    failure(ErrorKind::Validation, "Username already exists"@)
}

/// The failure that answers a request aimed at an account that does not
/// exist.
pub open spec fn user_not_found() -> AppErrorView {
    failure(ErrorKind::NotFound, "User not found"@)
}

/// The account that a request creates under the identifier.
pub open spec fn requested_user(req: CreateUserRequestView, id: Seq<char>) -> UserView {
    UserView { id, username: req.username, password: req.password, is_admin: req.is_admin }
}

/// An account as callers see it.
pub open spec fn shown(user: UserView) -> UserResponseView {
    UserResponseView { id: user.id, username: user.username, is_admin: user.is_admin }
}

/// The accounts as callers see them.
pub open spec fn all_shown(users: Seq<UserView>) -> Seq<UserResponseView> {
    users.map_values(|u: UserView| shown(u))
}

/// What the request of `caller` for a new account is answered with.
pub open spec fn create_user_outcome(
    v: Library,
    caller: Seq<char>,
    req: CreateUserRequestView,
    new_id: Seq<char>,
) -> Result<ChangeView<UserResponseView>, AppErrorView> {
    match admin_flag(v, caller) {
        Err(e) => Err(e),
        Ok(is_admin) => match authorization(Action::CreateUser, caller, is_admin, caller) {
            Err(e) => Err(e),
            Ok(_) => if refers::<User>(v.users, UserColumn::Username, req.username) {
                Err(username_taken())
            } else if refers::<User>(v.users, UserColumn::Id, new_id) {
                Err(constraint_failure())
            } else {
                Ok(
                    ChangeView {
                        reply: shown(requested_user(req, new_id)),
                        unit: seq![StatementView::InsertUser(requested_user(req, new_id))],
                        blobs: seq![BlobStepView::CreateFolder(folder_of(new_id))],
                    },
                )
            },
        },
    }
}

/// What the request of `caller` for the list of accounts is answered with.
pub open spec fn list_users_outcome(v: Library, caller: Seq<char>) -> Result<
    Seq<UserResponseView>,
    AppErrorView,
> {
    match admin_flag(v, caller) {
        Err(e) => Err(e),
        Ok(is_admin) => match authorization(Action::ListUsers, caller, is_admin, caller) {
            Err(e) => Err(e),
            Ok(_) => Ok(all_shown(v.users)),
        },
    }
}

/// What the request of `caller` for the removal of an account is answered
/// with.
pub open spec fn delete_user_outcome(v: Library, caller: Seq<char>, target: Seq<char>) -> Result<
    ChangeView<()>,
    AppErrorView,
> {
    match admin_flag(v, caller) {
        Err(e) => Err(e),
        Ok(is_admin) => match authorization(Action::DeleteUser, caller, is_admin, target) {
            Err(e) => Err(e),
            Ok(_) => if !refers::<User>(v.users, UserColumn::Id, target) {
                Err(user_not_found())
            } else {
                Ok(
                    ChangeView {
                        reply: (),
                        unit: user_deletion_unit(v, target),
                        blobs: user_blob_steps(v, target),
                    },
                )
            },
        },
    }
}

/// Creates an account on behalf of `caller`.
pub fn create_user_as(
    caller: &str,
    req: &CreateUserRequest,
    store: &Store,
    context: &RequestContext,
) -> (r: Result<Change<UserResponse>, AppError>)
    ensures
        answers(r, create_user_outcome(store@, caller@, req@, context.new_id@)),
        commits(store@, r),
{
    let is_admin = check_admin(caller, store)?;
    authorize(Action::CreateUser, caller, is_admin, caller)?;
    if referenced(store.users(), &UserColumn::Username, req.username.as_str()) {
        return Err(AppError::new(ErrorKind::Validation, "Username already exists"));
    }
    if referenced(store.users(), &UserColumn::Id, context.new_id.as_str()) {
        return Err(AppError::new(ErrorKind::Internal, "Storage constraint violated"));
    }
    let user = User {
        id: context.new_id.clone(),
        username: req.username.clone(),
        password: req.password.clone(),
        is_admin: req.is_admin,
    };
    let reply = UserResponse {
        id: context.new_id.clone(),
        username: req.username.clone(),
        is_admin: req.is_admin,
    };
    let ghost row = user@;
    let mut unit: Vec<Statement> = Vec::new();
    unit.push(Statement::InsertUser(user));
    let mut blobs: Vec<BlobStep> = Vec::new();
    blobs.push(BlobStep::CreateFolder(user_folder(context.new_id.as_str())));
    proof {
        let statement = StatementView::InsertUser(row);
        assert(views(unit@) =~= seq![statement]);
        assert(views(blobs@) =~= seq![BlobStepView::CreateFolder(folder_of(context.new_id@))]);
        assert(seq![statement].drop_first() =~= Seq::<StatementView>::empty());
        reveal_with_fuel(effect_of_all, 2);
    }
    Ok(Change { reply, unit, blobs })
}

/// Creates an account. Only administrators may; the username must be free.
pub fn create_user(
    req: &CreateUserRequest,
    state: &AppState,
    authorization: Option<&str>,
    context: &RequestContext,
) -> (r: Result<Change<UserResponse>, AppError>)
    ensures
        answers(
            r,
            match identity_at(text_of(authorization), state.secret_key@, context.now) {
                Err(e) => Err(e),
                Ok(caller) => create_user_outcome(state.store@, caller, req@, context.new_id@),
            },
        ),
        commits(state.store@, r),
{
    let caller = authenticate(authorization, state.secret_key.as_str(), context.now)?;
    create_user_as(caller.as_str(), req, &state.store, context)
}

/// Lists the accounts on behalf of `caller`.
pub fn list_users_as(caller: &str, store: &Store) -> (r: Result<Vec<UserResponse>, AppError>)
    ensures
        lists(r, list_users_outcome(store@, caller@)),
{
    let is_admin = check_admin(caller, store)?;
    authorize(Action::ListUsers, caller, is_admin, caller)?;
    let users = store.users();
    let ghost rows = views(users@);
    let mut shown_users: Vec<UserResponse> = Vec::new();
    let mut i: usize = 0;
    proof {
        assert(views(shown_users@) =~= all_shown(rows.take(0)));
    }
    while i < users.len()
        invariant
            i <= users.len(),
            rows == views(users@),
            views(shown_users@) == all_shown(rows.take(i as int)),
        decreases users.len() - i,
    {
        let ghost before = shown_users@;
        let user = &users[i];
        let entry = UserResponse {
            id: user.id.clone(),
            username: user.username.clone(),
            is_admin: user.is_admin,
        };
        shown_users.push(entry);
        proof {
            assert(rows.take(i + 1) =~= rows.take(i as int).push(rows[i as int]));
            assert(views(shown_users@) =~= views(before).push(shown(rows[i as int])));
            assert(views(shown_users@) =~= all_shown(rows.take(i + 1)));
        }
        i += 1;
    }
    proof {
        assert(rows.take(users.len() as int) =~= rows);
    }
    Ok(shown_users)
}

/// Lists the accounts, without their secrets. Only administrators may.
pub fn list_users(state: &AppState, authorization: Option<&str>, context: &RequestContext) -> (r:
    Result<Vec<UserResponse>, AppError>)
    ensures
        lists(
            r,
            match identity_at(text_of(authorization), state.secret_key@, context.now) {
                Err(e) => Err(e),
                Ok(caller) => list_users_outcome(state.store@, caller),
            },
        ),
{
    let caller = authenticate(authorization, state.secret_key.as_str(), context.now)?;
    list_users_as(caller.as_str(), &state.store)
}

/// Plans the removal of an account on behalf of `caller`.
pub fn delete_user_as(caller: &str, target: &str, store: &Store) -> (r: Result<Change<()>, AppError>)
    ensures
        answers(r, delete_user_outcome(store@, caller@, target@)),
        commits(store@, r),
{
    let is_admin = check_admin(caller, store)?;
    authorize(Action::DeleteUser, caller, is_admin, target)?;
    if !referenced(store.users(), &UserColumn::Id, target) {
        return Err(AppError::new(ErrorKind::NotFound, "User not found"));
    }
    let unit = plan_user_deletion(store, target);
    let blobs = plan_user_blob_removal(store, target);
    store.recall_constraints();
    proof {
        user_deletion_leaves_nothing_behind(store@, target@);
    }
    Ok(Change { reply: (), unit, blobs })
}

/// Removes an account with its audio files, its playlists and every
/// playlist entry that depends on either. Only administrators may, and not
/// their own account.
pub fn delete_user(
    path: &str,
    state: &AppState,
    authorization: Option<&str>,
    context: &RequestContext,
) -> (r: Result<Change<()>, AppError>)
    ensures
        answers(
            r,
            match identity_at(text_of(authorization), state.secret_key@, context.now) {
                Err(e) => Err(e),
                Ok(caller) => delete_user_outcome(state.store@, caller, path@),
            },
        ),
        commits(state.store@, r),
{
    let caller = authenticate(authorization, state.secret_key.as_str(), context.now)?;
    delete_user_as(caller.as_str(), path, &state.store)
}

/// Where the removal of an account is granted, committing its unit of work
/// leaves the library without the account and without anything that
/// depended on it, and within its constraints.
pub proof fn removed_user_is_gone(v: Library, caller: Seq<char>, target: Seq<char>)
    requires
        consistent(v),
        delete_user_outcome(v, caller, target) is Ok,
    ensures
        effect_of_all(v, delete_user_outcome(v, caller, target)->Ok_0.unit) == Some(
            without_user(v, target),
        ),
        consistent(without_user(v, target)),
        !refers::<User>(without_user(v, target).users, UserColumn::Id, target),
        !refers::<AudioFile>(without_user(v, target).audio_files, AudioColumn::UserId, target),
        !refers::<Playlist>(without_user(v, target).playlists, PlaylistColumn::UserId, target),
{
    user_deletion_leaves_nothing_behind(v, target);
}

} // verus!
