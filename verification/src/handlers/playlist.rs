//! Playlists and their entries.
//!
//! A playlist is read and removed by its owner or an administrator; its
//! entries are changed by its owner alone.

use vstd::prelude::*;

use crate::auth::{admin_flag, authenticate, check_admin, identity_at};
use crate::cascade::{
    plan_playlist_deletion, playlist_deletion_leaves_nothing_behind, playlist_deletion_unit,
    playlists_owned_by,
};
use crate::change::{answers, commits, lists, single, Change, ChangeView};
use crate::config::AppState;
use crate::context::{RequestContext, RequestContextView};
use crate::error::{failure, AppError, AppErrorView, ErrorKind};
use crate::handlers::audio::audio_with_id;
use crate::models::{
    views, AddToPlaylistRequest, AddToPlaylistRequestView, AudioFile, CreatePlaylistRequest,
    CreatePlaylistRequestView, Playlist, PlaylistAudioItem, PlaylistAudioItemView, PlaylistItem,
    PlaylistItemView, PlaylistView, PlaylistWithItems, PlaylistWithItemsView,
};
use crate::ordering::{arrange, arranged};
use crate::policy::{authorization, authorize, Action};
use crate::position::{
    allocate_position, allocated_position_is_free, greatest_position, position_for, top_position,
};
use crate::schema::{effect_of_all, refers, violates, Library, Statement, StatementView};
use crate::seqs::first_where;
use crate::store::{constraint_failure, referenced, Store};
use crate::tables::{copy_rows, holds, lookup, matching, AudioColumn, ItemColumn, PlaylistColumn};
use crate::text::text_of;

verus! {

/// The failure that answers a request aimed at a playlist that does not
/// exist.
pub open spec fn playlist_not_found() -> AppErrorView {
    failure(ErrorKind::NotFound, "Playlist not found"@)
}

/// The failure that answers the request to add an audio file that does not
/// exist.
pub open spec fn audio_file_not_found() -> AppErrorView {
    failure(ErrorKind::NotFound, "Audio file not found"@)
}

/// The failure that answers the request to remove an entry that the
/// playlist does not have.
pub open spec fn item_not_found() -> AppErrorView {
    failure(ErrorKind::NotFound, "Item not found in playlist"@)
}

/// The playlist with the identifier.
pub open spec fn playlist_with_id(v: Library, id: Seq<char>) -> Option<PlaylistView> {
    first_where(v.playlists, holds::<Playlist>(PlaylistColumn::Id, id))
}

/// The playlist entry with the identifier.
pub open spec fn item_with_id(v: Library, id: Seq<char>) -> Option<PlaylistItemView> {
    first_where(v.playlist_items, holds::<PlaylistItem>(ItemColumn::Id, id))
}

/// The playlist that a request of `caller` creates.
pub open spec fn requested_playlist(
    caller: Seq<char>,
    req: CreatePlaylistRequestView,
    context: RequestContextView,
) -> PlaylistView {
    PlaylistView {
        id: context.new_id,
        name: req.name,
        user_id: caller,
        created_at: context.created_at,
    }
}

/// What the request of `caller` for a new playlist is answered with.
pub open spec fn create_playlist_outcome(
    v: Library,
    caller: Seq<char>,
    req: CreatePlaylistRequestView,
    context: RequestContextView,
) -> Result<ChangeView<PlaylistView>, AppErrorView> {
    let playlist = requested_playlist(caller, req, context);
    if violates(v, StatementView::InsertPlaylist(playlist)) {
        Err(constraint_failure())
    } else {
        Ok(
            ChangeView {
                reply: playlist,
                unit: seq![StatementView::InsertPlaylist(playlist)],
                blobs: Seq::empty(),
            },
        )
    }
}

/// What the request of `caller` for the list of playlists is answered with:
/// all of them for an administrator, the caller's own otherwise, newest
/// first.
pub open spec fn get_playlists_outcome(v: Library, caller: Seq<char>) -> Result<
    Seq<PlaylistView>,
    AppErrorView,
> {
    match admin_flag(v, caller) {
        Err(e) => Err(e),
        Ok(is_admin) => if is_admin {
            Ok(arranged::<Playlist>(v.playlists))
        } else {
            Ok(arranged::<Playlist>(playlists_owned_by(v, caller)))
        },
    }
}

/// An entry of the playlist joined with the audio file it refers to;
/// nothing for the entries of other playlists.
pub open spec fn joined(v: Library, playlist_id: Seq<char>) -> spec_fn(PlaylistItemView) -> Option<
    PlaylistAudioItemView,
> {
    |item: PlaylistItemView|
        if item.playlist_id == playlist_id {
            match audio_with_id(v, item.audio_id) {
                Some(audio) => Some(
                    PlaylistAudioItemView {
                        id: item.id,
                        audio_id: item.audio_id,
                        position: item.position,
                        filename: audio.filename,
                        mime_type: audio.mime_type,
                    },
                ),
                None => None,
            }
        } else {
            None
        }
}

/// The entries of the playlist in playback order.
pub open spec fn entries_of(v: Library, playlist_id: Seq<char>) -> Seq<PlaylistAudioItemView> {
    arranged::<PlaylistAudioItem>(v.playlist_items.filter_map(joined(v, playlist_id)))
}

/// What the request of `caller` for a playlist is answered with.
pub open spec fn get_playlist_outcome(v: Library, caller: Seq<char>, playlist_id: Seq<char>) -> Result<
    PlaylistWithItemsView,
    AppErrorView,
> {
    match admin_flag(v, caller) {
        Err(e) => Err(e),
        Ok(is_admin) => match playlist_with_id(v, playlist_id) {
            None => Err(playlist_not_found()),
            Some(playlist) => match authorization(
                Action::ReadPlaylist,
                caller,
                is_admin,
                playlist.user_id,
            ) {
                Err(e) => Err(e),
                Ok(_) => Ok(
                    PlaylistWithItemsView {
                        id: playlist.id,
                        name: playlist.name,
                        user_id: playlist.user_id,
                        created_at: playlist.created_at,
                        items: entries_of(v, playlist_id),
                    },
                ),
            },
        },
    }
}

/// What the request of `caller` for the removal of a playlist is answered
/// with.
pub open spec fn delete_playlist_outcome(
    v: Library,
    caller: Seq<char>,
    playlist_id: Seq<char>,
) -> Result<ChangeView<()>, AppErrorView> {
    match admin_flag(v, caller) {
        Err(e) => Err(e),
        Ok(is_admin) => match playlist_with_id(v, playlist_id) {
            None => Err(playlist_not_found()),
            Some(playlist) => match authorization(
                Action::DeletePlaylist,
                caller,
                is_admin,
                playlist.user_id,
            ) {
                Err(e) => Err(e),
                Ok(_) => Ok(
                    ChangeView {
                        reply: (),
                        unit: playlist_deletion_unit(playlist_id),
                        blobs: Seq::empty(),
                    },
                ),
            },
        },
    }
}

/// What the request of `caller` for a new entry of a playlist is answered
/// with.
pub open spec fn add_to_playlist_outcome(
    v: Library,
    caller: Seq<char>,
    playlist_id: Seq<char>,
    req: AddToPlaylistRequestView,
    context: RequestContextView,
) -> Result<ChangeView<PlaylistItemView>, AppErrorView> {
    match playlist_with_id(v, playlist_id) {
        None => Err(playlist_not_found()),
        Some(playlist) => match authorization(
            Action::AddPlaylistItem,
            caller,
            false,
            playlist.user_id,
        ) {
            Err(e) => Err(e),
            Ok(_) => if !refers::<AudioFile>(v.audio_files, AudioColumn::Id, req.audio_id) {
                Err(audio_file_not_found())
            } else {
                match position_for(req.position, top_position(v.playlist_items, playlist_id)) {
                    Err(e) => Err(e),
                    Ok(position) => {
                        let item = PlaylistItemView {
                            id: context.new_id,
                            playlist_id,
                            audio_id: req.audio_id,
                            position,
                        };
                        if violates(v, StatementView::InsertPlaylistItem(item)) {
                            Err(constraint_failure())
                        } else {
                            Ok(
                                ChangeView {
                                    reply: item,
                                    unit: seq![StatementView::InsertPlaylistItem(item)],
                                    blobs: Seq::empty(),
                                },
                            )
                        }
                    },
                }
            },
        },
    }
}

/// What the request of `caller` for the removal of an entry of a playlist
/// is answered with.
pub open spec fn remove_from_playlist_outcome(
    v: Library,
    caller: Seq<char>,
    playlist_id: Seq<char>,
    item_id: Seq<char>,
) -> Result<ChangeView<()>, AppErrorView> {
    match playlist_with_id(v, playlist_id) {
        None => Err(playlist_not_found()),
        Some(playlist) => match authorization(
            Action::RemovePlaylistItem,
            caller,
            false,
            playlist.user_id,
        ) {
            Err(e) => Err(e),
            Ok(_) => match item_with_id(v, item_id) {
                Some(item) => if item.playlist_id == playlist_id {
                    Ok(
                        ChangeView {
                            reply: (),
                            unit: seq![StatementView::DeleteItem(item_id)],
                            blobs: Seq::empty(),
                        },
                    )
                } else {
                    Err(item_not_found())
                },
                None => Err(item_not_found()),
            },
        },
    }
}

/// Plans a new playlist of `caller`.
pub fn create_playlist_as(
    caller: &str,
    req: &CreatePlaylistRequest,
    store: &Store,
    context: &RequestContext,
) -> (r: Result<Change<Playlist>, AppError>)
    ensures
        answers(r, create_playlist_outcome(store@, caller@, req@, context@)),
        commits(store@, r),
{
    let playlist = Playlist {
        id: context.new_id.clone(),
        name: req.name.clone(),
        user_id: caller.to_owned(),
        created_at: context.created_at,
    };
    let reply = playlist.clone();
    let statement = Statement::InsertPlaylist(playlist);
    if store.would_violate(&statement) {
        return Err(AppError::new(ErrorKind::Internal, "Storage constraint violated"));
    }
    let change = single(reply, statement);
    proof {
        assert(views(change.blobs@) =~= Seq::empty());
        assert(seq![statement@].drop_first() =~= Seq::<StatementView>::empty());
        reveal_with_fuel(effect_of_all, 2);
    }
    Ok(change)
}

/// Creates a playlist that the caller owns.
pub fn create_playlist(
    req: &CreatePlaylistRequest,
    state: &AppState,
    authorization: Option<&str>,
    context: &RequestContext,
) -> (r: Result<Change<Playlist>, AppError>)
    ensures
        answers(
            r,
            match identity_at(text_of(authorization), state.secret_key@, context.now) {
                Err(e) => Err(e),
                Ok(caller) => create_playlist_outcome(state.store@, caller, req@, context@),
            },
        ),
        commits(state.store@, r),
{
    let caller = authenticate(authorization, state.secret_key.as_str(), context.now)?;
    create_playlist_as(caller.as_str(), req, &state.store, context)
}

/// Lists playlists on behalf of `caller`.
pub fn get_playlists_as(caller: &str, store: &Store) -> (r: Result<Vec<Playlist>, AppError>)
    ensures
        lists(r, get_playlists_outcome(store@, caller@)),
{
    let is_admin = check_admin(caller, store)?;
    if is_admin {
        Ok(arrange(copy_rows(store.playlists())))
    } else {
        Ok(arrange(matching(store.playlists(), &PlaylistColumn::UserId, caller)))
    }
}

/// Lists the playlists, newest first: all of them for an administrator, the
/// caller's own otherwise.
pub fn get_playlists(state: &AppState, authorization: Option<&str>, context: &RequestContext) -> (r:
    Result<Vec<Playlist>, AppError>)
    ensures
        lists(
            r,
            match identity_at(text_of(authorization), state.secret_key@, context.now) {
                Err(e) => Err(e),
                Ok(caller) => get_playlists_outcome(state.store@, caller),
            },
        ),
{
    let caller = authenticate(authorization, state.secret_key.as_str(), context.now)?;
    get_playlists_as(caller.as_str(), &state.store)
}

/// The entries of a playlist, each joined with its audio file, in playback
/// order.
pub fn playlist_entries(store: &Store, playlist_id: &str) -> (entries: Vec<PlaylistAudioItem>)
    ensures
        views(entries@) == entries_of(store@, playlist_id@),
{
    let items = store.playlist_items();
    let ghost rows = views(items@);
    let ghost join = joined(store@, playlist_id@);
    let mut found: Vec<PlaylistAudioItem> = Vec::new();
    let mut i: usize = 0;
    proof {
        assert(views(found@) =~= rows.take(0).filter_map(join));
    }
    while i < items.len()
        invariant
            i <= items.len(),
            rows == views(items@),
            join == joined(store@, playlist_id@),
            views(found@) == rows.take(i as int).filter_map(join),
        decreases items.len() - i,
    {
        proof {
            rows.lemma_filter_map_take_succ(join, i as int);
        }
        let item = &items[i];
        if item.playlist_id.as_str().eq(playlist_id) {
            match lookup(store.audio_files(), &AudioColumn::Id, item.audio_id.as_str()) {
                Some(audio) => {
                    let ghost before = found@;
                    let entry = PlaylistAudioItem {
                        id: item.id.clone(),
                        audio_id: item.audio_id.clone(),
                        position: item.position,
                        filename: audio.filename.clone(),
                        mime_type: audio.mime_type.clone(),
                    };
                    found.push(entry);
                    proof {
                        assert(join(rows[i as int]) == Some(entry@));
                        assert(views(found@) =~= views(before) + seq![entry@]);
                    }
                },
                None => {},
            }
        }
        i += 1;
    }
    proof {
        assert(rows.take(items.len() as int) =~= rows);
    }
    arrange(found)
}

/// Reads a playlist on behalf of `caller`.
pub fn get_playlist_as(caller: &str, playlist_id: &str, store: &Store) -> (r: Result<
    PlaylistWithItems,
    AppError,
>)
    ensures
        answers(r, get_playlist_outcome(store@, caller@, playlist_id@)),
{
    let is_admin = check_admin(caller, store)?;
    let playlist = match lookup(store.playlists(), &PlaylistColumn::Id, playlist_id) {
        Some(playlist) => playlist,
        None => {
            return Err(AppError::new(ErrorKind::NotFound, "Playlist not found"));
        },
    };
    authorize(Action::ReadPlaylist, caller, is_admin, playlist.user_id.as_str())?;
    Ok(
        PlaylistWithItems {
            id: playlist.id.clone(),
            name: playlist.name.clone(),
            user_id: playlist.user_id.clone(),
            created_at: playlist.created_at,
            items: playlist_entries(store, playlist_id),
        },
    )
}

/// Reads a playlist with its entries in playback order. Its owner and
/// administrators may.
pub fn get_playlist(
    path: &str,
    state: &AppState,
    authorization: Option<&str>,
    context: &RequestContext,
) -> (r: Result<PlaylistWithItems, AppError>)
    ensures
        answers(
            r,
            match identity_at(text_of(authorization), state.secret_key@, context.now) {
                Err(e) => Err(e),
                Ok(caller) => get_playlist_outcome(state.store@, caller, path@),
            },
        ),
{
    let caller = authenticate(authorization, state.secret_key.as_str(), context.now)?;
    get_playlist_as(caller.as_str(), path, &state.store)
}

/// Plans the removal of a playlist on behalf of `caller`.
pub fn delete_playlist_as(caller: &str, playlist_id: &str, store: &Store) -> (r: Result<
    Change<()>,
    AppError,
>)
    ensures
        answers(r, delete_playlist_outcome(store@, caller@, playlist_id@)),
        commits(store@, r),
{
    let is_admin = check_admin(caller, store)?;
    let playlist = match lookup(store.playlists(), &PlaylistColumn::Id, playlist_id) {
        Some(playlist) => playlist,
        None => {
            return Err(AppError::new(ErrorKind::NotFound, "Playlist not found"));
        },
    };
    authorize(Action::DeletePlaylist, caller, is_admin, playlist.user_id.as_str())?;
    let unit = plan_playlist_deletion(playlist_id);
    store.recall_constraints();
    proof {
        playlist_deletion_leaves_nothing_behind(store@, playlist_id@);
    }
    let change = Change { reply: (), unit, blobs: Vec::new() };
    proof {
        assert(views(change.blobs@) =~= Seq::empty());
    }
    Ok(change)
}

/// Removes a playlist: its entries first, then the playlist, as one unit of
/// work. Its owner and administrators may.
pub fn delete_playlist(
    path: &str,
    state: &AppState,
    authorization: Option<&str>,
    context: &RequestContext,
) -> (r: Result<Change<()>, AppError>)
    ensures
        answers(
            r,
            match identity_at(text_of(authorization), state.secret_key@, context.now) {
                Err(e) => Err(e),
                Ok(caller) => delete_playlist_outcome(state.store@, caller, path@),
            },
        ),
        commits(state.store@, r),
{
    let caller = authenticate(authorization, state.secret_key.as_str(), context.now)?;
    delete_playlist_as(caller.as_str(), path, &state.store)
}

/// Plans a new entry of a playlist on behalf of `caller`.
pub fn add_to_playlist_as(
    caller: &str,
    playlist_id: &str,
    req: &AddToPlaylistRequest,
    store: &Store,
    context: &RequestContext,
) -> (r: Result<Change<PlaylistItem>, AppError>)
    ensures
        answers(r, add_to_playlist_outcome(store@, caller@, playlist_id@, req@, context@)),
        commits(store@, r),
{
    let playlist = match lookup(store.playlists(), &PlaylistColumn::Id, playlist_id) {
        Some(playlist) => playlist,
        None => {
            return Err(AppError::new(ErrorKind::NotFound, "Playlist not found"));
        },
    };
    authorize(Action::AddPlaylistItem, caller, false, playlist.user_id.as_str())?;
    if !referenced(store.audio_files(), &AudioColumn::Id, req.audio_id.as_str()) {
        return Err(AppError::new(ErrorKind::NotFound, "Audio file not found"));
    }
    let top = greatest_position(store.playlist_items(), playlist_id);
    let position = allocate_position(req.position, top)?;
    let item = PlaylistItem {
        id: context.new_id.clone(),
        playlist_id: playlist_id.to_owned(),
        audio_id: req.audio_id.clone(),
        position,
    };
    let reply = item.clone();
    let statement = Statement::InsertPlaylistItem(item);
    if store.would_violate(&statement) {
        return Err(AppError::new(ErrorKind::Internal, "Storage constraint violated"));
    }
    let change = single(reply, statement);
    proof {
        assert(views(change.blobs@) =~= Seq::empty());
        assert(seq![statement@].drop_first() =~= Seq::<StatementView>::empty());
        reveal_with_fuel(effect_of_all, 2);
    }
    Ok(change)
}

/// Adds an audio file to a playlist, at the position that the request
/// names or else behind the last entry. Only the owner of the playlist may.
pub fn add_to_playlist(
    path: &str,
    req: &AddToPlaylistRequest,
    state: &AppState,
    authorization: Option<&str>,
    context: &RequestContext,
) -> (r: Result<Change<PlaylistItem>, AppError>)
    ensures
        answers(
            r,
            match identity_at(text_of(authorization), state.secret_key@, context.now) {
                Err(e) => Err(e),
                Ok(caller) => add_to_playlist_outcome(state.store@, caller, path@, req@, context@),
            },
        ),
        commits(state.store@, r),
{
    let caller = authenticate(authorization, state.secret_key.as_str(), context.now)?;
    add_to_playlist_as(caller.as_str(), path, req, &state.store, context)
}

/// Plans the removal of an entry of a playlist on behalf of `caller`.
pub fn remove_from_playlist_as(caller: &str, playlist_id: &str, item_id: &str, store: &Store) -> (r:
    Result<Change<()>, AppError>)
    ensures
        answers(r, remove_from_playlist_outcome(store@, caller@, playlist_id@, item_id@)),
        commits(store@, r),
{
    let playlist = match lookup(store.playlists(), &PlaylistColumn::Id, playlist_id) {
        Some(playlist) => playlist,
        None => {
            return Err(AppError::new(ErrorKind::NotFound, "Playlist not found"));
        },
    };
    authorize(Action::RemovePlaylistItem, caller, false, playlist.user_id.as_str())?;
    let in_playlist = match lookup(store.playlist_items(), &ItemColumn::Id, item_id) {
        Some(item) => item.playlist_id.as_str().eq(playlist_id),
        None => false,
    };
    if !in_playlist {
        return Err(AppError::new(ErrorKind::NotFound, "Item not found in playlist"));
    }
    let statement = Statement::DeleteItem(item_id.to_owned());
    let change = single((), statement);
    proof {
        assert(views(change.blobs@) =~= Seq::empty());
        assert(seq![statement@].drop_first() =~= Seq::<StatementView>::empty());
        reveal_with_fuel(effect_of_all, 2);
    }
    Ok(change)
}

/// Removes an entry from a playlist. Only the owner of the playlist may.
pub fn remove_from_playlist(
    path: (&str, &str),
    state: &AppState,
    authorization: Option<&str>,
    context: &RequestContext,
) -> (r: Result<Change<()>, AppError>)
    ensures
        answers(
            r,
            match identity_at(text_of(authorization), state.secret_key@, context.now) {
                Err(e) => Err(e),
                Ok(caller) => remove_from_playlist_outcome(
                    state.store@,
                    caller,
                    path.0@,
                    path.1@,
                ),
            },
        ),
        commits(state.store@, r),
{
    let caller = authenticate(authorization, state.secret_key.as_str(), context.now)?;
    remove_from_playlist_as(caller.as_str(), path.0, path.1, &state.store)
}

/// No two entries of the playlist have the same position.
pub open spec fn positions_distinct(items: Seq<PlaylistItemView>, playlist_id: Seq<char>) -> bool {
    forall|i: int, j: int|
        0 <= i < j < items.len() && (#[trigger] items[i]).playlist_id == playlist_id && (
        #[trigger] items[j]).playlist_id == playlist_id ==> items[i].position != items[j].position
}

/// An entry that is added without a named position goes behind every entry
/// that the playlist has, so it shares its position with none of them: a
/// playlist whose positions were all different stays so once the unit of
/// work is committed.
pub proof fn appended_entry_takes_a_free_position(
    v: Library,
    caller: Seq<char>,
    playlist_id: Seq<char>,
    req: AddToPlaylistRequestView,
    context: RequestContextView,
)
    requires
        req.position is None,
        add_to_playlist_outcome(v, caller, playlist_id, req, context) is Ok,
    ensures
        match add_to_playlist_outcome(v, caller, playlist_id, req, context) {
            Ok(change) => {
                &&& effect_of_all(v, change.unit) == Some(
                    Library { playlist_items: v.playlist_items.push(change.reply), ..v },
                )
                &&& change.reply.playlist_id == playlist_id
                &&& forall|i: int|
                    0 <= i < v.playlist_items.len() && (#[trigger] v.playlist_items[i]).playlist_id
                        == playlist_id ==> v.playlist_items[i].position < change.reply.position
                &&& positions_distinct(v.playlist_items, playlist_id) ==> positions_distinct(
                    v.playlist_items.push(change.reply),
                    playlist_id,
                )
            },
            Err(_) => false,
        },
{
    let change = add_to_playlist_outcome(v, caller, playlist_id, req, context)->Ok_0;
    let item = change.reply;
    allocated_position_is_free(v.playlist_items, playlist_id, item.position);
    assert(change.unit.drop_first() =~= Seq::<StatementView>::empty());
    reveal_with_fuel(effect_of_all, 2);
    let after = v.playlist_items.push(item);
    if positions_distinct(v.playlist_items, playlist_id) {
        assert forall|i: int, j: int|
            0 <= i < j < after.len() && (#[trigger] after[i]).playlist_id == playlist_id && (
            #[trigger] after[j]).playlist_id == playlist_id implies after[i].position
            != after[j].position by {
            assert(after[i] == v.playlist_items[i]);
            if j < v.playlist_items.len() {
                assert(after[j] == v.playlist_items[j]);
            }
        }
    }
}

/// Two entries that are added to a playlist without named positions, the
/// second planned once the first is committed, get different positions,
/// whoever asks and whatever else the requests hold.
pub proof fn successive_appends_get_different_positions(
    v: Library,
    playlist_id: Seq<char>,
    first_caller: Seq<char>,
    first_req: AddToPlaylistRequestView,
    first_context: RequestContextView,
    second_caller: Seq<char>,
    second_req: AddToPlaylistRequestView,
    second_context: RequestContextView,
)
    requires
        first_req.position is None,
        second_req.position is None,
        add_to_playlist_outcome(v, first_caller, playlist_id, first_req, first_context) is Ok,
        add_to_playlist_outcome(
            Library {
                playlist_items: v.playlist_items.push(
                    add_to_playlist_outcome(
                        v,
                        first_caller,
                        playlist_id,
                        first_req,
                        first_context,
                    )->Ok_0.reply,
                ),
                ..v
            },
            second_caller,
            playlist_id,
            second_req,
            second_context,
        ) is Ok,
    ensures
        add_to_playlist_outcome(
            v,
            first_caller,
            playlist_id,
            first_req,
            first_context,
        )->Ok_0.reply.position < add_to_playlist_outcome(
            Library {
                playlist_items: v.playlist_items.push(
                    add_to_playlist_outcome(
                        v,
                        first_caller,
                        playlist_id,
                        first_req,
                        first_context,
                    )->Ok_0.reply,
                ),
                ..v
            },
            second_caller,
            playlist_id,
            second_req,
            second_context,
        )->Ok_0.reply.position,
{
    let first = add_to_playlist_outcome(v, first_caller, playlist_id, first_req, first_context)->Ok_0;
    let between = Library { playlist_items: v.playlist_items.push(first.reply), ..v };
    appended_entry_takes_a_free_position(v, first_caller, playlist_id, first_req, first_context);
    appended_entry_takes_a_free_position(
        between,
        second_caller,
        playlist_id,
        second_req,
        second_context,
    );
    assert(between.playlist_items[v.playlist_items.len() as int] == first.reply);
}

/// One request to add an entry to a playlist: who asks, what is asked, and
/// the circumstances of the request.
pub struct Append {
    pub caller: Seq<char>,
    pub req: AddToPlaylistRequestView,
    pub context: RequestContextView,
}

/// The library once requests to one playlist were served in turn, each
/// planned on the library as the one before left it and its unit of work
/// committed, together with the entries that were created; nothing where
/// one of the requests fails. Requests that arrive together are served in
/// some turn: whatever the turn, this is what comes of them.
pub open spec fn served_in_turn(v: Library, playlist_id: Seq<char>, requests: Seq<Append>) -> Option<
    (Library, Seq<PlaylistItemView>),
>
    decreases requests.len(),
{
    if requests.len() == 0 {
        Some((v, Seq::empty()))
    } else {
        let first = requests[0];
        match add_to_playlist_outcome(v, first.caller, playlist_id, first.req, first.context) {
            Err(_) => None,
            Ok(change) => match effect_of_all(v, change.unit) {
                None => None,
                Some(next) => match served_in_turn(next, playlist_id, requests.drop_first()) {
                    None => None,
                    Some((last, rest)) => Some((last, seq![change.reply] + rest)),
                },
            },
        }
    }
}

/// The library with more playlist entries.
pub open spec fn with_entries(v: Library, entries: Seq<PlaylistItemView>) -> Library {
    Library { playlist_items: v.playlist_items + entries, ..v }
}

/// However many entries are added to a playlist without named positions,
/// served in whatever turn: each request gets one entry of the playlist,
/// the library ends up with these entries and is otherwise as before, their
/// positions rise from one entry to the next and lie above every position
/// that the playlist had, and a playlist whose positions were all different
/// has them all different afterwards.
pub proof fn appends_never_share_a_position(v: Library, playlist_id: Seq<char>, requests: Seq<Append>)
    requires
        forall|i: int| 0 <= i < requests.len() ==> (#[trigger] requests[i]).req.position is None,
        served_in_turn(v, playlist_id, requests) is Some,
    ensures
        ({
            let (after, entries) = served_in_turn(v, playlist_id, requests)->0;
            &&& after == with_entries(v, entries)
            &&& entries.len() == requests.len()
            &&& forall|i: int|
                0 <= i < entries.len() ==> (#[trigger] entries[i]).playlist_id == playlist_id
            &&& forall|i: int, j: int|
                0 <= i < j < entries.len() ==> (#[trigger] entries[i]).position < (
                #[trigger] entries[j]).position
            &&& forall|k: int, i: int|
                0 <= k < v.playlist_items.len() && 0 <= i < entries.len() && (
                #[trigger] v.playlist_items[k]).playlist_id == playlist_id
                    ==> v.playlist_items[k].position < (#[trigger] entries[i]).position
            &&& positions_distinct(v.playlist_items, playlist_id) ==> positions_distinct(
                after.playlist_items,
                playlist_id,
            )
        }),
    decreases requests.len(),
{
    let (after, entries) = served_in_turn(v, playlist_id, requests)->0;
    if requests.len() > 0 {
        let first = requests[0];
        let change = add_to_playlist_outcome(
            v,
            first.caller,
            playlist_id,
            first.req,
            first.context,
        )->Ok_0;
        let entry = change.reply;
        let next = effect_of_all(v, change.unit)->0;
        let later = requests.drop_first();
        let (last, rest) = served_in_turn(next, playlist_id, later)->0;
        appended_entry_takes_a_free_position(
            v,
            first.caller,
            playlist_id,
            first.req,
            first.context,
        );
        assert forall|i: int| 0 <= i < later.len() implies (#[trigger] later[i]).req.position is None by {
            assert(later[i] == requests[i + 1]);
        }
        appends_never_share_a_position(next, playlist_id, later);
        assert(entries == seq![entry] + rest);
        assert(after == last);
        assert(next.playlist_items[v.playlist_items.len() as int] == entry);
        assert forall|i: int| 0 <= i < entries.len() implies (#[trigger] entries[i]).playlist_id
            == playlist_id by {
            if i > 0 {
                assert(entries[i] == rest[i - 1]);
            }
        }
        assert forall|i: int, j: int| 0 <= i < j < entries.len() implies (
        #[trigger] entries[i]).position < (#[trigger] entries[j]).position by {
            assert(entries[j] == rest[j - 1]);
            if i > 0 {
                assert(entries[i] == rest[i - 1]);
            }
        }
        assert forall|k: int, i: int|
            0 <= k < v.playlist_items.len() && 0 <= i < entries.len() && (
            #[trigger] v.playlist_items[k]).playlist_id == playlist_id implies v.playlist_items[k].position
            < (#[trigger] entries[i]).position by {
            assert(next.playlist_items[k] == v.playlist_items[k]);
            if i > 0 {
                assert(entries[i] == rest[i - 1]);
            }
        }
        assert(with_entries(v, entries).playlist_items =~= with_entries(next, rest).playlist_items);
    } else {
        assert(with_entries(v, entries).playlist_items =~= v.playlist_items);
    }
}

} // verus!
