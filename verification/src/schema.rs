//! The relational model of the library: four tables, the constraints that
//! tie them together, and what each statement does to them.
//!
//! Accounts own audio files and playlists; a playlist entry refers to one
//! playlist and one audio file. A statement that would break a constraint
//! fails and changes nothing.

use vstd::prelude::*;

use crate::models::{
    AudioFile, AudioFileView, Playlist, PlaylistItem, PlaylistItemView, PlaylistView, User,
    UserView,
};
use crate::seqs::{any_where, lemma_filter_members, lemma_filter_pairwise, pairwise};
use crate::tables::{holds, holds_other, AudioColumn, ItemColumn, PlaylistColumn, Row, UserColumn};

verus! {

/// The contents of the four tables, each in insertion order.
pub struct Library {
    pub users: Seq<UserView>,
    pub audio_files: Seq<AudioFileView>,
    pub playlists: Seq<PlaylistView>,
    pub playlist_items: Seq<PlaylistItemView>,
}

/// No two rows hold the same text in the column.
pub open spec fn keyed_by<T: Row>(rows: Seq<T::V>, column: T::Column) -> bool {
    pairwise(rows, |a: T::V, b: T::V| T::field(a, column) != T::field(b, column))
}

/// Some row holds the key in the column.
pub open spec fn refers<T: Row>(rows: Seq<T::V>, column: T::Column, key: Seq<char>) -> bool {
    any_where(rows, holds::<T>(column, key))
}

/// What every row holds in the column, some target row holds in the key
/// column.
pub open spec fn all_refer<T: Row, U: Row>(
    rows: Seq<T::V>,
    column: T::Column,
    targets: Seq<U::V>,
    key: U::Column,
) -> bool {
    forall|i: int|
        0 <= i < rows.len() ==> refers::<U>(targets, key, T::field(#[trigger] rows[i], column))
}

/// Some audio file of the user is an entry of some playlist.
pub open spec fn audio_of_user_in_use(v: Library, user_id: Seq<char>) -> bool {
    any_where(
        v.audio_files,
        |a: AudioFileView|
            a.user_id == user_id && refers::<PlaylistItem>(
                v.playlist_items,
                ItemColumn::AudioId,
                a.id,
            ),
    )
}

/// Some playlist of the user has an entry.
pub open spec fn playlist_of_user_in_use(v: Library, user_id: Seq<char>) -> bool {
    any_where(
        v.playlists,
        |p: PlaylistView|
            p.user_id == user_id && refers::<PlaylistItem>(
                v.playlist_items,
                ItemColumn::PlaylistId,
                p.id,
            ),
    )
}

/// The constraints of the schema: identifiers and usernames are unique, every
/// audio file and playlist belongs to an account, and every playlist entry
/// refers to a playlist and an audio file that exist.
pub open spec fn consistent(v: Library) -> bool {
    &&& keyed_by::<User>(v.users, UserColumn::Id)
    &&& keyed_by::<User>(v.users, UserColumn::Username)
    &&& keyed_by::<AudioFile>(v.audio_files, AudioColumn::Id)
    &&& keyed_by::<Playlist>(v.playlists, PlaylistColumn::Id)
    &&& keyed_by::<PlaylistItem>(v.playlist_items, ItemColumn::Id)
    &&& all_refer::<AudioFile, User>(v.audio_files, AudioColumn::UserId, v.users, UserColumn::Id)
    &&& all_refer::<Playlist, User>(v.playlists, PlaylistColumn::UserId, v.users, UserColumn::Id)
    &&& all_refer::<PlaylistItem, Playlist>(
        v.playlist_items,
        ItemColumn::PlaylistId,
        v.playlists,
        PlaylistColumn::Id,
    )
    &&& all_refer::<PlaylistItem, AudioFile>(
        v.playlist_items,
        ItemColumn::AudioId,
        v.audio_files,
        AudioColumn::Id,
    )
}

/// The library with no accounts and no content.
pub open spec fn empty_store() -> Library {
    Library {
        users: Seq::empty(),
        audio_files: Seq::empty(),
        playlists: Seq::empty(),
        playlist_items: Seq::empty(),
    }
}

/// One change to the tables.
#[derive(Debug, PartialEq, Eq)]
pub enum Statement {
    InsertUser(User),
    InsertAudioFile(AudioFile),
    InsertPlaylist(Playlist),
    InsertPlaylistItem(PlaylistItem),
    /// Removes the playlist entries that refer to the audio file.
    DeleteItemsByAudio(String),
    /// Removes the entries of the playlist.
    DeleteItemsByPlaylist(String),
    /// Removes the playlist entry with the identifier.
    DeleteItem(String),
    /// Removes the audio files of the account.
    DeleteAudioByUser(String),
    /// Removes the audio file with the identifier.
    DeleteAudio(String),
    /// Removes the playlists of the account.
    DeletePlaylistsByUser(String),
    /// Removes the playlist with the identifier.
    DeletePlaylist(String),
    /// Removes the account with the identifier.
    DeleteUser(String),
}

/// The mathematical value of a [`Statement`].
pub enum StatementView {
    InsertUser(UserView),
    InsertAudioFile(AudioFileView),
    InsertPlaylist(PlaylistView),
    InsertPlaylistItem(PlaylistItemView),
    DeleteItemsByAudio(Seq<char>),
    DeleteItemsByPlaylist(Seq<char>),
    DeleteItem(Seq<char>),
    DeleteAudioByUser(Seq<char>),
    DeleteAudio(Seq<char>),
    DeletePlaylistsByUser(Seq<char>),
    DeletePlaylist(Seq<char>),
    DeleteUser(Seq<char>),
}

impl View for Statement {
    type V = StatementView;

    open spec fn view(&self) -> StatementView {
        match self {
            Statement::InsertUser(u) => StatementView::InsertUser(u@),
            Statement::InsertAudioFile(a) => StatementView::InsertAudioFile(a@),
            Statement::InsertPlaylist(p) => StatementView::InsertPlaylist(p@),
            Statement::InsertPlaylistItem(i) => StatementView::InsertPlaylistItem(i@),
            Statement::DeleteItemsByAudio(k) => StatementView::DeleteItemsByAudio(k@),
            Statement::DeleteItemsByPlaylist(k) => StatementView::DeleteItemsByPlaylist(k@),
            Statement::DeleteItem(k) => StatementView::DeleteItem(k@),
            Statement::DeleteAudioByUser(k) => StatementView::DeleteAudioByUser(k@),
            Statement::DeleteAudio(k) => StatementView::DeleteAudio(k@),
            Statement::DeletePlaylistsByUser(k) => StatementView::DeletePlaylistsByUser(k@),
            Statement::DeletePlaylist(k) => StatementView::DeletePlaylist(k@),
            Statement::DeleteUser(k) => StatementView::DeleteUser(k@),
        }
    }
}

/// The statement in SQL, with a `?` for each value that it carries, in the
/// order of the columns it names.
pub open spec fn sql_of(statement: StatementView) -> Seq<char> {
    match statement {
        StatementView::InsertUser(_) =>
            "INSERT INTO users (id, username, password, is_admin) VALUES (?, ?, ?, ?)"@,
        StatementView::InsertAudioFile(_) =>
            "INSERT INTO audio_files (id, filename, user_id, created_at, mime_type, user_folder) VALUES (?, ?, ?, ?, ?, ?)"@,
        StatementView::InsertPlaylist(_) =>
            "INSERT INTO playlists (id, name, user_id, created_at) VALUES (?, ?, ?, ?)"@,
        StatementView::InsertPlaylistItem(_) =>
            "INSERT INTO playlist_items (id, playlist_id, audio_id, position) VALUES (?, ?, ?, ?)"@,
        StatementView::DeleteItemsByAudio(_) => "DELETE FROM playlist_items WHERE audio_id = ?"@,
        StatementView::DeleteItemsByPlaylist(_) =>
            "DELETE FROM playlist_items WHERE playlist_id = ?"@,
        StatementView::DeleteItem(_) => "DELETE FROM playlist_items WHERE id = ?"@,
        StatementView::DeleteAudioByUser(_) => "DELETE FROM audio_files WHERE user_id = ?"@,
        StatementView::DeleteAudio(_) => "DELETE FROM audio_files WHERE id = ?"@,
        StatementView::DeletePlaylistsByUser(_) => "DELETE FROM playlists WHERE user_id = ?"@,
        StatementView::DeletePlaylist(_) => "DELETE FROM playlists WHERE id = ?"@,
        StatementView::DeleteUser(_) => "DELETE FROM users WHERE id = ?"@,
    }
}

impl Statement {
    /// The statement in SQL, with a `?` for each value that it carries.
    pub fn sql(&self) -> (text: &'static str)
        ensures
            text@ == sql_of(self@),
    {
        match self {
            Statement::InsertUser(_) =>
                "INSERT INTO users (id, username, password, is_admin) VALUES (?, ?, ?, ?)",
            Statement::InsertAudioFile(_) =>
                "INSERT INTO audio_files (id, filename, user_id, created_at, mime_type, user_folder) VALUES (?, ?, ?, ?, ?, ?)",
            Statement::InsertPlaylist(_) =>
                "INSERT INTO playlists (id, name, user_id, created_at) VALUES (?, ?, ?, ?)",
            Statement::InsertPlaylistItem(_) =>
                "INSERT INTO playlist_items (id, playlist_id, audio_id, position) VALUES (?, ?, ?, ?)",
            Statement::DeleteItemsByAudio(_) => "DELETE FROM playlist_items WHERE audio_id = ?",
            Statement::DeleteItemsByPlaylist(_) =>
                "DELETE FROM playlist_items WHERE playlist_id = ?",
            Statement::DeleteItem(_) => "DELETE FROM playlist_items WHERE id = ?",
            Statement::DeleteAudioByUser(_) => "DELETE FROM audio_files WHERE user_id = ?",
            Statement::DeleteAudio(_) => "DELETE FROM audio_files WHERE id = ?",
            Statement::DeletePlaylistsByUser(_) => "DELETE FROM playlists WHERE user_id = ?",
            Statement::DeletePlaylist(_) => "DELETE FROM playlists WHERE id = ?",
            Statement::DeleteUser(_) => "DELETE FROM users WHERE id = ?",
        }
    }
}

/// Whether the statement would break a constraint of the schema.
pub open spec fn violates(v: Library, statement: StatementView) -> bool {
    match statement {
        StatementView::InsertUser(u) => refers::<User>(v.users, UserColumn::Id, u.id)
            || refers::<User>(v.users, UserColumn::Username, u.username),
        StatementView::InsertAudioFile(a) => refers::<AudioFile>(
            v.audio_files,
            AudioColumn::Id,
            a.id,
        ) || !refers::<User>(v.users, UserColumn::Id, a.user_id),
        StatementView::InsertPlaylist(p) => refers::<Playlist>(v.playlists, PlaylistColumn::Id, p.id)
            || !refers::<User>(v.users, UserColumn::Id, p.user_id),
        StatementView::InsertPlaylistItem(i) => refers::<PlaylistItem>(
            v.playlist_items,
            ItemColumn::Id,
            i.id,
        ) || !refers::<Playlist>(v.playlists, PlaylistColumn::Id, i.playlist_id)
            || !refers::<AudioFile>(v.audio_files, AudioColumn::Id, i.audio_id),
        StatementView::DeleteItemsByAudio(_) => false,
        StatementView::DeleteItemsByPlaylist(_) => false,
        StatementView::DeleteItem(_) => false,
        StatementView::DeleteAudioByUser(k) => audio_of_user_in_use(v, k),
        StatementView::DeleteAudio(k) => refers::<PlaylistItem>(
            v.playlist_items,
            ItemColumn::AudioId,
            k,
        ),
        StatementView::DeletePlaylistsByUser(k) => playlist_of_user_in_use(v, k),
        StatementView::DeletePlaylist(k) => refers::<PlaylistItem>(
            v.playlist_items,
            ItemColumn::PlaylistId,
            k,
        ),
        StatementView::DeleteUser(k) => refers::<AudioFile>(v.audio_files, AudioColumn::UserId, k)
            || refers::<Playlist>(v.playlists, PlaylistColumn::UserId, k),
    }
}

/// The tables after the statement, taken that it breaks no constraint.
pub open spec fn performed(v: Library, statement: StatementView) -> Library {
    match statement {
        StatementView::InsertUser(u) => Library { users: v.users.push(u), ..v },
        StatementView::InsertAudioFile(a) => Library { audio_files: v.audio_files.push(a), ..v },
        StatementView::InsertPlaylist(p) => Library { playlists: v.playlists.push(p), ..v },
        StatementView::InsertPlaylistItem(i) => Library {
            playlist_items: v.playlist_items.push(i),
            ..v
        },
        StatementView::DeleteItemsByAudio(k) => Library {
            playlist_items: v.playlist_items.filter(
                holds_other::<PlaylistItem>(ItemColumn::AudioId, k),
            ),
            ..v
        },
        StatementView::DeleteItemsByPlaylist(k) => Library {
            playlist_items: v.playlist_items.filter(
                holds_other::<PlaylistItem>(ItemColumn::PlaylistId, k),
            ),
            ..v
        },
        StatementView::DeleteItem(k) => Library {
            playlist_items: v.playlist_items.filter(holds_other::<PlaylistItem>(ItemColumn::Id, k)),
            ..v
        },
        StatementView::DeleteAudioByUser(k) => Library {
            audio_files: v.audio_files.filter(holds_other::<AudioFile>(AudioColumn::UserId, k)),
            ..v
        },
        StatementView::DeleteAudio(k) => Library {
            audio_files: v.audio_files.filter(holds_other::<AudioFile>(AudioColumn::Id, k)),
            ..v
        },
        StatementView::DeletePlaylistsByUser(k) => Library {
            playlists: v.playlists.filter(holds_other::<Playlist>(PlaylistColumn::UserId, k)),
            ..v
        },
        StatementView::DeletePlaylist(k) => Library {
            playlists: v.playlists.filter(holds_other::<Playlist>(PlaylistColumn::Id, k)),
            ..v
        },
        StatementView::DeleteUser(k) => Library {
            users: v.users.filter(holds_other::<User>(UserColumn::Id, k)),
            ..v
        },
    }
}

/// What the statement does: the tables after it, or nothing where it would
/// break a constraint.
pub open spec fn effect(v: Library, statement: StatementView) -> Option<Library> {
    if violates(v, statement) {
        None
    } else {
        Some(performed(v, statement))
    }
}

/// What a unit of work does: the tables after all its statements in order,
/// or nothing where any of them would break a constraint.
pub open spec fn effect_of_all(v: Library, unit: Seq<StatementView>) -> Option<Library>
    decreases unit.len(),
{
    if unit.len() == 0 {
        Some(v)
    } else {
        match effect(v, unit[0]) {
            Some(next) => effect_of_all(next, unit.drop_first()),
            None => None,
        }
    }
}

/// A row that is new in its key column keeps the column a key.
pub proof fn lemma_push_keyed<T: Row>(rows: Seq<T::V>, column: T::Column, row: T::V)
    requires
        keyed_by::<T>(rows, column),
        !refers::<T>(rows, column, T::field(row, column)),
    ensures
        keyed_by::<T>(rows.push(row), column),
{
    let out = rows.push(row);
    let p = holds::<T>(column, T::field(row, column));
    assert forall|i: int, j: int| 0 <= i < j < out.len() implies T::field(#[trigger] out[i], column)
        != T::field(#[trigger] out[j], column) by {
        if j < rows.len() {
            assert(out[i] == rows[i] && out[j] == rows[j]);
        } else {
            assert(out[i] == rows[i]);
            assert(!p(rows[i]));
        }
    }
}

/// Adding a row takes no reference away, and the new row can be referred to.
pub proof fn lemma_push_refers<T: Row>(rows: Seq<T::V>, column: T::Column, row: T::V)
    ensures
        refers::<T>(rows.push(row), column, T::field(row, column)),
        forall|key: Seq<char>| #[trigger]
            refers::<T>(rows, column, key) ==> refers::<T>(rows.push(row), column, key),
{
    let out = rows.push(row);
    assert(holds::<T>(column, T::field(row, column))(out[rows.len() as int]));
    assert forall|key: Seq<char>| #[trigger] refers::<T>(rows, column, key) implies refers::<T>(
        out,
        column,
        key,
    ) by {
        let p = holds::<T>(column, key);
        let i = choose|i: int| 0 <= i < rows.len() && p(#[trigger] rows[i]);
        assert(p(out[i]));
    }
}

/// Removing rows keeps a key column a key.
pub proof fn lemma_filter_keyed<T: Row>(rows: Seq<T::V>, keep: spec_fn(T::V) -> bool, column: T::Column)
    requires
        keyed_by::<T>(rows, column),
    ensures
        keyed_by::<T>(rows.filter(keep), column),
{
    lemma_filter_pairwise(rows, keep, |a: T::V, b: T::V| T::field(a, column) != T::field(b, column));
}

/// A reference survives the removal of rows that it does not point at.
pub proof fn lemma_filter_refers<T: Row>(
    rows: Seq<T::V>,
    keep: spec_fn(T::V) -> bool,
    column: T::Column,
    key: Seq<char>,
)
    requires
        refers::<T>(rows, column, key),
        forall|i: int| 0 <= i < rows.len() && T::field(#[trigger] rows[i], column) == key ==> keep(
            rows[i],
        ),
    ensures
        refers::<T>(rows.filter(keep), column, key),
{
    let p = holds::<T>(column, key);
    let i = choose|i: int| 0 <= i < rows.len() && p(#[trigger] rows[i]);
    lemma_filter_members(rows, keep);
    assert(rows.contains(rows[i]));
    let kept = rows.filter(keep);
    assert(kept.contains(rows[i]));
    let k = choose|k: int| 0 <= k < kept.len() && kept[k] == rows[i];
    assert(p(kept[k]));
}

/// What holds of every row holds of every row that is left.
pub proof fn lemma_filter_all<A>(s: Seq<A>, keep: spec_fn(A) -> bool, q: spec_fn(A) -> bool)
    requires
        forall|i: int| 0 <= i < s.len() ==> q(#[trigger] s[i]),
    ensures
        forall|i: int| 0 <= i < s.filter(keep).len() ==> q(#[trigger] s.filter(keep)[i]),
{
    let kept = s.filter(keep);
    lemma_filter_members(s, keep);
    assert forall|i: int| 0 <= i < kept.len() implies q(#[trigger] kept[i]) by {
        assert(kept.contains(kept[i]));
        assert(s.contains(kept[i]));
        let k = choose|k: int| 0 <= k < s.len() && s[k] == kept[i];
        assert(q(s[k]));
    }
}

/// A statement that breaks no constraint leaves the constraints in force.
pub proof fn lemma_effect_consistent(v: Library, statement: StatementView)
    requires
        consistent(v),
        !violates(v, statement),
    ensures
        consistent(performed(v, statement)),
{
    let w = performed(v, statement);
    match statement {
        StatementView::InsertUser(u) => {
            lemma_push_keyed::<User>(v.users, UserColumn::Id, u);
            lemma_push_keyed::<User>(v.users, UserColumn::Username, u);
            lemma_push_refers::<User>(v.users, UserColumn::Id, u);
        },
        StatementView::InsertAudioFile(a) => {
            lemma_push_keyed::<AudioFile>(v.audio_files, AudioColumn::Id, a);
            lemma_push_refers::<AudioFile>(v.audio_files, AudioColumn::Id, a);
            assert forall|i: int| 0 <= i < w.audio_files.len() implies refers::<User>(
                w.users,
                UserColumn::Id,
                (#[trigger] w.audio_files[i]).user_id,
            ) by {
                if i < v.audio_files.len() {
                    assert(w.audio_files[i] == v.audio_files[i]);
                }
            }
        },
        StatementView::InsertPlaylist(p) => {
            lemma_push_keyed::<Playlist>(v.playlists, PlaylistColumn::Id, p);
            lemma_push_refers::<Playlist>(v.playlists, PlaylistColumn::Id, p);
            assert forall|i: int| 0 <= i < w.playlists.len() implies refers::<User>(
                w.users,
                UserColumn::Id,
                (#[trigger] w.playlists[i]).user_id,
            ) by {
                if i < v.playlists.len() {
                    assert(w.playlists[i] == v.playlists[i]);
                }
            }
        },
        StatementView::InsertPlaylistItem(item) => {
            lemma_push_keyed::<PlaylistItem>(v.playlist_items, ItemColumn::Id, item);
            assert forall|i: int| 0 <= i < w.playlist_items.len() implies refers::<Playlist>(
                w.playlists,
                PlaylistColumn::Id,
                (#[trigger] w.playlist_items[i]).playlist_id,
            ) && refers::<AudioFile>(w.audio_files, AudioColumn::Id, w.playlist_items[i].audio_id) by {
                if i < v.playlist_items.len() {
                    assert(w.playlist_items[i] == v.playlist_items[i]);
                }
            }
        },
        StatementView::DeleteItemsByAudio(k) => {
            lemma_items_removed(v, holds_other::<PlaylistItem>(ItemColumn::AudioId, k));
        },
        StatementView::DeleteItemsByPlaylist(k) => {
            lemma_items_removed(v, holds_other::<PlaylistItem>(ItemColumn::PlaylistId, k));
        },
        StatementView::DeleteItem(k) => {
            lemma_items_removed(v, holds_other::<PlaylistItem>(ItemColumn::Id, k));
        },
        StatementView::DeleteAudioByUser(k) => {
            let keep = holds_other::<AudioFile>(AudioColumn::UserId, k);
            assert forall|i: int, j: int|
                0 <= i < v.playlist_items.len() && 0 <= j < v.audio_files.len() && (
                #[trigger] v.audio_files[j]).id == (
                #[trigger] v.playlist_items[i]).audio_id implies keep(v.audio_files[j]) by {
                if !keep(v.audio_files[j]) {
                    assert(holds::<PlaylistItem>(ItemColumn::AudioId, v.audio_files[j].id)(
                        v.playlist_items[i],
                    ));
                    assert(audio_of_user_in_use(v, k));
                }
            }
            lemma_audio_removed(v, keep);
        },
        StatementView::DeleteAudio(k) => {
            let keep = holds_other::<AudioFile>(AudioColumn::Id, k);
            assert forall|i: int, j: int|
                0 <= i < v.playlist_items.len() && 0 <= j < v.audio_files.len() && (
                #[trigger] v.audio_files[j]).id == (
                #[trigger] v.playlist_items[i]).audio_id implies keep(v.audio_files[j]) by {
                if !keep(v.audio_files[j]) {
                    assert(holds::<PlaylistItem>(ItemColumn::AudioId, k)(v.playlist_items[i]));
                }
            }
            lemma_audio_removed(v, keep);
        },
        StatementView::DeletePlaylistsByUser(k) => {
            let keep = holds_other::<Playlist>(PlaylistColumn::UserId, k);
            assert forall|i: int, j: int|
                0 <= i < v.playlist_items.len() && 0 <= j < v.playlists.len() && (
                #[trigger] v.playlists[j]).id == (
                #[trigger] v.playlist_items[i]).playlist_id implies keep(v.playlists[j]) by {
                if !keep(v.playlists[j]) {
                    assert(holds::<PlaylistItem>(ItemColumn::PlaylistId, v.playlists[j].id)(
                        v.playlist_items[i],
                    ));
                    assert(playlist_of_user_in_use(v, k));
                }
            }
            lemma_playlists_removed(v, keep);
        },
        StatementView::DeletePlaylist(k) => {
            let keep = holds_other::<Playlist>(PlaylistColumn::Id, k);
            assert forall|i: int, j: int|
                0 <= i < v.playlist_items.len() && 0 <= j < v.playlists.len() && (
                #[trigger] v.playlists[j]).id == (
                #[trigger] v.playlist_items[i]).playlist_id implies keep(v.playlists[j]) by {
                if !keep(v.playlists[j]) {
                    assert(holds::<PlaylistItem>(ItemColumn::PlaylistId, k)(v.playlist_items[i]));
                }
            }
            lemma_playlists_removed(v, keep);
        },
        StatementView::DeleteUser(k) => {
            let keep = holds_other::<User>(UserColumn::Id, k);
            lemma_filter_keyed::<User>(v.users, keep, UserColumn::Id);
            lemma_filter_keyed::<User>(v.users, keep, UserColumn::Username);
            assert forall|i: int| 0 <= i < v.audio_files.len() implies refers::<User>(
                w.users,
                UserColumn::Id,
                (#[trigger] v.audio_files[i]).user_id,
            ) by {
                assert(!holds::<AudioFile>(AudioColumn::UserId, k)(v.audio_files[i]));
                lemma_filter_refers::<User>(v.users, keep, UserColumn::Id, v.audio_files[i].user_id);
            }
            assert forall|i: int| 0 <= i < v.playlists.len() implies refers::<User>(
                w.users,
                UserColumn::Id,
                (#[trigger] v.playlists[i]).user_id,
            ) by {
                assert(!holds::<Playlist>(PlaylistColumn::UserId, k)(v.playlists[i]));
                lemma_filter_refers::<User>(v.users, keep, UserColumn::Id, v.playlists[i].user_id);
            }
        },
    }
}

/// Removing playlist entries breaks no constraint.
proof fn lemma_items_removed(v: Library, keep: spec_fn(PlaylistItemView) -> bool)
    requires
        consistent(v),
    ensures
        consistent(Library { playlist_items: v.playlist_items.filter(keep), ..v }),
{
    lemma_filter_keyed::<PlaylistItem>(v.playlist_items, keep, ItemColumn::Id);
    lemma_filter_all(
        v.playlist_items,
        keep,
        |item: PlaylistItemView|
            refers::<Playlist>(v.playlists, PlaylistColumn::Id, item.playlist_id),
    );
    lemma_filter_all(
        v.playlist_items,
        keep,
        |item: PlaylistItemView| refers::<AudioFile>(v.audio_files, AudioColumn::Id, item.audio_id),
    );
}

/// Removing audio files that no playlist entry refers to breaks no constraint.
proof fn lemma_audio_removed(v: Library, keep: spec_fn(AudioFileView) -> bool)
    requires
        consistent(v),
        forall|i: int, j: int|
            0 <= i < v.playlist_items.len() && 0 <= j < v.audio_files.len() && (
            #[trigger] v.audio_files[j]).id == (#[trigger] v.playlist_items[i]).audio_id ==> keep(
                v.audio_files[j],
            ),
    ensures
        consistent(Library { audio_files: v.audio_files.filter(keep), ..v }),
{
    let kept = v.audio_files.filter(keep);
    lemma_filter_keyed::<AudioFile>(v.audio_files, keep, AudioColumn::Id);
    lemma_filter_all(
        v.audio_files,
        keep,
        |a: AudioFileView| refers::<User>(v.users, UserColumn::Id, a.user_id),
    );
    assert forall|i: int| 0 <= i < v.playlist_items.len() implies refers::<AudioFile>(
        kept,
        AudioColumn::Id,
        (#[trigger] v.playlist_items[i]).audio_id,
    ) by {
        lemma_filter_refers::<AudioFile>(
            v.audio_files,
            keep,
            AudioColumn::Id,
            v.playlist_items[i].audio_id,
        );
    }
}

/// Removing playlists that have no entries breaks no constraint.
proof fn lemma_playlists_removed(v: Library, keep: spec_fn(PlaylistView) -> bool)
    requires
        consistent(v),
        forall|i: int, j: int|
            0 <= i < v.playlist_items.len() && 0 <= j < v.playlists.len() && (
            #[trigger] v.playlists[j]).id == (#[trigger] v.playlist_items[i]).playlist_id ==> keep(
                v.playlists[j],
            ),
    ensures
        consistent(Library { playlists: v.playlists.filter(keep), ..v }),
{
    let kept = v.playlists.filter(keep);
    lemma_filter_keyed::<Playlist>(v.playlists, keep, PlaylistColumn::Id);
    lemma_filter_all(
        v.playlists,
        keep,
        |p: PlaylistView| refers::<User>(v.users, UserColumn::Id, p.user_id),
    );
    assert forall|i: int| 0 <= i < v.playlist_items.len() implies refers::<Playlist>(
        kept,
        PlaylistColumn::Id,
        (#[trigger] v.playlist_items[i]).playlist_id,
    ) by {
        lemma_filter_refers::<Playlist>(
            v.playlists,
            keep,
            PlaylistColumn::Id,
            v.playlist_items[i].playlist_id,
        );
    }
}

/// A statement adds a row or removes rows; it never alters one. So a row
/// found after a statement was there before, as it is, unless the statement
/// inserted it: the owner of an audio file or of a playlist never changes.
pub proof fn statements_never_alter_rows(v: Library, statement: StatementView)
    ensures
        forall|i: int|
            0 <= i < performed(v, statement).users.len() ==> v.users.contains(
                #[trigger] performed(v, statement).users[i],
            ) || statement == StatementView::InsertUser(performed(v, statement).users[i]),
        forall|i: int|
            0 <= i < performed(v, statement).audio_files.len() ==> v.audio_files.contains(
                #[trigger] performed(v, statement).audio_files[i],
            ) || statement == StatementView::InsertAudioFile(
                performed(v, statement).audio_files[i],
            ),
        forall|i: int|
            0 <= i < performed(v, statement).playlists.len() ==> v.playlists.contains(
                #[trigger] performed(v, statement).playlists[i],
            ) || statement == StatementView::InsertPlaylist(performed(v, statement).playlists[i]),
        forall|i: int|
            0 <= i < performed(v, statement).playlist_items.len() ==> v.playlist_items.contains(
                #[trigger] performed(v, statement).playlist_items[i],
            ) || statement == StatementView::InsertPlaylistItem(
                performed(v, statement).playlist_items[i],
            ),
{
    let w = performed(v, statement);
    assert forall|i: int| 0 <= i < w.users.len() implies v.users.contains(#[trigger] w.users[i])
        || statement == StatementView::InsertUser(w.users[i]) by {
        lemma_row_kept_or_new(v.users, w.users, i);
        if let StatementView::DeleteUser(k) = statement {
            lemma_filter_members(v.users, holds_other::<User>(UserColumn::Id, k));
        }
    }
    assert forall|i: int| 0 <= i < w.audio_files.len() implies v.audio_files.contains(
        #[trigger] w.audio_files[i],
    ) || statement == StatementView::InsertAudioFile(w.audio_files[i]) by {
        lemma_row_kept_or_new(v.audio_files, w.audio_files, i);
        if let StatementView::DeleteAudio(k) = statement {
            lemma_filter_members(v.audio_files, holds_other::<AudioFile>(AudioColumn::Id, k));
        }
        if let StatementView::DeleteAudioByUser(k) = statement {
            lemma_filter_members(v.audio_files, holds_other::<AudioFile>(AudioColumn::UserId, k));
        }
    }
    assert forall|i: int| 0 <= i < w.playlists.len() implies v.playlists.contains(
        #[trigger] w.playlists[i],
    ) || statement == StatementView::InsertPlaylist(w.playlists[i]) by {
        lemma_row_kept_or_new(v.playlists, w.playlists, i);
        if let StatementView::DeletePlaylist(k) = statement {
            lemma_filter_members(v.playlists, holds_other::<Playlist>(PlaylistColumn::Id, k));
        }
        if let StatementView::DeletePlaylistsByUser(k) = statement {
            lemma_filter_members(v.playlists, holds_other::<Playlist>(PlaylistColumn::UserId, k));
        }
    }
    assert forall|i: int| 0 <= i < w.playlist_items.len() implies v.playlist_items.contains(
        #[trigger] w.playlist_items[i],
    ) || statement == StatementView::InsertPlaylistItem(w.playlist_items[i]) by {
        lemma_row_kept_or_new(v.playlist_items, w.playlist_items, i);
        if let StatementView::DeleteItem(k) = statement {
            lemma_filter_members(
                v.playlist_items,
                holds_other::<PlaylistItem>(ItemColumn::Id, k),
            );
        }
        if let StatementView::DeleteItemsByAudio(k) = statement {
            lemma_filter_members(
                v.playlist_items,
                holds_other::<PlaylistItem>(ItemColumn::AudioId, k),
            );
        }
        if let StatementView::DeleteItemsByPlaylist(k) = statement {
            lemma_filter_members(
                v.playlist_items,
                holds_other::<PlaylistItem>(ItemColumn::PlaylistId, k),
            );
        }
    }
}

/// A row of a table that was left alone or extended by one row was there
/// before, or is the one at the end.
proof fn lemma_row_kept_or_new<A>(before: Seq<A>, after: Seq<A>, i: int)
    requires
        0 <= i < after.len(),
    ensures
        after == before ==> before.contains(after[i]),
        forall|row: A|
            after == before.push(row) ==> before.contains(after[i]) || after[i] == row,
        after.contains(after[i]),
{
    assert forall|row: A| after == before.push(row) implies before.contains(after[i]) || after[i]
        == row by {
        if i < before.len() {
            assert(before[i] == after[i]);
        }
    }
}

} // verus!
