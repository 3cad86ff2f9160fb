//! The resource store: the four tables held in memory, always within the
//! constraints of the schema, changed only by statements and units of work.

use vstd::prelude::*;

use crate::error::{failure, AppError, AppErrorView, ErrorKind};
use crate::models::{views, AudioFile, Playlist, PlaylistItem, User};
use crate::schema::{
    all_refer, audio_of_user_in_use, consistent, effect, effect_of_all, empty_store, keyed_by,
    lemma_effect_consistent, playlist_of_user_in_use, refers, violates, Library, Statement,
};
use crate::seqs::{lemma_first_match_exists, lemma_first_match_iff_any};
use crate::tables::{
    copy_rows, find, holds, without, AudioColumn, ItemColumn, PlaylistColumn, Row, UserColumn,
};

verus! {

/// The failure reported when a statement would break a constraint.
pub open spec fn constraint_failure() -> AppErrorView {
    failure(ErrorKind::Internal, "Storage constraint violated"@)
}

/// Whether some row holds the key in the column.
pub fn referenced<T: Row>(rows: &Vec<T>, column: &T::Column, key: &str) -> (b: bool)
    ensures
        b == refers::<T>(views(rows@), *column, key@),
{
    proof {
        lemma_first_match_iff_any(views(rows@), holds::<T>(*column, key@));
    }
    find(rows, column, key).is_some()
}

/// Whether no two rows hold the same text in the column.
pub fn is_key<T: Row>(rows: &Vec<T>, column: &T::Column) -> (b: bool)
    ensures
        b == keyed_by::<T>(views(rows@), *column),
{
    let ghost table = views(rows@);
    let mut i: usize = 0;
    while i < rows.len()
        invariant
            i <= rows.len(),
            table == views(rows@),
            forall|a: int, b: int|
                0 <= a < b < i ==> T::field(#[trigger] table[a], *column) != T::field(
                    #[trigger] table[b],
                    *column,
                ),
        decreases rows.len() - i,
    {
        let key = rows[i].cell(column);
        let ghost p = holds::<T>(*column, key@);
        proof {
            assert(p(table[i as int]));
            lemma_first_match_exists(table, p, i as int);
        }
        match find(rows, column, key) {
            Some(k) => {
                if k != i {
                    proof {
                        assert(p(table[k as int]));
                        assert(T::field(table[k as int], *column) == T::field(
                            table[i as int],
                            *column,
                        ));
                    }
                    return false;
                }
                proof {
                    assert forall|a: int| 0 <= a < i implies T::field(#[trigger] table[a], *column)
                        != T::field(table[i as int], *column) by {
                        assert(!p(table[a]));
                    }
                }
            },
            None => {
                return false;
            },
        }
        i += 1;
    }
    true
}

/// Whether what every row holds in the column is held by some target row in
/// the key column.
pub fn all_referenced<T: Row, U: Row>(
    rows: &Vec<T>,
    column: &T::Column,
    targets: &Vec<U>,
    key: &U::Column,
) -> (b: bool)
    ensures
        b == all_refer::<T, U>(views(rows@), *column, views(targets@), *key),
{
    let ghost table = views(rows@);
    let mut i: usize = 0;
    while i < rows.len()
        invariant
            i <= rows.len(),
            table == views(rows@),
            forall|j: int|
                0 <= j < i ==> refers::<U>(
                    views(targets@),
                    *key,
                    T::field(#[trigger] table[j], *column),
                ),
        decreases rows.len() - i,
    {
        if !referenced(targets, key, rows[i].cell(column)) {
            proof {
                assert(!refers::<U>(views(targets@), *key, T::field(table[i as int], *column)));
            }
            return false;
        }
        i += 1;
    }
    true
}

/// The failure reported when rows that break a constraint are loaded.
pub open spec fn inconsistency_failure() -> AppErrorView {
    failure(ErrorKind::Internal, "Stored data is inconsistent"@)
}

/// The rows of the four tables, whatever they hold.
struct Rows {
    users: Vec<User>,
    audio_files: Vec<AudioFile>,
    playlists: Vec<Playlist>,
    playlist_items: Vec<PlaylistItem>,
}

impl View for Rows {
    type V = Library;

    closed spec fn view(&self) -> Library {
        Library {
            users: views(self.users@),
            audio_files: views(self.audio_files@),
            playlists: views(self.playlists@),
            playlist_items: views(self.playlist_items@),
        }
    }
}

impl Rows {
    /// Four tables without rows.
    fn empty() -> (tables: Rows)
        ensures
            tables@ == empty_store(),
    {
        let tables = Rows {
            users: Vec::new(),
            audio_files: Vec::new(),
            playlists: Vec::new(),
            playlist_items: Vec::new(),
        };
        proof {
            assert(tables@.users =~= Seq::empty());
            assert(tables@.audio_files =~= Seq::empty());
            assert(tables@.playlists =~= Seq::empty());
            assert(tables@.playlist_items =~= Seq::empty());
        }
        tables
    }
}

/// The accounts, audio files, playlists and playlist entries of the library.
pub struct Store {
    tables: Rows,
}

impl View for Store {
    type V = Library;

    closed spec fn view(&self) -> Library {
        self.tables@
    }
}

impl Store {
    /// The tables satisfy the constraints of the schema at all times.
    #[verifier::type_invariant]
    spec fn within_constraints(&self) -> bool {
        consistent(self@)
    }

    /// A store always satisfies the constraints of the schema; a call makes
    /// that known where it is needed.
    pub fn recall_constraints(&self)
        ensures
            consistent(self@),
    {
        proof {
            use_type_invariant(self);
        }
    }

    /// A store with empty tables.
    pub fn new() -> (store: Store)
        ensures
            store@ == empty_store(),
    {
        Store { tables: Rows::empty() }
    }

    /// The store that holds the given rows, where they satisfy the
    /// constraints of the schema.
    pub fn load(
        users: Vec<User>,
        audio_files: Vec<AudioFile>,
        playlists: Vec<Playlist>,
        playlist_items: Vec<PlaylistItem>,
    ) -> (r: Result<Store, AppError>)
        ensures
            ({
                let given = Library {
                    users: views(users@),
                    audio_files: views(audio_files@),
                    playlists: views(playlists@),
                    playlist_items: views(playlist_items@),
                };
                match r {
                    Ok(store) => consistent(given) && store@ == given,
                    Err(e) => !consistent(given) && e@ == inconsistency_failure(),
                }
            }),
    {
        let sound = is_key(&users, &UserColumn::Id) && is_key(&users, &UserColumn::Username)
            && is_key(&audio_files, &AudioColumn::Id) && is_key(&playlists, &PlaylistColumn::Id)
            && is_key(&playlist_items, &ItemColumn::Id) && all_referenced(
            &audio_files,
            &AudioColumn::UserId,
            &users,
            &UserColumn::Id,
        ) && all_referenced(&playlists, &PlaylistColumn::UserId, &users, &UserColumn::Id)
            && all_referenced(
            &playlist_items,
            &ItemColumn::PlaylistId,
            &playlists,
            &PlaylistColumn::Id,
        ) && all_referenced(&playlist_items, &ItemColumn::AudioId, &audio_files, &AudioColumn::Id);
        if sound {
            Ok(Store { tables: Rows { users, audio_files, playlists, playlist_items } })
        } else {
            Err(AppError::new(ErrorKind::Internal, "Stored data is inconsistent"))
        }
    }

    /// The accounts, in insertion order.
    pub fn users(&self) -> (rows: &Vec<User>)
        ensures
            views(rows@) == self@.users,
    {
        &self.tables.users
    }

    /// The audio files, in insertion order.
    pub fn audio_files(&self) -> (rows: &Vec<AudioFile>)
        ensures
            views(rows@) == self@.audio_files,
    {
        &self.tables.audio_files
    }

    /// The playlists, in insertion order.
    pub fn playlists(&self) -> (rows: &Vec<Playlist>)
        ensures
            views(rows@) == self@.playlists,
    {
        &self.tables.playlists
    }

    /// The playlist entries, in insertion order.
    pub fn playlist_items(&self) -> (rows: &Vec<PlaylistItem>)
        ensures
            views(rows@) == self@.playlist_items,
    {
        &self.tables.playlist_items
    }

    /// An independent copy of the store.
    pub fn snapshot(&self) -> (copy: Store)
        ensures
            copy@ == self@,
    {
        proof {
            use_type_invariant(self);
        }
        Store {
            tables: Rows {
                users: copy_rows(&self.tables.users),
                audio_files: copy_rows(&self.tables.audio_files),
                playlists: copy_rows(&self.tables.playlists),
                playlist_items: copy_rows(&self.tables.playlist_items),
            },
        }
    }

    /// Whether some audio file of the user is an entry of some playlist.
    fn audio_in_use(&self, user_id: &str) -> (b: bool)
        ensures
            b == audio_of_user_in_use(self@, user_id@),
    {
        let mut i: usize = 0;
        while i < self.tables.audio_files.len()
            invariant
                i <= self.tables.audio_files.len(),
                forall|j: int|
                    0 <= j < i ==> !((#[trigger] self@.audio_files[j]).user_id == user_id@
                        && refers::<PlaylistItem>(
                        self@.playlist_items,
                        ItemColumn::AudioId,
                        self@.audio_files[j].id,
                    )),
            decreases self.tables.audio_files.len() - i,
        {
            let row = &self.tables.audio_files[i];
            if row.user_id.as_str().eq(user_id) && referenced(
                &self.tables.playlist_items,
                &ItemColumn::AudioId,
                row.id.as_str(),
            ) {
                proof {
                    assert(self@.audio_files[i as int] == row@);
                }
                return true;
            }
            i += 1;
        }
        false
    }

    /// Whether some playlist of the user has an entry.
    fn playlists_in_use(&self, user_id: &str) -> (b: bool)
        ensures
            b == playlist_of_user_in_use(self@, user_id@),
    {
        let mut i: usize = 0;
        while i < self.tables.playlists.len()
            invariant
                i <= self.tables.playlists.len(),
                forall|j: int|
                    0 <= j < i ==> !((#[trigger] self@.playlists[j]).user_id == user_id@
                        && refers::<PlaylistItem>(
                        self@.playlist_items,
                        ItemColumn::PlaylistId,
                        self@.playlists[j].id,
                    )),
            decreases self.tables.playlists.len() - i,
        {
            let row = &self.tables.playlists[i];
            if row.user_id.as_str().eq(user_id) && referenced(
                &self.tables.playlist_items,
                &ItemColumn::PlaylistId,
                row.id.as_str(),
            ) {
                proof {
                    assert(self@.playlists[i as int] == row@);
                }
                return true;
            }
            i += 1;
        }
        false
    }

    /// Whether the statement would break a constraint.
    pub fn would_violate(&self, statement: &Statement) -> (b: bool)
        ensures
            b == violates(self@, statement@),
    {
        match statement {
            Statement::InsertUser(u) => referenced(&self.tables.users, &UserColumn::Id, u.id.as_str())
                || referenced(&self.tables.users, &UserColumn::Username, u.username.as_str()),
            Statement::InsertAudioFile(a) => referenced(
                &self.tables.audio_files,
                &AudioColumn::Id,
                a.id.as_str(),
            ) || !referenced(&self.tables.users, &UserColumn::Id, a.user_id.as_str()),
            Statement::InsertPlaylist(p) => referenced(
                &self.tables.playlists,
                &PlaylistColumn::Id,
                p.id.as_str(),
            ) || !referenced(&self.tables.users, &UserColumn::Id, p.user_id.as_str()),
            Statement::InsertPlaylistItem(i) => referenced(
                &self.tables.playlist_items,
                &ItemColumn::Id,
                i.id.as_str(),
            ) || !referenced(&self.tables.playlists, &PlaylistColumn::Id, i.playlist_id.as_str())
                || !referenced(&self.tables.audio_files, &AudioColumn::Id, i.audio_id.as_str()),
            Statement::DeleteItemsByAudio(_) => false,
            Statement::DeleteItemsByPlaylist(_) => false,
            Statement::DeleteItem(_) => false,
            Statement::DeleteAudioByUser(k) => self.audio_in_use(k.as_str()),
            Statement::DeleteAudio(k) => referenced(
                &self.tables.playlist_items,
                &ItemColumn::AudioId,
                k.as_str(),
            ),
            Statement::DeletePlaylistsByUser(k) => self.playlists_in_use(k.as_str()),
            Statement::DeletePlaylist(k) => referenced(
                &self.tables.playlist_items,
                &ItemColumn::PlaylistId,
                k.as_str(),
            ),
            Statement::DeleteUser(k) => referenced(
                &self.tables.audio_files,
                &AudioColumn::UserId,
                k.as_str(),
            ) || referenced(&self.tables.playlists, &PlaylistColumn::UserId, k.as_str()),
        }
    }

    /// Performs one statement, or fails and changes nothing where it would
    /// break a constraint.
    pub fn apply(&mut self, statement: &Statement) -> (r: Result<(), AppError>)
        ensures
            match effect(old(self)@, statement@) {
                Some(after) => r is Ok && final(self)@ == after,
                None => r matches Err(e) && e@ == constraint_failure() && final(self)@ == old(
                    self,
                )@,
            },
    {
        proof {
            use_type_invariant(&*self);
        }
        if self.would_violate(statement) {
            return Err(AppError::new(ErrorKind::Internal, "Storage constraint violated"));
        }
        proof {
            lemma_effect_consistent(self@, statement@);
        }
        let mut tables = Rows::empty();
        core::mem::swap(&mut self.tables, &mut tables);
        match statement {
            Statement::InsertUser(u) => {
                let ghost before = tables.users@;
                tables.users.push(u.clone());
                proof {
                    assert(views(tables.users@) =~= views(before).push(u@));
                }
            },
            Statement::InsertAudioFile(a) => {
                let ghost before = tables.audio_files@;
                tables.audio_files.push(a.clone());
                proof {
                    assert(views(tables.audio_files@) =~= views(before).push(a@));
                }
            },
            Statement::InsertPlaylist(p) => {
                let ghost before = tables.playlists@;
                tables.playlists.push(p.clone());
                proof {
                    assert(views(tables.playlists@) =~= views(before).push(p@));
                }
            },
            Statement::InsertPlaylistItem(i) => {
                let ghost before = tables.playlist_items@;
                tables.playlist_items.push(i.clone());
                proof {
                    assert(views(tables.playlist_items@) =~= views(before).push(i@));
                }
            },
            Statement::DeleteItemsByAudio(k) => {
                tables.playlist_items = without(
                    &tables.playlist_items,
                    &ItemColumn::AudioId,
                    k.as_str(),
                );
            },
            Statement::DeleteItemsByPlaylist(k) => {
                tables.playlist_items = without(
                    &tables.playlist_items,
                    &ItemColumn::PlaylistId,
                    k.as_str(),
                );
            },
            Statement::DeleteItem(k) => {
                tables.playlist_items = without(&tables.playlist_items, &ItemColumn::Id, k.as_str());
            },
            Statement::DeleteAudioByUser(k) => {
                tables.audio_files = without(&tables.audio_files, &AudioColumn::UserId, k.as_str());
            },
            Statement::DeleteAudio(k) => {
                tables.audio_files = without(&tables.audio_files, &AudioColumn::Id, k.as_str());
            },
            Statement::DeletePlaylistsByUser(k) => {
                tables.playlists = without(&tables.playlists, &PlaylistColumn::UserId, k.as_str());
            },
            Statement::DeletePlaylist(k) => {
                tables.playlists = without(&tables.playlists, &PlaylistColumn::Id, k.as_str());
            },
            Statement::DeleteUser(k) => {
                tables.users = without(&tables.users, &UserColumn::Id, k.as_str());
            },
        }
        self.tables = tables;
        Ok(())
    }

    /// Performs a unit of work: all its statements in order, or none of them
    /// where one would break a constraint.
    pub fn commit(&mut self, unit: &Vec<Statement>) -> (r: Result<(), AppError>)
        ensures
            match effect_of_all(old(self)@, views(unit@)) {
                Some(after) => r is Ok && final(self)@ == after,
                None => r matches Err(e) && e@ == constraint_failure() && final(self)@ == old(
                    self,
                )@,
            },
    {
        let mut work = self.snapshot();
        let ghost steps = views(unit@);
        let mut i: usize = 0;
        proof {
            assert(steps.skip(0) =~= steps);
        }
        while i < unit.len()
            invariant
                i <= unit.len(),
                steps == views(unit@),
                effect_of_all(old(self)@, steps) == effect_of_all(work@, steps.skip(i as int)),
                self@ == old(self)@,
            decreases unit.len() - i,
        {
            proof {
                assert(steps.skip(i as int)[0] == unit[i as int]@);
                assert(steps.skip(i as int).drop_first() =~= steps.skip(i + 1));
            }
            match work.apply(&unit[i]) {
                Err(e) => {
                    return Err(e);
                },
                Ok(_) => {},
            }
            i += 1;
        }
        *self = work;
        Ok(())
    }
}

} // verus!
