//! Tables of rows addressed by text columns: lookup of the first row whose
//! column holds a key, and removal of every row whose column holds it.

use vstd::prelude::*;

use crate::models::{
    views, AudioFile, AudioFileView, Playlist, PlaylistItem, PlaylistItemView, PlaylistView, User,
    UserView,
};
use crate::seqs::{
    first_match, first_where, lemma_filter_take_step, lemma_first_match_is, lemma_first_match_none,
};

verus! {

/// A row of a table: it has text columns and can be copied.
pub trait Row: View + Sized {
    /// The columns by which rows of this table are addressed.
    type Column;

    /// What the column holds in a row.
    spec fn field(row: Self::V, column: Self::Column) -> Seq<char>;

    /// Reads a column.
    fn cell(&self, column: &Self::Column) -> (text: &str)
        ensures
            text@ == Self::field(self@, *column),
    ;

    /// A copy of the row.
    fn copy(&self) -> (row: Self)
        ensures
            row@ == self@,
    ;
}

/// The rows whose column holds the key.
pub open spec fn holds<T: Row>(column: T::Column, key: Seq<char>) -> spec_fn(T::V) -> bool {
    |row: T::V| T::field(row, column) == key
}

/// The rows whose column holds something else than the key.
pub open spec fn holds_other<T: Row>(column: T::Column, key: Seq<char>) -> spec_fn(T::V) -> bool {
    |row: T::V| T::field(row, column) != key
}

/// The index of the first row whose column holds the key.
pub fn find<T: Row>(rows: &Vec<T>, column: &T::Column, key: &str) -> (found: Option<usize>)
    ensures
        match found {
            Some(i) => i < rows.len() && first_match(views(rows@), holds::<T>(*column, key@))
                == Some(i as int),
            None => first_match(views(rows@), holds::<T>(*column, key@)) is None,
        },
{
    let ghost p = holds::<T>(*column, key@);
    let mut i: usize = 0;
    while i < rows.len()
        invariant
            i <= rows.len(),
            p == holds::<T>(*column, key@),
            forall|j: int| 0 <= j < i ==> !p(#[trigger] views(rows@)[j]),
        decreases rows.len() - i,
    {
        if rows[i].cell(column).eq(key) {
            proof {
                lemma_first_match_is(views(rows@), p, i as int);
            }
            return Some(i);
        }
        i += 1;
    }
    proof {
        lemma_first_match_none(views(rows@), p);
    }
    None
}

/// The first row whose column holds the key.
pub fn lookup<'a, T: Row>(rows: &'a Vec<T>, column: &T::Column, key: &str) -> (row: Option<&'a T>)
    ensures
        match row {
            Some(r) => first_where(views(rows@), holds::<T>(*column, key@)) == Some(r@),
            None => first_where(views(rows@), holds::<T>(*column, key@)) is None,
        },
{
    match find(rows, column, key) {
        Some(i) => Some(&rows[i]),
        None => None,
    }
}

/// Copies of the rows whose column holds the key, in their order.
pub fn matching<T: Row>(rows: &Vec<T>, column: &T::Column, key: &str) -> (kept: Vec<T>)
    ensures
        views(kept@) == views(rows@).filter(holds::<T>(*column, key@)),
{
    let ghost keep = holds::<T>(*column, key@);
    let mut kept: Vec<T> = Vec::new();
    let mut i: usize = 0;
    proof {
        reveal(Seq::filter);
        assert(views(rows@).take(0).filter(keep) =~= Seq::<T::V>::empty());
        assert(views(kept@) =~= Seq::<T::V>::empty());
    }
    while i < rows.len()
        invariant
            i <= rows.len(),
            keep == holds::<T>(*column, key@),
            views(kept@) == views(rows@).take(i as int).filter(keep),
        decreases rows.len() - i,
    {
        proof {
            lemma_filter_take_step(views(rows@), keep, i as int);
        }
        if rows[i].cell(column).eq(key) {
            let row = rows[i].copy();
            let ghost before = kept@;
            kept.push(row);
            proof {
                assert(views(kept@) =~= views(before).push(row@));
            }
        }
        i += 1;
    }
    proof {
        assert(views(rows@).take(rows.len() as int) =~= views(rows@));
    }
    kept
}

/// Copies of the rows whose column holds something else than the key, in
/// their order.
pub fn without<T: Row>(rows: &Vec<T>, column: &T::Column, key: &str) -> (kept: Vec<T>)
    ensures
        views(kept@) == views(rows@).filter(holds_other::<T>(*column, key@)),
{
    let ghost keep = holds_other::<T>(*column, key@);
    let mut kept: Vec<T> = Vec::new();
    let mut i: usize = 0;
    proof {
        reveal(Seq::filter);
        assert(views(rows@).take(0).filter(keep) =~= Seq::<T::V>::empty());
        assert(views(kept@) =~= Seq::<T::V>::empty());
    }
    while i < rows.len()
        invariant
            i <= rows.len(),
            keep == holds_other::<T>(*column, key@),
            views(kept@) == views(rows@).take(i as int).filter(keep),
        decreases rows.len() - i,
    {
        proof {
            lemma_filter_take_step(views(rows@), keep, i as int);
        }
        if !rows[i].cell(column).eq(key) {
            let row = rows[i].copy();
            let ghost before = kept@;
            kept.push(row);
            proof {
                assert(views(kept@) =~= views(before).push(row@));
            }
        }
        i += 1;
    }
    proof {
        assert(views(rows@).take(rows.len() as int) =~= views(rows@));
    }
    kept
}

/// Copies of all the rows, in their order.
pub fn copy_rows<T: Row>(rows: &Vec<T>) -> (copies: Vec<T>)
    ensures
        views(copies@) == views(rows@),
{
    let mut copies: Vec<T> = Vec::new();
    let mut i: usize = 0;
    proof {
        assert(views(copies@) =~= views(rows@).take(0));
    }
    while i < rows.len()
        invariant
            i <= rows.len(),
            views(copies@) == views(rows@).take(i as int),
        decreases rows.len() - i,
    {
        let row = rows[i].copy();
        let ghost before = copies@;
        copies.push(row);
        proof {
            assert(views(copies@) =~= views(before).push(row@));
            assert(views(rows@).take(i + 1) =~= views(rows@).take(i as int).push(rows[i as int]@));
        }
        i += 1;
    }
    proof {
        assert(views(rows@).take(rows.len() as int) =~= views(rows@));
    }
    copies
}

/// The columns that address accounts.
#[derive(Debug, Clone, Copy, PartialEq, Eq, Structural)]
pub enum UserColumn {
    Id,
    Username,
}

impl Row for User {
    type Column = UserColumn;

    open spec fn field(row: UserView, column: UserColumn) -> Seq<char> {
        match column {
            UserColumn::Id => row.id,
            UserColumn::Username => row.username,
        }
    }

    fn cell(&self, column: &UserColumn) -> (text: &str) {
        match column {
            UserColumn::Id => self.id.as_str(),
            UserColumn::Username => self.username.as_str(),
        }
    }

    fn copy(&self) -> (row: Self) {
        self.clone()
    }
}

/// The columns that address audio files.
#[derive(Debug, Clone, Copy, PartialEq, Eq, Structural)]
pub enum AudioColumn {
    Id,
    UserId,
}

impl Row for AudioFile {
    type Column = AudioColumn;

    open spec fn field(row: AudioFileView, column: AudioColumn) -> Seq<char> {
        match column {
            AudioColumn::Id => row.id,
            AudioColumn::UserId => row.user_id,
        }
    }

    fn cell(&self, column: &AudioColumn) -> (text: &str) {
        match column {
            AudioColumn::Id => self.id.as_str(),
            AudioColumn::UserId => self.user_id.as_str(),
        }
    }

    fn copy(&self) -> (row: Self) {
        self.clone()
    }
}

/// The columns that address playlists.
#[derive(Debug, Clone, Copy, PartialEq, Eq, Structural)]
pub enum PlaylistColumn {
    Id,
    UserId,
}

impl Row for Playlist {
    type Column = PlaylistColumn;

    open spec fn field(row: PlaylistView, column: PlaylistColumn) -> Seq<char> {
        match column {
            PlaylistColumn::Id => row.id,
            PlaylistColumn::UserId => row.user_id,
        }
    }

    fn cell(&self, column: &PlaylistColumn) -> (text: &str) {
        match column {
            PlaylistColumn::Id => self.id.as_str(),
            PlaylistColumn::UserId => self.user_id.as_str(),
        }
    }

    fn copy(&self) -> (row: Self) {
        self.clone()
    }
}

/// The columns that address playlist entries.
#[derive(Debug, Clone, Copy, PartialEq, Eq, Structural)]
pub enum ItemColumn {
    Id,
    PlaylistId,
    AudioId,
}

impl Row for PlaylistItem {
    type Column = ItemColumn;

    open spec fn field(row: PlaylistItemView, column: ItemColumn) -> Seq<char> {
        match column {
            ItemColumn::Id => row.id,
            ItemColumn::PlaylistId => row.playlist_id,
            ItemColumn::AudioId => row.audio_id,
        }
    }

    fn cell(&self, column: &ItemColumn) -> (text: &str) {
        match column {
            ItemColumn::Id => self.id.as_str(),
            ItemColumn::PlaylistId => self.playlist_id.as_str(),
            ItemColumn::AudioId => self.audio_id.as_str(),
        }
    }

    fn copy(&self) -> (row: Self) {
        self.clone()
    }
}

} // verus!
