//! Listings in a fixed order: rows arranged by rank, rows of equal rank in the
//! order in which they were stored.

use vstd::prelude::*;

use crate::models::{
    views, AudioFile, AudioFileView, Playlist, PlaylistAudioItem, PlaylistAudioItemView,
    PlaylistView,
};
use crate::seqs::{
    first_match, lemma_filter_none_kept, lemma_first_match_iff_any, lemma_first_match_is,
    lemma_first_match_none,
};

verus! {

/// A row with a rank: the smaller the rank, the earlier the row is listed.
pub trait Ranked: View + Sized {
    /// The rank of a row.
    spec fn rank(row: Self::V) -> int;

    /// Whether this row has a smaller rank than the other.
    fn ranks_before(&self, other: &Self) -> (b: bool)
        ensures
            b == (Self::rank(self@) < Self::rank(other@)),
    ;
}

/// The rows that must come after `row`.
pub open spec fn outranked_by<T: Ranked>(row: T::V) -> spec_fn(T::V) -> bool {
    |other: T::V| T::rank(row) < T::rank(other)
}

/// Where `row` goes among rows that are already arranged: before the first
/// row of greater rank, or at the end.
pub open spec fn slot<T: Ranked>(arranged: Seq<T::V>, row: T::V) -> int {
    match first_match(arranged, outranked_by::<T>(row)) {
        Some(k) => k,
        None => arranged.len() as int,
    }
}

/// The rows in the order of their ranks; rows of equal rank keep their order.
pub open spec fn arranged<T: Ranked>(rows: Seq<T::V>) -> Seq<T::V>
    decreases rows.len(),
{
    if rows.len() == 0 {
        rows
    } else {
        let front = arranged::<T>(rows.drop_last());
        front.insert(slot::<T>(front, rows.last()), rows.last())
    }
}

/// No row is listed before a row of smaller rank.
pub open spec fn in_rank_order<T: Ranked>(rows: Seq<T::V>) -> bool {
    forall|a: int, b: int|
        0 <= a < b < rows.len() ==> T::rank(#[trigger] rows[a]) <= T::rank(#[trigger] rows[b])
}

/// The slot of a row lies within the arranged rows or right behind them.
pub proof fn lemma_slot_in_range<T: Ranked>(rows: Seq<T::V>, row: T::V)
    ensures
        0 <= slot::<T>(rows, row) <= rows.len(),
        forall|j: int| 0 <= j < slot::<T>(rows, row) ==> T::rank(#[trigger] rows[j]) <= T::rank(row),
        slot::<T>(rows, row) < rows.len() ==> T::rank(row) < T::rank(rows[slot::<T>(rows, row)]),
{
    let p = outranked_by::<T>(row);
    lemma_first_match_iff_any(rows, p);
    if first_match(rows, p) is Some {
        let k = first_match(rows, p).unwrap();
        assert forall|j: int| 0 <= j < k implies T::rank(#[trigger] rows[j]) <= T::rank(row) by {
            assert(!p(rows[j]));
        }
        assert(p(rows[k]));
    } else {
        assert forall|j: int| 0 <= j < rows.len() implies T::rank(#[trigger] rows[j]) <= T::rank(
            row,
        ) by {
            assert(!p(rows[j]));
        }
    }
}

/// Arranging loses and adds no row, and leaves the rows in rank order.
pub proof fn lemma_arranged<T: Ranked>(rows: Seq<T::V>)
    ensures
        arranged::<T>(rows).len() == rows.len(),
        arranged::<T>(rows).to_multiset() == rows.to_multiset(),
        in_rank_order::<T>(arranged::<T>(rows)),
    decreases rows.len(),
{
    broadcast use vstd::seq_lib::to_multiset_insert, vstd::seq_lib::to_multiset_build;

    if rows.len() > 0 {
        let front = arranged::<T>(rows.drop_last());
        let row = rows.last();
        let k = slot::<T>(front, row);
        lemma_arranged::<T>(rows.drop_last());
        lemma_slot_in_range::<T>(front, row);
        let out = front.insert(k, row);
        assert(rows =~= rows.drop_last().push(row));
        assert(out.to_multiset() == front.to_multiset().insert(row));
        assert(rows.to_multiset() == rows.drop_last().to_multiset().insert(row));
        assert forall|a: int, b: int| 0 <= a < b < out.len() implies T::rank(#[trigger] out[a])
            <= T::rank(#[trigger] out[b]) by {
            if a < k {
                assert(out[a] == front[a]);
            } else if a > k {
                assert(out[a] == front[a - 1]);
            }
            if b < k {
                assert(out[b] == front[b]);
            } else if b > k {
                assert(out[b] == front[b - 1]);
            }
            if a == k && b > k {
                assert(T::rank(front[k]) <= T::rank(front[b - 1]) || b - 1 == k);
            }
        }
    }
}

/// The rows of the given rank.
pub open spec fn of_rank<T: Ranked>(rank: int) -> spec_fn(T::V) -> bool {
    |row: T::V| T::rank(row) == rank
}

/// Arranging keeps the rows of any one rank in the order in which they were:
/// together with the rank order this fixes the arrangement.
pub proof fn lemma_arranged_keeps_order_within_rank<T: Ranked>(rows: Seq<T::V>, rank: int)
    ensures
        arranged::<T>(rows).filter(of_rank::<T>(rank)) == rows.filter(of_rank::<T>(rank)),
    decreases rows.len(),
{
    if rows.len() > 0 {
        let before = rows.drop_last();
        let front = arranged::<T>(before);
        let row = rows.last();
        let k = slot::<T>(front, row);
        let p = of_rank::<T>(rank);
        lemma_arranged_keeps_order_within_rank::<T>(before, rank);
        lemma_arranged::<T>(before);
        lemma_slot_in_range::<T>(front, row);
        let head = front.take(k);
        let tail = front.skip(k);
        assert(front.insert(k, row) =~= head.push(row) + tail);
        assert(front =~= head + tail);
        assert(rows =~= before.push(row));
        Seq::filter_distributes_over_add(head.push(row), tail, p);
        Seq::filter_distributes_over_add(head, tail, p);
        head.lemma_filter_push(row, p);
        before.lemma_filter_push(row, p);
        if p(row) {
            assert forall|i: int| 0 <= i < tail.len() implies !p(#[trigger] tail[i]) by {
                assert(tail[i] == front[k + i]);
                assert(T::rank(front[k]) <= T::rank(front[k + i]) || i == 0);
            }
            lemma_filter_none_kept(tail, p);
            assert(head.filter(p).push(row) + Seq::<T::V>::empty() =~= head.filter(p).push(row));
            assert(head.filter(p) + Seq::<T::V>::empty() =~= head.filter(p));
        }
    }
}

/// The place where a row goes among rows that are already arranged.
fn find_slot<T: Ranked>(arranged: &Vec<T>, row: &T) -> (k: usize)
    ensures
        k == slot::<T>(views(arranged@), row@),
        k <= arranged.len(),
{
    let ghost p = outranked_by::<T>(row@);
    let mut k: usize = 0;
    while k < arranged.len()
        invariant
            k <= arranged.len(),
            p == outranked_by::<T>(row@),
            forall|j: int| 0 <= j < k ==> !p(#[trigger] views(arranged@)[j]),
        decreases arranged.len() - k,
    {
        if row.ranks_before(&arranged[k]) {
            proof {
                lemma_first_match_is(views(arranged@), p, k as int);
            }
            return k;
        }
        k += 1;
    }
    proof {
        lemma_first_match_none(views(arranged@), p);
    }
    k
}

/// Arranges the rows by rank; rows of equal rank keep their order.
pub fn arrange<T: Ranked>(rows: Vec<T>) -> (listing: Vec<T>)
    ensures
        views(listing@) == arranged::<T>(views(rows@)),
{
    let ghost all = views(rows@);
    let mut rest = rows;
    let mut listing: Vec<T> = Vec::new();
    let ghost mut done: int = 0;
    proof {
        assert(all.skip(0) =~= all);
        assert(views(listing@) =~= arranged::<T>(all.take(0)));
    }
    while rest.len() > 0
        invariant
            0 <= done <= all.len(),
            views(rest@) == all.skip(done),
            views(listing@) == arranged::<T>(all.take(done)),
        decreases rest.len(),
    {
        let ghost rest_before = rest@;
        let ghost listing_before = listing@;
        let row = rest.remove(0);
        let k = find_slot(&listing, &row);
        listing.insert(k, row);
        proof {
            assert(views(rest_before)[0] == row@);
            assert(views(rest_before).len() == rest_before.len());
            assert(all.skip(done).len() == all.len() - done);
            assert(all.skip(done)[0] == all[done]);
            assert(rest@ =~= rest_before.remove(0));
            assert forall|j: int| 0 <= j < rest@.len() implies views(rest@)[j] == all.skip(
                done + 1,
            )[j] by {
                assert(rest@[j] == rest_before[j + 1]);
                assert(views(rest_before)[j + 1] == all.skip(done)[j + 1]);
            }
            assert(views(rest@) =~= all.skip(done + 1));
            assert(views(listing@) =~= views(listing_before).insert(k as int, row@));
            assert(all.take(done + 1).drop_last() =~= all.take(done));
            assert(all.take(done + 1).last() == all[done]);
            done = done + 1;
        }
    }
    proof {
        assert(all.take(done) =~= all);
    }
    listing
}

impl Ranked for AudioFile {
    /// Audio files are listed newest first.
    open spec fn rank(row: AudioFileView) -> int {
        -row.created_at
    }

    fn ranks_before(&self, other: &Self) -> (b: bool) {
        self.created_at > other.created_at
    }
}

impl Ranked for Playlist {
    /// Playlists are listed newest first.
    open spec fn rank(row: PlaylistView) -> int {
        -row.created_at
    }

    fn ranks_before(&self, other: &Self) -> (b: bool) {
        self.created_at > other.created_at
    }
}

impl Ranked for PlaylistAudioItem {
    /// The entries of a playlist are listed by position.
    open spec fn rank(row: PlaylistAudioItemView) -> int {
        row.position as int
    }

    fn ranks_before(&self, other: &Self) -> (b: bool) {
        self.position < other.position
    }
}

} // verus!
