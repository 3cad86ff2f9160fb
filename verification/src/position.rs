//! The position of a new playlist entry.
//!
//! A position that the caller names is taken as it is. Otherwise the entry
//! goes right behind the last one: at the greatest position of the playlist
//! plus one, or at one if the playlist is empty. Reading the greatest
//! position and adding the entry happen on one snapshot of the library, so
//! entries added without a named position never share a position with an
//! entry that is already there.

use vstd::prelude::*;

use crate::change::answers;
use crate::error::{failure, AppError, AppErrorView, ErrorKind};
use crate::models::{views, PlaylistItem, PlaylistItemView};

verus! {

/// `top` is the greatest position among the entries of the playlist.
pub open spec fn is_top_position(items: Seq<PlaylistItemView>, playlist_id: Seq<char>, top: i32) -> bool {
    &&& exists|i: int|
        0 <= i < items.len() && (#[trigger] items[i]).playlist_id == playlist_id
            && items[i].position == top
    &&& forall|i: int|
        0 <= i < items.len() && (#[trigger] items[i]).playlist_id == playlist_id
            ==> items[i].position <= top
}

/// The greatest position among the entries of the playlist, if it has any.
pub open spec fn top_position(items: Seq<PlaylistItemView>, playlist_id: Seq<char>) -> Option<i32> {
    if exists|top: i32| is_top_position(items, playlist_id, top) {
        Some(choose|top: i32| is_top_position(items, playlist_id, top))
    } else {
        None
    }
}

/// The failure that answers the request for a position behind the last one
/// that the machine can count.
pub open spec fn no_position_left() -> AppErrorView {
    failure(ErrorKind::Conflict, "Playlist has no free position"@)
}

/// The position of a new entry, given the one that the caller asked for and
/// the greatest position that the playlist holds.
pub open spec fn position_for(requested: Option<i32>, top: Option<i32>) -> Result<i32, AppErrorView> {
    match requested {
        Some(position) => Ok(position),
        None => match top {
            None => Ok(1i32),
            Some(t) => if t < i32::MAX {
                Ok((t + 1) as i32)
            } else {
                Err(no_position_left())
            },
        },
    }
}

/// The greatest position of a playlist is the only one.
pub proof fn lemma_top_position_is(items: Seq<PlaylistItemView>, playlist_id: Seq<char>, top: i32)
    requires
        is_top_position(items, playlist_id, top),
    ensures
        top_position(items, playlist_id) == Some(top),
{
    let chosen = choose|t: i32| is_top_position(items, playlist_id, t);
    assert(is_top_position(items, playlist_id, chosen));
    let i = choose|i: int|
        0 <= i < items.len() && (#[trigger] items[i]).playlist_id == playlist_id
            && items[i].position == top;
    let j = choose|j: int|
        0 <= j < items.len() && (#[trigger] items[j]).playlist_id == playlist_id
            && items[j].position == chosen;
    assert(items[i].position <= chosen);
    assert(items[j].position <= top);
}

/// A playlist without entries has no greatest position.
pub proof fn lemma_top_position_none(items: Seq<PlaylistItemView>, playlist_id: Seq<char>)
    requires
        forall|i: int| 0 <= i < items.len() ==> (#[trigger] items[i]).playlist_id != playlist_id,
    ensures
        top_position(items, playlist_id) is None,
{
    if exists|top: i32| is_top_position(items, playlist_id, top) {
        let top = choose|top: i32| is_top_position(items, playlist_id, top);
        let i = choose|i: int|
            0 <= i < items.len() && (#[trigger] items[i]).playlist_id == playlist_id
                && items[i].position == top;
        assert(items[i].playlist_id != playlist_id);
    }
}

/// The greatest position among the entries of the playlist, if it has any.
pub fn greatest_position(items: &Vec<PlaylistItem>, playlist_id: &str) -> (top: Option<i32>)
    ensures
        top == top_position(views(items@), playlist_id@),
{
    let ghost rows = views(items@);
    let mut top: Option<i32> = None;
    let mut i: usize = 0;
    while i < items.len()
        invariant
            i <= items.len(),
            rows == views(items@),
            match top {
                Some(t) => is_top_position(rows.take(i as int), playlist_id@, t),
                None => forall|j: int|
                    0 <= j < i ==> (#[trigger] rows[j]).playlist_id != playlist_id@,
            },
        decreases items.len() - i,
    {
        let ghost before = rows.take(i as int);
        let ghost after = rows.take(i + 1);
        proof {
            assert forall|j: int| 0 <= j < i implies #[trigger] after[j] == before[j] by {}
            assert(after[i as int] == rows[i as int]);
        }
        if items[i].playlist_id.as_str().eq(playlist_id) {
            let position = items[i].position;
            match top {
                Some(t) => {
                    proof {
                        let w = choose|w: int|
                            0 <= w < before.len() && (#[trigger] before[w]).playlist_id
                                == playlist_id@ && before[w].position == t;
                        assert(after[w] == before[w]);
                    }
                    if position > t {
                        top = Some(position);
                    }
                },
                None => {
                    top = Some(position);
                },
            }
            proof {
                let m = top.unwrap();
                assert forall|j: int|
                    0 <= j < after.len() && (#[trigger] after[j]).playlist_id
                        == playlist_id@ implies after[j].position <= m by {
                    if j < i {
                        assert(after[j] == before[j]);
                        assert(rows[j] == before[j]);
                    }
                }
            }
        } else {
            proof {
                match top {
                    Some(t) => {
                        let w = choose|w: int|
                            0 <= w < before.len() && (#[trigger] before[w]).playlist_id
                                == playlist_id@ && before[w].position == t;
                        assert(after[w] == before[w]);
                        assert forall|j: int|
                            0 <= j < after.len() && (#[trigger] after[j]).playlist_id
                                == playlist_id@ implies after[j].position <= t by {
                            if j < i {
                                assert(after[j] == before[j]);
                            }
                        }
                    },
                    None => {},
                }
            }
        }
        i += 1;
    }
    proof {
        assert(rows.take(items.len() as int) =~= rows);
        match top {
            Some(t) => lemma_top_position_is(rows, playlist_id@, t),
            None => lemma_top_position_none(rows, playlist_id@),
        }
    }
    top
}

/// Allocates the position of a new entry.
pub fn allocate_position(requested: Option<i32>, top: Option<i32>) -> (r: Result<i32, AppError>)
    ensures
        answers(r, position_for(requested, top)),
{
    match requested {
        Some(position) => Ok(position),
        None => match top {
            None => Ok(1),
            Some(t) => if t < i32::MAX {
                Ok(t + 1)
            } else {
                Err(AppError::new(ErrorKind::Conflict, "Playlist has no free position"))
            },
        },
    }
}

/// A position that was allocated without a request for a particular one is
/// held by no entry of the playlist.
pub proof fn allocated_position_is_free(
    items: Seq<PlaylistItemView>,
    playlist_id: Seq<char>,
    position: i32,
)
    requires
        position_for(None, top_position(items, playlist_id)) == Ok::<i32, AppErrorView>(position),
    ensures
        forall|i: int|
            0 <= i < items.len() && (#[trigger] items[i]).playlist_id == playlist_id
                ==> items[i].position < position,
{
    assert forall|i: int|
        0 <= i < items.len() && (#[trigger] items[i]).playlist_id == playlist_id implies items[i].position
        < position by {
        if top_position(items, playlist_id) is None {
            if !exists|top: i32| is_top_position(items, playlist_id, top) {
                lemma_has_top(items, playlist_id, i);
            }
        } else {
            let top = top_position(items, playlist_id).unwrap();
            assert(is_top_position(items, playlist_id, top));
        }
    }
}

/// A playlist with an entry has a greatest position.
proof fn lemma_has_top(items: Seq<PlaylistItemView>, playlist_id: Seq<char>, k: int)
    requires
        0 <= k < items.len(),
        items[k].playlist_id == playlist_id,
    ensures
        exists|top: i32| is_top_position(items, playlist_id, top),
    decreases items.len(),
{
    let front = items.drop_last();
    let last = items.last();
    let in_front = exists|j: int| 0 <= j < front.len() && (#[trigger] front[j]).playlist_id == playlist_id;
    if in_front {
        let j = choose|j: int| 0 <= j < front.len() && (#[trigger] front[j]).playlist_id == playlist_id;
        lemma_has_top(front, playlist_id, j);
        let t = choose|t: i32| is_top_position(front, playlist_id, t);
        let w = choose|w: int|
            0 <= w < front.len() && (#[trigger] front[w]).playlist_id == playlist_id
                && front[w].position == t;
        assert(items[w] == front[w]);
        let m = if last.playlist_id == playlist_id && last.position > t {
            last.position
        } else {
            t
        };
        assert(items[items.len() - 1] == last);
        assert forall|i: int|
            0 <= i < items.len() && (#[trigger] items[i]).playlist_id == playlist_id implies items[i].position
            <= m by {
            if i < front.len() {
                assert(items[i] == front[i]);
            }
        }
        assert(is_top_position(items, playlist_id, m));
    } else {
        assert(k == items.len() - 1) by {
            if k < items.len() - 1 {
                assert(front[k] == items[k]);
            }
        }
        assert forall|i: int|
            0 <= i < items.len() && (#[trigger] items[i]).playlist_id == playlist_id implies items[i].position
            <= last.position by {
            if i < front.len() {
                assert(items[i] == front[i]);
            }
        }
        assert(is_top_position(items, playlist_id, last.position));
    }
}

} // verus!
