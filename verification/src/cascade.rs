//! Cascading deletion: the units of work that remove a resource together
//! with everything that refers to it.
//!
//! The statements of a unit stand in dependency order: what refers to a row
//! is removed before the row, so that no statement breaks a constraint and
//! nothing is left behind that refers to a row that is gone.

use vstd::prelude::*;

use crate::blobs::{blob_location, blob_path, folder_of, user_folder};
use crate::change::{BlobStep, BlobStepView};
use crate::models::{
    views, AudioFile, AudioFileView, Playlist, PlaylistItem, PlaylistItemView, PlaylistView, User,
};
use crate::schema::{
    audio_of_user_in_use, consistent, effect, effect_of_all, lemma_effect_consistent, performed,
    playlist_of_user_in_use, refers, violates, Library, Statement, StatementView,
};
use crate::seqs::{
    lemma_filter_all_kept, lemma_filter_kept_satisfy, lemma_filter_members, lemma_filter_twice,
};
use crate::store::Store;
use crate::tables::{
    holds, holds_other, matching, AudioColumn, ItemColumn, PlaylistColumn, UserColumn,
};

verus! {

/// For each audio file, the statement that removes the playlist entries
/// which refer to it.
pub open spec fn audio_entry_removals(rows: Seq<AudioFileView>) -> Seq<StatementView> {
    rows.map_values(|a: AudioFileView| StatementView::DeleteItemsByAudio(a.id))
}

/// For each playlist, the statement that removes its entries.
pub open spec fn playlist_entry_removals(rows: Seq<PlaylistView>) -> Seq<StatementView> {
    rows.map_values(|p: PlaylistView| StatementView::DeleteItemsByPlaylist(p.id))
}

/// For each audio file, the step that removes its blob.
pub open spec fn blob_removals(rows: Seq<AudioFileView>) -> Seq<BlobStepView> {
    rows.map_values(
        |a: AudioFileView| BlobStepView::Remove(blob_path(a.user_folder, a.id, a.filename)),
    )
}

/// The audio files of the account.
pub open spec fn audio_owned_by(v: Library, user_id: Seq<char>) -> Seq<AudioFileView> {
    v.audio_files.filter(holds::<AudioFile>(AudioColumn::UserId, user_id))
}

/// The playlists of the account.
pub open spec fn playlists_owned_by(v: Library, user_id: Seq<char>) -> Seq<PlaylistView> {
    v.playlists.filter(holds::<Playlist>(PlaylistColumn::UserId, user_id))
}

/// The unit of work that removes an account: the playlist entries that refer
/// to its audio files, wherever they are; its audio files; the entries of
/// its playlists; its playlists; the account itself.
pub open spec fn user_deletion_unit(v: Library, user_id: Seq<char>) -> Seq<StatementView> {
    audio_entry_removals(audio_owned_by(v, user_id)) + seq![
        StatementView::DeleteAudioByUser(user_id),
    ] + playlist_entry_removals(playlists_owned_by(v, user_id)) + seq![
        StatementView::DeletePlaylistsByUser(user_id),
        StatementView::DeleteUser(user_id),
    ]
}

/// The blob steps that follow the removal of an account: the blob of each of
/// its audio files, then its folder.
pub open spec fn user_blob_steps(v: Library, user_id: Seq<char>) -> Seq<BlobStepView> {
    blob_removals(audio_owned_by(v, user_id)).push(BlobStepView::RemoveFolder(folder_of(user_id)))
}

/// The unit of work that removes a playlist: its entries, then the playlist.
pub open spec fn playlist_deletion_unit(playlist_id: Seq<char>) -> Seq<StatementView> {
    seq![
        StatementView::DeleteItemsByPlaylist(playlist_id),
        StatementView::DeletePlaylist(playlist_id),
    ]
}

/// The unit of work that removes an audio file: the playlist entries that
/// refer to it, then the audio file.
pub open spec fn audio_deletion_unit(audio_id: Seq<char>) -> Seq<StatementView> {
    seq![StatementView::DeleteItemsByAudio(audio_id), StatementView::DeleteAudio(audio_id)]
}

/// Plans the removal of an account.
pub fn plan_user_deletion(store: &Store, user_id: &str) -> (unit: Vec<Statement>)
    ensures
        views(unit@) == user_deletion_unit(store@, user_id@),
{
    let mut unit: Vec<Statement> = Vec::new();
    let audio = matching(store.audio_files(), &AudioColumn::UserId, user_id);
    let ghost mine = views(audio@);
    let mut i: usize = 0;
    proof {
        assert(views(unit@) =~= audio_entry_removals(mine.take(0)));
    }
    while i < audio.len()
        invariant
            i <= audio.len(),
            mine == views(audio@),
            views(unit@) == audio_entry_removals(mine.take(i as int)),
        decreases audio.len() - i,
    {
        let ghost before = unit@;
        unit.push(Statement::DeleteItemsByAudio(audio[i].id.clone()));
        proof {
            assert(mine.take(i + 1) =~= mine.take(i as int).push(mine[i as int]));
            assert(views(unit@) =~= views(before).push(
                StatementView::DeleteItemsByAudio(mine[i as int].id),
            ));
            assert(views(unit@) =~= audio_entry_removals(mine.take(i + 1)));
        }
        i += 1;
    }
    let ghost first = views(unit@);
    proof {
        assert(mine.take(audio.len() as int) =~= mine);
    }
    unit.push(Statement::DeleteAudioByUser(user_id.to_owned()));
    let lists = matching(store.playlists(), &PlaylistColumn::UserId, user_id);
    let ghost theirs = views(lists@);
    let ghost head = first + seq![StatementView::DeleteAudioByUser(user_id@)];
    let mut j: usize = 0;
    proof {
        assert(views(unit@) =~= head + playlist_entry_removals(theirs.take(0)));
    }
    while j < lists.len()
        invariant
            j <= lists.len(),
            theirs == views(lists@),
            views(unit@) == head + playlist_entry_removals(theirs.take(j as int)),
        decreases lists.len() - j,
    {
        let ghost before = unit@;
        unit.push(Statement::DeleteItemsByPlaylist(lists[j].id.clone()));
        proof {
            assert(theirs.take(j + 1) =~= theirs.take(j as int).push(theirs[j as int]));
            assert(views(unit@) =~= views(before).push(
                StatementView::DeleteItemsByPlaylist(theirs[j as int].id),
            ));
            assert(views(unit@) =~= head + playlist_entry_removals(theirs.take(j + 1)));
        }
        j += 1;
    }
    proof {
        assert(theirs.take(lists.len() as int) =~= theirs);
    }
    let ghost body = views(unit@);
    unit.push(Statement::DeletePlaylistsByUser(user_id.to_owned()));
    unit.push(Statement::DeleteUser(user_id.to_owned()));
    proof {
        assert(views(unit@) =~= body + seq![
            StatementView::DeletePlaylistsByUser(user_id@),
            StatementView::DeleteUser(user_id@),
        ]);
    }
    unit
}

/// Plans the blob steps that follow the removal of an account.
pub fn plan_user_blob_removal(store: &Store, user_id: &str) -> (steps: Vec<BlobStep>)
    ensures
        views(steps@) == user_blob_steps(store@, user_id@),
{
    let mut steps: Vec<BlobStep> = Vec::new();
    let audio = matching(store.audio_files(), &AudioColumn::UserId, user_id);
    let ghost mine = views(audio@);
    let mut i: usize = 0;
    proof {
        assert(views(steps@) =~= blob_removals(mine.take(0)));
    }
    while i < audio.len()
        invariant
            i <= audio.len(),
            mine == views(audio@),
            views(steps@) == blob_removals(mine.take(i as int)),
        decreases audio.len() - i,
    {
        let ghost before = steps@;
        let row = &audio[i];
        let path = blob_location(row.user_folder.as_str(), row.id.as_str(), row.filename.as_str());
        steps.push(BlobStep::Remove(path));
        proof {
            assert(mine.take(i + 1) =~= mine.take(i as int).push(mine[i as int]));
            assert(views(steps@) =~= views(before).push(BlobStepView::Remove(path@)));
            assert(views(steps@) =~= blob_removals(mine.take(i + 1)));
        }
        i += 1;
    }
    proof {
        assert(mine.take(audio.len() as int) =~= mine);
    }
    let ghost removals = steps@;
    let folder = user_folder(user_id);
    steps.push(BlobStep::RemoveFolder(folder));
    proof {
        assert(views(steps@) =~= views(removals).push(BlobStepView::RemoveFolder(folder@)));
    }
    steps
}

/// Plans the removal of a playlist.
pub fn plan_playlist_deletion(playlist_id: &str) -> (unit: Vec<Statement>)
    ensures
        views(unit@) == playlist_deletion_unit(playlist_id@),
{
    let mut unit: Vec<Statement> = Vec::new();
    unit.push(Statement::DeleteItemsByPlaylist(playlist_id.to_owned()));
    unit.push(Statement::DeletePlaylist(playlist_id.to_owned()));
    proof {
        assert(views(unit@) =~= playlist_deletion_unit(playlist_id@));
    }
    unit
}

/// Plans the removal of an audio file.
pub fn plan_audio_deletion(audio_id: &str) -> (unit: Vec<Statement>)
    ensures
        views(unit@) == audio_deletion_unit(audio_id@),
{
    let mut unit: Vec<Statement> = Vec::new();
    unit.push(Statement::DeleteItemsByAudio(audio_id.to_owned()));
    unit.push(Statement::DeleteAudio(audio_id.to_owned()));
    proof {
        assert(views(unit@) =~= audio_deletion_unit(audio_id@));
    }
    unit
}

/// The playlist entries that refer to none of the audio files.
pub open spec fn refers_to_none_of(rows: Seq<AudioFileView>) -> spec_fn(PlaylistItemView) -> bool {
    |item: PlaylistItemView| !refers::<AudioFile>(rows, AudioColumn::Id, item.audio_id)
}

/// The playlist entries that belong to none of the playlists.
pub open spec fn belongs_to_none_of(rows: Seq<PlaylistView>) -> spec_fn(PlaylistItemView) -> bool {
    |item: PlaylistItemView| !refers::<Playlist>(rows, PlaylistColumn::Id, item.playlist_id)
}

/// The playlist entries that have nothing to do with the account: they
/// refer to none of its audio files and belong to none of its playlists.
pub open spec fn unrelated_to(v: Library, user_id: Seq<char>) -> spec_fn(PlaylistItemView) -> bool {
    |item: PlaylistItemView|
        !refers::<AudioFile>(audio_owned_by(v, user_id), AudioColumn::Id, item.audio_id)
            && !refers::<Playlist>(
            playlists_owned_by(v, user_id),
            PlaylistColumn::Id,
            item.playlist_id,
        )
}

/// The library without the account and everything that depended on it.
pub open spec fn without_user(v: Library, user_id: Seq<char>) -> Library {
    Library {
        users: v.users.filter(holds_other::<User>(UserColumn::Id, user_id)),
        audio_files: v.audio_files.filter(holds_other::<AudioFile>(AudioColumn::UserId, user_id)),
        playlists: v.playlists.filter(holds_other::<Playlist>(PlaylistColumn::UserId, user_id)),
        playlist_items: v.playlist_items.filter(unrelated_to(v, user_id)),
    }
}

/// The library without the playlist and its entries.
pub open spec fn without_playlist(v: Library, playlist_id: Seq<char>) -> Library {
    Library {
        playlists: v.playlists.filter(holds_other::<Playlist>(PlaylistColumn::Id, playlist_id)),
        playlist_items: v.playlist_items.filter(
            holds_other::<PlaylistItem>(ItemColumn::PlaylistId, playlist_id),
        ),
        ..v
    }
}

/// The library without the audio file and the playlist entries that
/// referred to it.
pub open spec fn without_audio(v: Library, audio_id: Seq<char>) -> Library {
    Library {
        audio_files: v.audio_files.filter(holds_other::<AudioFile>(AudioColumn::Id, audio_id)),
        playlist_items: v.playlist_items.filter(
            holds_other::<PlaylistItem>(ItemColumn::AudioId, audio_id),
        ),
        ..v
    }
}

/// A unit of work that breaks no constraint leaves the constraints in force.
pub proof fn lemma_unit_consistent(v: Library, unit: Seq<StatementView>)
    requires
        consistent(v),
        effect_of_all(v, unit) is Some,
    ensures
        consistent(effect_of_all(v, unit).unwrap()),
    decreases unit.len(),
{
    if unit.len() > 0 {
        lemma_effect_consistent(v, unit[0]);
        lemma_unit_consistent(effect(v, unit[0]).unwrap(), unit.drop_first());
    }
}

/// Removing the entries that refer to each of the audio files, one file
/// after the other, removes the entries that refer to any of them.
proof fn lemma_audio_entry_removals(v: Library, rows: Seq<AudioFileView>, rest: Seq<StatementView>)
    ensures
        effect_of_all(v, audio_entry_removals(rows) + rest) == effect_of_all(
            Library { playlist_items: v.playlist_items.filter(refers_to_none_of(rows)), ..v },
            rest,
        ),
    decreases rows.len(),
{
    let unit = audio_entry_removals(rows) + rest;
    let keep = refers_to_none_of(rows);
    if rows.len() == 0 {
        assert(unit =~= rest);
        assert forall|i: int| 0 <= i < v.playlist_items.len() implies keep(
            #[trigger] v.playlist_items[i],
        ) by {}
        lemma_filter_all_kept(v.playlist_items, keep);
    } else {
        let tail = rows.drop_first();
        let first = holds_other::<PlaylistItem>(ItemColumn::AudioId, rows[0].id);
        let second = refers_to_none_of(tail);
        assert(unit[0] == StatementView::DeleteItemsByAudio(rows[0].id));
        assert(unit.drop_first() =~= audio_entry_removals(tail) + rest);
        let next = performed(v, unit[0]);
        lemma_audio_entry_removals(next, tail, rest);
        assert forall|i: int| 0 <= i < v.playlist_items.len() implies (keep(
            #[trigger] v.playlist_items[i],
        ) <==> first(v.playlist_items[i]) && second(v.playlist_items[i])) by {
            let key = v.playlist_items[i].audio_id;
            let p = holds::<AudioFile>(AudioColumn::Id, key);
            if refers::<AudioFile>(rows, AudioColumn::Id, key) {
                let k = choose|k: int| 0 <= k < rows.len() && p(#[trigger] rows[k]);
                if k > 0 {
                    assert(tail[k - 1] == rows[k]);
                    assert(p(tail[k - 1]));
                }
            }
            if refers::<AudioFile>(tail, AudioColumn::Id, key) {
                let k = choose|k: int| 0 <= k < tail.len() && p(#[trigger] tail[k]);
                assert(tail[k] == rows[k + 1]);
                assert(p(rows[k + 1]));
            }
            if rows[0].id == key {
                assert(p(rows[0]));
            }
        }
        lemma_filter_twice(v.playlist_items, first, second, keep);
    }
}

/// Removing the entries of each of the playlists, one playlist after the
/// other, removes the entries of all of them.
proof fn lemma_playlist_entry_removals(
    v: Library,
    rows: Seq<PlaylistView>,
    rest: Seq<StatementView>,
)
    ensures
        effect_of_all(v, playlist_entry_removals(rows) + rest) == effect_of_all(
            Library { playlist_items: v.playlist_items.filter(belongs_to_none_of(rows)), ..v },
            rest,
        ),
    decreases rows.len(),
{
    let unit = playlist_entry_removals(rows) + rest;
    let keep = belongs_to_none_of(rows);
    if rows.len() == 0 {
        assert(unit =~= rest);
        assert forall|i: int| 0 <= i < v.playlist_items.len() implies keep(
            #[trigger] v.playlist_items[i],
        ) by {}
        lemma_filter_all_kept(v.playlist_items, keep);
    } else {
        let tail = rows.drop_first();
        let first = holds_other::<PlaylistItem>(ItemColumn::PlaylistId, rows[0].id);
        let second = belongs_to_none_of(tail);
        assert(unit[0] == StatementView::DeleteItemsByPlaylist(rows[0].id));
        assert(unit.drop_first() =~= playlist_entry_removals(tail) + rest);
        let next = performed(v, unit[0]);
        lemma_playlist_entry_removals(next, tail, rest);
        assert forall|i: int| 0 <= i < v.playlist_items.len() implies (keep(
            #[trigger] v.playlist_items[i],
        ) <==> first(v.playlist_items[i]) && second(v.playlist_items[i])) by {
            let key = v.playlist_items[i].playlist_id;
            let p = holds::<Playlist>(PlaylistColumn::Id, key);
            if refers::<Playlist>(rows, PlaylistColumn::Id, key) {
                let k = choose|k: int| 0 <= k < rows.len() && p(#[trigger] rows[k]);
                if k > 0 {
                    assert(tail[k - 1] == rows[k]);
                    assert(p(tail[k - 1]));
                }
            }
            if refers::<Playlist>(tail, PlaylistColumn::Id, key) {
                let k = choose|k: int| 0 <= k < tail.len() && p(#[trigger] tail[k]);
                assert(tail[k] == rows[k + 1]);
                assert(p(rows[k + 1]));
            }
            if rows[0].id == key {
                assert(p(rows[0]));
            }
        }
        lemma_filter_twice(v.playlist_items, first, second, keep);
    }
}

/// Removing an account takes effect as a whole and removes exactly what
/// depended on the account: the playlist entries that refer to its audio
/// files, also in the playlists of others, its audio files, the entries of
/// its playlists, its playlists and the account. Asking any table for rows
/// of the account afterwards finds none, and the constraints are in force.
pub proof fn user_deletion_leaves_nothing_behind(v: Library, user_id: Seq<char>)
    requires
        consistent(v),
    ensures
        effect_of_all(v, user_deletion_unit(v, user_id)) == Some(without_user(v, user_id)),
        consistent(without_user(v, user_id)),
        !refers::<User>(without_user(v, user_id).users, UserColumn::Id, user_id),
        !refers::<AudioFile>(without_user(v, user_id).audio_files, AudioColumn::UserId, user_id),
        !refers::<Playlist>(without_user(v, user_id).playlists, PlaylistColumn::UserId, user_id),
        forall|i: int, j: int|
            0 <= i < without_user(v, user_id).playlist_items.len() && 0 <= j < v.audio_files.len()
                && (#[trigger] v.audio_files[j]).user_id == user_id ==> (
            #[trigger] without_user(v, user_id).playlist_items[i]).audio_id != v.audio_files[j].id,
        forall|i: int, j: int|
            0 <= i < without_user(v, user_id).playlist_items.len() && 0 <= j < v.playlists.len()
                && (#[trigger] v.playlists[j]).user_id == user_id ==> (
            #[trigger] without_user(v, user_id).playlist_items[i]).playlist_id != v.playlists[j].id,
{
    let mine = audio_owned_by(v, user_id);
    let theirs = playlists_owned_by(v, user_id);
    let unit = user_deletion_unit(v, user_id);
    let s1 = StatementView::DeleteAudioByUser(user_id);
    let s2 = StatementView::DeletePlaylistsByUser(user_id);
    let s3 = StatementView::DeleteUser(user_id);
    let tail = seq![s2, s3];
    let rest = seq![s1] + playlist_entry_removals(theirs) + tail;
    assert(unit =~= audio_entry_removals(mine) + rest);
    lemma_audio_entry_removals(v, mine, rest);
    lemma_filter_members(v.audio_files, holds::<AudioFile>(AudioColumn::UserId, user_id));
    lemma_filter_members(v.playlists, holds::<Playlist>(PlaylistColumn::UserId, user_id));

    // the entries that refer to the audio files of the account are gone
    let items_a = v.playlist_items.filter(refers_to_none_of(mine));
    let va = Library { playlist_items: items_a, ..v };
    lemma_filter_kept_satisfy(v.playlist_items, refers_to_none_of(mine));
    assert(!audio_of_user_in_use(va, user_id)) by {
        if audio_of_user_in_use(va, user_id) {
            let j = choose|j: int|
                0 <= j < va.audio_files.len() && (#[trigger] va.audio_files[j]).user_id == user_id
                    && refers::<PlaylistItem>(
                    va.playlist_items,
                    ItemColumn::AudioId,
                    va.audio_files[j].id,
                );
            let a = v.audio_files[j];
            let q = holds::<PlaylistItem>(ItemColumn::AudioId, a.id);
            let k = choose|k: int| 0 <= k < items_a.len() && q(#[trigger] items_a[k]);
            assert(refers_to_none_of(mine)(items_a[k]));
            assert(v.audio_files.contains(a));
            assert(mine.contains(a));
            let m = choose|m: int| 0 <= m < mine.len() && mine[m] == a;
            assert(holds::<AudioFile>(AudioColumn::Id, a.id)(mine[m]));
        }
    }
    assert(rest[0] == s1);
    assert(rest.drop_first() =~= playlist_entry_removals(theirs) + tail);
    let vb = performed(va, s1);
    assert(effect_of_all(va, rest) == effect_of_all(vb, playlist_entry_removals(theirs) + tail));
    lemma_playlist_entry_removals(vb, theirs, tail);

    // the entries of the playlists of the account are gone
    let items_c = items_a.filter(belongs_to_none_of(theirs));
    let vc = Library { playlist_items: items_c, ..vb };
    lemma_filter_kept_satisfy(items_a, belongs_to_none_of(theirs));
    assert(!playlist_of_user_in_use(vc, user_id)) by {
        if playlist_of_user_in_use(vc, user_id) {
            let j = choose|j: int|
                0 <= j < vc.playlists.len() && (#[trigger] vc.playlists[j]).user_id == user_id
                    && refers::<PlaylistItem>(
                    vc.playlist_items,
                    ItemColumn::PlaylistId,
                    vc.playlists[j].id,
                );
            let p = v.playlists[j];
            let q = holds::<PlaylistItem>(ItemColumn::PlaylistId, p.id);
            let k = choose|k: int| 0 <= k < items_c.len() && q(#[trigger] items_c[k]);
            assert(belongs_to_none_of(theirs)(items_c[k]));
            assert(v.playlists.contains(p));
            assert(theirs.contains(p));
            let m = choose|m: int| 0 <= m < theirs.len() && theirs[m] == p;
            assert(holds::<Playlist>(PlaylistColumn::Id, p.id)(theirs[m]));
        }
    }
    assert(tail[0] == s2);
    assert(tail.drop_first() =~= seq![s3]);
    let vd = performed(vc, s2);

    // no audio file and no playlist of the account is left
    lemma_filter_kept_satisfy(v.audio_files, holds_other::<AudioFile>(AudioColumn::UserId, user_id));
    lemma_filter_kept_satisfy(v.playlists, holds_other::<Playlist>(PlaylistColumn::UserId, user_id));
    lemma_filter_kept_satisfy(v.users, holds_other::<User>(UserColumn::Id, user_id));
    assert(!violates(vd, s3));
    assert(seq![s3][0] == s3);
    assert(seq![s3].drop_first() =~= Seq::<StatementView>::empty());
    let ve = performed(vd, s3);
    assert(effect_of_all(ve, Seq::<StatementView>::empty()) == Some(ve));
    assert(effect_of_all(vd, seq![s3]) == Some(ve));
    assert(effect_of_all(vc, tail) == Some(ve));

    assert forall|i: int| 0 <= i < v.playlist_items.len() implies (unrelated_to(v, user_id)(
        #[trigger] v.playlist_items[i],
    ) <==> refers_to_none_of(mine)(v.playlist_items[i]) && belongs_to_none_of(theirs)(
        v.playlist_items[i],
    )) by {}
    lemma_filter_twice(
        v.playlist_items,
        refers_to_none_of(mine),
        belongs_to_none_of(theirs),
        unrelated_to(v, user_id),
    );
    let w = without_user(v, user_id);
    assert(ve == w);
    lemma_unit_consistent(v, unit);

    lemma_filter_kept_satisfy(v.playlist_items, unrelated_to(v, user_id));
    assert forall|i: int, j: int|
        0 <= i < w.playlist_items.len() && 0 <= j < v.audio_files.len() && (
        #[trigger] v.audio_files[j]).user_id == user_id implies (
    #[trigger] w.playlist_items[i]).audio_id != v.audio_files[j].id by {
        let a = v.audio_files[j];
        assert(unrelated_to(v, user_id)(w.playlist_items[i]));
        assert(v.audio_files.contains(a));
        assert(mine.contains(a));
        let m = choose|m: int| 0 <= m < mine.len() && mine[m] == a;
        assert(holds::<AudioFile>(AudioColumn::Id, a.id)(mine[m]));
    }
    assert forall|i: int, j: int|
        0 <= i < w.playlist_items.len() && 0 <= j < v.playlists.len() && (
        #[trigger] v.playlists[j]).user_id == user_id implies (
    #[trigger] w.playlist_items[i]).playlist_id != v.playlists[j].id by {
        let p = v.playlists[j];
        assert(unrelated_to(v, user_id)(w.playlist_items[i]));
        assert(v.playlists.contains(p));
        assert(theirs.contains(p));
        let m = choose|m: int| 0 <= m < theirs.len() && theirs[m] == p;
        assert(holds::<Playlist>(PlaylistColumn::Id, p.id)(theirs[m]));
    }
}

/// Removing a playlist takes effect as a whole: its entries and the
/// playlist are gone, everything else stays, and the constraints are in
/// force.
pub proof fn playlist_deletion_leaves_nothing_behind(v: Library, playlist_id: Seq<char>)
    requires
        consistent(v),
    ensures
        effect_of_all(v, playlist_deletion_unit(playlist_id)) == Some(
            without_playlist(v, playlist_id),
        ),
        consistent(without_playlist(v, playlist_id)),
        !refers::<Playlist>(
            without_playlist(v, playlist_id).playlists,
            PlaylistColumn::Id,
            playlist_id,
        ),
        !refers::<PlaylistItem>(
            without_playlist(v, playlist_id).playlist_items,
            ItemColumn::PlaylistId,
            playlist_id,
        ),
{
    let unit = playlist_deletion_unit(playlist_id);
    let s1 = StatementView::DeleteItemsByPlaylist(playlist_id);
    let s2 = StatementView::DeletePlaylist(playlist_id);
    lemma_filter_kept_satisfy(
        v.playlist_items,
        holds_other::<PlaylistItem>(ItemColumn::PlaylistId, playlist_id),
    );
    lemma_filter_kept_satisfy(
        v.playlists,
        holds_other::<Playlist>(PlaylistColumn::Id, playlist_id),
    );
    let va = performed(v, s1);
    assert(unit[0] == s1);
    assert(unit.drop_first() =~= seq![s2]);
    assert(!violates(va, s2));
    let vb = performed(va, s2);
    assert(seq![s2][0] == s2);
    assert(seq![s2].drop_first() =~= Seq::<StatementView>::empty());
    assert(effect_of_all(vb, Seq::<StatementView>::empty()) == Some(vb));
    assert(effect_of_all(va, seq![s2]) == Some(vb));
    assert(vb == without_playlist(v, playlist_id));
    lemma_unit_consistent(v, unit);
}

/// Removing an audio file takes effect as a whole: the playlist entries
/// that referred to it and the audio file are gone, everything else stays,
/// and the constraints are in force.
pub proof fn audio_deletion_leaves_nothing_behind(v: Library, audio_id: Seq<char>)
    requires
        consistent(v),
    ensures
        effect_of_all(v, audio_deletion_unit(audio_id)) == Some(without_audio(v, audio_id)),
        consistent(without_audio(v, audio_id)),
        !refers::<AudioFile>(without_audio(v, audio_id).audio_files, AudioColumn::Id, audio_id),
        !refers::<PlaylistItem>(
            without_audio(v, audio_id).playlist_items,
            ItemColumn::AudioId,
            audio_id,
        ),
{
    let unit = audio_deletion_unit(audio_id);
    let s1 = StatementView::DeleteItemsByAudio(audio_id);
    let s2 = StatementView::DeleteAudio(audio_id);
    lemma_filter_kept_satisfy(
        v.playlist_items,
        holds_other::<PlaylistItem>(ItemColumn::AudioId, audio_id),
    );
    lemma_filter_kept_satisfy(v.audio_files, holds_other::<AudioFile>(AudioColumn::Id, audio_id));
    let va = performed(v, s1);
    assert(unit[0] == s1);
    assert(unit.drop_first() =~= seq![s2]);
    assert(!violates(va, s2));
    let vb = performed(va, s2);
    assert(seq![s2][0] == s2);
    assert(seq![s2].drop_first() =~= Seq::<StatementView>::empty());
    assert(effect_of_all(vb, Seq::<StatementView>::empty()) == Some(vb));
    assert(effect_of_all(va, seq![s2]) == Some(vb));
    assert(vb == without_audio(v, audio_id));
    lemma_unit_consistent(v, unit);
}

} // verus!
