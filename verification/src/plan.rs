//! What a burn job works through: each distinct track once for the
//! transcoder, every playlist entry for the disc.

use std::collections::HashSet;
use vstd::prelude::*;
use vstd::string::StringExecFns;
use crate::decimal::{law_written_number_reads_back, push_signed_decimal, signed_decimal};
use crate::playlist::song_views;
use crate::song::{Song, SongView};
use crate::words::string_views;

verus! {

broadcast use vstd::std_specs::hash::group_hash_axioms;

/// Whether some track of `songs` has the identifier `id`.
pub open spec fn has_id(songs: Seq<SongView>, id: int) -> bool {
    exists|i: int| 0 <= i < songs.len() && songs[i].id == id
}

/// The tracks of `songs` without repeats: of the entries that share an
/// identifier only the first stays, and the order is kept.
pub open spec fn unique_tracks(songs: Seq<SongView>) -> Seq<SongView>
    decreases songs.len(),
{
    if songs.len() == 0 {
        Seq::empty()
    } else if has_id(songs.drop_last(), songs.last().id) {
        unique_tracks(songs.drop_last())
    } else {
        unique_tracks(songs.drop_last()).push(songs.last())
    }
}

/// Name of the transcoded file of the track `id` inside the scratch area.
pub open spec fn file_name(id: int) -> Seq<char> {
    "track_"@ + signed_decimal(id) + ".wav"@
}

/// Where the transcoder writes the track `id`: its file inside `scratch`.
pub open spec fn file_path(scratch: Seq<char>, id: int) -> Seq<char> {
    scratch + "/"@ + file_name(id)
}

/// The transcoded file of each entry of `songs`, in order, repeats included.
pub open spec fn file_names(songs: Seq<SongView>) -> Seq<Seq<char>> {
    Seq::new(songs.len(), |i: int| file_name(songs[i].id))
}

/// Tracks with different identifiers are transcoded into different files.
pub proof fn law_file_names_differ(a: int, b: int)
    ensures
        file_name(a) == file_name(b) ==> a == b,
        forall|scratch: Seq<char>| file_path(scratch, a) == file_path(scratch, b) ==> a == b,
{
    let head = "track_"@;
    let tail = ".wav"@;
    let x = signed_decimal(a);
    let y = signed_decimal(b);
    law_written_number_reads_back(a);
    law_written_number_reads_back(b);
    if file_name(a) == file_name(b) {
        assert((head + x + tail).len() == (head + y + tail).len());
        assert(x == (head + x + tail).subrange(head.len() as int, (head.len() + x.len()) as int));
        assert(y == (head + y + tail).subrange(head.len() as int, (head.len() + y.len()) as int));
    }
    assert forall|scratch: Seq<char>| file_path(scratch, a) == file_path(scratch, b) implies a
        == b by {
        let front = scratch + "/"@;
        let p = file_path(scratch, a);
        let q = file_path(scratch, b);
        assert(file_name(a) == p.subrange(front.len() as int, p.len() as int));
        assert(file_name(b) == q.subrange(front.len() as int, q.len() as int));
    }
}

/// A playlist and its list of distinct tracks hold the same identifiers.
pub proof fn lemma_unique_same_ids(songs: Seq<SongView>, id: int)
    ensures
        has_id(unique_tracks(songs), id) <==> has_id(songs, id),
    decreases songs.len(),
{
    if songs.len() > 0 {
        let init = songs.drop_last();
        let last = songs.last();
        lemma_unique_same_ids(init, id);
        lemma_unique_same_ids(init, last.id);
        let unique = unique_tracks(songs);
        if has_id(songs, id) {
            let i = choose|i: int| 0 <= i < songs.len() && songs[i].id == id;
            if i < init.len() {
                assert(init[i].id == id);
                let j = choose|j: int|
                    0 <= j < unique_tracks(init).len() && unique_tracks(init)[j].id == id;
                assert(unique[j].id == id);
            } else if has_id(init, last.id) {
            } else {
                assert(unique[unique.len() - 1].id == id);
            }
        }
        if has_id(unique, id) {
            let j = choose|j: int| 0 <= j < unique.len() && unique[j].id == id;
            if j < unique_tracks(init).len() {
                assert(unique_tracks(init)[j].id == id);
                let i = choose|i: int| 0 <= i < init.len() && init[i].id == id;
                assert(songs[i].id == id);
            } else {
                assert(songs[songs.len() - 1].id == id);
            }
        }
    }
}

/// No two distinct tracks share an identifier.
pub proof fn lemma_unique_ids_differ(songs: Seq<SongView>)
    ensures
        forall|i: int, j: int|
            0 <= i < j < unique_tracks(songs).len() ==> unique_tracks(songs)[i].id
                != unique_tracks(songs)[j].id,
    decreases songs.len(),
{
    if songs.len() > 0 {
        let init = songs.drop_last();
        let last = songs.last();
        lemma_unique_ids_differ(init);
        lemma_unique_same_ids(init, last.id);
        let unique = unique_tracks(songs);
        assert forall|i: int, j: int| 0 <= i < j < unique.len() implies unique[i].id
            != unique[j].id by {
            if j == unique_tracks(init).len() {
                if unique[i].id == last.id {
                    assert(unique_tracks(init)[i].id == last.id);
                }
            }
        }
    }
}

/// Every distinct track is the first entry of the playlist with its identifier.
pub proof fn lemma_unique_is_first(songs: Seq<SongView>, k: int)
    requires
        0 <= k < unique_tracks(songs).len(),
    ensures
        exists|i: int|
            0 <= i < songs.len() && songs[i] == unique_tracks(songs)[k] && !has_id(
                songs.take(i),
                songs[i].id,
            ),
    decreases songs.len(),
{
    let init = songs.drop_last();
    let last = songs.last();
    if has_id(init, last.id) || k < unique_tracks(init).len() {
        lemma_unique_is_first(init, k);
        let i = choose|i: int|
            0 <= i < init.len() && init[i] == unique_tracks(init)[k] && !has_id(
                init.take(i),
                init[i].id,
            );
        assert(init.take(i) == songs.take(i));
        assert(songs[i] == unique_tracks(songs)[k]);
    } else {
        let i = songs.len() - 1;
        assert(songs.take(i) == init);
        assert(songs[i] == unique_tracks(songs)[k]);
    }
}

/// A playlist has no more distinct tracks than entries, and an empty list
/// of distinct tracks only when it is empty itself.
pub proof fn lemma_unique_len(songs: Seq<SongView>)
    ensures
        unique_tracks(songs).len() <= songs.len(),
        unique_tracks(songs).len() == 0 <==> songs.len() == 0,
    decreases songs.len(),
{
    if songs.len() > 0 {
        let init = songs.drop_last();
        lemma_unique_len(init);
        if has_id(init, songs.last().id) {
            let i = choose|i: int| 0 <= i < init.len() && init[i].id == songs.last().id;
        }
    }
}

/// The distinct tracks of `playlist`, in order of first appearance.
pub fn distinct_tracks(playlist: &Vec<Song>) -> (tracks: Vec<Song>)
    ensures
        song_views(tracks@) == unique_tracks(song_views(playlist@)),
{
    let ghost all = song_views(playlist@);
    let mut seen: HashSet<i64> = HashSet::new();
    let mut tracks: Vec<Song> = Vec::new();
    let mut i: usize = 0;
    assert(all.take(0) == Seq::<SongView>::empty());
    assert(song_views(tracks@) == Seq::<SongView>::empty());
    while i < playlist.len()
        invariant
            i <= playlist@.len(),
            all == song_views(playlist@),
            forall|id: i64| seen@.contains(id) <==> has_id(all.take(i as int), id as int),
            song_views(tracks@) == unique_tracks(all.take(i as int)),
        decreases playlist@.len() - i,
    {
        let song = &playlist[i];
        let ghost before = all.take(i as int);
        let ghost after = all.take(i + 1);
        let ghost found = song_views(tracks@);
        proof {
            assert(after.drop_last() == before);
            assert(after.last() == song@);
        }
        let fresh = seen.insert(song.id);
        if fresh {
            tracks.push(song.clone());
            assert(song_views(tracks@) == found.push(song@));
        }
        i = i + 1;
        proof {
            assert forall|id: i64| seen@.contains(id) <==> has_id(after, id as int) by {
                if has_id(after, id as int) {
                    let j = choose|j: int| 0 <= j < after.len() && after[j].id == id as int;
                    if j < before.len() {
                        assert(before[j].id == id as int);
                    }
                }
                if has_id(before, id as int) {
                    let j = choose|j: int| 0 <= j < before.len() && before[j].id == id as int;
                    assert(after[j].id == id as int);
                }
                if id == song.id {
                    assert(after[after.len() - 1].id == id as int);
                }
            }
        }
    }
    assert(all.take(i as int) == all);
    tracks
}

/// Name of the transcoded file of the track `id` inside the scratch area.
pub fn scratch_file_name(id: i64) -> (name: String)
    ensures
        name@ == file_name(id as int),
{
    let mut name = String::from_str("track_");
    push_signed_decimal(&mut name, id);
    name.append(".wav");
    name
}

/// Where the transcoder writes the track `id`: its file inside `scratch`.
pub fn scratch_file_path(scratch: &str, id: i64) -> (path: String)
    ensures
        path@ == file_path(scratch@, id as int),
{
    let mut path = String::from_str(scratch);
    path.append("/");
    let name = scratch_file_name(id);
    path.append(name.as_str());
    assert(path@ =~= file_path(scratch@, id as int));
    path
}

/// The transcoded file of each entry of `songs`, in order, repeats included.
pub fn scratch_file_names(songs: &Vec<Song>) -> (names: Vec<String>)
    ensures
        string_views(names@) == file_names(song_views(songs@)),
{
    let mut names: Vec<String> = Vec::new();
    let mut i: usize = 0;
    while i < songs.len()
        invariant
            i <= songs@.len(),
            names@.len() == i,
            forall|k: int| 0 <= k < i ==> names@[k]@ == file_name(songs@[k].id as int),
        decreases songs@.len() - i,
    {
        names.push(scratch_file_name(songs[i].id));
        i = i + 1;
    }
    assert(string_views(names@) =~= file_names(song_views(songs@)));
    names
}

} // verus!
