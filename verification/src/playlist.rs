//! The playlist: an ordered list of tracks that never outgrows one disc.

use vstd::prelude::*;
use crate::error::{BurnError, BurnErrorView};
use crate::job::{BurnJob, JobView};
use crate::song::{Song, SongView};
use crate::timefmt::{duration_text, humantime_secs};

verus! {

/// Seconds of audio that fit on one disc: 79 minutes and 59 seconds.
pub const CD_MAX_DURATION_SECONDS: u64 = 4799;

/// The values of the tracks in `songs`, in order.
pub open spec fn song_views(songs: Seq<Song>) -> Seq<SongView> {
    Seq::new(songs.len(), |i: int| songs[i]@)
}

/// Sum of the durations of `songs`, in seconds.
pub open spec fn total_duration(songs: Seq<SongView>) -> nat
    decreases songs.len(),
{
    if songs.len() == 0 {
        0
    } else {
        total_duration(songs.drop_last()) + songs.last().duration
    }
}

/// Appending a track adds its duration to the total.
pub proof fn lemma_total_push(songs: Seq<SongView>, song: SongView)
    ensures
        total_duration(songs.push(song)) == total_duration(songs) + song.duration,
{
    assert(songs.push(song).drop_last() == songs);
}

/// Taking out the track at `index` takes its duration off the total.
pub proof fn lemma_total_remove(songs: Seq<SongView>, index: int)
    requires
        0 <= index < songs.len(),
    ensures
        total_duration(songs.remove(index)) + songs[index].duration == total_duration(songs),
    decreases songs.len(),
{
    if index == songs.len() - 1 {
        assert(songs.remove(index) == songs.drop_last());
    } else {
        lemma_total_remove(songs.drop_last(), index);
        assert(songs.remove(index).drop_last() == songs.drop_last().remove(index));
        assert(songs.remove(index).last() == songs.last());
    }
}

/// Total playing time of `playlist`, in seconds.
pub fn playlist_duration_secs(playlist: &[Song]) -> (total: u64)
    requires
        total_duration(song_views(playlist@)) <= u64::MAX,
    ensures
        total == total_duration(song_views(playlist@)),
{
    let ghost all = song_views(playlist@);
    let mut total: u64 = 0;
    let mut i: usize = 0;
    while i < playlist.len()
        invariant
            i <= playlist@.len(),
            all == song_views(playlist@),
            total == total_duration(all.take(i as int)),
            total_duration(all) <= u64::MAX,
        decreases playlist@.len() - i,
    {
        proof {
            assert(all.take(i + 1).drop_last() == all.take(i as int));
            lemma_total_prefix(all, i + 1);
        }
        total = total + playlist[i].duration_sec;
        i = i + 1;
    }
    proof {
        assert(all.take(i as int) == all);
    }
    total
}

/// A prefix of a playlist never plays longer than the whole.
pub proof fn lemma_total_prefix(songs: Seq<SongView>, n: int)
    requires
        0 <= n <= songs.len(),
    ensures
        total_duration(songs.take(n)) <= total_duration(songs),
    decreases songs.len(),
{
    if n == songs.len() {
        assert(songs.take(n) == songs);
    } else {
        lemma_total_prefix(songs.drop_last(), n);
        assert(songs.drop_last().take(n) == songs.take(n));
    }
}

/// The session's playlist. Insertion order is the order of the tracks on the
/// disc, and the tracks together never play longer than
/// [`CD_MAX_DURATION_SECONDS`].
pub struct AppState {
    playlist: Vec<Song>,
}

impl View for AppState {
    type V = Seq<SongView>;

    closed spec fn view(&self) -> Seq<SongView> {
        song_views(self.playlist@)
    }
}

impl AppState {
    #[verifier::type_invariant]
    spec fn within_capacity(&self) -> bool {
        total_duration(song_views(self.playlist@)) <= CD_MAX_DURATION_SECONDS
    }

    /// An empty playlist.
    pub fn new() -> (state: Self)
        ensures
            state@ == Seq::<SongView>::empty(),
    {
        let state = AppState { playlist: Vec::new() };
        assert(song_views(state.playlist@) == Seq::<SongView>::empty());
        state
    }

    /// The tracks, in disc order.
    pub fn playlist(&self) -> (songs: &Vec<Song>)
        ensures
            song_views(songs@) == self@,
            total_duration(self@) <= CD_MAX_DURATION_SECONDS,
    {
        proof {
            use_type_invariant(self);
        }
        &self.playlist
    }

    /// Total playing time in seconds.
    pub fn total_duration(&self) -> (total: u64)
        ensures
            total == total_duration(self@),
            total <= CD_MAX_DURATION_SECONDS,
    {
        proof {
            use_type_invariant(self);
        }
        playlist_duration_secs(self.playlist.as_slice())
    }

    /// Appends `track` if the playlist then still fits on one disc; otherwise
    /// leaves the playlist as it is and reports the capacity.
    pub fn playlist_add(&mut self, track: Song) -> (added: Result<(), BurnError>)
        ensures
            added is Ok <==> total_duration(old(self)@) + track.duration_sec
                <= CD_MAX_DURATION_SECONDS,
            added is Ok ==> final(self)@ == old(self)@.push(track@),
            added is Err ==> final(self)@ == old(self)@,
            added is Err ==> added->Err_0@ == (BurnErrorView::CapacityExceeded {
                budget: duration_text(CD_MAX_DURATION_SECONDS),
            }),
            total_duration(final(self)@) <= CD_MAX_DURATION_SECONDS,
    {
        proof {
            use_type_invariant(&*self);
        }
        let used = playlist_duration_secs(self.playlist.as_slice());
        if track.duration_sec > CD_MAX_DURATION_SECONDS - used {
            return Err(
                BurnError::CapacityExceeded { budget: humantime_secs(CD_MAX_DURATION_SECONDS) },
            );
        }
        proof {
            lemma_total_push(song_views(self.playlist@), track@);
            assert(song_views(self.playlist@.push(track)) == song_views(self.playlist@).push(
                track@,
            ));
        }
        // The list is taken out while it changes, so that the playlist is
        // within capacity at every moment it can be looked at.
        let mut songs = Vec::new();
        std::mem::swap(&mut self.playlist, &mut songs);
        songs.push(track);
        self.playlist = songs;
        Ok(())
    }

    /// Takes out the track at `index` and closes the gap: the tracks before
    /// it stay where they are, and each track after it moves up by one. An
    /// index past the end changes nothing and gives `false`.
    pub fn playlist_remove(&mut self, index: usize) -> (removed: bool)
        ensures
            removed <==> index < old(self)@.len(),
            removed ==> final(self)@ == old(self)@.remove(index as int),
            removed ==> final(self)@.len() + 1 == old(self)@.len(),
            !removed ==> final(self)@ == old(self)@,
            total_duration(final(self)@) <= CD_MAX_DURATION_SECONDS,
    {
        proof {
            use_type_invariant(&*self);
        }
        if index >= self.playlist.len() {
            return false;
        }
        proof {
            lemma_total_remove(song_views(self.playlist@), index as int);
            assert(song_views(self.playlist@.remove(index as int)) == song_views(
                self.playlist@,
            ).remove(index as int));
        }
        let mut songs = Vec::new();
        std::mem::swap(&mut self.playlist, &mut songs);
        songs.remove(index);
        self.playlist = songs;
        true
    }

    /// Begins a burn of the playlist as it is now. The job works on a copy
    /// of its own: what happens to the playlist afterwards does not reach it.
    pub fn playlist_burn(&self) -> (job: BurnJob)
        ensures
            job@ == JobView::fresh(self@),
            job@.wf(),
    {
        let snapshot = self.playlist.clone();
        assert(song_views(snapshot@) == song_views(self.playlist@));
        BurnJob::new(snapshot)
    }

    /// Empties the playlist.
    pub fn playlist_clear(&mut self)
        ensures
            final(self)@ == Seq::<SongView>::empty(),
    {
        self.playlist = Vec::new();
        assert(song_views(self.playlist@) == Seq::<SongView>::empty());
    }
}

} // verus!
