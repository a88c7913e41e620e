//! Tracks as the catalog hands them out.

use vstd::prelude::*;
use vstd::string::StrSliceExecFns;

verus! {

/// One catalog entry. Nothing in this crate changes a track; playlists hold copies.
#[derive(Debug, PartialEq, Eq)]
pub struct Song {
    pub id: i64,
    pub path: String,
    pub title: String,
    pub artist: String,
    pub album: String,
    pub track: i64,
    pub year: u32,
    pub duration_sec: u64,
}

/// The mathematical value of a [`Song`].
pub struct SongView {
    pub id: int,
    pub path: Seq<char>,
    pub title: Seq<char>,
    pub artist: Seq<char>,
    pub album: Seq<char>,
    pub track: int,
    pub year: nat,
    pub duration: nat,
}

impl View for Song {
    type V = SongView;

    open spec fn view(&self) -> SongView {
        SongView {
            id: self.id as int,
            path: self.path@,
            title: self.title@,
            artist: self.artist@,
            album: self.album@,
            track: self.track as int,
            year: self.year as nat,
            duration: self.duration_sec as nat,
        }
    }
}

impl Clone for Song {
    fn clone(&self) -> (copy: Self)
        ensures
            copy == *self,
    {
        Song {
            id: self.id,
            path: self.path.clone(),
            title: self.title.clone(),
            artist: self.artist.clone(),
            album: self.album.clone(),
            track: self.track,
            year: self.year,
            duration_sec: self.duration_sec,
        }
    }
}

/// Index just past the last `.` in `path`, or 0 when `path` holds none.
pub open spec fn extension_start(path: Seq<char>) -> nat
    decreases path.len(),
{
    if path.len() == 0 {
        0
    } else if path.last() == '.' {
        path.len()
    } else {
        extension_start(path.drop_last())
    }
}

/// What follows the last `.` of `path`; the word `unknown` when there is no `.`.
pub open spec fn format_of(path: Seq<char>) -> Seq<char> {
    if path.contains('.') {
        path.subrange(extension_start(path) as int, path.len() as int)
    } else {
        "unknown"@
    }
}

/// `extension_start` points just past a `.` after which no other `.` follows.
pub proof fn lemma_extension_start(path: Seq<char>)
    ensures
        extension_start(path) <= path.len(),
        path.contains('.') <==> extension_start(path) > 0,
        extension_start(path) > 0 ==> path[extension_start(path) - 1] == '.',
        forall|i: int| extension_start(path) <= i < path.len() ==> path[i] != '.',
    decreases path.len(),
{
    if path.len() == 0 {
    } else if path.last() == '.' {
        assert(path[path.len() - 1] == '.');
    } else {
        let init = path.drop_last();
        lemma_extension_start(init);
        if path.contains('.') {
            let i = choose|i: int| 0 <= i < path.len() && path[i] == '.';
            assert(init[i] == '.');
        }
        if init.contains('.') {
            let i = choose|i: int| 0 <= i < init.len() && init[i] == '.';
            assert(path[i] == '.');
        }
        assert forall|i: int| extension_start(path) <= i < path.len() implies path[i] != '.' by {
            if i < init.len() {
                assert(init[i] == path[i]);
            }
        }
    }
}

impl Song {
    /// The audio format, read off the file name: the text after the last `.`
    /// of the path, or `unknown` for a path without one.
    pub fn format(&self) -> (ext: &str)
        ensures
            ext@ == format_of(self.path@),
    {
        // Looks each character up by position, which walks the path anew
        // every time: fine for the length of a path.
        let path = self.path.as_str();
        let n = path.unicode_len();
        let mut start: usize = 0;
        let mut i: usize = 0;
        while i < n
            invariant
                n == path@.len(),
                i <= n,
                start == extension_start(path@.take(i as int)),
                start <= i,
            decreases n - i,
        {
            let c = path.get_char(i);
            proof {
                let next = path@.take(i + 1);
                assert(next.drop_last() == path@.take(i as int));
                assert(next.last() == c);
            }
            i = i + 1;
            if c == '.' {
                start = i;
            }
        }
        proof {
            assert(path@.take(n as int) == path@);
            lemma_extension_start(path@);
        }
        if start == 0 {
            "unknown"
        } else {
            path.substring_char(start, n)
        }
    }
}

} // verus!
