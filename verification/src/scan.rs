//! Scanning a music library: which files count as music, and what goes
//! into the catalog for each of them.

use std::borrow::Cow;
use vstd::prelude::*;
use vstd::string::StringExecFns;

verus! {

/// Text that is either borrowed from where it was read or owned.
pub type CowStr<'a> = Cow<'a, str>;

/// A track as it is written into the catalog.
#[derive(Debug, PartialEq, Eq)]
pub struct InsertSong<'a> {
    pub path: CowStr<'a>,
    pub title: CowStr<'a>,
    pub artist: CowStr<'a>,
    pub track: u32,
    pub album: CowStr<'a>,
    pub year: u32,
    pub duration_sec: u64,
    pub bitrate_kbps: u32,
    pub sample_rate_hz: u32,
    pub bit_depth: u8,
}

/// The mathematical value of an [`InsertSong`].
pub struct InsertSongView {
    pub path: Seq<char>,
    pub title: Seq<char>,
    pub artist: Seq<char>,
    pub track: nat,
    pub album: Seq<char>,
    pub year: nat,
    pub duration: nat,
    pub bitrate_kbps: nat,
    pub sample_rate_hz: nat,
    pub bit_depth: nat,
}

impl<'a> View for InsertSong<'a> {
    type V = InsertSongView;

    open spec fn view(&self) -> InsertSongView {
        InsertSongView {
            path: self.path@,
            title: self.title@,
            artist: self.artist@,
            track: self.track as nat,
            album: self.album@,
            year: self.year as nat,
            duration: self.duration_sec as nat,
            bitrate_kbps: self.bitrate_kbps as nat,
            sample_rate_hz: self.sample_rate_hz as nat,
            bit_depth: self.bit_depth as nat,
        }
    }
}

/// What a file's primary tag says, as far as the catalog cares.
#[derive(Debug, PartialEq, Eq)]
pub struct TagData<'a> {
    pub title: Option<CowStr<'a>>,
    pub artist: Option<CowStr<'a>>,
    pub album: Option<CowStr<'a>>,
    pub year: Option<u32>,
    pub track: Option<u32>,
}

/// What is known of a file's audio stream.
#[derive(Clone, Copy, Debug, PartialEq, Eq)]
pub struct AudioProperties {
    pub audio_bitrate: Option<u32>,
    pub sample_rate: Option<u32>,
    pub bit_depth: Option<u8>,
    pub duration_secs: u64,
}

/// What a file lacks that the catalog cannot do without.
#[derive(Clone, Copy, Debug, PartialEq, Eq, Structural)]
pub enum TagError {
    NoTags,
    NoTitle,
    NoArtist,
    NoBitrate,
    NoSampleRate,
}

/// The sentence shown to the user for each thing a file can lack.
pub open spec fn tag_error_text(error: TagError) -> Seq<char> {
    match error {
        TagError::NoTags => "failed to obtain tags"@,
        TagError::NoTitle => "failed to obtain title tag"@,
        TagError::NoArtist => "failed to obtain artist tag"@,
        TagError::NoBitrate => "failed to obtain bitrate kbps"@,
        TagError::NoSampleRate => "failed to obtain sample rate"@,
    }
}

impl TagError {
    /// The sentence shown to the user for this error.
    pub fn message(&self) -> (text: String)
        ensures
            text@ == tag_error_text(*self),
    {
        match self {
            TagError::NoTags => String::from_str("failed to obtain tags"),
            TagError::NoTitle => String::from_str("failed to obtain title tag"),
            TagError::NoArtist => String::from_str("failed to obtain artist tag"),
            TagError::NoBitrate => String::from_str("failed to obtain bitrate kbps"),
            TagError::NoSampleRate => String::from_str("failed to obtain sample rate"),
        }
    }
}

/// Whether files with the extension `ext` are scanned: `mp3`, `flac`, `ogg`
/// and `m4a` are, in exactly this spelling.
pub open spec fn music_extension(ext: Seq<char>) -> bool {
    ext == "mp3"@ || ext == "flac"@ || ext == "ogg"@ || ext == "m4a"@
}

/// Whether files with the extension `ext` are scanned.
pub fn is_music_extension(ext: &str) -> (music: bool)
    ensures
        music == music_extension(ext@),
{
    let ext = String::from_str(ext);
    ext == String::from_str("mp3") || ext == String::from_str("flac") || ext == String::from_str(
        "ogg",
    ) || ext == String::from_str("m4a")
}

/// The artist's name as the catalog spells it: one artist is filed in
/// lower case whatever the tag says.
pub open spec fn catalog_artist(artist: Seq<char>) -> Seq<char> {
    if artist == "Deadmau5"@ {
        "deadmau5"@
    } else {
        artist
    }
}

/// What goes into the catalog for the file at `path`, or what the file
/// lacks. Tags, title, artist, bitrate and sample rate must be there, and
/// the first of them that is missing, in this order, is reported. A missing
/// album is filed as empty, and a missing year, track number or bit depth
/// as 0.
pub open spec fn catalog_entry(
    tag: Option<TagData<'_>>,
    properties: AudioProperties,
    path: Seq<char>,
) -> Result<InsertSongView, TagError> {
    if tag is None {
        Err(TagError::NoTags)
    } else if tag->0.title is None {
        Err(TagError::NoTitle)
    } else if tag->0.artist is None {
        Err(TagError::NoArtist)
    } else if properties.audio_bitrate is None {
        Err(TagError::NoBitrate)
    } else if properties.sample_rate is None {
        Err(TagError::NoSampleRate)
    } else {
        Ok(
            InsertSongView {
                path,
                title: tag->0.title->0@,
                artist: catalog_artist(tag->0.artist->0@),
                track: match tag->0.track {
                    Some(number) => number as nat,
                    None => 0,
                },
                album: match tag->0.album {
                    Some(album) => album@,
                    None => Seq::empty(),
                },
                year: match tag->0.year {
                    Some(year) => year as nat,
                    None => 0,
                },
                duration: properties.duration_secs as nat,
                bitrate_kbps: properties.audio_bitrate->0 as nat,
                sample_rate_hz: properties.sample_rate->0 as nat,
                bit_depth: match properties.bit_depth {
                    Some(depth) => depth as nat,
                    None => 0,
                },
            },
        )
    }
}

fn text_of<'b>(text: &'b CowStr<'_>) -> (s: &'b str)
    ensures
        s@ == text@,
{
    match text {
        Cow::Borrowed(borrowed) => borrowed,
        Cow::Owned(owned) => owned.as_str(),
    }
}

/// Puts together what goes into the catalog for the file at `path`.
pub fn song_from_tags<'a>(
    tag: Option<TagData<'a>>,
    properties: AudioProperties,
    path: CowStr<'a>,
) -> (entry: Result<InsertSong<'a>, TagError>)
    ensures
        match entry {
            Ok(song) => catalog_entry(tag, properties, path@) == Ok::<InsertSongView, TagError>(
                song@,
            ),
            Err(error) => catalog_entry(tag, properties, path@) == Err::<InsertSongView, TagError>(
                error,
            ),
        },
{
    let tag = match tag {
        Some(tag) => tag,
        None => return Err(TagError::NoTags),
    };
    let title = match tag.title {
        Some(title) => title,
        None => return Err(TagError::NoTitle),
    };
    let artist = match tag.artist {
        Some(artist) => artist,
        None => return Err(TagError::NoArtist),
    };
    let artist = if String::from_str(text_of(&artist)) == String::from_str("Deadmau5") {
        Cow::Owned(String::from_str("deadmau5"))
    } else {
        artist
    };
    let album = match tag.album {
        Some(album) => album,
        None => {
            proof {
                reveal_strlit("");
                assert(""@ =~= Seq::<char>::empty());
            }
            Cow::Borrowed("")
        },
    };
    let year = match tag.year {
        Some(year) => year,
        None => 0,
    };
    let track = match tag.track {
        Some(track) => track,
        None => 0,
    };
    let bitrate_kbps = match properties.audio_bitrate {
        Some(bitrate) => bitrate,
        None => return Err(TagError::NoBitrate),
    };
    let sample_rate_hz = match properties.sample_rate {
        Some(rate) => rate,
        None => return Err(TagError::NoSampleRate),
    };
    let bit_depth = match properties.bit_depth {
        Some(depth) => depth,
        None => 0,
    };
    Ok(
        InsertSong {
            path,
            title,
            artist,
            track,
            album,
            year,
            duration_sec: properties.duration_secs,
            bit_depth,
            bitrate_kbps,
            sample_rate_hz,
        },
    )
}

} // verus!
