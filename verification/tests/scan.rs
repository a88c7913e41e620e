use audio_burner::mode::{basic_mode, usage, Mode, ModeError};
use std::borrow::Cow;
use audio_burner::scan::{
    is_music_extension, song_from_tags, AudioProperties, InsertSong, TagData, TagError,
};

fn args(words: &[&str]) -> Vec<String> {
    words.iter().map(|w| w.to_string()).collect()
}

fn tag() -> TagData<'static> {
    TagData {
        title: Some(Cow::Borrowed("Strobe")),
        artist: Some(Cow::Borrowed("Deadmau5")),
        album: Some(Cow::Owned(String::from("For Lack of a Better Name"))),
        year: Some(2009),
        track: Some(10),
    }
}

fn properties() -> AudioProperties {
    AudioProperties {
        audio_bitrate: Some(320),
        sample_rate: Some(44100),
        bit_depth: Some(16),
        duration_secs: 637,
    }
}

#[test]
fn four_extensions_are_music() {
    for ext in ["mp3", "flac", "ogg", "m4a"] {
        assert!(is_music_extension(ext));
    }
    for ext in ["", "wav", "MP3", "Flac", "mp4", "mp3 ", "jpg", "m4", "oggg"] {
        assert!(!is_music_extension(ext), "{:?}", ext);
    }
}

#[test]
fn catalog_entry_from_full_tags() {
    assert_eq!(
        song_from_tags(Some(tag()), properties(), Cow::Borrowed("/m/strobe.flac")),
        Ok(InsertSong {
            path: Cow::Borrowed("/m/strobe.flac"),
            title: Cow::Borrowed("Strobe"),
            artist: Cow::Borrowed("deadmau5"),
            track: 10,
            album: Cow::Borrowed("For Lack of a Better Name"),
            year: 2009,
            duration_sec: 637,
            bitrate_kbps: 320,
            sample_rate_hz: 44100,
            bit_depth: 16,
        })
    );
}

#[test]
fn other_artists_keep_their_spelling() {
    let mut other = tag();
    other.artist = Some(Cow::Borrowed("Daft Punk"));
    let entry = song_from_tags(Some(other), properties(), Cow::Borrowed("p")).unwrap();
    assert_eq!(entry.artist, "Daft Punk");
    let mut lower = tag();
    lower.artist = Some(Cow::Borrowed("deadmau5"));
    assert_eq!(song_from_tags(Some(lower), properties(), Cow::Borrowed("p")).unwrap().artist, "deadmau5");
    let mut upper = tag();
    upper.artist = Some(Cow::Owned(String::from("DEADMAU5")));
    assert_eq!(song_from_tags(Some(upper), properties(), Cow::Borrowed("p")).unwrap().artist, "DEADMAU5");
}

#[test]
fn missing_extras_get_defaults() {
    let bare = TagData {
        title: Some(Cow::Borrowed("T")),
        artist: Some(Cow::Borrowed("A")),
        album: None,
        year: None,
        track: None,
    };
    let props = AudioProperties { bit_depth: None, ..properties() };
    let entry = song_from_tags(Some(bare), props, Cow::Borrowed("p")).unwrap();
    assert_eq!(entry.album, "");
    assert_eq!(entry.year, 0);
    assert_eq!(entry.track, 0);
    assert_eq!(entry.bit_depth, 0);
}

#[test]
fn what_the_catalog_needs_is_checked_in_order() {
    let nothing = AudioProperties {
        audio_bitrate: None,
        sample_rate: None,
        bit_depth: None,
        duration_secs: 0,
    };
    assert_eq!(song_from_tags(None, nothing, Cow::Borrowed("p")), Err(TagError::NoTags));
    let empty = TagData { title: None, artist: None, album: None, year: None, track: None };
    assert_eq!(song_from_tags(Some(empty), nothing, Cow::Borrowed("p")), Err(TagError::NoTitle));
    let titled = TagData { artist: None, ..tag() };
    assert_eq!(song_from_tags(Some(titled), nothing, Cow::Borrowed("p")), Err(TagError::NoArtist));
    assert_eq!(song_from_tags(Some(tag()), nothing, Cow::Borrowed("p")), Err(TagError::NoBitrate));
    let rated = AudioProperties { audio_bitrate: Some(128), ..nothing };
    assert_eq!(song_from_tags(Some(tag()), rated, Cow::Borrowed("p")), Err(TagError::NoSampleRate));
}

#[test]
fn tag_errors_in_words() {
    assert_eq!(TagError::NoTags.message(), "failed to obtain tags");
    assert_eq!(TagError::NoTitle.message(), "failed to obtain title tag");
    assert_eq!(TagError::NoArtist.message(), "failed to obtain artist tag");
    assert_eq!(TagError::NoBitrate.message(), "failed to obtain bitrate kbps");
    assert_eq!(TagError::NoSampleRate.message(), "failed to obtain sample rate");
}

#[test]
fn modes_by_first_argument() {
    assert_eq!(basic_mode(&args(&["burner", "tui"])), Ok(Mode::Tui));
    assert_eq!(basic_mode(&args(&["burner", "shell"])), Ok(Mode::Shell));
    assert_eq!(basic_mode(&args(&["burner", "tui", "extra"])), Ok(Mode::Tui));
    assert_eq!(
        basic_mode(&args(&["burner", "scan", "/music"])),
        Ok(Mode::Scan { music_dir: String::from("/music") })
    );
}

#[test]
fn scan_needs_a_directory() {
    assert_eq!(basic_mode(&args(&["burner", "scan"])), Err(ModeError::MissingMusicDir));
}

#[test]
fn anything_else_asks_for_the_usage_line() {
    assert_eq!(
        basic_mode(&args(&["burner"])),
        Ok(Mode::Usage { program: String::from("burner") })
    );
    assert_eq!(
        basic_mode(&args(&["./b", "burn"])),
        Ok(Mode::Usage { program: String::from("./b") })
    );
    assert_eq!(basic_mode(&args(&["b", "TUI"])), Ok(Mode::Usage { program: String::from("b") }));
    assert_eq!(basic_mode(&[]), Ok(Mode::NoProgram));
}

#[test]
fn usage_line_names_the_program() {
    assert_eq!(
        usage("burner"),
        "Usage: burner <tui> | <shell> | <scan> <path_to_music_library>"
    );
}
