use audio_burner::shell::{
    handle_command, parse_line, playlist_print, print_tracks, track_row, Command, CommandError,
    HELP_STR, PLAYLIST_FOOTER, TRACKS_HEADER,
};
use audio_burner::song::Song;

fn parts(words: &[&str]) -> Vec<String> {
    words.iter().map(|w| w.to_string()).collect()
}

fn song() -> Song {
    Song {
        id: 17,
        path: String::from("/music/floyd/time.flac"),
        title: String::from("Time"),
        artist: String::from("Pink Floyd"),
        album: String::from("The Dark Side of the Moon"),
        track: 4,
        year: 1973,
        duration_sec: 413,
    }
}

#[test]
fn quit_and_exit_leave_the_shell() {
    assert_eq!(handle_command("quit", &[]), Ok(Command::Quit));
    assert_eq!(handle_command("exit", &[]), Ok(Command::Quit));
    assert_eq!(handle_command("quit", &parts(&["now"])), Ok(Command::Quit));
}

#[test]
fn help_is_a_command() {
    assert_eq!(handle_command("help", &[]), Ok(Command::Help));
}

#[test]
fn playlist_commands() {
    assert_eq!(handle_command("playlist", &[]), Ok(Command::PlaylistList));
    assert_eq!(handle_command("playlist", &parts(&["list"])), Ok(Command::PlaylistList));
    assert_eq!(handle_command("playlist", &parts(&["clear"])), Ok(Command::PlaylistClear));
    assert_eq!(handle_command("playlist", &parts(&["burn"])), Ok(Command::PlaylistBurn));
    assert_eq!(
        handle_command("playlist", &parts(&["add", "12"])),
        Ok(Command::PlaylistAdd { id: 12 })
    );
    assert_eq!(
        handle_command("playlist", &parts(&["add", "-3", "ignored"])),
        Ok(Command::PlaylistAdd { id: -3 })
    );
}

#[test]
fn playlist_add_needs_an_identifier() {
    assert_eq!(handle_command("playlist", &parts(&["add"])), Err(CommandError::MissingId));
    assert_eq!(
        handle_command("playlist", &parts(&["add", "twelve"])),
        Err(CommandError::InvalidId)
    );
    assert_eq!(
        handle_command("playlist", &parts(&["add", "9223372036854775808"])),
        Err(CommandError::InvalidId)
    );
}

#[test]
fn playlist_does_not_know_every_word() {
    assert_eq!(
        handle_command("playlist", &parts(&["limit"])),
        Err(CommandError::UnknownPlaylistCommand { word: String::from("limit") })
    );
    assert_eq!(
        handle_command("playlist", &parts(&["ADD", "1"])),
        Err(CommandError::UnknownPlaylistCommand { word: String::from("ADD") })
    );
}

#[test]
fn search_takes_the_rest_of_the_line() {
    assert_eq!(
        handle_command("search", &parts(&["pink", "floyd"])),
        Ok(Command::Search { terms: String::from("pink floyd") })
    );
    assert_eq!(handle_command("search", &[]), Ok(Command::Search { terms: String::new() }));
}

#[test]
fn artist_list_with_and_without_an_artist() {
    assert_eq!(handle_command("artist-list", &[]), Ok(Command::ArtistList));
    assert_eq!(
        handle_command("artist-list", &parts(&["The", "Who"])),
        Ok(Command::ArtistTracks { artist: String::from("The Who") })
    );
}

#[test]
fn album_list_needs_an_album() {
    assert_eq!(handle_command("album-list", &[]), Err(CommandError::MissingAlbum));
    assert_eq!(
        handle_command("album-list", &parts(&["Abbey", "Road"])),
        Ok(Command::AlbumTracks { album: String::from("Abbey Road") })
    );
}

#[test]
fn unknown_words_are_no_commands() {
    assert_eq!(handle_command("burn", &[]), Err(CommandError::UnknownCommand));
    assert_eq!(handle_command("Quit", &[]), Err(CommandError::UnknownCommand));
    assert_eq!(handle_command("", &[]), Err(CommandError::UnknownCommand));
}

#[test]
fn lines_are_read_as_commands() {
    assert_eq!(parse_line(""), None);
    assert_eq!(parse_line("   \n"), None);
    assert_eq!(parse_line("quit\n"), Some(Ok(Command::Quit)));
    assert_eq!(parse_line("  playlist   add  7 \n"), Some(Ok(Command::PlaylistAdd { id: 7 })));
    assert_eq!(
        parse_line("search   dark   side"),
        Some(Ok(Command::Search { terms: String::from("dark side") }))
    );
    assert_eq!(parse_line("album-list"), Some(Err(CommandError::MissingAlbum)));
    assert_eq!(parse_line("nonsense here"), Some(Err(CommandError::UnknownCommand)));
}

#[test]
fn command_errors_in_words() {
    assert_eq!(CommandError::MissingId.message(), "expected an integer ID to be provided");
    assert_eq!(CommandError::InvalidId.message(), "failed to parse ID as integer");
    assert_eq!(
        CommandError::UnknownPlaylistCommand { word: String::from("limit") }.message(),
        "unknown playlist command\"limit\": expected one of add / list / clear / burn"
    );
    assert_eq!(CommandError::MissingAlbum.message(), "need an album to list");
    assert_eq!(
        CommandError::UnknownCommand.message(),
        format!("Unknown command\n{}\n", HELP_STR)
    );
}

#[test]
fn help_lists_the_commands() {
    assert!(HELP_STR.starts_with("\nCommand:\n  playlist  "));
    assert!(HELP_STR.ends_with("full text search\n"));
    assert_eq!(HELP_STR.lines().count(), 10);
}

#[test]
fn track_row_has_eight_columns() {
    assert_eq!(
        track_row(&song()),
        "17\tPink Floyd\tTime\tThe Dark Side of the Moon\t4\tflac\t1973\t6m 53s"
    );
}

#[test]
fn track_row_fills_missing_album_and_number_with_tabs() {
    let mut single = song();
    single.album = String::new();
    single.track = 0;
    single.path = String::from("noext");
    assert_eq!(track_row(&single), "17\tPink Floyd\tTime\t\t\t\t\tunknown\t1973\t6m 53s");
}

#[test]
fn track_listing_begins_with_the_header() {
    assert_eq!(TRACKS_HEADER, "ID\tArtist\tTitle\tAlbum\tTrack Number\tFormat\tYear\tLength");
    assert_eq!(print_tracks(&[]), vec![String::from(TRACKS_HEADER)]);
    let lines = print_tracks(&[song(), song()]);
    assert_eq!(lines.len(), 3);
    assert_eq!(lines[0], TRACKS_HEADER);
    assert_eq!(lines[1], track_row(&song()));
    assert_eq!(lines[2], track_row(&song()));
}

#[test]
fn playlist_listing_has_title_and_footer() {
    let lines = playlist_print(&[song(), song()]);
    assert_eq!(
        lines,
        vec![
            String::from("\n--- Current Playlist (2 Tracks, 13m 46s Total) ---"),
            String::from(TRACKS_HEADER),
            track_row(&song()),
            track_row(&song()),
            String::from(PLAYLIST_FOOTER),
        ]
    );
    assert_eq!(PLAYLIST_FOOTER, "----------------------------------------------------\n");
    assert_eq!(
        playlist_print(&[])[0],
        "\n--- Current Playlist (0 Tracks, 0s Total) ---"
    );
}
