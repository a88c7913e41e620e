//! The command shell: what a typed line asks for, and how tracks are listed.

use vstd::prelude::*;
use vstd::slice::slice_subrange;
use vstd::string::{StrSliceExecFns, StringExecFns};
use crate::decimal::{
    decimal, number_of, parse_i64, push_decimal, push_signed_decimal, signed_decimal,
};
use crate::playlist::{playlist_duration_secs, song_views, total_duration};
use crate::song::{format_of, Song, SongView};
use crate::timefmt::{duration_text, humantime_secs};
use crate::words::{join_strings, joined, split_whitespace, string_views, words_of};

verus! {

/// The commands of the shell, as `help` lists them.
pub const HELP_STR: &'static str = "
Command:
  playlist                               - show current playlist
  playlist limit                         - show limit of playlist length
  playlist add <ID>                      - add song by DB ID (transcodes and checks capacity)
  playlist burn                          - burn your playlist to the CD
  playlist clear                         - clears the existing playlist
  artist-list <artist>                   - shows all tracks made by a given artist, or show all artists if none is supplied
  album-list <album>                     - shows all tracks that belong to a given album
  search <query>                         - search against artist / album track tags using full text search
";

/// What a line asks the shell to do.
#[derive(Debug, PartialEq, Eq)]
pub enum Command {
    /// Leave the shell.
    Quit,
    /// Show the list of commands.
    Help,
    /// Show the playlist.
    PlaylistList,
    /// Add the catalog track `id` to the playlist.
    PlaylistAdd { id: i64 },
    /// Empty the playlist.
    PlaylistClear,
    /// Burn the playlist.
    PlaylistBurn,
    /// Search the catalog for `terms`.
    Search { terms: String },
    /// List every artist of the catalog.
    ArtistList,
    /// List the tracks of `artist`.
    ArtistTracks { artist: String },
    /// List the tracks of `album`.
    AlbumTracks { album: String },
}

/// The mathematical value of a [`Command`].
pub enum CommandView {
    Quit,
    Help,
    PlaylistList,
    PlaylistAdd { id: int },
    PlaylistClear,
    PlaylistBurn,
    Search { terms: Seq<char> },
    ArtistList,
    ArtistTracks { artist: Seq<char> },
    AlbumTracks { album: Seq<char> },
}

impl View for Command {
    type V = CommandView;

    open spec fn view(&self) -> CommandView {
        match self {
            Command::Quit => CommandView::Quit,
            Command::Help => CommandView::Help,
            Command::PlaylistList => CommandView::PlaylistList,
            Command::PlaylistAdd { id } => CommandView::PlaylistAdd { id: *id as int },
            Command::PlaylistClear => CommandView::PlaylistClear,
            Command::PlaylistBurn => CommandView::PlaylistBurn,
            Command::Search { terms } => CommandView::Search { terms: terms@ },
            Command::ArtistList => CommandView::ArtistList,
            Command::ArtistTracks { artist } => CommandView::ArtistTracks { artist: artist@ },
            Command::AlbumTracks { album } => CommandView::AlbumTracks { album: album@ },
        }
    }
}

/// Why a line is not a command.
#[derive(Debug, PartialEq, Eq)]
pub enum CommandError {
    /// `playlist add` without an identifier.
    MissingId,
    /// `playlist add` with something that is not a whole number, or with
    /// one too large for an identifier.
    InvalidId,
    /// `playlist` followed by a word it does not know.
    UnknownPlaylistCommand { word: String },
    /// `album-list` without an album.
    MissingAlbum,
    /// A first word that is no command.
    UnknownCommand,
}

/// The mathematical value of a [`CommandError`].
pub enum CommandErrorView {
    MissingId,
    InvalidId,
    UnknownPlaylistCommand { word: Seq<char> },
    MissingAlbum,
    UnknownCommand,
}

impl View for CommandError {
    type V = CommandErrorView;

    open spec fn view(&self) -> CommandErrorView {
        match self {
            CommandError::MissingId => CommandErrorView::MissingId,
            CommandError::InvalidId => CommandErrorView::InvalidId,
            CommandError::UnknownPlaylistCommand { word } => {
                CommandErrorView::UnknownPlaylistCommand { word: word@ }
            },
            CommandError::MissingAlbum => CommandErrorView::MissingAlbum,
            CommandError::UnknownCommand => CommandErrorView::UnknownCommand,
        }
    }
}

/// The sentence shown to the user for each rejected line.
pub open spec fn command_error_text(error: CommandErrorView) -> Seq<char> {
    match error {
        CommandErrorView::MissingId => "expected an integer ID to be provided"@,
        CommandErrorView::InvalidId => "failed to parse ID as integer"@,
        CommandErrorView::UnknownPlaylistCommand { word } => "unknown playlist command\""@ + word
            + "\": expected one of add / list / clear / burn"@,
        CommandErrorView::MissingAlbum => "need an album to list"@,
        CommandErrorView::UnknownCommand => "Unknown command\n"@ + HELP_STR@ + "\n"@,
    }
}

impl CommandError {
    /// The sentence shown to the user for this rejected line.
    pub fn message(&self) -> (text: String)
        ensures
            text@ == command_error_text(self@),
    {
        match self {
            CommandError::MissingId => String::from_str("expected an integer ID to be provided"),
            CommandError::InvalidId => String::from_str("failed to parse ID as integer"),
            CommandError::UnknownPlaylistCommand { word } => {
                let mut text = String::from_str("unknown playlist command\"");
                text.append(word.as_str());
                text.append("\": expected one of add / list / clear / burn");
                text
            },
            CommandError::MissingAlbum => String::from_str("need an album to list"),
            CommandError::UnknownCommand => {
                let mut text = String::from_str("Unknown command\n");
                text.append(HELP_STR);
                text.append("\n");
                text
            },
        }
    }
}

/// The identifier that `word` writes, if it writes one that fits.
pub open spec fn id_of(word: Seq<char>) -> Option<int> {
    match number_of(word) {
        Some(id) => if i64::MIN <= id <= i64::MAX {
            Some(id)
        } else {
            None
        },
        None => None,
    }
}

/// What `playlist` followed by `parts` asks for.
pub open spec fn playlist_command_of(parts: Seq<Seq<char>>) -> Result<
    CommandView,
    CommandErrorView,
> {
    if parts.len() == 0 || parts[0] == "list"@ {
        Ok(CommandView::PlaylistList)
    } else if parts[0] == "add"@ {
        if parts.len() < 2 {
            Err(CommandErrorView::MissingId)
        } else {
            match id_of(parts[1]) {
                Some(id) => Ok(CommandView::PlaylistAdd { id }),
                None => Err(CommandErrorView::InvalidId),
            }
        }
    } else if parts[0] == "clear"@ {
        Ok(CommandView::PlaylistClear)
    } else if parts[0] == "burn"@ {
        Ok(CommandView::PlaylistBurn)
    } else {
        Err(CommandErrorView::UnknownPlaylistCommand { word: parts[0] })
    }
}

/// What the word `command` followed by the words `parts` asks for. Words
/// after a complete command are not looked at; the words of a search, an
/// artist or an album are put together again with single blanks.
pub open spec fn command_of(command: Seq<char>, parts: Seq<Seq<char>>) -> Result<
    CommandView,
    CommandErrorView,
> {
    if command == "quit"@ || command == "exit"@ {
        Ok(CommandView::Quit)
    } else if command == "help"@ {
        Ok(CommandView::Help)
    } else if command == "playlist"@ {
        playlist_command_of(parts)
    } else if command == "search"@ {
        Ok(CommandView::Search { terms: joined(parts) })
    } else if command == "artist-list"@ {
        if parts.len() == 0 {
            Ok(CommandView::ArtistList)
        } else {
            Ok(CommandView::ArtistTracks { artist: joined(parts) })
        }
    } else if command == "album-list"@ {
        if parts.len() == 0 {
            Err(CommandErrorView::MissingAlbum)
        } else {
            Ok(CommandView::AlbumTracks { album: joined(parts) })
        }
    } else {
        Err(CommandErrorView::UnknownCommand)
    }
}

/// The value of a reading: of the command, or of the reason there is none.
pub open spec fn reading_view(reading: Result<Command, CommandError>) -> Result<
    CommandView,
    CommandErrorView,
> {
    match reading {
        Ok(command) => Ok(command@),
        Err(error) => Err(error@),
    }
}

fn same_text(a: &str, b: &str) -> (same: bool)
    ensures
        same == (a@ == b@),
{
    String::from_str(a) == String::from_str(b)
}

fn playlist_command(parts: &[String]) -> (reading: Result<Command, CommandError>)
    ensures
        reading_view(reading) == playlist_command_of(string_views(parts@)),
{
    if parts.len() == 0 {
        return Ok(Command::PlaylistList);
    }
    let word = parts[0].as_str();
    if same_text(word, "list") {
        Ok(Command::PlaylistList)
    } else if same_text(word, "add") {
        if parts.len() < 2 {
            Err(CommandError::MissingId)
        } else {
            match parse_i64(parts[1].as_str()) {
                Some(id) => Ok(Command::PlaylistAdd { id }),
                None => Err(CommandError::InvalidId),
            }
        }
    } else if same_text(word, "clear") {
        Ok(Command::PlaylistClear)
    } else if same_text(word, "burn") {
        Ok(Command::PlaylistBurn)
    } else {
        Err(CommandError::UnknownPlaylistCommand { word: String::from_str(word) })
    }
}

/// Reads the word `command` and the words `parts` after it as a command.
pub fn handle_command(command: &str, parts: &[String]) -> (reading: Result<Command, CommandError>)
    ensures
        reading_view(reading) == command_of(command@, string_views(parts@)),
{
    if same_text(command, "quit") || same_text(command, "exit") {
        Ok(Command::Quit)
    } else if same_text(command, "help") {
        Ok(Command::Help)
    } else if same_text(command, "playlist") {
        playlist_command(parts)
    } else if same_text(command, "search") {
        Ok(Command::Search { terms: join_strings(parts) })
    } else if same_text(command, "artist-list") {
        if parts.len() == 0 {
            Ok(Command::ArtistList)
        } else {
            Ok(Command::ArtistTracks { artist: join_strings(parts) })
        }
    } else if same_text(command, "album-list") {
        if parts.len() == 0 {
            Err(CommandError::MissingAlbum)
        } else {
            Ok(Command::AlbumTracks { album: join_strings(parts) })
        }
    } else {
        Err(CommandError::UnknownCommand)
    }
}

/// What `line` asks for: nothing when it holds no word, and otherwise what
/// its first word and the words after it ask for.
pub open spec fn line_command_of(line: Seq<char>) -> Option<Result<CommandView, CommandErrorView>> {
    let words = words_of(line);
    if words.len() == 0 {
        None
    } else {
        Some(command_of(words[0], words.skip(1)))
    }
}

/// Reads `line` as a command. A line without a word asks for nothing.
pub fn parse_line(line: &str) -> (reading: Option<Result<Command, CommandError>>)
    ensures
        match reading {
            Some(command) => line_command_of(line@) == Some(reading_view(command)),
            None => line_command_of(line@) is None,
        },
{
    let words = split_whitespace(line);
    if words.len() == 0 {
        return None;
    }
    let parts = slice_subrange(words.as_slice(), 1, words.len());
    assert(string_views(parts@) == words_of(line@).skip(1));
    Some(handle_command(words[0].as_str(), parts))
}

/// The first line of every track listing.
pub const TRACKS_HEADER: &'static str =
    "ID\tArtist\tTitle\tAlbum\tTrack Number\tFormat\tYear\tLength";

/// The last line of the playlist listing.
pub const PLAYLIST_FOOTER: &'static str = "----------------------------------------------------\n";

/// One track as a line of the listing: identifier, artist, title, album,
/// track number, format, year and length, with tabs between them. A track
/// without an album or a track number gets a tab in its place.
pub open spec fn track_row_text(song: SongView) -> Seq<char> {
    let album = if song.album.len() == 0 {
        "\t"@
    } else {
        song.album
    };
    let number = if song.track == 0 {
        "\t"@
    } else {
        signed_decimal(song.track)
    };
    signed_decimal(song.id) + "\t"@ + song.artist + "\t"@ + song.title + "\t"@ + album + "\t"@
        + number + "\t"@ + format_of(song.path) + "\t"@ + decimal(song.year) + "\t"@
        + duration_text(song.duration as u64)
}

/// One track as a line of the listing.
pub fn track_row(song: &Song) -> (row: String)
    ensures
        row@ == track_row_text(song@),
{
    let mut row = String::new();
    push_signed_decimal(&mut row, song.id);
    row.append("\t");
    row.append(song.artist.as_str());
    row.append("\t");
    row.append(song.title.as_str());
    row.append("\t");
    if song.album.as_str().unicode_len() == 0 {
        row.append("\t");
    } else {
        row.append(song.album.as_str());
    }
    row.append("\t");
    if song.track == 0 {
        row.append("\t");
    } else {
        push_signed_decimal(&mut row, song.track);
    }
    row.append("\t");
    row.append(song.format());
    row.append("\t");
    push_decimal(&mut row, song.year as u64);
    row.append("\t");
    let length = humantime_secs(song.duration_sec);
    row.append(length.as_str());
    assert(row@ =~= track_row_text(song@));
    row
}

/// A track listing: the header line, then one line for each track.
pub open spec fn track_lines(songs: Seq<SongView>) -> Seq<Seq<char>> {
    seq![TRACKS_HEADER@] + Seq::new(songs.len(), |i: int| track_row_text(songs[i]))
}

/// The lines of a track listing, to be printed in order.
pub fn print_tracks(tracks: &[Song]) -> (lines: Vec<String>)
    ensures
        string_views(lines@) == track_lines(song_views(tracks@)),
{
    let mut lines: Vec<String> = Vec::new();
    lines.push(String::from_str(TRACKS_HEADER));
    let mut i: usize = 0;
    while i < tracks.len()
        invariant
            i <= tracks@.len(),
            lines@.len() == i + 1,
            lines@[0]@ == TRACKS_HEADER@,
            forall|k: int| 0 <= k < i ==> lines@[k + 1]@ == track_row_text(tracks@[k]@),
        decreases tracks@.len() - i,
    {
        lines.push(track_row(&tracks[i]));
        i = i + 1;
    }
    assert(string_views(lines@) =~= track_lines(song_views(tracks@)));
    lines
}

/// The first line of the playlist listing: how many tracks, how long together.
pub open spec fn playlist_title(songs: Seq<SongView>) -> Seq<char> {
    "\n--- Current Playlist ("@ + decimal(songs.len()) + " Tracks, "@ + duration_text(
        total_duration(songs) as u64,
    ) + " Total) ---"@
}

/// The playlist listing: its title, the track listing, the footer.
pub open spec fn playlist_lines(songs: Seq<SongView>) -> Seq<Seq<char>> {
    seq![playlist_title(songs)] + track_lines(songs) + seq![PLAYLIST_FOOTER@]
}

/// The lines of the playlist listing, to be printed in order.
pub fn playlist_print(playlist: &[Song]) -> (lines: Vec<String>)
    requires
        total_duration(song_views(playlist@)) <= u64::MAX,
    ensures
        string_views(lines@) == playlist_lines(song_views(playlist@)),
{
    let mut title = String::from_str("\n--- Current Playlist (");
    push_decimal(&mut title, playlist.len() as u64);
    title.append(" Tracks, ");
    let length = humantime_secs(playlist_duration_secs(playlist));
    title.append(length.as_str());
    title.append(" Total) ---");
    assert(title@ =~= playlist_title(song_views(playlist@)));
    let mut lines: Vec<String> = Vec::new();
    lines.push(title);
    let mut tracks = print_tracks(playlist);
    let ghost listing = string_views(tracks@);
    lines.append(&mut tracks);
    lines.push(String::from_str(PLAYLIST_FOOTER));
    assert(string_views(lines@) =~= playlist_lines(song_views(playlist@)));
    lines
}


} // verus!
