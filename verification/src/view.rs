//! The interactive view's bookkeeping: which row is selected, what a key
//! means in which pane, what stands in a table row, how far the log scrolls.
//!
//! Drawing and reading keys is the caller's business. The view has three
//! panes side by side (artists, the tracks of the selected artist, the
//! playlist) and a burn screen that takes over while a job runs.

use vstd::prelude::*;
use vstd::string::StringExecFns;
use vstd::utf8::encode_utf8;
use crate::decimal::{decimal, push_decimal};
use crate::words::string_views;
use crate::song::{Song, SongView};
use crate::timefmt::{duration_text, humantime_secs};

verus! {

/// The row after `selected` in a list of `len` rows, going round to the
/// first after the last. With nothing selected it is the first row.
pub open spec fn next_index(selected: Option<usize>, len: nat) -> nat {
    match selected {
        None => 0,
        Some(i) => if i + 1 == len {
            0
        } else {
            (i + 1) as nat
        },
    }
}

/// The row before `selected` in a list of `len` rows, going round to the
/// last before the first. With nothing selected it is the first row.
pub open spec fn prev_index(selected: Option<usize>, len: nat) -> nat {
    match selected {
        None => 0,
        Some(i) => if i == 0 {
            (len - 1) as nat
        } else {
            (i - 1) as nat
        },
    }
}

/// The selection of a table: a row, or none yet.
#[derive(Clone, Copy, Debug, PartialEq, Eq, Structural)]
pub struct WrappingTableState {
    pub selected: Option<usize>,
}

impl WrappingTableState {
    /// A table with no row selected.
    pub fn new() -> (state: Self)
        ensures
            state.selected is None,
    {
        WrappingTableState { selected: None }
    }

    /// Moves the selection one row down in `items`, round to the top after
    /// the last row, and gives the row now selected.
    pub fn next<T>(&mut self, items: &[T]) -> (row: usize)
        requires
            old(self).selected is Some ==> old(self).selected->0 < usize::MAX,
        ensures
            row == next_index(old(self).selected, items@.len()),
            final(self).selected == Some(row),
    {
        let row = match self.selected {
            None => 0,
            Some(i) => {
                let i = i + 1;
                if i == items.len() {
                    0
                } else {
                    i
                }
            },
        };
        self.selected = Some(row);
        row
    }

    /// Moves the selection one row up in `items`, round to the bottom before
    /// the first row, and gives the row now selected.
    pub fn prev<T>(&mut self, items: &[T]) -> (row: usize)
        requires
            old(self).selected == Some(0usize) ==> items@.len() > 0,
        ensures
            row == prev_index(old(self).selected, items@.len()),
            final(self).selected == Some(row),
    {
        let row = match self.selected {
            None => 0,
            Some(i) => {
                if i == 0 {
                    items.len() - 1
                } else {
                    i - 1
                }
            },
        };
        self.selected = Some(row);
        row
    }

    /// The selected row, or the first row when none is selected.
    pub fn selected(&self) -> (row: usize)
        ensures
            row == match self.selected {
                Some(i) => i,
                None => 0,
            },
    {
        match self.selected {
            Some(i) => i,
            None => 0,
        }
    }
}

/// A list of rows with a selection that goes round at both ends.
pub struct WrappingList<T> {
    pub items: Vec<T>,
    pub state: WrappingTableState,
}

impl<T> WrappingList<T> {
    /// Moves the selection one row down and gives the row now selected.
    pub fn next(&mut self) -> (row: usize)
        requires
            old(self).state.selected is Some ==> old(self).state.selected->0 < usize::MAX,
        ensures
            row == next_index(old(self).state.selected, old(self).items@.len()),
            final(self).state.selected == Some(row),
            final(self).items == old(self).items,
    {
        self.state.next(self.items.as_slice())
    }

    /// Moves the selection one row up and gives the row now selected.
    pub fn prev(&mut self) -> (row: usize)
        requires
            old(self).state.selected == Some(0usize) ==> old(self).items@.len() > 0,
        ensures
            row == prev_index(old(self).state.selected, old(self).items@.len()),
            final(self).state.selected == Some(row),
            final(self).items == old(self).items,
    {
        self.state.prev(self.items.as_slice())
    }
}

/// Whether `a` stands before `b` in the order of strings: byte by byte in
/// their UTF-8 encoding, and a string before every one that it begins.
pub open spec fn bytes_before(a: Seq<u8>, b: Seq<u8>) -> bool
    decreases a.len(),
{
    if b.len() == 0 {
        false
    } else if a.len() == 0 {
        true
    } else if a[0] != b[0] {
        a[0] < b[0]
    } else {
        bytes_before(a.skip(1), b.skip(1))
    }
}

/// Whether the text `a` stands before the text `b` in the order of strings.
pub open spec fn text_before(a: Seq<char>, b: Seq<char>) -> bool {
    bytes_before(encode_utf8(a), encode_utf8(b))
}

/// Whether `items` stand in order, equal neighbours allowed.
pub open spec fn in_order(items: Seq<Seq<char>>) -> bool {
    forall|i: int, j: int|
        0 <= i < j < items.len() ==> !text_before(#[trigger] items[j], #[trigger] items[i])
}

/// What does not stand after something that stands before a third stands
/// before the third.
pub proof fn lemma_bytes_before_chain(a: Seq<u8>, b: Seq<u8>, c: Seq<u8>)
    requires
        !bytes_before(b, a),
        bytes_before(b, c),
    ensures
        bytes_before(a, c),
    decreases a.len(),
{
    if a.len() > 0 && b.len() > 0 && a[0] == b[0] && b[0] == c[0] {
        lemma_bytes_before_chain(a.skip(1), b.skip(1), c.skip(1));
    }
}

fn comes_before(a: &str, b: &str) -> (before: bool)
    ensures
        before == text_before(a@, b@),
{
    let x = a.as_bytes();
    let y = b.as_bytes();
    let mut i: usize = 0;
    assert(x@.skip(0) == x@ && y@.skip(0) == y@);
    while i < x.len() && i < y.len()
        invariant
            i <= x@.len(),
            i <= y@.len(),
            x@ == encode_utf8(a@),
            y@ == encode_utf8(b@),
            bytes_before(x@, y@) == bytes_before(x@.skip(i as int), y@.skip(i as int)),
        decreases x@.len() - i,
    {
        proof {
            assert(x@.skip(i as int)[0] == x@[i as int]);
            assert(y@.skip(i as int)[0] == y@[i as int]);
            assert(x@.skip(i as int).skip(1) == x@.skip(i + 1));
            assert(y@.skip(i as int).skip(1) == y@.skip(i + 1));
        }
        if x[i] != y[i] {
            return x[i] < y[i];
        }
        i = i + 1;
    }
    i < y.len()
}

impl WrappingList<String> {
    /// Moves the selection to the first item that does not stand before
    /// `text` in the order of strings, or just past the end where every item
    /// does: in a list that is in order, to the place of `text` or to where
    /// it would go. Gives the row now selected. Of a list that is not in
    /// order only this much holds, that the row is one of the list or the
    /// one just past its end.
    pub fn jump(&mut self, text: &str) -> (row: usize)
        ensures
            row <= old(self).items@.len(),
            final(self).state.selected == Some(row),
            final(self).items == old(self).items,
            in_order(string_views(old(self).items@)) ==> forall|k: int|
                0 <= k < old(self).items@.len() ==> (k < row <==> text_before(
                    #[trigger] string_views(old(self).items@)[k],
                    text@,
                )),
    {
        let ghost items = string_views(self.items@);
        let mut low: usize = 0;
        let mut high: usize = self.items.len();
        while low < high
            invariant
                low <= high <= items.len(),
                string_views(self.items@) == items,
                self.items@.len() == items.len(),
                in_order(items) ==> forall|k: int|
                    0 <= k < low ==> text_before(#[trigger] items[k], text@),
                in_order(items) ==> forall|k: int|
                    high <= k < items.len() ==> !text_before(#[trigger] items[k], text@),
            decreases high - low,
        {
            let middle = low + (high - low) / 2;
            let before = comes_before(self.items[middle].as_str(), text);
            proof {
                let pivot = items[middle as int];
                assert(pivot == self.items@[middle as int]@);
                if in_order(items) {
                    if before {
                        assert forall|k: int| 0 <= k < middle + 1 implies text_before(
                            #[trigger] items[k],
                            text@,
                        ) by {
                            if k < middle {
                                lemma_bytes_before_chain(
                                    encode_utf8(items[k]),
                                    encode_utf8(pivot),
                                    encode_utf8(text@),
                                );
                            }
                        }
                    } else {
                        assert forall|k: int| middle <= k < items.len() implies !text_before(
                            #[trigger] items[k],
                            text@,
                        ) by {
                            if k > middle && text_before(items[k], text@) {
                                lemma_bytes_before_chain(
                                    encode_utf8(pivot),
                                    encode_utf8(items[k]),
                                    encode_utf8(text@),
                                );
                            }
                        }
                    }
                }
            }
            if before {
                low = middle + 1;
            } else {
                high = middle;
            }
        }
        self.state.selected = Some(low);
        low
    }
}

/// A table of rows with a selection that goes round at both ends.
pub struct WrappingTable<T> {
    pub items: Vec<T>,
    pub state: WrappingTableState,
}

impl<T> WrappingTable<T> {
    /// Moves the selection one row down and gives the row now selected.
    pub fn next(&mut self) -> (row: usize)
        requires
            old(self).state.selected is Some ==> old(self).state.selected->0 < usize::MAX,
        ensures
            row == next_index(old(self).state.selected, old(self).items@.len()),
            final(self).state.selected == Some(row),
            final(self).items == old(self).items,
    {
        self.state.next(self.items.as_slice())
    }

    /// Moves the selection one row up and gives the row now selected.
    pub fn prev(&mut self) -> (row: usize)
        requires
            old(self).state.selected == Some(0usize) ==> old(self).items@.len() > 0,
        ensures
            row == prev_index(old(self).state.selected, old(self).items@.len()),
            final(self).state.selected == Some(row),
            final(self).items == old(self).items,
    {
        self.state.prev(self.items.as_slice())
    }
}

/// In a list that is not empty, going down from a row of the list and
/// then up again comes back to that row, and so does up and then down.
pub proof fn law_next_prev_undo(row: usize, len: nat)
    requires
        row < len,
        len <= usize::MAX,
    ensures
        prev_index(Some(next_index(Some(row), len) as usize), len) == row,
        next_index(Some(prev_index(Some(row), len) as usize), len) == row,
        next_index(Some(row), len) < len,
        prev_index(Some(row), len) < len,
{
}

/// The pane that takes the keys.
#[derive(Clone, Copy, Debug, PartialEq, Eq, Structural)]
pub enum ActivePane {
    Artists,
    ArtistTracks,
    Playlist,
}

/// A key as the view tells them apart.
#[derive(Clone, Copy, Debug, PartialEq, Eq, Structural)]
pub enum Key {
    Esc,
    Left,
    Right,
    Up,
    Down,
    Enter,
    Backspace,
    Char(char),
    Other,
}

/// What a key asks the view to do.
#[derive(Clone, Copy, Debug, PartialEq, Eq, Structural)]
pub enum KeyCommand {
    /// Leave the view.
    Quit,
    /// Give the keys to another pane, and select its current row.
    Focus(ActivePane),
    /// Select the artist above and show that artist's tracks.
    PrevArtist,
    /// Select the artist below and show that artist's tracks.
    NextArtist,
    /// Select the artist at the place of this letter's text.
    JumpToArtist(char),
    /// Select the track above.
    PrevTrack,
    /// Select the track below.
    NextTrack,
    /// Put the selected track on the playlist.
    AddTrack,
    /// Select the playlist entry above.
    PrevEntry,
    /// Select the playlist entry below.
    NextEntry,
    /// Take the selected entry off the playlist.
    RemoveEntry,
    /// Empty the playlist.
    ClearPlaylist,
    /// Burn the playlist.
    Burn,
    /// The key means nothing here.
    Nothing,
}

/// What `key` means while `pane` takes the keys.
pub open spec fn key_command_of(pane: ActivePane, key: Key) -> KeyCommand {
    match pane {
        ActivePane::Artists => match key {
            Key::Esc => KeyCommand::Quit,
            Key::Right => KeyCommand::Focus(ActivePane::ArtistTracks),
            Key::Enter => KeyCommand::Focus(ActivePane::ArtistTracks),
            Key::Up => KeyCommand::PrevArtist,
            Key::Down => KeyCommand::NextArtist,
            Key::Char(letter) => KeyCommand::JumpToArtist(letter),
            _ => KeyCommand::Nothing,
        },
        ActivePane::ArtistTracks => match key {
            Key::Left => KeyCommand::Focus(ActivePane::Artists),
            Key::Right => KeyCommand::Focus(ActivePane::Playlist),
            Key::Up => KeyCommand::PrevTrack,
            Key::Down => KeyCommand::NextTrack,
            Key::Enter => KeyCommand::AddTrack,
            _ => KeyCommand::Nothing,
        },
        ActivePane::Playlist => match key {
            Key::Left => KeyCommand::Focus(ActivePane::ArtistTracks),
            Key::Up => KeyCommand::PrevEntry,
            Key::Down => KeyCommand::NextEntry,
            Key::Backspace => KeyCommand::RemoveEntry,
            Key::Char(letter) => if letter == 'C' {
                KeyCommand::ClearPlaylist
            } else if letter == 'B' {
                KeyCommand::Burn
            } else {
                KeyCommand::Nothing
            },
            _ => KeyCommand::Nothing,
        },
    }
}

/// Decides what `key` means while `pane` takes the keys.
pub fn key_command(pane: ActivePane, key: Key) -> (command: KeyCommand)
    ensures
        command == key_command_of(pane, key),
{
    match pane {
        ActivePane::Artists => match key {
            Key::Esc => KeyCommand::Quit,
            Key::Right => KeyCommand::Focus(ActivePane::ArtistTracks),
            Key::Enter => KeyCommand::Focus(ActivePane::ArtistTracks),
            Key::Up => KeyCommand::PrevArtist,
            Key::Down => KeyCommand::NextArtist,
            Key::Char(letter) => KeyCommand::JumpToArtist(letter),
            _ => KeyCommand::Nothing,
        },
        ActivePane::ArtistTracks => match key {
            Key::Left => KeyCommand::Focus(ActivePane::Artists),
            Key::Right => KeyCommand::Focus(ActivePane::Playlist),
            Key::Up => KeyCommand::PrevTrack,
            Key::Down => KeyCommand::NextTrack,
            Key::Enter => KeyCommand::AddTrack,
            _ => KeyCommand::Nothing,
        },
        ActivePane::Playlist => match key {
            Key::Left => KeyCommand::Focus(ActivePane::ArtistTracks),
            Key::Up => KeyCommand::PrevEntry,
            Key::Down => KeyCommand::NextEntry,
            Key::Backspace => KeyCommand::RemoveEntry,
            Key::Char(letter) => {
                if letter == 'C' {
                    KeyCommand::ClearPlaylist
                } else if letter == 'B' {
                    KeyCommand::Burn
                } else {
                    KeyCommand::Nothing
                }
            },
            _ => KeyCommand::Nothing,
        },
    }
}

/// Whether `key` lets go of a finished burn log: only a capital `Q` does.
pub fn is_acknowledgment(key: Key) -> (yes: bool)
    ensures
        yes == (key == Key::Char('Q')),
{
    match key {
        Key::Char(letter) => letter == 'Q',
        _ => false,
    }
}

/// The hints shown at the bottom while `pane` takes the keys.
pub open spec fn help_of(pane: ActivePane) -> Seq<Seq<char>> {
    match pane {
        ActivePane::Artists => seq![
            "(ESC) Quit"@,
            "(→ / Enter) Tracks Tab"@,
            "(↑ / ↓) Navigate Artists"@,
            "Jump To A Letter"@,
        ],
        ActivePane::ArtistTracks => seq![
            "(←) Artists Tab"@,
            "(↑ / ↓) Navigate Tracks"@,
            "(→) Playlist Tab"@,
            "(Enter) Add Track"@,
        ],
        ActivePane::Playlist => seq![
            "(←) Tracks Tab"@,
            "(Backspace) Remove Track"@,
            "(B) Burn Playlist"@,
            "(C) Clear Playlist"@,
        ],
    }
}

/// The hints shown at the bottom while `pane` takes the keys.
pub fn help_for(pane: ActivePane) -> (hints: Vec<String>)
    ensures
        string_views(hints@) == help_of(pane),
{
    let mut hints: Vec<String> = Vec::new();
    match pane {
        ActivePane::Artists => {
            hints.push(String::from_str("(ESC) Quit"));
            hints.push(String::from_str("(→ / Enter) Tracks Tab"));
            hints.push(String::from_str("(↑ / ↓) Navigate Artists"));
            hints.push(String::from_str("Jump To A Letter"));
        },
        ActivePane::ArtistTracks => {
            hints.push(String::from_str("(←) Artists Tab"));
            hints.push(String::from_str("(↑ / ↓) Navigate Tracks"));
            hints.push(String::from_str("(→) Playlist Tab"));
            hints.push(String::from_str("(Enter) Add Track"));
        },
        ActivePane::Playlist => {
            hints.push(String::from_str("(←) Tracks Tab"));
            hints.push(String::from_str("(Backspace) Remove Track"));
            hints.push(String::from_str("(B) Burn Playlist"));
            hints.push(String::from_str("(C) Clear Playlist"));
        },
    }
    assert(string_views(hints@) == help_of(pane));
    hints
}

/// The cells of a track's row in the tracks pane: title, album, year, length.
pub open spec fn song_cells(song: SongView) -> Seq<Seq<char>> {
    seq![song.title, song.album, decimal(song.year), duration_text(song.duration as u64)]
}

/// The cells of a track's row in the playlist pane: title and length.
pub open spec fn playlist_song_cells(song: SongView) -> Seq<Seq<char>> {
    seq![song.title, duration_text(song.duration as u64)]
}

/// The cells of a track's row in the tracks pane.
pub fn song_to_row(song: &Song) -> (cells: Vec<String>)
    ensures
        string_views(cells@) == song_cells(song@),
{
    let mut year = String::new();
    push_decimal(&mut year, song.year as u64);
    assert(year@ =~= decimal(song.year as nat));
    let mut cells: Vec<String> = Vec::new();
    cells.push(song.title.clone());
    cells.push(song.album.clone());
    cells.push(year);
    cells.push(humantime_secs(song.duration_sec));
    assert(string_views(cells@) == song_cells(song@));
    cells
}

/// The cells of a track's row in the playlist pane.
pub fn playlist_song_to_row(song: &Song) -> (cells: Vec<String>)
    ensures
        string_views(cells@) == playlist_song_cells(song@),
{
    let mut cells: Vec<String> = Vec::new();
    cells.push(song.title.clone());
    cells.push(humantime_secs(song.duration_sec));
    assert(string_views(cells@) == playlist_song_cells(song@));
    cells
}

/// The heading of the playlist pane: how much of the disc is taken.
pub open spec fn playlist_heading(total_secs: u64) -> Seq<char> {
    " Playlist ("@ + duration_text(total_secs) + "/80m) "@
}

/// The heading of the playlist pane for a playlist of `total_secs` seconds.
pub fn playlist_title(total_secs: u64) -> (heading: String)
    ensures
        heading@ == playlist_heading(total_secs),
{
    let mut heading = String::from_str(" Playlist (");
    let length = humantime_secs(total_secs);
    heading.append(length.as_str());
    heading.append("/80m) ");
    heading
}

/// How many lines the burn log is scrolled up so that its end shows in a
/// frame `height` rows tall, two of which are border. The number of lines
/// counts modulo 65536, the range of a screen coordinate.
pub open spec fn scroll_offset_of(lines: nat, height: nat) -> nat {
    let counted = lines % 65536;
    let room = (height - 2) as nat;
    if counted > room {
        (counted - room) as nat
    } else {
        0
    }
}

/// How many lines the burn log is scrolled up so that its end shows.
pub fn scroll_offset(lines: usize, height: u16) -> (offset: u16)
    requires
        height >= 2,
    ensures
        offset == scroll_offset_of(lines as nat, height as nat),
{
    let counted = (lines % 65536) as u16;
    let room = height - 2;
    if counted > room {
        counted - room
    } else {
        0
    }
}

} // verus!
