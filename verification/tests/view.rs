use audio_burner::song::Song;
use audio_burner::view::{
    help_for, is_acknowledgment, key_command, playlist_song_to_row, playlist_title, scroll_offset,
    song_to_row, ActivePane, Key, KeyCommand, WrappingList, WrappingTable, WrappingTableState,
};

fn names(words: &[&str]) -> Vec<String> {
    words.iter().map(|w| w.to_string()).collect()
}

#[test]
fn selection_starts_empty() {
    let state = WrappingTableState::new();
    assert_eq!(state.selected, None);
    assert_eq!(state.selected(), 0);
}

#[test]
fn first_move_selects_the_first_row() {
    let items = [10, 20, 30];
    let mut down = WrappingTableState::new();
    assert_eq!(down.next(&items), 0);
    assert_eq!(down.selected, Some(0));
    let mut up = WrappingTableState::new();
    assert_eq!(up.prev(&items), 0);
    assert_eq!(up.selected, Some(0));
}

#[test]
fn selection_goes_round_at_the_end() {
    let items = [10, 20, 30];
    let mut state = WrappingTableState { selected: Some(1) };
    assert_eq!(state.next(&items), 2);
    assert_eq!(state.next(&items), 0);
    assert_eq!(state.next(&items), 1);
    assert_eq!(state.selected(), 1);
}

#[test]
fn selection_goes_round_at_the_start() {
    let items = [10, 20, 30];
    let mut state = WrappingTableState { selected: Some(1) };
    assert_eq!(state.prev(&items), 0);
    assert_eq!(state.prev(&items), 2);
    assert_eq!(state.prev(&items), 1);
}

#[test]
fn selection_past_the_end_keeps_going() {
    let items = [10, 20];
    let mut state = WrappingTableState { selected: Some(5) };
    assert_eq!(state.next(&items), 6);
    assert_eq!(state.prev(&items), 5);
}

#[test]
fn selection_in_an_empty_list() {
    let items: [u8; 0] = [];
    let mut state = WrappingTableState::new();
    assert_eq!(state.next(&items), 0);
    assert_eq!(state.next(&items), 1);
    let mut fresh = WrappingTableState::new();
    assert_eq!(fresh.prev(&items), 0);
}

#[test]
fn lists_and_tables_move_their_own_selection() {
    let mut list = WrappingList { items: names(&["a", "b"]), state: WrappingTableState::new() };
    assert_eq!(list.next(), 0);
    assert_eq!(list.next(), 1);
    assert_eq!(list.next(), 0);
    assert_eq!(list.prev(), 1);
    let mut table = WrappingTable { items: vec![1, 2, 3], state: WrappingTableState::new() };
    assert_eq!(table.prev(), 0);
    assert_eq!(table.prev(), 2);
    assert_eq!(table.next(), 0);
    assert_eq!(table.items, vec![1, 2, 3]);
}

#[test]
fn jump_selects_the_place_of_the_text() {
    let mut list = WrappingList {
        items: names(&["Abba", "Beatles", "Cream", "Doors"]),
        state: WrappingTableState::new(),
    };
    assert_eq!(list.jump("C"), 2);
    assert_eq!(list.state.selected, Some(2));
    assert_eq!(list.jump("A"), 0);
    assert_eq!(list.jump("Z"), 4);
    assert_eq!(list.state.selected, Some(4));
    assert_eq!(list.jump("Beatles"), 1);
    assert_eq!(list.jump("Beatles!"), 2);
    assert_eq!(list.jump(""), 0);
    assert_eq!(list.items, names(&["Abba", "Beatles", "Cream", "Doors"]));
}

#[test]
fn jump_agrees_with_binary_search_on_sorted_lists() {
    let mut items = names(&["", "a", "ab", "abc", "b", "ba", "z", "é", "éa", "日本", "😀"]);
    items.sort();
    let mut list = WrappingList { items: items.clone(), state: WrappingTableState::new() };
    for text in ["", "a", "aa", "ab", "abd", "b", "c", "y", "z", "zz", "é", "è", "日", "日本語", "😀", "\u{10FFFF}"] {
        let expected = match items.binary_search(&text.to_string()) {
            Ok(row) => row,
            Err(row) => row,
        };
        assert_eq!(list.jump(text), expected, "{:?}", text);
    }
    let mut empty: WrappingList<String> =
        WrappingList { items: Vec::new(), state: WrappingTableState::new() };
    assert_eq!(empty.jump("x"), 0);
}

#[test]
fn keys_in_the_artists_pane() {
    let pane = ActivePane::Artists;
    assert_eq!(key_command(pane, Key::Esc), KeyCommand::Quit);
    assert_eq!(key_command(pane, Key::Right), KeyCommand::Focus(ActivePane::ArtistTracks));
    assert_eq!(key_command(pane, Key::Enter), KeyCommand::Focus(ActivePane::ArtistTracks));
    assert_eq!(key_command(pane, Key::Up), KeyCommand::PrevArtist);
    assert_eq!(key_command(pane, Key::Down), KeyCommand::NextArtist);
    assert_eq!(key_command(pane, Key::Char('m')), KeyCommand::JumpToArtist('m'));
    assert_eq!(key_command(pane, Key::Char('B')), KeyCommand::JumpToArtist('B'));
    assert_eq!(key_command(pane, Key::Left), KeyCommand::Nothing);
    assert_eq!(key_command(pane, Key::Backspace), KeyCommand::Nothing);
    assert_eq!(key_command(pane, Key::Other), KeyCommand::Nothing);
}

#[test]
fn keys_in_the_tracks_pane() {
    let pane = ActivePane::ArtistTracks;
    assert_eq!(key_command(pane, Key::Left), KeyCommand::Focus(ActivePane::Artists));
    assert_eq!(key_command(pane, Key::Right), KeyCommand::Focus(ActivePane::Playlist));
    assert_eq!(key_command(pane, Key::Up), KeyCommand::PrevTrack);
    assert_eq!(key_command(pane, Key::Down), KeyCommand::NextTrack);
    assert_eq!(key_command(pane, Key::Enter), KeyCommand::AddTrack);
    assert_eq!(key_command(pane, Key::Esc), KeyCommand::Nothing);
    assert_eq!(key_command(pane, Key::Char('B')), KeyCommand::Nothing);
}

#[test]
fn keys_in_the_playlist_pane() {
    let pane = ActivePane::Playlist;
    assert_eq!(key_command(pane, Key::Left), KeyCommand::Focus(ActivePane::ArtistTracks));
    assert_eq!(key_command(pane, Key::Up), KeyCommand::PrevEntry);
    assert_eq!(key_command(pane, Key::Down), KeyCommand::NextEntry);
    assert_eq!(key_command(pane, Key::Backspace), KeyCommand::RemoveEntry);
    assert_eq!(key_command(pane, Key::Char('C')), KeyCommand::ClearPlaylist);
    assert_eq!(key_command(pane, Key::Char('B')), KeyCommand::Burn);
    assert_eq!(key_command(pane, Key::Char('b')), KeyCommand::Nothing);
    assert_eq!(key_command(pane, Key::Char('c')), KeyCommand::Nothing);
    assert_eq!(key_command(pane, Key::Right), KeyCommand::Nothing);
    assert_eq!(key_command(pane, Key::Enter), KeyCommand::Nothing);
    assert_eq!(key_command(pane, Key::Esc), KeyCommand::Nothing);
}

#[test]
fn only_capital_q_lets_go_of_the_log() {
    assert!(is_acknowledgment(Key::Char('Q')));
    assert!(!is_acknowledgment(Key::Char('q')));
    assert!(!is_acknowledgment(Key::Enter));
    assert!(!is_acknowledgment(Key::Esc));
}

#[test]
fn every_pane_has_four_hints() {
    assert_eq!(
        help_for(ActivePane::Artists),
        names(&["(ESC) Quit", "(→ / Enter) Tracks Tab", "(↑ / ↓) Navigate Artists", "Jump To A Letter"])
    );
    assert_eq!(
        help_for(ActivePane::ArtistTracks),
        names(&["(←) Artists Tab", "(↑ / ↓) Navigate Tracks", "(→) Playlist Tab", "(Enter) Add Track"])
    );
    assert_eq!(
        help_for(ActivePane::Playlist),
        names(&["(←) Tracks Tab", "(Backspace) Remove Track", "(B) Burn Playlist", "(C) Clear Playlist"])
    );
}

#[test]
fn rows_of_the_two_tables() {
    let song = Song {
        id: 3,
        path: String::from("x.mp3"),
        title: String::from("Money"),
        artist: String::from("Pink Floyd"),
        album: String::from("DSOTM"),
        track: 6,
        year: 1973,
        duration_sec: 382,
    };
    assert_eq!(song_to_row(&song), names(&["Money", "DSOTM", "1973", "6m 22s"]));
    assert_eq!(playlist_song_to_row(&song), names(&["Money", "6m 22s"]));
}

#[test]
fn playlist_heading_shows_what_is_taken() {
    assert_eq!(playlist_title(500), " Playlist (8m 20s/80m) ");
    assert_eq!(playlist_title(0), " Playlist (0s/80m) ");
}

#[test]
fn log_scrolls_to_its_end() {
    assert_eq!(scroll_offset(0, 2), 0);
    assert_eq!(scroll_offset(5, 12), 0);
    assert_eq!(scroll_offset(10, 12), 0);
    assert_eq!(scroll_offset(11, 12), 1);
    assert_eq!(scroll_offset(100, 12), 90);
    assert_eq!(scroll_offset(3, 2), 3);
    assert_eq!(scroll_offset(65535, 2), 65535);
}

#[test]
fn log_length_counts_modulo_the_screen_range() {
    assert_eq!(scroll_offset(65536, 12), 0);
    assert_eq!(scroll_offset(65536 + 25, 12), 15);
}
