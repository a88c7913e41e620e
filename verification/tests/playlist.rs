use audio_burner::error::BurnError;
use audio_burner::playlist::{playlist_duration_secs, AppState, CD_MAX_DURATION_SECONDS};
use audio_burner::song::Song;

fn song(id: i64, duration_sec: u64) -> Song {
    Song {
        id,
        path: format!("/music/{}.flac", id),
        title: format!("Title {}", id),
        artist: String::from("Artist"),
        album: String::from("Album"),
        track: id,
        year: 1999,
        duration_sec,
    }
}

#[test]
fn new_playlist_is_empty() {
    let state = AppState::new();
    assert!(state.playlist().is_empty());
    assert_eq!(state.total_duration(), 0);
}

#[test]
fn add_appends_in_order() {
    let mut state = AppState::new();
    assert_eq!(state.playlist_add(song(1, 200)), Ok(()));
    assert_eq!(state.playlist_add(song(2, 300)), Ok(()));
    assert_eq!(state.playlist().len(), 2);
    assert_eq!(state.playlist()[0], song(1, 200));
    assert_eq!(state.playlist()[1], song(2, 300));
    assert_eq!(state.total_duration(), 500);
}

#[test]
fn add_up_to_the_budget_succeeds() {
    let mut state = AppState::new();
    assert_eq!(state.playlist_add(song(1, 4000)), Ok(()));
    assert_eq!(state.playlist_add(song(2, 799)), Ok(()));
    assert_eq!(state.total_duration(), CD_MAX_DURATION_SECONDS);
}

#[test]
fn add_past_the_budget_fails_and_changes_nothing() {
    let mut state = AppState::new();
    assert_eq!(state.playlist_add(song(1, 4000)), Ok(()));
    let refused = state.playlist_add(song(2, 800));
    assert_eq!(
        refused,
        Err(BurnError::CapacityExceeded { budget: String::from("1h 19m 59s") })
    );
    assert_eq!(state.playlist().len(), 1);
    assert_eq!(state.playlist()[0], song(1, 4000));
    assert_eq!(state.total_duration(), 4000);
}

#[test]
fn single_track_of_4800_seconds_is_refused() {
    let mut state = AppState::new();
    let refused = state.playlist_add(song(1, 4800));
    assert!(matches!(refused, Err(BurnError::CapacityExceeded { .. })));
    assert!(state.playlist().is_empty());
}

#[test]
fn single_track_of_4799_seconds_fits() {
    let mut state = AppState::new();
    assert_eq!(state.playlist_add(song(1, 4799)), Ok(()));
    assert_eq!(state.playlist().len(), 1);
}

#[test]
fn add_of_a_huge_duration_is_refused_without_overflow() {
    let mut state = AppState::new();
    assert_eq!(state.playlist_add(song(1, 10)), Ok(()));
    assert!(state.playlist_add(song(2, u64::MAX)).is_err());
    assert_eq!(state.total_duration(), 10);
}

#[test]
fn remove_in_bounds_shifts_the_rest_left() {
    let mut state = AppState::new();
    for id in 1..=4 {
        assert_eq!(state.playlist_add(song(id, 100)), Ok(()));
    }
    assert!(state.playlist_remove(1));
    let ids: Vec<i64> = state.playlist().iter().map(|s| s.id).collect();
    assert_eq!(ids, vec![1, 3, 4]);
    assert_eq!(state.total_duration(), 300);
}

#[test]
fn remove_out_of_bounds_is_a_no_op() {
    let mut state = AppState::new();
    assert_eq!(state.playlist_add(song(1, 100)), Ok(()));
    assert!(!state.playlist_remove(1));
    assert!(!state.playlist_remove(usize::MAX));
    assert_eq!(state.playlist().len(), 1);
    let mut empty = AppState::new();
    assert!(!empty.playlist_remove(0));
}

#[test]
fn remove_makes_room_again() {
    let mut state = AppState::new();
    assert_eq!(state.playlist_add(song(1, 4799)), Ok(()));
    assert!(state.playlist_add(song(2, 1)).is_err());
    assert!(state.playlist_remove(0));
    assert_eq!(state.playlist_add(song(2, 1)), Ok(()));
}

#[test]
fn clear_empties_the_playlist() {
    let mut state = AppState::new();
    assert_eq!(state.playlist_add(song(1, 100)), Ok(()));
    assert_eq!(state.playlist_add(song(2, 100)), Ok(()));
    state.playlist_clear();
    assert!(state.playlist().is_empty());
    assert_eq!(state.total_duration(), 0);
    state.playlist_clear();
    assert!(state.playlist().is_empty());
}

#[test]
fn duration_of_a_slice_is_the_sum() {
    assert_eq!(playlist_duration_secs(&[]), 0);
    assert_eq!(playlist_duration_secs(&[song(1, 7), song(2, 11), song(3, 13)]), 31);
}

#[test]
fn capacity_error_names_the_budget() {
    let mut state = AppState::new();
    let error = state.playlist_add(song(1, 5000)).unwrap_err();
    assert_eq!(
        error.message(),
        "Track is too long! Adding would exceed the CD Limit of 1h 19m 59s CD limit."
    );
}
