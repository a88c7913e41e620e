use audio_burner::decimal::{i64_to_string, parse_i64, push_decimal, push_signed_decimal, u64_to_string};
use audio_burner::song::Song;
use audio_burner::timefmt::humantime_secs;
use audio_burner::words::{is_whitespace, join_strings, split_whitespace};

fn with_path(path: &str) -> Song {
    Song {
        id: 1,
        path: path.to_string(),
        title: String::new(),
        artist: String::new(),
        album: String::new(),
        track: 0,
        year: 0,
        duration_sec: 0,
    }
}

#[test]
fn format_is_what_follows_the_last_dot() {
    assert_eq!(with_path("/music/a/song.flac").format(), "flac");
    assert_eq!(with_path("song.tar.mp3").format(), "mp3");
    assert_eq!(with_path("a.b/c").format(), "b/c");
    assert_eq!(with_path("trailing.").format(), "");
    assert_eq!(with_path(".hidden").format(), "hidden");
    assert_eq!(with_path("ünï.çødé.øgg").format(), "øgg");
}

#[test]
fn format_of_a_path_without_dot_is_unknown() {
    assert_eq!(with_path("/music/song").format(), "unknown");
    assert_eq!(with_path("").format(), "unknown");
}

#[test]
fn format_agrees_with_rsplit_once() {
    for path in ["a.b.c", "", ".", "..", "x", "x.", "dir.d/file", "é.ü", "a.b.c.d.e.f"] {
        let expected = path.rsplit_once('.').map_or("unknown", |(_, ext)| ext);
        assert_eq!(with_path(path).format(), expected);
    }
}

#[test]
fn song_clone_is_equal() {
    let song = with_path("/a/b.ogg");
    assert_eq!(song.clone(), song);
}

#[test]
fn budget_in_words() {
    assert_eq!(humantime_secs(4799), "1h 19m 59s");
}

#[test]
fn durations_in_words() {
    assert_eq!(humantime_secs(0), "0s");
    assert_eq!(humantime_secs(59), "59s");
    assert_eq!(humantime_secs(60), "1m");
    assert_eq!(humantime_secs(500), "8m 20s");
    assert_eq!(humantime_secs(3600), "1h");
    assert_eq!(humantime_secs(86400), "1day");
}

#[test]
fn unsigned_numbers_are_written_in_decimal() {
    for n in [0u64, 1, 9, 10, 11, 99, 100, 101, 4799, 65535, 1_000_000, u64::MAX - 1, u64::MAX] {
        assert_eq!(u64_to_string(n), n.to_string());
    }
    assert_eq!(u64_to_string(4799), "4799");
}

#[test]
fn signed_numbers_are_written_in_decimal() {
    for i in [0i64, 1, -1, 9, -9, 10, -10, 12345, -12345, i64::MAX, i64::MIN, i64::MIN + 1] {
        assert_eq!(i64_to_string(i), i.to_string());
    }
    assert_eq!(i64_to_string(-42), "-42");
}

#[test]
fn numbers_are_appended() {
    let mut text = String::from("n=");
    push_decimal(&mut text, 305);
    text.push(',');
    push_signed_decimal(&mut text, -7);
    assert_eq!(text, "n=305,-7");
}

#[test]
fn numbers_are_read() {
    assert_eq!(parse_i64("0"), Some(0));
    assert_eq!(parse_i64("42"), Some(42));
    assert_eq!(parse_i64("+42"), Some(42));
    assert_eq!(parse_i64("-42"), Some(-42));
    assert_eq!(parse_i64("007"), Some(7));
    assert_eq!(parse_i64("-0"), Some(0));
    assert_eq!(parse_i64("9223372036854775807"), Some(i64::MAX));
    assert_eq!(parse_i64("-9223372036854775808"), Some(i64::MIN));
    assert_eq!(parse_i64("00000000000000000000000000001"), Some(1));
}

#[test]
fn what_is_no_number_is_not_read() {
    for text in ["", "+", "-", "--1", "+-1", "1-", "1 ", " 1", "1.5", "abc", "12a", "１２", "0x10", "1_000"] {
        assert_eq!(parse_i64(text), None, "{:?}", text);
    }
}

#[test]
fn numbers_that_do_not_fit_are_not_read() {
    assert_eq!(parse_i64("9223372036854775808"), None);
    assert_eq!(parse_i64("-9223372036854775809"), None);
    assert_eq!(parse_i64("99999999999999999999999999"), None);
    assert_eq!(parse_i64("-99999999999999999999999999"), None);
    assert_eq!(parse_i64("18446744073709551616"), None);
    assert_eq!(parse_i64("18446744073709551617"), None);
    assert_eq!(parse_i64("92233720368547758070"), None);
}

#[test]
fn reading_agrees_with_the_standard_library() {
    let samples = [
        "0", "1", "-1", "+1", "", "+", "-", "10", "-10", "0010", "9223372036854775807",
        "9223372036854775808", "-9223372036854775808", "-9223372036854775809", "12x", "x12",
        "1-2", "٣", "+0", "-00", "184467440737095516150",
    ];
    for text in samples {
        assert_eq!(parse_i64(text), text.parse::<i64>().ok(), "{:?}", text);
    }
}

#[test]
fn written_numbers_read_back() {
    for i in [0i64, 5, -5, 4799, -4799, i64::MAX, i64::MIN] {
        assert_eq!(parse_i64(&i64_to_string(i)), Some(i));
    }
}

#[test]
fn white_space_is_what_the_standard_library_says() {
    let mut c = '\u{0}';
    loop {
        assert_eq!(is_whitespace(c), c.is_whitespace(), "{:?}", c);
        if c == char::MAX {
            break;
        }
        c = match char::from_u32(c as u32 + 1) {
            Some(next) => next,
            None => '\u{E000}',
        };
    }
}

#[test]
fn lines_are_split_at_white_space() {
    assert_eq!(split_whitespace("playlist add 12"), vec!["playlist", "add", "12"]);
    assert_eq!(split_whitespace("  two   words \n"), vec!["two", "words"]);
    assert_eq!(split_whitespace("one"), vec!["one"]);
    assert_eq!(split_whitespace("\ttab\u{3000}wide\u{a0}"), vec!["tab", "wide"]);
    assert_eq!(split_whitespace("é ü"), vec!["é", "ü"]);
}

#[test]
fn lines_of_white_space_have_no_words() {
    assert!(split_whitespace("").is_empty());
    assert!(split_whitespace("   ").is_empty());
    assert!(split_whitespace("\n").is_empty());
    assert!(split_whitespace(" \t\r\n").is_empty());
}

#[test]
fn splitting_agrees_with_the_standard_library() {
    for line in ["", " ", "a", " a", "a ", "a b", "a  b", " a b ", "search  pink   floyd\n", "x\u{2003}y"] {
        let expected: Vec<String> = line.split_whitespace().map(String::from).collect();
        assert_eq!(split_whitespace(line), expected, "{:?}", line);
    }
}

#[test]
fn parts_are_joined_with_single_blanks() {
    let parts = |words: &[&str]| -> Vec<String> { words.iter().map(|w| w.to_string()).collect() };
    assert_eq!(join_strings(&parts(&[])), "");
    assert_eq!(join_strings(&parts(&["one"])), "one");
    assert_eq!(join_strings(&parts(&["pink", "floyd"])), "pink floyd");
    assert_eq!(join_strings(&parts(&["a", "", "b"])), "a  b");
    assert_eq!(join_strings(&split_whitespace("  the   dark side  ")), "the dark side");
}
