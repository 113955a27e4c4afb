use wayclip_cli::validate::{
    sanitize_and_validate_filename_stem, validate_ffmpeg_time, NameError,
};

#[test]
fn stem_is_trimmed_and_underscored() {
    let r = sanitize_and_validate_filename_stem("  my best clip \t");
    assert_eq!(r.unwrap(), "my_best_clip");
}

#[test]
fn stem_keeps_inner_tabs() {
    let r = sanitize_and_validate_filename_stem("a\tb");
    assert_eq!(r.unwrap(), "a\tb");
}

#[test]
fn empty_stem_is_refused() {
    assert_eq!(sanitize_and_validate_filename_stem("   ").unwrap_err(), NameError::Empty);
    assert_eq!(sanitize_and_validate_filename_stem("").unwrap_err(), NameError::Empty);
    assert_eq!(NameError::Empty.message(), "New name cannot be empty.");
}

#[test]
fn reserved_characters_are_refused() {
    for bad in ["a<b", "a>b", "a:b", "a\"b", "a/b", "a\\b", "a|b", "a?b", "a*b"] {
        assert_eq!(
            sanitize_and_validate_filename_stem(bad).unwrap_err(),
            NameError::InvalidCharacters
        );
    }
    assert_eq!(
        NameError::InvalidCharacters.message(),
        "New name contains invalid characters (< > : \" / \\ | ? *)."
    );
}

#[test]
fn stem_agrees_with_std_trim() {
    for s in ["\u{a0}x\u{3000}", "\u{2003}a b\u{85}", "\u{200b}x", "\u{1680}y\u{205f}"] {
        let expected = s.trim().replace(' ', "_");
        assert_eq!(sanitize_and_validate_filename_stem(s).unwrap(), expected);
    }
}

#[test]
fn seconds_are_a_time() {
    assert_eq!(validate_ffmpeg_time(" 5.5 ").unwrap(), "5.5");
    assert_eq!(validate_ffmpeg_time("10").unwrap(), "10");
    assert_eq!(validate_ffmpeg_time("1e3").unwrap(), "1e3");
    assert_eq!(validate_ffmpeg_time(".5").unwrap(), ".5");
    assert_eq!(validate_ffmpeg_time("5.").unwrap(), "5.");
    assert_eq!(validate_ffmpeg_time("-inf").unwrap(), "-inf");
    assert_eq!(validate_ffmpeg_time("NaN").unwrap(), "NaN");
}

#[test]
fn clock_times_are_times() {
    assert_eq!(validate_ffmpeg_time("00:01:30").unwrap(), "00:01:30");
    assert_eq!(validate_ffmpeg_time("1:30").unwrap(), "1:30");
    assert_eq!(validate_ffmpeg_time("00:00:05.25\n").unwrap(), "00:00:05.25");
}

#[test]
fn bad_times_are_refused_with_the_input() {
    for bad in ["", "abc", "1:2:3:4", "1::2", ":", "1: 2", "5.5s", ".", "e5", "1e", "+", "1.2.3"] {
        let e = validate_ffmpeg_time(bad).unwrap_err();
        assert_eq!(e.input, bad);
    }
    let e = validate_ffmpeg_time(" x ").unwrap_err();
    assert_eq!(
        e.message(),
        "Invalid time format ' x '. Use seconds (e.g., 5.5) or HH:MM:SS format."
    );
}

#[test]
fn times_agree_with_float_parsing() {
    let samples = [
        "0", "1.5", "+1.5", "-1.5", "1e5", "1E5", "1e+5", "1e-5", "1.e5", ".5e5", "1e", "e", ".",
        "+.", "-", "inf", "INF", "Infinity", "infinit", "nan", "+nan", "nane", "1_0", "0x10",
        " 1", "1 ", "１", "1..2", "--1", "+-1", "1e5.5", "١",
    ];
    for s in samples {
        let expected = s.trim().parse::<f64>().is_ok();
        assert_eq!(validate_ffmpeg_time(s).is_ok(), expected, "{}", s);
    }
}
