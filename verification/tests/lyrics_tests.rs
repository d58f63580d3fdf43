use powerplayer::lyrics::{parse_fraction_to_millis, parse_lrc, parse_timestamp, LyricsLine};

#[test]
fn parses_single_timestamp_line() {
    let parsed = parse_lrc("[01:02.34] Hello world");
    assert_eq!(
        parsed,
        vec![LyricsLine {
            timestamp: 62_340,
            text: "Hello world".to_string()
        }]
    );
}

#[test]
fn parses_multiple_timestamps_in_one_line() {
    let parsed = parse_lrc("[00:10.00][00:12.50] Chorus");
    assert_eq!(parsed.len(), 2);
    assert_eq!(parsed[0].timestamp, 10_000);
    assert_eq!(parsed[1].timestamp, 12_500);
    assert_eq!(parsed[0].text, "Chorus");
}

#[test]
fn ignores_invalid_lines_and_sorts() {
    let parsed = parse_lrc("[00:20.xx]bad\n[00:15.00]A\n[00:10.00]B");
    assert_eq!(
        parsed
            .iter()
            .map(|line| (line.timestamp, line.text.as_str()))
            .collect::<Vec<_>>(),
        vec![(10_000, "B"), (15_000, "A")]
    );
}

#[test]
fn timestamp_accepts_all_fraction_widths() {
    assert_eq!(parse_timestamp("01:02"), Some(62_000));
    assert_eq!(parse_timestamp("01:02."), Some(62_000));
    assert_eq!(parse_timestamp("01:02.3"), Some(62_300));
    assert_eq!(parse_timestamp("01:02.34"), Some(62_340));
    assert_eq!(parse_timestamp("01:02.345"), Some(62_345));
    // Digits past the third are ignored.
    assert_eq!(parse_timestamp("01:02.3456"), Some(62_345));
}

#[test]
fn timestamp_rejects_bad_fields() {
    assert_eq!(parse_timestamp("6001:00"), None);
    assert_eq!(parse_timestamp("00:60"), None);
    assert_eq!(parse_timestamp("0:1:2"), None);
    assert_eq!(parse_timestamp("00:10.2.3"), None);
    assert_eq!(parse_timestamp("ab:10"), None);
    assert_eq!(parse_timestamp("00:x"), None);
    assert_eq!(parse_timestamp(""), None);
    assert_eq!(parse_timestamp("6000:59.999"), Some(6000 * 60_000 + 59_999));
}

#[test]
fn timestamp_tolerates_whitespace() {
    assert_eq!(parse_timestamp(" 01 : 02.34 "), Some(62_340));
    assert_eq!(parse_timestamp(" 01: 02.34"), Some(62_340));
    assert_eq!(parse_timestamp("01 :02.34"), Some(62_340));
}

#[test]
fn fraction_parsing_pads_right() {
    assert_eq!(parse_fraction_to_millis(""), Some(0));
    assert_eq!(parse_fraction_to_millis("7"), Some(700));
    assert_eq!(parse_fraction_to_millis("70"), Some(700));
    assert_eq!(parse_fraction_to_millis("700"), Some(700));
    assert_eq!(parse_fraction_to_millis("7x"), None);
}

#[test]
fn invalid_timestamp_tokens_are_skipped() {
    let parsed = parse_lrc("[00:10][bad][00:20] x");
    assert_eq!(
        parsed
            .iter()
            .map(|line| (line.timestamp, line.text.as_str()))
            .collect::<Vec<_>>(),
        vec![(10_000, "x"), (20_000, "x")]
    );
}

#[test]
fn lines_without_valid_prefix_are_dropped() {
    assert!(parse_lrc("no timestamps here").is_empty());
    assert!(parse_lrc("[bad]text").is_empty());
    assert!(parse_lrc("").is_empty());
}

#[test]
fn output_is_sorted_across_lines() {
    let parsed = parse_lrc("[00:30]c\n[00:10]a\n[00:20]b");
    let stamps: Vec<u32> = parsed.iter().map(|l| l.timestamp).collect();
    assert_eq!(stamps, vec![10_000, 20_000, 30_000]);
}
