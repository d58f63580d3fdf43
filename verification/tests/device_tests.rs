use powerplayer::device::{select_stream_config, ChosenConfig, ConfigRange, SampleFormat};

fn range(channels: u16, min_rate: u32, max_rate: u32, sample_format: SampleFormat) -> ConfigRange {
    ConfigRange {
        channels,
        min_rate,
        max_rate,
        sample_format,
    }
}

#[test]
fn exact_float_match_wins_immediately() {
    let configs = vec![
        range(2, 8_000, 192_000, SampleFormat::I16),
        range(2, 8_000, 192_000, SampleFormat::F32),
        range(2, 44_100, 44_100, SampleFormat::F32),
    ];
    let chosen = select_stream_config(&configs, 48_000, 2).unwrap();
    assert_eq!(
        chosen,
        ChosenConfig {
            channels: 2,
            sample_rate: 48_000,
            sample_format: SampleFormat::F32,
            exact_rate: true,
        }
    );
}

#[test]
fn exact_integer_match_is_preferred_over_fallback() {
    let configs = vec![
        range(6, 8_000, 192_000, SampleFormat::F32),
        range(2, 8_000, 192_000, SampleFormat::I16),
    ];
    let chosen = select_stream_config(&configs, 48_000, 2).unwrap();
    assert_eq!(chosen.channels, 2);
    assert_eq!(chosen.sample_rate, 48_000);
    assert_eq!(chosen.sample_format, SampleFormat::I16);
    assert!(chosen.exact_rate);
}

#[test]
fn fallback_prefers_float_at_top_rate() {
    let configs = vec![
        range(2, 8_000, 44_100, SampleFormat::U16),
        range(2, 8_000, 44_100, SampleFormat::F32),
    ];
    // 96 kHz is outside both ranges: fall back to the float one at its max.
    let chosen = select_stream_config(&configs, 96_000, 2).unwrap();
    assert_eq!(chosen.sample_format, SampleFormat::F32);
    assert_eq!(chosen.sample_rate, 44_100);
    assert!(!chosen.exact_rate);
}

#[test]
fn no_configurations_means_no_device() {
    assert!(select_stream_config(&Vec::new(), 48_000, 2).is_none());
}
