use powerplayer::clock::lyrics_poll_step;
use powerplayer::control::{PlaybackControl, NO_PENDING_SEEK};
use powerplayer::lyrics::LyricsLine;

#[test]
fn volume_is_clamped() {
    let mut state = PlaybackControl::new();
    state.set_volume_bits(2.0f32.to_bits());
    assert_eq!(state.volume_bits(), 1.0f32.to_bits());
    state.set_volume_bits((-1.0f32).to_bits());
    assert_eq!(state.volume_bits(), 0.0f32.to_bits());
}

#[test]
fn play_pause_updates_atomic_state() {
    let mut state = PlaybackControl::new();
    assert!(!state.is_playing());
    state.play();
    assert!(state.is_playing());
    state.pause();
    assert!(!state.is_playing());
}

#[test]
fn preamp_is_clamped() {
    let mut state = PlaybackControl::new();
    state.set_preamp_bits(30.0f32.to_bits());
    assert_eq!(state.preamp_bits(), 24.0f32.to_bits());
    state.set_preamp_bits((-30.0f32).to_bits());
    assert_eq!(state.preamp_bits(), (-24.0f32).to_bits());
}

#[test]
fn next_track_can_be_set_and_cleared() {
    let mut state = PlaybackControl::new();
    state.set_next_track(Some("/music/next.flac".to_string()));
    assert!(state.has_next_track());
    state.set_next_track(None);
    assert!(!state.has_next_track());
}

#[test]
fn in_range_volume_is_kept_bit_exact() {
    let mut state = PlaybackControl::new();
    state.set_volume_bits(0.37f32.to_bits());
    assert_eq!(state.volume_bits(), 0.37f32.to_bits());
    state.set_volume_bits((-0.0f32).to_bits());
    assert_eq!(state.volume_bits(), (-0.0f32).to_bits());
}

#[test]
fn lookahead_fires_once_past_ninety_five_percent() {
    let mut state = PlaybackControl::new();
    state.finish_load(48_000, 1000);
    state.set_next_track(Some("/music/b.flac".to_string()));
    assert!(!state.arm_lookahead(900)); // 90 percent: below the mark
    assert!(state.arm_lookahead(950)); // 95 percent: fires
    assert!(!state.arm_lookahead(960)); // armed already: never re-fires
    assert!(!state.arm_lookahead(999));
}

#[test]
fn lookahead_needs_next_track_and_duration() {
    let mut state = PlaybackControl::new();
    state.finish_load(48_000, 1000);
    assert!(!state.arm_lookahead(999)); // no next track armed
    let mut empty = PlaybackControl::new();
    empty.set_next_track(Some("/music/b.flac".to_string()));
    assert!(!empty.arm_lookahead(999)); // no track loaded
}

#[test]
fn rearming_after_completion_does_not_refire() {
    let mut state = PlaybackControl::new();
    state.finish_load(48_000, 1000);
    state.set_next_track(Some("/music/b.flac".to_string()));
    assert!(state.arm_lookahead(950));
    state.complete_preload();
    assert!(!state.arm_lookahead(990)); // completed: stays quiet
    state.set_next_track(Some("/music/c.flac".to_string()));
    assert!(state.arm_lookahead(990)); // replacing the path re-arms
}

#[test]
fn seek_is_consumed_once_and_clamped() {
    let mut state = PlaybackControl::new();
    state.finish_load(48_000, 480_000); // a 10 s track
    state.seek_to_frame(7 * 48_000);
    assert_eq!(state.current_frame(), 7 * 48_000);
    let (read_frame, clear_ring) = state.consume_seek(96_000);
    assert_eq!(read_frame, 7 * 48_000);
    assert!(clear_ring);
    // The handshake leaves the sentinel behind: nothing more to consume.
    let (read_frame, clear_ring) = state.consume_seek(read_frame);
    assert_eq!(read_frame, 7 * 48_000);
    assert!(!clear_ring);
    // A seek past the end lands on the last frame.
    state.seek_to_frame(u32::MAX - 1);
    let (read_frame, clear_ring) = state.consume_seek(0);
    assert_eq!(read_frame, 480_000);
    assert!(clear_ring);
    assert_eq!(NO_PENDING_SEEK, u32::MAX);
}

#[test]
fn gapless_handoff_restarts_clock_and_length() {
    let mut state = PlaybackControl::new();
    state.finish_load(48_000, 96_000); // a 2 s track
    state.set_next_track(Some("/music/b.flac".to_string()));
    assert!(state.arm_lookahead(95_000));
    assert_eq!(state.preload_request().as_deref(), Some("/music/b.flac"));
    state.complete_preload();
    assert!(state.preloaded_ready());
    assert!(state.preload_request().is_none());
    state.advance_frames(500);
    state.take_preloaded(144_000);
    assert_eq!(state.current_frame(), 0);
    assert_eq!(state.total_frames(), 144_000);
    assert!(!state.has_next_track());
    assert!(!state.preloaded_ready());
}

fn line(ts: u32, text: &str) -> LyricsLine {
    LyricsLine {
        timestamp: ts,
        text: text.to_string(),
    }
}

#[test]
fn lyrics_emit_exactly_on_change() {
    let mut state = PlaybackControl::new();
    state.finish_load(1000, 10_000); // one frame per millisecond
    let lines = vec![line(0, "a"), line(1000, "b"), line(2000, "c")];
    let mut events: Vec<String> = Vec::new();
    for ms in [0u32, 500, 1500, 2500] {
        state.current_frame = ms; // one frame per millisecond
        if let Some(payload) = lyrics_poll_step(&mut state, &lines) {
            events.push(payload.text.unwrap());
        }
    }
    assert_eq!(events, vec!["a", "b", "c"]);
}

#[test]
fn lyrics_monitor_reports_no_line_before_the_first() {
    let mut state = PlaybackControl::new();
    state.finish_load(1000, 10_000);
    let lines = vec![line(500, "late")];
    let event = lyrics_poll_step(&mut state, &lines);
    // The sentinel is already "no line", so nothing is emitted at 0 ms.
    assert!(event.is_none());
    state.advance_frames(600);
    let event = lyrics_poll_step(&mut state, &lines).unwrap();
    assert_eq!(event.index, Some(0));
    assert_eq!(event.timestamp, Some(500));
    assert_eq!(event.text.as_deref(), Some("late"));
}
