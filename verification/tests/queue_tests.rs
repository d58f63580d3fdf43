use powerplayer::queue::{fisher_yates_shuffle, PlaybackQueue};

fn sample_tracks() -> Vec<String> {
    (0..10).map(|i| format!("/music/track{i}.flac")).collect()
}

#[test]
fn queue_starts_at_first_track() {
    let mut q = PlaybackQueue::new();
    q.set_tracks(sample_tracks());
    assert_eq!(q.current_track().as_deref(), Some("/music/track0.flac"));
    assert_eq!(q.current_index(), 0);
}

#[test]
fn next_and_previous_navigate() {
    let mut q = PlaybackQueue::new();
    q.set_tracks(sample_tracks());
    q.next();
    assert_eq!(q.current_track().as_deref(), Some("/music/track1.flac"));
    q.previous();
    assert_eq!(q.current_track().as_deref(), Some("/music/track0.flac"));
}

#[test]
fn shuffle_preserves_current_track() {
    let mut q = PlaybackQueue::new();
    q.set_tracks(sample_tracks());
    q.next();
    q.next(); // now on track2
    let track_before = q.current_track().unwrap();
    q.toggle_shuffle(true);
    assert_eq!(q.current_track().unwrap(), track_before);
}

#[test]
fn unshuffle_finds_original_position() {
    let mut q = PlaybackQueue::new();
    q.set_tracks(sample_tracks());
    q.next();
    q.next(); // track2
    q.toggle_shuffle(true);
    // Navigate forward in shuffled
    q.next();
    q.next();
    let shuffled_track = q.current_track().unwrap();
    q.toggle_shuffle(false);
    // After disabling shuffle, current track should be the same
    assert_eq!(q.current_track().unwrap(), shuffled_track);
    // And the index should match the original order
    let expected_idx = sample_tracks()
        .iter()
        .position(|t| *t == shuffled_track)
        .unwrap();
    assert_eq!(q.current_index(), expected_idx);
}

#[test]
fn shuffle_changes_order() {
    let mut q = PlaybackQueue::new();
    let tracks = sample_tracks();
    q.set_tracks(tracks.clone());
    q.toggle_shuffle(true);
    // Shuffled order should differ from original (with very high probability for 10 items)
    // The first item is the current track (track0), so compare the rest
    let shuffled = q.active_order().to_vec();
    assert_eq!(shuffled.len(), tracks.len());
    // At least one element in positions 1..N should differ
    let differs = shuffled[1..]
        .iter()
        .zip(tracks[1..].iter())
        .any(|(a, b)| a != b);
    assert!(
        differs,
        "shuffled order should differ from original (statistically)"
    );
}

#[test]
fn empty_queue_handles_gracefully() {
    let mut q = PlaybackQueue::new();
    assert!(q.current_track().is_none());
    assert!(q.next().is_none());
    assert!(q.previous().is_none());
    assert!(q.is_empty());
    q.toggle_shuffle(true);
    assert!(q.current_track().is_none());
}

#[test]
fn fisher_yates_does_not_panic_on_empty() {
    let mut items: Vec<String> = Vec::new();
    fisher_yates_shuffle(&mut items);
    assert!(items.is_empty());
}

#[test]
fn fisher_yates_single_element() {
    let mut items = vec!["only".to_string()];
    fisher_yates_shuffle(&mut items);
    assert_eq!(items, vec!["only"]);
}

#[test]
fn shuffle_keeps_every_track() {
    let mut items = sample_tracks();
    fisher_yates_shuffle(&mut items);
    let mut sorted = items.clone();
    sorted.sort();
    let mut expected = sample_tracks();
    expected.sort();
    assert_eq!(sorted, expected);
}

#[test]
fn jump_to_ignores_out_of_range() {
    let mut q = PlaybackQueue::new();
    q.set_tracks(sample_tracks());
    q.jump_to(7);
    assert_eq!(q.current_index(), 7);
    q.jump_to(99);
    assert_eq!(q.current_index(), 7);
    assert_eq!(q.len(), 10);
    assert!(!q.is_shuffle_enabled());
}
