use powerplayer::filters::{ParametricEQ, StereoWidener};
use powerplayer::reverb::{get_preset, ReverbNode};
use powerplayer::spatial::SpatialRoomNode;
use powerplayer::tone::{BalanceNode, StereoExpansionNode, ToneNode};

#[test]
fn eq_marks_dirty_only_when_values_change() {
    let mut eq = ParametricEQ::new(10, 48_000);
    let initial_frequency = eq.get_bands()[0].0;
    assert!(!eq.is_dirty());
    eq.update_band(0, initial_frequency, 0.0f32.to_bits(), 1.0f32.to_bits())
        .expect("band should exist");
    assert!(!eq.is_dirty());
    let bumped = (f32::from_bits(initial_frequency) + 10.0).to_bits();
    eq.update_band(0, bumped, 1.0f32.to_bits(), 1.1f32.to_bits())
        .expect("band should exist");
    assert!(eq.is_dirty());
}

#[test]
fn repeating_an_update_does_not_redirty() {
    let mut eq = ParametricEQ::new(10, 48_000);
    eq.update_band(4, 1000.0f32.to_bits(), 12.0f32.to_bits(), 1.0f32.to_bits())
        .unwrap();
    assert!(eq.consume_dirty());
    eq.update_band(4, 1000.0f32.to_bits(), 12.0f32.to_bits(), 1.0f32.to_bits())
        .unwrap();
    assert!(!eq.is_dirty());
}

#[test]
fn eq_sanitizes_out_of_range_words() {
    let mut eq = ParametricEQ::new(10, 48_000);
    eq.update_band(
        0,
        1_000_000.0f32.to_bits(),
        99.0f32.to_bits(),
        100.0f32.to_bits(),
    )
    .unwrap();
    let (f, g, q) = eq.get_bands()[0];
    assert_eq!(f, 23_999.0f32.to_bits()); // sample_rate / 2 - 1
    assert_eq!(g, 24.0f32.to_bits());
    assert_eq!(q, 18.0f32.to_bits());
}

#[test]
fn eq_rejects_out_of_range_band() {
    let mut eq = ParametricEQ::new(10, 48_000);
    assert!(eq
        .update_band(10, 1000.0f32.to_bits(), 0, 0)
        .is_err());
    assert!(!eq.is_dirty());
}

#[test]
fn get_bands_returns_correct_count() {
    let eq = ParametricEQ::new(10, 48_000);
    let bands = eq.get_bands();
    assert_eq!(bands.len(), 10);
    for (freq, gain, q) in &bands {
        assert!(f32::from_bits(*freq) > 0.0);
        assert_eq!(*gain, 0.0f32.to_bits());
        assert_eq!(*q, 1.0f32.to_bits());
    }
}

#[test]
fn default_bands_span_32_to_16k() {
    let eq = ParametricEQ::new(10, 48_000);
    let bands = eq.get_bands();
    // The integer-to-pattern encoder agrees with the hardware encoding.
    assert_eq!(bands[0].0, 32.0f32.to_bits());
    assert_eq!(bands[9].0, 16_000.0f32.to_bits());
    // The ladder ascends strictly, as positive patterns and as values.
    for pair in bands.windows(2) {
        assert!(pair[0].0 < pair[1].0);
        assert!(f32::from_bits(pair[0].0) < f32::from_bits(pair[1].0));
    }
}

#[test]
fn tone_node_clamps_gain() {
    let mut tone = ToneNode::new(48_000);
    tone.set_bass(20.0f32.to_bits());
    tone.set_treble((-20.0f32).to_bits());
    assert_eq!(tone.bass_gain_bits, 12.0f32.to_bits());
    assert_eq!(tone.treble_gain_bits, (-12.0f32).to_bits());
}

#[test]
fn balance_stores_clamped_word() {
    let mut node = BalanceNode::new();
    assert_eq!(node.balance_bits(), 0.0f32.to_bits());
    node.set_balance((-2.0f32).to_bits());
    assert_eq!(node.balance_bits(), (-1.0f32).to_bits());
    node.set_balance(2.0f32.to_bits());
    assert_eq!(node.balance_bits(), 1.0f32.to_bits());
}

#[test]
fn expansion_clamps_and_sizes_delay() {
    let mut node = StereoExpansionNode::new(48_000);
    assert_eq!(node.amount_bits(), 0.0f32.to_bits());
    node.set_amount(1.5f32.to_bits());
    assert_eq!(node.amount_bits(), 1.0f32.to_bits());
    // 0.3 ms at 48 kHz is 14.4 samples, rounded up.
    assert_eq!(node.delay_len(), 15);
}

#[test]
fn widener_defaults_and_clamps() {
    let mut w = StereoWidener::new();
    assert_eq!(w.amount_bits(), 0.2f32.to_bits());
    w.set_amount(7.0f32.to_bits());
    assert_eq!(w.amount_bits(), 1.0f32.to_bits());
}

#[test]
fn preset_loading_sets_params() {
    let mut reverb = ReverbNode::new(48_000);
    let church = get_preset("Iglesia").expect("preset should resolve");
    reverb.load_preset(&church);
    assert_eq!(reverb.room_size_bits, 0.9f32.to_bits());
    assert_eq!(reverb.wet_mix_bits, 0.4f32.to_bits());
}

#[test]
fn get_preset_resolves_known_names() {
    assert!(get_preset("Estudio").is_some());
    assert!(get_preset("studio").is_some());
    assert!(get_preset("Sala Grande").is_some());
    assert!(get_preset("Club").is_some());
    assert!(get_preset("Iglesia").is_some());
    assert!(get_preset("church").is_some());
    assert!(get_preset("Unknown").is_none());
}

#[test]
fn reverb_params_are_clamped() {
    let mut reverb = ReverbNode::new(48_000);
    reverb.set_room_size(5.0f32.to_bits());
    reverb.set_damping((-1.0f32).to_bits());
    reverb.set_predelay_ms(999.0f32.to_bits());
    reverb.set_lowpass_filter(50.0f32.to_bits());
    reverb.set_decay(2.0f32.to_bits());
    reverb.set_wet_mix((-0.5f32).to_bits());
    assert_eq!(reverb.room_size_bits, 1.0f32.to_bits());
    assert_eq!(reverb.damping_bits, 0.0f32.to_bits());
    assert_eq!(reverb.predelay_ms_bits, 200.0f32.to_bits());
    assert_eq!(reverb.lowpass_freq_bits, 200.0f32.to_bits());
    assert_eq!(reverb.decay_bits, 1.0f32.to_bits());
    assert_eq!(reverb.wet_mix_bits, 0.0f32.to_bits());
}

#[test]
fn room_size_is_clamped() {
    let mut node = SpatialRoomNode::new(48_000);
    node.set_room_size(0.5f32.to_bits(), 0.5f32.to_bits(), 0.5f32.to_bits());
    assert_eq!(node.width_bits, 2.0f32.to_bits());
    assert_eq!(node.length_bits, 2.0f32.to_bits());
    assert_eq!(node.height_bits, 2.0f32.to_bits());

    node.set_room_size(100.0f32.to_bits(), 100.0f32.to_bits(), 100.0f32.to_bits());
    assert_eq!(node.width_bits, 50.0f32.to_bits());
    assert_eq!(node.length_bits, 50.0f32.to_bits());
    assert_eq!(node.height_bits, 20.0f32.to_bits());
}

#[test]
fn damping_is_clamped() {
    let mut node = SpatialRoomNode::new(48_000);
    node.set_damping((-1.0f32).to_bits());
    assert_eq!(node.damping_bits, 0.0f32.to_bits());
    node.set_damping(5.0f32.to_bits());
    assert_eq!(node.damping_bits, 1.0f32.to_bits());
}

#[test]
fn source_position_roundtrips() {
    let mut node = SpatialRoomNode::new(48_000);
    node.set_source_position(0, 1.0f32.to_bits(), 2.0f32.to_bits(), 3.0f32.to_bits());
    let positions = node.source_positions();
    assert_eq!(positions.len(), 4);
    assert_eq!(positions[0].0, 1.0f32.to_bits());
    assert_eq!(positions[0].1, 2.0f32.to_bits());
    assert_eq!(positions[0].2, 3.0f32.to_bits());
    assert!(positions[0].3); // active by default
}

#[test]
fn inactive_source_is_recorded() {
    let mut node = SpatialRoomNode::new(48_000);
    for i in 0..4 {
        node.set_source_active(i, false);
    }
    assert!(node.source_positions().iter().all(|s| !s.3));
    assert!(!node.is_enabled());
    node.set_enabled(true);
    assert!(node.is_enabled());
}
