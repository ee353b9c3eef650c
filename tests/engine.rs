use mtc_sync::engine::{emission_position, Engine, SessionEvent, TICK_PERIOD_MS};
use mtc_sync::offset::{Config, OffsetState, SongOffsetEntry};
use mtc_sync::timecode::{decompose, encode_full_frame, quarter_frame, Timecode};

const T: u64 = 1_700_000_000_000;

fn config(disable: bool) -> Config {
    Config {
        midi_device: None,
        disable_songs_outside_config: disable,
        songs: vec![SongOffsetEntry { title: "A".to_string(), artist: "B".to_string(), offset_ms: 5_000 }],
    }
}

fn media(title: &str, artist: &str) -> SessionEvent {
    SessionEvent::Media { title: title.to_string(), artist: artist.to_string() }
}

#[test]
fn tick_period_is_an_eighth_of_a_frame() {
    assert_eq!(TICK_PERIOD_MS, 5);
}

#[test]
fn configured_track_end_to_end() {
    let cfg = config(false);
    let mut e = Engine::new();
    e.handle_event(&media("A", "B"), &cfg);
    e.handle_event(&SessionEvent::Timeline { position_ticks: 100_000_000, updated_at_ms: T }, &cfg);
    e.handle_event(&SessionEvent::PlaybackStatus { playing: true }, &cfg);
    let raw = e.playback.estimate(T + 1_000);
    assert_eq!(raw, 11_000);
    let position = emission_position(raw, &e.offsets);
    assert_eq!(position, 16_000);
    assert_eq!(decompose(position), Timecode { hours: 0, minutes: 0, seconds: 16, frames: 0 });
    let out = e.tick(T + 1_000);
    assert_eq!(out.full_frame, Some(encode_full_frame(16_000)));
    assert_eq!(out.quarter_frame, Some(quarter_frame(16_000, 0)));
    assert_eq!(e.cursor, 1);
    let out = e.tick(T + 1_005);
    assert_eq!(out.full_frame, None);
    assert_eq!(out.quarter_frame, Some(quarter_frame(16_005, 1)));
}

#[test]
fn unknown_track_forced_to_zero() {
    let cfg = config(true);
    let mut e = Engine::new();
    e.handle_event(&media("A", "B"), &cfg);
    e.handle_event(&media("Unknown", "Unknown"), &cfg);
    e.handle_event(&SessionEvent::Timeline { position_ticks: 100_000_000, updated_at_ms: T }, &cfg);
    e.handle_event(&SessionEvent::PlaybackStatus { playing: true }, &cfg);
    assert!(!e.offsets.enabled_for_track);
    let out = e.tick(T + 1_000);
    assert_eq!(out.full_frame, Some(encode_full_frame(0)));
    assert_eq!(out.quarter_frame, None);
    for k in 1..20u64 {
        let out = e.tick(T + 1_000 + k * TICK_PERIOD_MS);
        assert_eq!(out.full_frame, None);
        assert_eq!(out.quarter_frame, None);
        assert_eq!(e.cursor, 0);
    }
    e.handle_event(&SessionEvent::Timeline { position_ticks: 200_000_000, updated_at_ms: T + 2_000 }, &cfg);
    let out = e.tick(T + 3_000);
    assert_eq!(out.full_frame, Some(encode_full_frame(0)));
}

#[test]
fn cursor_wraps_after_eight_quarter_frames() {
    let cfg = config(false);
    let mut e = Engine::new();
    e.handle_event(&media("A", "B"), &cfg);
    e.handle_event(&SessionEvent::PlaybackStatus { playing: true }, &cfg);
    for k in 0..8u64 {
        let out = e.tick(k);
        assert_eq!(out.quarter_frame, Some(quarter_frame(5_000 + k, k as u8)));
    }
    assert_eq!(e.cursor, 0);
}

#[test]
fn paused_track_emits_no_quarter_frames() {
    let cfg = config(false);
    let mut e = Engine::new();
    e.handle_event(&media("A", "B"), &cfg);
    e.handle_event(&SessionEvent::Timeline { position_ticks: 0, updated_at_ms: T }, &cfg);
    let out = e.tick(T + 500);
    assert_eq!(out.full_frame, Some(encode_full_frame(5_000)));
    assert_eq!(out.quarter_frame, None);
}

#[test]
fn negative_offset_position_clamped_to_zero() {
    let o = OffsetState { offset_ms: -3_000, enabled_for_track: true };
    assert_eq!(emission_position(1_000, &o), 0);
    assert_eq!(emission_position(4_000, &o), 1_000);
    let off = OffsetState { offset_ms: 10, enabled_for_track: false };
    assert_eq!(emission_position(4_000, &off), 0);
    assert_eq!(emission_position(i64::MAX, &OffsetState { offset_ms: i64::MAX, enabled_for_track: true }), u64::MAX - 1);
}
