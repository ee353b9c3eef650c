use vstd::prelude::*;
use crate::estimator::PlaybackState;
use crate::offset::{Config, OffsetState};
use crate::timecode::{encode_full_frame, full_frame_bytes, quarter_frame, quarter_frame_bytes};

verus! {

/// Milliseconds between two emission ticks: one eighth of a frame at 25 fps.
pub const TICK_PERIOD_MS: u64 = 1000 / 25 / 8;

/// A notification from the media-session provider.
#[derive(Clone, Debug)]
pub enum SessionEvent {
    /// Position `position_ticks` (100 ns ticks) held at instant `updated_at_ms`.
    Timeline { position_ticks: i64, updated_at_ms: u64 },
    /// Whether the transport status is now "playing".
    PlaybackStatus { playing: bool },
    /// A new media item, identified by title and artist.
    Media { title: String, artist: String },
}

/// The messages that one tick emits, in order: a full frame first, if any.
#[derive(Clone, Debug)]
pub struct TickOutput {
    pub full_frame: Option<Vec<u8>>,
    pub quarter_frame: Option<Vec<u8>>,
}

/// The position that is encoded for raw estimate `raw`: zero for a disabled
/// track, otherwise the estimate plus the track's offset, never below zero.
pub open spec fn emitted_position(raw: int, offsets: OffsetState) -> int {
    if !offsets.enabled_for_track || raw + offsets.offset_ms < 0 {
        0
    } else {
        raw + offsets.offset_ms
    }
}

/// The shared synchronisation state: playback, per-track offset, and the
/// quarter-frame cursor of the emission loop.
#[derive(Clone, Copy, Debug, PartialEq, Eq, Structural)]
pub struct Engine {
    pub playback: PlaybackState,
    pub offsets: OffsetState,
    /// Index (0 to 7) of the next quarter-frame message.
    pub cursor: u8,
}

/// The position encoded for raw estimate `raw` under `offsets`.
pub fn emission_position(raw: i64, offsets: &OffsetState) -> (r: u64)
    ensures
        r == emitted_position(raw as int, *offsets),
{
    if !offsets.enabled_for_track {
        return 0;
    }
    let sum: i128 = raw as i128 + offsets.offset_ms as i128;
    if sum < 0 {
        0
    } else {
        sum as u64
    }
}

impl Engine {
    pub open spec fn wf(self) -> bool {
        self.cursor < 8
    }

    /// The position that a tick at `now_ms` encodes.
    pub open spec fn position_at(self, now_ms: int) -> int {
        emitted_position(self.playback.estimate_at(now_ms), self.offsets)
    }

    /// Stopped at zero, emission disabled, cursor at the first quarter frame.
    pub fn new() -> (r: Engine)
        ensures
            r.wf(),
            r.playback == PlaybackState::new_spec(),
            r.offsets == (OffsetState { offset_ms: 0, enabled_for_track: false }),
            r.cursor == 0,
    {
        Engine { playback: PlaybackState::new(), offsets: OffsetState::new(), cursor: 0 }
    }

    /// Applies a session notification to the state.
    pub fn handle_event(&mut self, event: &SessionEvent, config: &Config)
        requires
            old(self).wf(),
        ensures
            final(self).wf(),
            final(self).cursor == old(self).cursor,
            match *event {
                SessionEvent::Timeline { position_ticks, updated_at_ms } => {
                    &&& final(self).offsets == old(self).offsets
                    &&& final(self).playback == (PlaybackState {
                        base_position_ms: crate::estimator::ticks_to_ms(position_ticks as int) as i64,
                        last_update_ms: updated_at_ms,
                        ..old(self).playback
                    })
                },
                SessionEvent::PlaybackStatus { playing } => {
                    &&& final(self).offsets == old(self).offsets
                    &&& final(self).playback == (PlaybackState { is_playing: playing, ..old(self).playback })
                },
                SessionEvent::Media { title, artist } => {
                    &&& final(self).playback == old(self).playback
                    &&& forall|i: int|
                        #[trigger] crate::offset::first_match(config.songs@, title@, artist@, i)
                            ==> final(self).offsets == (OffsetState {
                            offset_ms: config.songs@[i].offset_ms,
                            enabled_for_track: true,
                        })
                    &&& crate::offset::no_match(config.songs@, title@, artist@) ==> final(self).offsets
                        == (OffsetState {
                        offset_ms: 0,
                        enabled_for_track: old(self).offsets.enabled_for_track
                            && !config.disable_songs_outside_config,
                    })
                },
            },
    {
        match event {
            SessionEvent::Timeline { position_ticks, updated_at_ms } => {
                self.playback.on_timeline_update(*position_ticks, *updated_at_ms);
            },
            SessionEvent::PlaybackStatus { playing } => {
                self.playback.on_playback_status(*playing);
            },
            SessionEvent::Media { title, artist } => {
                self.offsets.on_track_changed(title.as_str(), artist.as_str(), config);
            },
        }
    }

    /// One emission tick at instant `now_ms`: a full frame when a position
    /// update arrived since the last one (which is then marked sent), and the
    /// next quarter frame while playing an enabled track (the cursor then
    /// advances modulo 8).
    pub fn tick(&mut self, now_ms: u64) -> (r: TickOutput)
        requires
            old(self).wf(),
        ensures
            final(self).wf(),
            final(self).offsets == old(self).offsets,
            final(self).playback == (PlaybackState {
                last_sent_ms: old(self).playback.last_update_ms,
                ..old(self).playback
            }),
            r.full_frame is Some <==> old(self).playback.last_update_ms != old(self).playback.last_sent_ms,
            r.full_frame matches Some(m) ==> m@ == full_frame_bytes(old(self).position_at(now_ms as int)),
            r.quarter_frame is Some <==> old(self).playback.is_playing && old(self).offsets.enabled_for_track,
            r.quarter_frame matches Some(q) ==> q@ == quarter_frame_bytes(
                old(self).position_at(now_ms as int),
                old(self).cursor as int,
            ),
            final(self).cursor == if r.quarter_frame is Some {
                ((old(self).cursor + 1) % 8) as u8
            } else {
                old(self).cursor
            },
    {
        let raw = self.playback.estimate(now_ms);
        let position = emission_position(raw, &self.offsets);
        let full_frame = if self.playback.has_new_update() {
            Some(encode_full_frame(position))
        } else {
            None
        };
        self.playback.mark_sent();
        let quarter = if self.playback.is_playing && self.offsets.enabled_for_track {
            let q = quarter_frame(position, self.cursor);
            self.cursor = (self.cursor + 1) % 8;
            Some(q)
        } else {
            None
        };
        TickOutput { full_frame, quarter_frame: quarter }
    }
}

/// While the current track is disabled, every tick encodes position 0 and
/// emits no quarter frame, whatever the playback state and the instant.
pub proof fn lemma_disabled_track_emits_zero(e: Engine, now_ms: u64)
    requires
        !e.offsets.enabled_for_track,
    ensures
        e.position_at(now_ms as int) == 0,
        !(e.playback.is_playing && e.offsets.enabled_for_track),
{
}

} // verus!
