use vstd::prelude::*;

verus! {

/// Media-session ticks (100 ns each) per millisecond.
pub const TICKS_PER_MS: u64 = 10_000;

/// `x` limited to the range of `i64`.
pub open spec fn clamp_i64(x: int) -> int {
    if x > i64::MAX {
        i64::MAX as int
    } else if x < i64::MIN {
        i64::MIN as int
    } else {
        x
    }
}

/// Milliseconds in `ticks` by division truncated toward zero.
pub open spec fn ticks_to_ms(ticks: int) -> int {
    if ticks >= 0 {
        ticks / 10_000
    } else {
        -((-ticks) / 10_000)
    }
}

/// The last reported playback position and transport state, from which the
/// position at any later instant is extrapolated.
#[derive(Clone, Copy, Debug, PartialEq, Eq, Structural)]
pub struct PlaybackState {
    /// Last reported position, in milliseconds.
    pub base_position_ms: i64,
    /// Wall-clock instant (epoch milliseconds) at which `base_position_ms` held.
    pub last_update_ms: u64,
    /// The `last_update_ms` for which a full-frame message was last emitted.
    pub last_sent_ms: u64,
    /// Whether the last reported transport status was "playing".
    pub is_playing: bool,
}

impl PlaybackState {
    /// Milliseconds elapsed from the last update to `now_ms`, never negative.
    pub open spec fn elapsed_at(self, now_ms: int) -> int {
        if now_ms > self.last_update_ms {
            now_ms - self.last_update_ms
        } else {
            0
        }
    }

    /// The position extrapolated to `now_ms`, saturated at the bounds of `i64`.
    pub open spec fn estimate_at(self, now_ms: int) -> int {
        clamp_i64(self.base_position_ms + if self.is_playing { self.elapsed_at(now_ms) } else { 0 })
    }

    pub open spec fn new_spec() -> PlaybackState {
        PlaybackState { base_position_ms: 0, last_update_ms: 0, last_sent_ms: 0, is_playing: false }
    }

    /// Stopped at position 0, with nothing reported yet.
    pub fn new() -> (r: PlaybackState)
        ensures
            r == PlaybackState::new_spec(),
    {
        PlaybackState { base_position_ms: 0, last_update_ms: 0, last_sent_ms: 0, is_playing: false }
    }

    /// The position at instant `now_ms`: the base position, plus the time
    /// elapsed since the last update while playing.
    pub fn estimate(&self, now_ms: u64) -> (r: i64)
        ensures
            r == self.estimate_at(now_ms as int),
    {
        let elapsed: u64 = if now_ms > self.last_update_ms {
            now_ms - self.last_update_ms
        } else {
            0
        };
        let advance: u64 = if self.is_playing {
            elapsed
        } else {
            0
        };
        let sum: i128 = self.base_position_ms as i128 + advance as i128;
        if sum > i64::MAX as i128 {
            i64::MAX
        } else {
            sum as i64
        }
    }

    /// Whether a position update has arrived since the last full-frame emission.
    pub fn has_new_update(&self) -> (r: bool)
        ensures
            r == (self.last_update_ms != self.last_sent_ms),
    {
        self.last_update_ms != self.last_sent_ms
    }

    /// Records that the current update has been emitted as a full frame.
    pub fn mark_sent(&mut self)
        ensures
            *final(self) == (PlaybackState { last_sent_ms: old(self).last_update_ms, ..*old(self) }),
    {
        self.last_sent_ms = self.last_update_ms;
    }

    /// A timeline update: position `position_ticks` (100 ns ticks) held at
    /// instant `updated_at_ms`.
    pub fn on_timeline_update(&mut self, position_ticks: i64, updated_at_ms: u64)
        ensures
            *final(self) == (PlaybackState {
                base_position_ms: ticks_to_ms(position_ticks as int) as i64,
                last_update_ms: updated_at_ms,
                ..*old(self)
            }),
    {
        let ms: i64 = if position_ticks >= 0 {
            (position_ticks as u64 / TICKS_PER_MS) as i64
        } else {
            let magnitude: u64 = (-(position_ticks + 1)) as u64 + 1;
            -((magnitude / TICKS_PER_MS) as i64)
        };
        self.base_position_ms = ms;
        self.last_update_ms = updated_at_ms;
    }

    /// A playback-status update: `playing` is whether the status is "playing".
    pub fn on_playback_status(&mut self, playing: bool)
        ensures
            *final(self) == (PlaybackState { is_playing: playing, ..*old(self) }),
    {
        self.is_playing = playing;
    }
}

/// While playing and with no new update, the estimate never decreases as time
/// goes on; and an instant before the last update gives the base position.
pub proof fn lemma_estimate_monotonic(s: PlaybackState, now1: u64, now2: u64)
    ensures
        s.is_playing && now1 <= now2 ==> s.estimate_at(now1 as int) <= s.estimate_at(now2 as int),
        now1 <= s.last_update_ms ==> s.estimate_at(now1 as int) == s.base_position_ms,
{
}

} // verus!
