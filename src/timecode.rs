use vstd::prelude::*;

verus! {

/// Frames per second of the emitted timecode.
pub const FRAME_RATE: u64 = 25;

/// MTC rate code for 25 frames per second (`01`).
pub const RATE_CODE: u8 = 1;

pub const MS_PER_HOUR: u64 = 3_600_000;

pub const MS_PER_MINUTE: u64 = 60_000;

pub const MS_PER_SECOND: u64 = 1_000;

/// Hours, minutes, seconds and frames of a position, each by truncating division.
#[derive(Clone, Copy, Debug, PartialEq, Eq, Structural)]
pub struct Timecode {
    pub hours: u64,
    pub minutes: u8,
    pub seconds: u8,
    pub frames: u8,
}

pub open spec fn hours_of(p: int) -> int {
    p / 3_600_000
}

pub open spec fn minutes_of(p: int) -> int {
    (p % 3_600_000) / 60_000
}

pub open spec fn seconds_of(p: int) -> int {
    (p % 60_000) / 1_000
}

pub open spec fn frames_of(p: int) -> int {
    (p % 1_000) * 25 / 1_000
}

/// The timecode fields of position `p` (milliseconds).
pub open spec fn timecode_of(p: int) -> Timecode {
    Timecode {
        hours: hours_of(p) as u64,
        minutes: minutes_of(p) as u8,
        seconds: seconds_of(p) as u8,
        frames: frames_of(p) as u8,
    }
}

/// The byte that carries the rate code and the hours in a full-frame message:
/// the hours are reduced modulo 32 so that they never reach the rate bits.
pub open spec fn rate_hours_byte(hours: int) -> u8 {
    (32 + hours % 32) as u8
}

/// The MTC full-frame SysEx message for position `p`.
pub open spec fn full_frame_bytes(p: int) -> Seq<u8> {
    seq![
        0xF0u8,
        0x7Fu8,
        0x7Fu8,
        0x01u8,
        0x01u8,
        rate_hours_byte(hours_of(p)),
        minutes_of(p) as u8,
        seconds_of(p) as u8,
        frames_of(p) as u8,
        0xF7u8,
    ]
}

/// The data byte of quarter-frame message `i` for timecode `t`: the message
/// type in the high nibble, one piece of one field in the low nibble.
pub open spec fn quarter_payload(t: Timecode, i: int) -> u8 {
    if i == 0 {
        (t.frames % 16) as u8
    } else if i == 1 {
        (0x10 + (t.frames / 16) % 2) as u8
    } else if i == 2 {
        (0x20 + t.seconds % 16) as u8
    } else if i == 3 {
        (0x30 + (t.seconds / 16) % 4) as u8
    } else if i == 4 {
        (0x40 + t.minutes % 16) as u8
    } else if i == 5 {
        (0x50 + (t.minutes / 16) % 4) as u8
    } else if i == 6 {
        (0x60 + t.hours % 16) as u8
    } else {
        (0x70 + 2 * RATE_CODE + (t.hours / 16) % 2) as u8
    }
}

/// Quarter-frame message `i` (status byte and data byte) for position `p`.
pub open spec fn quarter_frame_bytes(p: int, i: int) -> Seq<u8> {
    seq![0xF1u8, quarter_payload(timecode_of(p), i)]
}

/// Splits a position in milliseconds into timecode fields at 25 frames per second.
pub fn decompose(position_ms: u64) -> (t: Timecode)
    ensures
        t == timecode_of(position_ms as int),
        t.hours == hours_of(position_ms as int),
        t.minutes == minutes_of(position_ms as int) < 60,
        t.seconds == seconds_of(position_ms as int) < 60,
        t.frames == frames_of(position_ms as int) < 25,
{
    let p = position_ms;
    let hours: u64 = p / MS_PER_HOUR;
    let minutes: u64 = p % MS_PER_HOUR / MS_PER_MINUTE;
    let seconds: u64 = p % MS_PER_MINUTE / MS_PER_SECOND;
    let frames: u64 = p % MS_PER_SECOND * FRAME_RATE / MS_PER_SECOND;
    assert(frames < 25) by (nonlinear_arith)
        requires
            frames == p % 1_000 * 25 / 1_000,
            p % 1_000 < 1_000,
    ;
    Timecode { hours, minutes: minutes as u8, seconds: seconds as u8, frames: frames as u8 }
}

/// The MTC full-frame message (SysEx universal real time, sub-IDs 01 01) for
/// position `position_ms`.
pub fn encode_full_frame(position_ms: u64) -> (r: Vec<u8>)
    ensures
        r@ == full_frame_bytes(position_ms as int),
{
    let t = decompose(position_ms);
    let h: u8 = (t.hours % 32) as u8;
    let rate_hours: u8 = (RATE_CODE << 5) | h;
    assert((1u8 << 5u8) | h == 32 + h) by (bit_vector)
        requires
            h < 32,
    ;
    vec![0xF0, 0x7F, 0x7F, 0x01, 0x01, rate_hours, t.minutes, t.seconds, t.frames, 0xF7]
}

/// The data byte of quarter-frame message `index` for the fields of `t`.
pub fn quarter_frame_payload(t: Timecode, index: u8) -> (r: u8)
    requires
        index < 8,
    ensures
        r == quarter_payload(t, index as int),
{
    let f = t.frames;
    let s = t.seconds;
    let m = t.minutes;
    let h: u8 = (t.hours % 32) as u8;
    assert(f & 0x0F == f % 16 && (f >> 4u8) & 0x01 == (f / 16) % 2) by (bit_vector);
    assert(s & 0x0F == s % 16 && (s >> 4u8) & 0x03 == (s / 16) % 4) by (bit_vector);
    assert(m & 0x0F == m % 16 && (m >> 4u8) & 0x03 == (m / 16) % 4) by (bit_vector);
    assert(h & 0x0F == h % 16 && (h >> 4u8) & 0x01 == (h / 16) % 2) by (bit_vector);
    assert(h % 16 == t.hours % 16 && (h / 16) % 2 == (t.hours / 16) % 2);
    assert(forall|x: u8, k: u8| x < 16 && k < 8 ==> #[trigger] ((k << 4u8) | x) == 16 * k + x)
        by (bit_vector);
    assert(forall|x: u8| x < 2 ==> #[trigger] (x | (1u8 << 1u8)) == x + 2) by (bit_vector);
    let nibble: u8 = if index == 0 {
        f & 0x0F
    } else if index == 1 {
        (f >> 4) & 0x01
    } else if index == 2 {
        s & 0x0F
    } else if index == 3 {
        (s >> 4) & 0x03
    } else if index == 4 {
        m & 0x0F
    } else if index == 5 {
        (m >> 4) & 0x03
    } else if index == 6 {
        h & 0x0F
    } else {
        ((h >> 4) & 0x01) | (RATE_CODE << 1)
    };
    (index << 4) | nibble
}

/// Quarter-frame message `index` (0 to 7) for position `position_ms`.
pub fn quarter_frame(position_ms: u64, index: u8) -> (r: Vec<u8>)
    requires
        index < 8,
    ensures
        r@ == quarter_frame_bytes(position_ms as int, index as int),
{
    let t = decompose(position_ms);
    vec![0xF1, quarter_frame_payload(t, index)]
}

/// The eight quarter-frame messages for position `position_ms`, in order.
pub fn encode_quarter_frames(position_ms: u64) -> (r: Vec<Vec<u8>>)
    ensures
        r.len() == 8,
        forall|i: int| 0 <= i < 8 ==> #[trigger] r[i]@ == quarter_frame_bytes(position_ms as int, i),
{
    let mut r: Vec<Vec<u8>> = Vec::new();
    let mut i: u8 = 0;
    while i < 8
        invariant
            i <= 8,
            r.len() == i,
            forall|j: int| 0 <= j < i ==> #[trigger] r[j]@ == quarter_frame_bytes(position_ms as int, j),
        decreases 8 - i,
    {
        r.push(quarter_frame(position_ms, i));
        i = i + 1;
    }
    r
}

/// The position (milliseconds) at which timecode `t` starts.
pub open spec fn position_of(t: Timecode) -> int {
    t.hours * 3_600_000 + t.minutes * 60_000 + t.seconds * 1_000 + t.frames * 40
}

/// The timecode that a receiver rebuilds from the eight quarter-frame data
/// bytes `q`, taking the low nibble of each.
pub open spec fn reassemble_quarter_frames(q: Seq<u8>) -> Timecode {
    Timecode {
        hours: (q[6] % 16 + 16 * (q[7] % 2)) as u64,
        minutes: (q[4] % 16 + 16 * (q[5] % 16)) as u8,
        seconds: (q[2] % 16 + 16 * (q[3] % 16)) as u8,
        frames: (q[0] % 16 + 16 * (q[1] % 16)) as u8,
    }
}

/// The data bytes of the eight quarter-frame messages of position `p`.
pub open spec fn quarter_payloads(p: int) -> Seq<u8> {
    Seq::new(8, |i: int| quarter_payload(timecode_of(p), i))
}

proof fn lemma_split_nibbles(x: int, k: int)
    requires
        0 <= x < 16 * k,
        k == 2 || k == 4,
    ensures
        x % 16 + 16 * ((x / 16) % k) == x,
        x % 16 + 16 * ((x / 16) % k % 16) == x,
{
    assert(x % 16 + 16 * (x / 16) == x && x / 16 < k && x / 16 >= 0) by (nonlinear_arith)
        requires
            0 <= x < 16 * k,
            k == 2 || k == 4,
    ;
}

/// Decomposition loses less than one frame (40 ms) within a day: the start
/// of the decomposed timecode lies less than 40 ms before the position, never after it.
pub proof fn lemma_decompose_within_one_frame(position_ms: u64)
    requires
        position_ms < 24 * 3_600_000,
    ensures
        position_of(timecode_of(position_ms as int)) <= position_ms,
        position_ms < position_of(timecode_of(position_ms as int)) + 40,
{
    let p = position_ms as int;
    let h = p / 3_600_000;
    let r1 = p % 3_600_000;
    let m = r1 / 60_000;
    let r2 = p % 60_000;
    let s = r2 / 1_000;
    let r3 = p % 1_000;
    let f = r3 * 25 / 1_000;
    assert(p == h * 3_600_000 + r1 && 0 <= r1 < 3_600_000) by (nonlinear_arith)
        requires
            h == p / 3_600_000,
            r1 == p % 3_600_000,
            p >= 0,
    ;
    assert(r1 == m * 60_000 + r2 && 0 <= r2 < 60_000 && 0 <= m < 60) by (nonlinear_arith)
        requires
            m == r1 / 60_000,
            r1 == p % 3_600_000,
            r2 == p % 60_000,
            p >= 0,
    ;
    assert(r2 == s * 1_000 + r3 && 0 <= s < 60) by (nonlinear_arith)
        requires
            s == r2 / 1_000,
            r2 == p % 60_000,
            r3 == p % 1_000,
            p >= 0,
    ;
    assert(f * 40 <= r3 < f * 40 + 40 && 0 <= f < 25) by (nonlinear_arith)
        requires
            f == r3 * 25 / 1_000,
            0 <= r3 < 1_000,
    ;
    assert(h < 24) by (nonlinear_arith)
        requires
            h == p / 3_600_000,
            0 <= p < 86_400_000,
    ;
}

/// The eight quarter-frame messages of a position within a day carry its whole
/// timecode: reassembling their nibbles gives the decomposed fields back, each
/// message's type sits in its high nibble, and the rate code is 25 fps.
pub proof fn lemma_quarter_frames_round_trip(position_ms: u64)
    requires
        position_ms < 24 * 3_600_000,
    ensures
        reassemble_quarter_frames(quarter_payloads(position_ms as int)) == timecode_of(position_ms as int),
        forall|i: int| 0 <= i < 8 ==> #[trigger] quarter_payloads(position_ms as int)[i] / 16 == i,
        quarter_payloads(position_ms as int)[7] % 16 / 2 == RATE_CODE,
{
    let p = position_ms as int;
    let t = timecode_of(p);
    lemma_decompose_within_one_frame(position_ms);
    assert(hours_of(p) < 24) by (nonlinear_arith)
        requires
            0 <= p < 86_400_000,
    ;
    assert(minutes_of(p) < 60 && seconds_of(p) < 60 && frames_of(p) < 25) by (nonlinear_arith)
        requires
            p >= 0,
    ;
    let q = quarter_payloads(p);
    lemma_split_nibbles(t.frames as int, 2);
    lemma_split_nibbles(t.seconds as int, 4);
    lemma_split_nibbles(t.minutes as int, 4);
    lemma_split_nibbles(t.hours as int, 2);
    assert(q[0] % 16 == t.frames % 16 && q[1] % 16 == (t.frames / 16) % 2);
    assert(q[2] % 16 == t.seconds % 16 && q[3] % 16 == (t.seconds / 16) % 4);
    assert(q[4] % 16 == t.minutes % 16 && q[5] % 16 == (t.minutes / 16) % 4);
    assert(q[6] % 16 == t.hours % 16 && q[7] % 16 == 2 + (t.hours / 16) % 2);
    assert(reassemble_quarter_frames(q) == t);
}

} // verus!
