use mtc_sync::timecode::{
    decompose, encode_full_frame, encode_quarter_frames, quarter_frame, quarter_frame_payload,
    Timecode,
};

fn reassemble(msgs: &[Vec<u8>]) -> (u64, u8, u8, u8) {
    let nib = |i: usize| msgs[i][1] & 0x0F;
    let frames = nib(0) | ((nib(1) & 0x01) << 4);
    let seconds = nib(2) | ((nib(3) & 0x03) << 4);
    let minutes = nib(4) | ((nib(5) & 0x03) << 4);
    let hours = (nib(6) | ((nib(7) & 0x01) << 4)) as u64;
    (hours, minutes, seconds, frames)
}

#[test]
fn decompose_exact_fields() {
    let t = decompose(3_723_040);
    assert_eq!(t, Timecode { hours: 1, minutes: 2, seconds: 3, frames: 1 });
    let t = decompose(86_399_999);
    assert_eq!(t, Timecode { hours: 23, minutes: 59, seconds: 59, frames: 24 });
    let t = decompose(39);
    assert_eq!(t, Timecode { hours: 0, minutes: 0, seconds: 0, frames: 0 });
}

#[test]
fn decompose_within_one_frame_of_position() {
    let mut p: u64 = 0;
    while p < 24 * 3_600_000 {
        let t = decompose(p);
        let back = t.hours * 3_600_000
            + t.minutes as u64 * 60_000
            + t.seconds as u64 * 1_000
            + t.frames as u64 * 40;
        assert!(back <= p && p < back + 40, "position {}", p);
        p += 7_919;
    }
}

#[test]
fn full_frame_at_zero() {
    assert_eq!(
        encode_full_frame(0),
        vec![0xF0, 0x7F, 0x7F, 0x01, 0x01, 0x20, 0x00, 0x00, 0x00, 0xF7]
    );
}

#[test]
fn full_frame_fields() {
    assert_eq!(
        encode_full_frame(3_723_040),
        vec![0xF0, 0x7F, 0x7F, 0x01, 0x01, 0x21, 0x02, 0x03, 0x01, 0xF7]
    );
    assert_eq!(
        encode_full_frame(16_000),
        vec![0xF0, 0x7F, 0x7F, 0x01, 0x01, 0x20, 0x00, 0x10, 0x00, 0xF7]
    );
}

#[test]
fn full_frame_hours_reduced_modulo_32() {
    let msg = encode_full_frame(33 * 3_600_000);
    assert_eq!(msg[5], 0x21);
}

#[test]
fn quarter_frames_exact_bytes() {
    let msgs = encode_quarter_frames(86_399_960);
    let expected: Vec<Vec<u8>> = vec![
        vec![0xF1, 0x08],
        vec![0xF1, 0x11],
        vec![0xF1, 0x2B],
        vec![0xF1, 0x33],
        vec![0xF1, 0x4B],
        vec![0xF1, 0x53],
        vec![0xF1, 0x67],
        vec![0xF1, 0x73],
    ];
    assert_eq!(msgs, expected);
    let msgs = encode_quarter_frames(3_723_040);
    let payloads: Vec<u8> = msgs.iter().map(|m| m[1]).collect();
    assert_eq!(payloads, vec![0x01, 0x10, 0x23, 0x30, 0x42, 0x50, 0x61, 0x72]);
}

#[test]
fn quarter_frame_single_matches_sequence() {
    let msgs = encode_quarter_frames(5_025_480);
    for i in 0..8u8 {
        assert_eq!(quarter_frame(5_025_480, i), msgs[i as usize]);
    }
    let t = decompose(5_025_480);
    assert_eq!(quarter_frame_payload(t, 6), 0x61);
}

#[test]
fn quarter_frames_reassemble_to_decomposition() {
    let mut p: u64 = 0;
    while p < 24 * 3_600_000 {
        let t = decompose(p);
        let msgs = encode_quarter_frames(p);
        assert_eq!(msgs.len(), 8);
        for (i, m) in msgs.iter().enumerate() {
            assert_eq!(m[0], 0xF1);
            assert_eq!((m[1] >> 4) as usize, i);
        }
        assert_eq!((msgs[7][1] & 0x0F) >> 1, 0x01);
        assert_eq!(reassemble(&msgs), (t.hours, t.minutes, t.seconds, t.frames));
        p += 12_347;
    }
}
