use pixel_decoder::codec::{CodecError, Frame, KeyEvent};
use pixel_decoder::layout::LayoutProfile;
use pixel_decoder::receiver::{read_one_message, Receiver};

fn pack_a(m: u32, t: u32, s: u32, p: u32) -> u32 {
    (m << 23) | (t << 19) | (s << 15) | (((m + t + s + p) / 4) << 8) | p
}

fn pack_b(s: u32, k: u32, v: u32, l: u32, a: u32, h: u32, w: u32) -> u32 {
    let c = (s + k + v + l + a + h + w) / 7;
    (s << 20) | (c << 13) | (k << 5) | (v << 4) | (l << 3) | (a << 2) | (h << 1) | w
}

#[test]
fn read_one_message_filters() {
    let l = LayoutProfile::layout_a();
    let d = pack_a(0, 0, 1, 104);
    assert_eq!(read_one_message(None, d, &l), Some(Ok(Frame::DataByte(104))));
    assert_eq!(read_one_message(Some(d), d, &l), None);
    assert_eq!(read_one_message(Some(0), d ^ 0x100, &l), None);
    assert_eq!(read_one_message(Some(0), pack_a(1, 5, 0, 0), &l), Some(Err(CodecError::InvalidMetadataType(5))));
}

#[test]
fn receiver_reassembles_polled_hello() {
    let mut rx = Receiver::new(LayoutProfile::layout_a());
    let mut samples = vec![pack_a(1, 0, 0, 5)];
    for (i, b) in "hello".bytes().enumerate() {
        let s = pack_a(0, 0, (i + 1) as u32, b as u32);
        samples.push(s);
        samples.push(s); // the sender holds the colour across polls
    }
    let mut out = Vec::new();
    for s in samples {
        if let Some(m) = rx.on_sample(s).unwrap() {
            out.push(m);
        }
    }
    assert_eq!(out, vec!["hello".to_string()]);
}

#[test]
fn receiver_drops_noise_and_reports_violation() {
    let mut rx = Receiver::new(LayoutProfile::layout_a());
    assert_eq!(rx.on_sample(pack_a(1, 0, 0, 1)), Ok(None));
    assert_eq!(rx.on_sample(pack_a(0, 0, 1, 65) ^ 0x100), Ok(None));
    assert_eq!(rx.on_sample(pack_a(1, 9, 2, 0)), Err(CodecError::InvalidMetadataType(9)));
    assert_eq!(rx.on_sample(pack_a(0, 0, 1, 65)), Ok(Some("A".to_string())));
}

#[test]
fn key_frames_are_independent() {
    let l = LayoutProfile::layout_b();
    let first = pack_b(1, b'Q' as u32, 0, 1, 0, 0, 0);
    let second = pack_b(2, b'w' as u32, 1, 0, 1, 0, 1);
    let mut rx = Receiver::new(LayoutProfile::layout_b());
    assert_eq!(rx.on_sample(first), Ok(Some("Q".to_string())));
    assert_eq!(rx.on_sample(second), Ok(Some("w".to_string())));
    let mut alone = Receiver::new(LayoutProfile::layout_b());
    assert_eq!(alone.on_sample(second), Ok(Some("w".to_string())));
    assert_eq!(
        read_one_message(Some(first), second, &l),
        Some(Ok(Frame::KeyPress(KeyEvent {
            sequence: 2,
            key_code: b'w',
            is_virtual_key: true,
            ctrl: false,
            alt: true,
            shift: false,
            win: true,
        })))
    );
}
