use pixel_decoder::codec::{Frame, KeyEvent};
use pixel_decoder::reassembler::{chars_to_string, Reassembler};

fn data(s: &str) -> Vec<Frame> {
    s.bytes().map(Frame::DataByte).collect()
}

fn key(code: u8) -> Frame {
    Frame::KeyPress(KeyEvent {
        sequence: 0,
        key_code: code,
        is_virtual_key: false,
        ctrl: false,
        alt: false,
        shift: false,
        win: false,
    })
}

#[test]
fn hello_round_trip() {
    let mut r = Reassembler::new();
    assert_eq!(r.accept(Frame::DeclareLength(5)), None);
    let frames = data("hello");
    for f in &frames[..4] {
        assert_eq!(r.accept(*f), None);
    }
    assert_eq!(r.accept(frames[4]), Some("hello".to_string()));
    assert_eq!(r.capacity(), 0);
    assert_eq!(r.buffered(), 0);
}

#[test]
fn early_termination() {
    let mut r = Reassembler::new();
    assert_eq!(r.accept(Frame::DeclareLength(10)), None);
    for f in data("abc") {
        assert_eq!(r.accept(f), None);
    }
    assert_eq!(r.buffered(), 3);
    assert_eq!(r.accept(Frame::EndOfMessage), Some("abc".to_string()));
    assert_eq!(r.capacity(), 0);
}

#[test]
fn overrun_protection() {
    let mut r = Reassembler::new();
    assert_eq!(r.accept(Frame::DeclareLength(2)), None);
    assert_eq!(r.accept(Frame::DataByte(b'o')), None);
    assert_eq!(r.accept(Frame::DataByte(b'k')), Some("ok".to_string()));
    assert_eq!(r.accept(Frame::DataByte(b'x')), None);
    assert_eq!(r.accept(Frame::DataByte(b'y')), None);
    assert_eq!(r.buffered(), 0);
}

#[test]
fn accept_all_collects_in_order() {
    let mut frames = vec![Frame::DeclareLength(2)];
    frames.extend(data("hiXY"));
    frames.push(Frame::DeclareLength(10));
    frames.extend(data("abc"));
    frames.push(Frame::EndOfMessage);
    let mut r = Reassembler::new();
    assert_eq!(r.accept_all(&frames), vec!["hi".to_string(), "abc".to_string()]);
}

#[test]
fn declaration_discards_unflushed_buffer() {
    let mut r = Reassembler::new();
    let mut frames = vec![Frame::DeclareLength(4)];
    frames.extend(data("ab"));
    frames.push(Frame::DeclareLength(2));
    frames.extend(data("cd"));
    assert_eq!(r.accept_all(&frames), vec!["cd".to_string()]);
}

#[test]
fn data_without_declaration_ignored() {
    let mut r = Reassembler::new();
    assert_eq!(r.accept_all(&data("zzz")), Vec::<String>::new());
    assert_eq!(r.accept(Frame::EndOfMessage), Some(String::new()));
}

#[test]
fn zero_length_declaration() {
    let mut r = Reassembler::new();
    assert_eq!(r.accept(Frame::DeclareLength(0)), None);
    assert_eq!(r.accept(Frame::DataByte(b'q')), None);
    assert_eq!(r.accept(Frame::EndOfMessage), Some(String::new()));
}

#[test]
fn largest_declared_length() {
    let mut r = Reassembler::new();
    let mut frames = vec![Frame::DeclareLength(255)];
    frames.extend(std::iter::repeat_n(Frame::DataByte(b'x'), 256));
    let out = r.accept_all(&frames);
    assert_eq!(out.len(), 1);
    assert_eq!(out[0], "x".repeat(255));
}

#[test]
fn key_presses_pass_through() {
    let mut r = Reassembler::new();
    assert_eq!(r.accept(Frame::DeclareLength(3)), None);
    assert_eq!(r.accept(Frame::DataByte(b'a')), None);
    assert_eq!(r.accept(key(b'K')), Some("K".to_string()));
    assert_eq!(r.accept(key(b'z')), Some("z".to_string()));
    assert_eq!(r.buffered(), 1);
    assert_eq!(r.capacity(), 3);
    assert_eq!(r.accept_all(&data("bc")), vec!["abc".to_string()]);
}

#[test]
fn chars_to_string_keeps_chars() {
    assert_eq!(chars_to_string(&vec!['h', 'é', '!']), "hé!".to_string());
    assert_eq!(chars_to_string(&vec![]), String::new());
}
