//! Folds an ordered stream of frames into completed messages.
use vstd::prelude::*;
use crate::codec::{checksum_ok, frame_of, key_event_of, CodecError, Frame};
use crate::layout::{LayoutProfile, Variant};

verus! {

/// Abstract state of a reassembler: the declared length and the characters
/// gathered so far.
pub ghost struct ReassemblyState {
    pub capacity: nat,
    pub buffer: Seq<char>,
}

/// The state that no declaration has touched yet (also the state after a flush).
pub open spec fn empty_state() -> ReassemblyState {
    ReassemblyState { capacity: 0, buffer: Seq::empty() }
}

/// One step of reassembly: the next state and the message completed, if any.
pub open spec fn step(s: ReassemblyState, frame: Frame) -> (ReassemblyState, Option<Seq<char>>) {
    match frame {
        Frame::DeclareLength(len) => (ReassemblyState { capacity: len as nat, buffer: Seq::empty() }, None),
        Frame::EndOfMessage => (empty_state(), Some(s.buffer)),
        Frame::DataByte(v) => {
            if s.buffer.len() >= s.capacity {
                (s, None)
            } else {
                let b = s.buffer.push(v as char);
                if b.len() == s.capacity {
                    (empty_state(), Some(b))
                } else {
                    (ReassemblyState { capacity: s.capacity, buffer: b }, None)
                }
            }
        },
        Frame::KeyPress(k) => (s, Some(seq![k.key_code as char])),
    }
}

/// The messages completed by feeding `frames` in order from state `s`, and the
/// state left behind.
pub open spec fn run(s: ReassemblyState, frames: Seq<Frame>) -> (ReassemblyState, Seq<Seq<char>>)
    decreases frames.len(),
{
    if frames.len() == 0 {
        (s, Seq::empty())
    } else {
        let (s1, out1) = run(s, frames.drop_last());
        let (s2, o) = step(s1, frames.last());
        (s2, match o {
            Some(m) => out1.push(m),
            None => out1,
        })
    }
}

/// No frame makes the buffer outgrow the declared length, and a message
/// completed by a data byte has exactly the declared length.
pub proof fn lemma_step_within_capacity(s: ReassemblyState, frame: Frame)
    requires
        s.buffer.len() <= s.capacity,
    ensures
        step(s, frame).0.buffer.len() <= step(s, frame).0.capacity,
        frame is DataByte && step(s, frame).1 is Some ==> step(s, frame).1->Some_0.len() == s.capacity,
{
}

/// Under a key-event layout, each of two checksum-valid samples decodes to a
/// key press, and feeding both in turn, from any state, emits exactly their
/// two keys and leaves the state as it was.
pub proof fn lemma_key_frames_independent(first: u32, second: u32, layout: LayoutProfile, s: ReassemblyState)
    requires
        layout.wf(),
        layout.variant == Variant::KeyEvent,
        checksum_ok(first, layout.checksum, layout.fields@),
        checksum_ok(second, layout.checksum, layout.fields@),
    ensures
        frame_of(first, layout) == Ok::<Frame, CodecError>(Frame::KeyPress(key_event_of(first, layout))),
        frame_of(second, layout) == Ok::<Frame, CodecError>(Frame::KeyPress(key_event_of(second, layout))),
        run(s, seq![Frame::KeyPress(key_event_of(first, layout)), Frame::KeyPress(key_event_of(second, layout))])
            == (s, seq![
                seq![key_event_of(first, layout).key_code as char],
                seq![key_event_of(second, layout).key_code as char],
            ]),
{
    let frames = seq![Frame::KeyPress(key_event_of(first, layout)), Frame::KeyPress(key_event_of(second, layout))];
    assert(frames.drop_last() =~= seq![frames[0]]);
    assert(frames.drop_last().drop_last() =~= Seq::<Frame>::empty());
    reveal_with_fuel(run, 3);
    assert(run(s, frames).1 =~= seq![
        seq![key_event_of(first, layout).key_code as char],
        seq![key_event_of(second, layout).key_code as char],
    ]);
}

/// View of an emitted message.
pub open spec fn message_view(m: Option<String>) -> Option<Seq<char>> {
    match m {
        Some(s) => Some(s@),
        None => None,
    }
}

/// Relies on `String::push`: appends one character to the end of the string.
#[verifier::external_body]
fn push_char(s: &mut String, c: char)
    ensures
        final(s)@ == old(s)@.push(c),
{
    s.push(c);
}

/// Collects `chars` into a string.
pub fn chars_to_string(chars: &Vec<char>) -> (r: String)
    ensures
        r@ == chars@,
{
    let mut s = String::new();
    let mut i: usize = 0;
    while i < chars.len()
        invariant
            i <= chars@.len(),
            s@ == chars@.subrange(0, i as int),
        decreases chars@.len() - i,
    {
        push_char(&mut s, chars[i]);
        proof {
            assert(chars@.subrange(0, i + 1) =~= chars@.subrange(0, i as int).push(chars@[i as int]));
        }
        i = i + 1;
    }
    proof {
        assert(chars@.subrange(0, chars@.len() as int) =~= chars@);
    }
    s
}

/// Reassembles text messages from metadata-aware frames; key presses pass
/// through unbuffered.
pub struct Reassembler {
    capacity: usize,
    buffer: Vec<char>,
}

impl View for Reassembler {
    type V = ReassemblyState;

    closed spec fn view(&self) -> ReassemblyState {
        ReassemblyState { capacity: self.capacity as nat, buffer: self.buffer@ }
    }
}

impl Reassembler {
    /// No message in progress and nothing declared.
    pub fn new() -> (r: Reassembler)
        ensures
            r@ == empty_state(),
    {
        Reassembler { capacity: 0, buffer: Vec::new() }
    }

    /// The declared length of the message in progress.
    pub fn capacity(&self) -> (r: usize)
        ensures
            r as nat == self@.capacity,
    {
        self.capacity
    }

    /// Number of characters gathered for the message in progress.
    pub fn buffered(&self) -> (r: usize)
        ensures
            r as nat == self@.buffer.len(),
    {
        self.buffer.len()
    }

    /// Feeds one frame and returns the message it completes, if any.
    pub fn accept(&mut self, frame: Frame) -> (r: Option<String>)
        ensures
            (final(self)@, message_view(r)) == step(old(self)@, frame),
    {
        match frame {
            Frame::DeclareLength(len) => {
                self.capacity = len as usize;
                self.buffer = Vec::new();
                None
            },
            Frame::EndOfMessage => {
                let message = chars_to_string(&self.buffer);
                self.capacity = 0;
                self.buffer = Vec::new();
                Some(message)
            },
            Frame::DataByte(v) => {
                if self.buffer.len() >= self.capacity {
                    return None;
                }
                self.buffer.push(v as char);
                if self.buffer.len() == self.capacity {
                    let message = chars_to_string(&self.buffer);
                    self.capacity = 0;
                    self.buffer = Vec::new();
                    Some(message)
                } else {
                    None
                }
            },
            Frame::KeyPress(k) => {
                let mut key = String::new();
                push_char(&mut key, k.key_code as char);
                proof {
                    assert(key@ =~= seq![k.key_code as char]);
                }
                Some(key)
            },
        }
    }

    /// Feeds `frames` in order and returns the messages they complete, in
    /// the order of completion.
    pub fn accept_all(&mut self, frames: &Vec<Frame>) -> (r: Vec<String>)
        ensures
            final(self)@ == run(old(self)@, frames@).0,
            r@.map_values(|m: String| m@) == run(old(self)@, frames@).1,
    {
        let ghost start = self@;
        let mut out: Vec<String> = Vec::new();
        let mut i: usize = 0;
        while i < frames.len()
            invariant
                i <= frames@.len(),
                self@ == run(start, frames@.subrange(0, i as int)).0,
                out@.map_values(|m: String| m@) == run(start, frames@.subrange(0, i as int)).1,
            decreases frames@.len() - i,
        {
            let ghost before = out@;
            proof {
                assert(frames@.subrange(0, i + 1).drop_last() =~= frames@.subrange(0, i as int));
            }
            match self.accept(frames[i]) {
                Some(m) => {
                    out.push(m);
                    proof {
                        assert(out@.map_values(|m: String| m@) =~= before.map_values(|m: String| m@).push(m@));
                    }
                },
                None => {},
            }
            i = i + 1;
        }
        proof {
            assert(frames@.subrange(0, frames@.len() as int) =~= frames@);
        }
        out
    }
}

} // verus!
