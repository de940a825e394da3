//! Per-sample decisions of a polling receiver: drop repeats of the held
//! sample and checksum noise, decode the rest and feed the reassembler.
use vstd::prelude::*;
use crate::codec::{decode, frame_of, CodecError, Frame};
use crate::layout::LayoutProfile;
use crate::reassembler::{empty_state, message_view, step, Reassembler, ReassemblyState};

verus! {

/// What a fresh sample yields: nothing when it repeats the last accepted
/// sample or fails its checksum, otherwise its decoding.
pub open spec fn poll_result(previous: Option<u32>, sample: u32, layout: LayoutProfile) -> Option<Result<Frame, CodecError>> {
    if previous == Some(sample) {
        None
    } else {
        match frame_of(sample, layout) {
            Err(CodecError::ChecksumMismatch) => None,
            d => Some(d),
        }
    }
}

/// Filters and decodes one polled sample; `previous_value` is the last
/// sample that was accepted, if any.
pub fn read_one_message(previous_value: Option<u32>, pixel_color: u32, layout: &LayoutProfile) -> (r: Option<Result<Frame, CodecError>>)
    requires
        layout.wf(),
    ensures
        r == poll_result(previous_value, pixel_color, *layout),
{
    if previous_value == Some(pixel_color) {
        return None;
    }
    match decode(pixel_color, layout) {
        Err(CodecError::ChecksumMismatch) => None,
        d => Some(d),
    }
}

/// Abstract state of a receiver.
pub ghost struct ReceiverState {
    pub layout: LayoutProfile,
    pub previous: Option<u32>,
    pub reassembly: ReassemblyState,
}

/// One sample's effect on a receiver: the next state, and the completed
/// message or the protocol violation that the sample brings.
pub open spec fn receive(s: ReceiverState, sample: u32) -> (ReceiverState, Result<Option<Seq<char>>, CodecError>) {
    match poll_result(s.previous, sample, s.layout) {
        None => (s, Ok(None)),
        Some(Ok(f)) => (
            ReceiverState { layout: s.layout, previous: Some(sample), reassembly: step(s.reassembly, f).0 },
            Ok(step(s.reassembly, f).1),
        ),
        Some(Err(e)) => (ReceiverState { layout: s.layout, previous: Some(sample), reassembly: s.reassembly }, Err(e)),
    }
}

/// View of what one sample produced.
pub open spec fn outcome_view(r: Result<Option<String>, CodecError>) -> Result<Option<Seq<char>>, CodecError> {
    match r {
        Ok(m) => Ok(message_view(m)),
        Err(e) => Err(e),
    }
}

/// Receives polled samples one at a time under a fixed layout.
pub struct Receiver {
    layout: LayoutProfile,
    previous: Option<u32>,
    reassembler: Reassembler,
}

impl View for Receiver {
    type V = ReceiverState;

    closed spec fn view(&self) -> ReceiverState {
        ReceiverState { layout: self.layout, previous: self.previous, reassembly: self.reassembler@ }
    }
}

impl Receiver {
    pub open spec fn wf(&self) -> bool {
        self@.layout.wf()
    }

    /// A receiver that has accepted nothing yet.
    pub fn new(layout: LayoutProfile) -> (r: Receiver)
        requires
            layout.wf(),
        ensures
            r.wf(),
            r@ == (ReceiverState { layout, previous: None, reassembly: empty_state() }),
    {
        Receiver { layout, previous: None, reassembler: Reassembler::new() }
    }

    /// Handles one polled sample.
    pub fn on_sample(&mut self, sample: u32) -> (r: Result<Option<String>, CodecError>)
        requires
            old(self).wf(),
        ensures
            final(self).wf(),
            (final(self)@, outcome_view(r)) == receive(old(self)@, sample),
    {
        match read_one_message(self.previous, sample, &self.layout) {
            None => Ok(None),
            Some(Ok(frame)) => {
                self.previous = Some(sample);
                Ok(self.reassembler.accept(frame))
            },
            Some(Err(e)) => {
                self.previous = Some(sample);
                Err(e)
            },
        }
    }
}

} // verus!
