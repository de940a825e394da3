//! The frame codec: checksum validation and classification of raw samples.
use vstd::prelude::*;
use crate::layout::{
    BitField, LayoutProfile, Variant, IS_METADATA, MESSAGE_TYPE, PAYLOAD, KEY_SEQUENCE, KEY_CODE,
    VIRTUAL_KEY, CTRL, ALT, SHIFT, WIN,
};

verus! {

/// Message-type code of a length declaration (metadata) or of a text byte (data).
pub const TYPE_PLAIN: u8 = 0x0;

/// Message-type code of an end-of-message frame (metadata).
pub const TYPE_END: u8 = 0xF;

/// One key press of the key-event layout.
#[derive(Clone, Copy, Debug, PartialEq, Eq, Structural)]
pub struct KeyEvent {
    pub sequence: u8,
    pub key_code: u8,
    pub is_virtual_key: bool,
    pub ctrl: bool,
    pub alt: bool,
    pub shift: bool,
    pub win: bool,
}

/// A validated, classified frame.
#[derive(Clone, Copy, Debug, PartialEq, Eq, Structural)]
pub enum Frame {
    /// A message of this many bytes follows.
    DeclareLength(u8),
    /// The message in progress is complete.
    EndOfMessage,
    /// One byte of message text.
    DataByte(u8),
    /// A key press of the key-event layout.
    KeyPress(KeyEvent),
}

/// Why a raw sample was not accepted as a frame.
#[derive(Clone, Copy, Debug, PartialEq, Eq, Structural)]
pub enum CodecError {
    /// The transmitted checksum disagrees with the one computed from the fields.
    ChecksumMismatch,
    /// A metadata frame carries a message type other than length or end.
    InvalidMetadataType(u8),
    /// A data frame carries a message type other than text.
    InvalidDataType(u8),
}

/// Sum of the values of `fields` in `raw`.
pub open spec fn field_sum(raw: u32, fields: Seq<BitField>) -> nat
    decreases fields.len(),
{
    if fields.len() == 0 {
        0
    } else {
        field_sum(raw, fields.drop_last()) + fields.last().value_of(raw) as nat
    }
}

/// The checksum a sender computes over `fields`: the truncated average of
/// their values, cut to its low byte.
pub open spec fn average_checksum(raw: u32, fields: Seq<BitField>) -> int {
    (field_sum(raw, fields) as int / fields.len() as int) % 256
}

/// The `checksum` field of `raw` equals the checksum computed from `fields`.
pub open spec fn checksum_ok(raw: u32, checksum: BitField, fields: Seq<BitField>) -> bool {
    checksum.value_of(raw) as int == average_checksum(raw, fields)
}

/// Value of the field at position `i` of the layout.
pub open spec fn field_at(raw: u32, layout: LayoutProfile, i: int) -> u32 {
    layout.fields@[i].value_of(raw)
}

/// Classification of a checksum-valid frame of a `Framed` layout.
pub open spec fn classify(is_metadata: u32, message_type: u32, payload: u32) -> Result<Frame, CodecError> {
    if is_metadata == 1 {
        if message_type == TYPE_PLAIN as u32 {
            Ok(Frame::DeclareLength(payload as u8))
        } else if message_type == TYPE_END as u32 {
            Ok(Frame::EndOfMessage)
        } else {
            Err(CodecError::InvalidMetadataType(message_type as u8))
        }
    } else {
        if message_type == TYPE_PLAIN as u32 {
            Ok(Frame::DataByte(payload as u8))
        } else {
            Err(CodecError::InvalidDataType(message_type as u8))
        }
    }
}

/// The key press that the fields of a `KeyEvent` layout describe.
pub open spec fn key_event_of(raw: u32, layout: LayoutProfile) -> KeyEvent {
    KeyEvent {
        sequence: field_at(raw, layout, KEY_SEQUENCE as int) as u8,
        key_code: field_at(raw, layout, KEY_CODE as int) as u8,
        is_virtual_key: field_at(raw, layout, VIRTUAL_KEY as int) == 1,
        ctrl: field_at(raw, layout, CTRL as int) == 1,
        alt: field_at(raw, layout, ALT as int) == 1,
        shift: field_at(raw, layout, SHIFT as int) == 1,
        win: field_at(raw, layout, WIN as int) == 1,
    }
}

/// What `raw` decodes to under `layout`.
pub open spec fn frame_of(raw: u32, layout: LayoutProfile) -> Result<Frame, CodecError> {
    if !checksum_ok(raw, layout.checksum, layout.fields@) {
        Err(CodecError::ChecksumMismatch)
    } else {
        match layout.variant {
            Variant::Framed => classify(
                field_at(raw, layout, IS_METADATA as int),
                field_at(raw, layout, MESSAGE_TYPE as int),
                field_at(raw, layout, PAYLOAD as int),
            ),
            Variant::KeyEvent => Ok(Frame::KeyPress(key_event_of(raw, layout))),
        }
    }
}

/// Computes the checksum of `raw` from the layout's fields and compares it with
/// the transmitted one.
pub fn checksum_matches(raw: u32, layout: &LayoutProfile) -> (r: bool)
    requires
        layout.wf(),
    ensures
        r == checksum_ok(raw, layout.checksum, layout.fields@),
{
    let n = layout.fields.len();
    let mut sum: u32 = 0;
    let mut i: usize = 0;
    while i < n
        invariant
            layout.wf(),
            n == layout.fields@.len(),
            i <= n,
            sum as nat == field_sum(raw, layout.fields@.subrange(0, i as int)),
            sum <= 255 * i,
        decreases n - i,
    {
        let f = layout.fields[i];
        let v = f.extract(raw);
        proof {
            let fs = layout.fields@;
            assert(fs.subrange(0, i + 1).drop_last() =~= fs.subrange(0, i as int));
        }
        sum = sum + v as u32;
        i = i + 1;
    }
    proof {
        assert(layout.fields@.subrange(0, n as int) =~= layout.fields@);
    }
    let computed = (sum / n as u32) % 256;
    computed == layout.checksum.extract(raw) as u32
}

/// Interprets `raw` as a frame of `layout`: rejects a checksum mismatch, then
/// classifies the frame.
pub fn decode(raw: u32, layout: &LayoutProfile) -> (r: Result<Frame, CodecError>)
    requires
        layout.wf(),
    ensures
        r == frame_of(raw, *layout),
{
    if !checksum_matches(raw, layout) {
        return Err(CodecError::ChecksumMismatch);
    }
    match layout.variant {
        Variant::Framed => {
            let is_metadata = layout.fields[IS_METADATA].extract(raw);
            let message_type = layout.fields[MESSAGE_TYPE].extract(raw);
            let payload = layout.fields[PAYLOAD].extract(raw);
            classify_frame(is_metadata, message_type, payload)
        },
        Variant::KeyEvent => {
            let key = KeyEvent {
                sequence: layout.fields[KEY_SEQUENCE].extract(raw),
                key_code: layout.fields[KEY_CODE].extract(raw),
                is_virtual_key: layout.fields[VIRTUAL_KEY].extract(raw) == 1,
                ctrl: layout.fields[CTRL].extract(raw) == 1,
                alt: layout.fields[ALT].extract(raw) == 1,
                shift: layout.fields[SHIFT].extract(raw) == 1,
                win: layout.fields[WIN].extract(raw) == 1,
            };
            Ok(Frame::KeyPress(key))
        },
    }
}

/// Classifies the fields of a checksum-valid `Framed` frame.
pub fn classify_frame(is_metadata: u8, message_type: u8, payload: u8) -> (r: Result<Frame, CodecError>)
    ensures
        r == classify(is_metadata as u32, message_type as u32, payload as u32),
{
    if is_metadata == 1 {
        if message_type == TYPE_PLAIN {
            Ok(Frame::DeclareLength(payload))
        } else if message_type == TYPE_END {
            Ok(Frame::EndOfMessage)
        } else {
            Err(CodecError::InvalidMetadataType(message_type))
        }
    } else if message_type == TYPE_PLAIN {
        Ok(Frame::DataByte(payload))
    } else {
        Err(CodecError::InvalidDataType(message_type))
    }
}

} // verus!
