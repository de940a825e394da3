//! A raw sample read through the metadata-aware layout, field by field.
use vstd::prelude::*;
use crate::codec::{checksum_ok, CodecError, TYPE_END, TYPE_PLAIN};
use crate::layout::{
    layout_a_checksum, layout_a_fields, BitField, IS_METADATA, MESSAGE_TYPE, PAYLOAD, SEQUENCE,
};

verus! {

/// Kind of a frame of the metadata-aware layout.
#[derive(Clone, Copy, Debug, PartialEq, Eq, Structural)]
pub enum MessageType {
    DataText,
    MetadataDataLength,
    MetadataEndOfMessage,
}

/// The kind of frame that the is-metadata flag and message-type code give.
pub open spec fn message_type_of(is_metadata: u32, message_type: u32) -> Result<MessageType, CodecError> {
    if is_metadata == 1 {
        if message_type == TYPE_PLAIN as u32 {
            Ok(MessageType::MetadataDataLength)
        } else if message_type == TYPE_END as u32 {
            Ok(MessageType::MetadataEndOfMessage)
        } else {
            Err(CodecError::InvalidMetadataType(message_type as u8))
        }
    } else if message_type == TYPE_PLAIN as u32 {
        Ok(MessageType::DataText)
    } else {
        Err(CodecError::InvalidDataType(message_type as u8))
    }
}

/// Bits of a sample that the metadata-aware layout gives meaning to.
pub const SAMPLE_MASK: u32 = 0xFF_FFFF;

/// A 24-bit sample read with the metadata-aware layout.
#[derive(Clone, Copy, Debug, PartialEq, Eq, Structural)]
pub struct MessageFlags {
    pub bits: u32,
}

impl MessageFlags {
    /// Value of the field at position `i` of the metadata-aware layout.
    pub open spec fn field(self, i: int) -> u32 {
        layout_a_fields()[i].value_of(self.bits)
    }

    /// Keeps the 24 meaningful bits of `bits` and drops the rest.
    pub fn from_bits_truncate(bits: u32) -> (r: MessageFlags)
        ensures
            r.bits == bits & SAMPLE_MASK,
    {
        MessageFlags { bits: bits & SAMPLE_MASK }
    }

    pub fn get_is_metadata_byte(&self) -> (r: u8)
        ensures
            r as u32 == self.field(IS_METADATA as int),
    {
        BitField { offset: 23, width: 1 }.extract(self.bits)
    }

    pub fn get_is_metadata(&self) -> (r: bool)
        ensures
            r == (self.field(IS_METADATA as int) == 1),
    {
        self.get_is_metadata_byte() == 1
    }

    pub fn get_message_type_byte(&self) -> (r: u8)
        ensures
            r as u32 == self.field(MESSAGE_TYPE as int),
    {
        BitField { offset: 19, width: 4 }.extract(self.bits)
    }

    /// Classifies the frame; a code outside the defined set for its
    /// is-metadata flag is reported, never coerced.
    pub fn get_message_type(&self) -> (r: Result<MessageType, CodecError>)
        ensures
            r == message_type_of(self.field(IS_METADATA as int), self.field(MESSAGE_TYPE as int)),
    {
        let msg_type = self.get_message_type_byte();
        if self.get_is_metadata() {
            if msg_type == TYPE_PLAIN {
                Ok(MessageType::MetadataDataLength)
            } else if msg_type == TYPE_END {
                Ok(MessageType::MetadataEndOfMessage)
            } else {
                Err(CodecError::InvalidMetadataType(msg_type))
            }
        } else if msg_type == TYPE_PLAIN {
            Ok(MessageType::DataText)
        } else {
            Err(CodecError::InvalidDataType(msg_type))
        }
    }

    pub fn get_sequence_number_byte(&self) -> (r: u8)
        ensures
            r as u32 == self.field(SEQUENCE as int),
    {
        BitField { offset: 15, width: 4 }.extract(self.bits)
    }

    pub fn get_checksum_byte(&self) -> (r: u8)
        ensures
            r as u32 == layout_a_checksum().value_of(self.bits),
    {
        BitField { offset: 8, width: 7 }.extract(self.bits)
    }

    pub fn get_data(&self) -> (r: u8)
        ensures
            r as u32 == self.field(PAYLOAD as int),
    {
        BitField { offset: 0, width: 8 }.extract(self.bits)
    }

    /// The payload read as a character (a key code in the key-event reading).
    pub fn get_key_code(&self) -> (r: char)
        ensures
            r == (self.field(PAYLOAD as int) as u8) as char,
    {
        self.get_data() as char
    }

    /// The payload: a text byte, or a declared length.
    pub fn get_value(&self) -> (r: u8)
        ensures
            r as u32 == self.field(PAYLOAD as int),
    {
        self.get_data()
    }

    /// The raw sample.
    pub fn get_pixel_value(&self) -> (r: u32)
        ensures
            r == self.bits,
    {
        self.bits
    }

    /// Whether the checksum field equals the truncated average of the
    /// is-metadata, message-type, sequence-number and payload fields.
    pub fn is_checksum_valid(&self) -> (r: bool)
        ensures
            r == checksum_ok(self.bits, layout_a_checksum(), layout_a_fields()),
    {
        // widened to u32 so that the sum cannot wrap
        let calculated_checksum = (self.get_is_metadata_byte() as u32
            + self.get_message_type_byte() as u32 + self.get_sequence_number_byte() as u32
            + self.get_data() as u32) / 4;
        proof {
            reveal_with_fuel(crate::codec::field_sum, 5);
            let fs = layout_a_fields();
            assert(fs.drop_last() =~= seq![fs[0], fs[1], fs[2]]);
            assert(fs.drop_last().drop_last() =~= seq![fs[0], fs[1]]);
            assert(fs.drop_last().drop_last().drop_last() =~= seq![fs[0]]);
            assert(fs.drop_last().drop_last().drop_last().drop_last() =~= Seq::<BitField>::empty());
        }
        calculated_checksum % 256 == self.get_checksum_byte() as u32
    }
}

} // verus!
