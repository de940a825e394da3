//! Decoder for a single-channel signalling protocol carried in 24-bit colour
//! samples: a bit-field frame codec and a message reassembler.
pub mod layout;
pub mod codec;
pub mod flags;
pub mod reassembler;
pub mod receiver;
pub mod packing;
