//! How a sender packs fields into a sample, and what the checksum then
//! detects.
use vstd::prelude::*;
use crate::codec::{checksum_ok, field_sum, frame_of};
use crate::layout::{layout_a_checksum, layout_a_fields, layout_b_checksum, layout_b_fields, BitField, LayoutProfile};

verus! {

/// A sample of the metadata-aware layout with the given field values.
pub open spec fn pack_a(is_metadata: u32, message_type: u32, sequence: u32, checksum: u32, payload: u32) -> u32 {
    (is_metadata << 23u32) | (message_type << 19u32) | (sequence << 15u32) | (checksum << 8u32) | payload
}

/// A sample of the key-event layout with the given field values.
pub open spec fn pack_b(
    sequence: u32,
    checksum: u32,
    key_code: u32,
    is_virtual_key: u32,
    ctrl: u32,
    alt: u32,
    shift: u32,
    win: u32,
) -> u32 {
    (sequence << 20u32) | (checksum << 13u32) | (key_code << 5u32) | (is_virtual_key << 4u32) | (ctrl << 3u32)
        | (alt << 2u32) | (shift << 1u32) | win
}

/// Truncated average of the four checksummed fields of the metadata-aware
/// layout, cut to its low byte.
pub open spec fn average_a(is_metadata: u32, message_type: u32, sequence: u32, payload: u32) -> int {
    ((is_metadata + message_type + sequence + payload) / 4) % 256
}

/// Truncated average of the seven checksummed fields of the key-event
/// layout, cut to its low byte.
pub open spec fn average_b(
    sequence: u32,
    key_code: u32,
    is_virtual_key: u32,
    ctrl: u32,
    alt: u32,
    shift: u32,
    win: u32,
) -> int {
    ((sequence + key_code + is_virtual_key + ctrl + alt + shift + win) / 7) % 256
}

/// Decoding depends on the layout's description alone, so repeated decoding
/// of one sample under one layout gives one result.
pub proof fn lemma_decode_deterministic(raw: u32, a: LayoutProfile, b: LayoutProfile)
    requires
        a.variant == b.variant,
        a.checksum == b.checksum,
        a.fields@ == b.fields@,
    ensures
        frame_of(raw, a) == frame_of(raw, b),
{
}

/// A metadata-aware sample passes the checksum exactly when its checksum field
/// holds the truncated average of its other fields: a frame packed with that
/// average passes, and changing any field without updating the checksum fails
/// whenever the change moves the average.
pub proof fn lemma_checksum_a(is_metadata: u32, message_type: u32, sequence: u32, checksum: u32, payload: u32)
    requires
        is_metadata < 2,
        message_type < 16,
        sequence < 16,
        checksum < 128,
        payload < 256,
    ensures
        checksum_ok(
            pack_a(is_metadata, message_type, sequence, checksum, payload),
            layout_a_checksum(),
            layout_a_fields(),
        ) <==> checksum as int == average_a(is_metadata, message_type, sequence, payload),
{
    let raw = pack_a(is_metadata, message_type, sequence, checksum, payload);
    let (m, t, s, c, p) = (is_metadata, message_type, sequence, checksum, payload);
    assert((raw >> 23u32) % (1u32 << 1u32) == m) by (bit_vector)
        requires raw == (m << 23u32) | (t << 19u32) | (s << 15u32) | (c << 8u32) | p, m < 2, t < 16, s < 16, c < 128, p < 256;
    assert((raw >> 19u32) % (1u32 << 4u32) == t) by (bit_vector)
        requires raw == (m << 23u32) | (t << 19u32) | (s << 15u32) | (c << 8u32) | p, m < 2, t < 16, s < 16, c < 128, p < 256;
    assert((raw >> 15u32) % (1u32 << 4u32) == s) by (bit_vector)
        requires raw == (m << 23u32) | (t << 19u32) | (s << 15u32) | (c << 8u32) | p, m < 2, t < 16, s < 16, c < 128, p < 256;
    assert((raw >> 8u32) % (1u32 << 7u32) == c) by (bit_vector)
        requires raw == (m << 23u32) | (t << 19u32) | (s << 15u32) | (c << 8u32) | p, m < 2, t < 16, s < 16, c < 128, p < 256;
    assert((raw >> 0u32) % (1u32 << 8u32) == p) by (bit_vector)
        requires raw == (m << 23u32) | (t << 19u32) | (s << 15u32) | (c << 8u32) | p, m < 2, t < 16, s < 16, c < 128, p < 256;
    reveal_with_fuel(field_sum, 5);
    let fs = layout_a_fields();
    assert(fs.drop_last() =~= seq![fs[0], fs[1], fs[2]]);
    assert(fs.drop_last().drop_last() =~= seq![fs[0], fs[1]]);
    assert(fs.drop_last().drop_last().drop_last() =~= seq![fs[0]]);
    assert(fs.drop_last().drop_last().drop_last().drop_last() =~= Seq::<BitField>::empty());
}

/// A key-event sample passes the checksum exactly when its checksum field
/// holds the truncated average of its other fields: a frame packed with that
/// average passes, and changing any field without updating the checksum fails
/// whenever the change moves the average.
pub proof fn lemma_checksum_b(
    sequence: u32,
    checksum: u32,
    key_code: u32,
    is_virtual_key: u32,
    ctrl: u32,
    alt: u32,
    shift: u32,
    win: u32,
)
    requires
        sequence < 16,
        checksum < 128,
        key_code < 256,
        is_virtual_key < 2,
        ctrl < 2,
        alt < 2,
        shift < 2,
        win < 2,
    ensures
        checksum_ok(
            pack_b(sequence, checksum, key_code, is_virtual_key, ctrl, alt, shift, win),
            layout_b_checksum(),
            layout_b_fields(),
        ) <==> checksum as int == average_b(sequence, key_code, is_virtual_key, ctrl, alt, shift, win),
{
    let raw = pack_b(sequence, checksum, key_code, is_virtual_key, ctrl, alt, shift, win);
    let (s, c, k, v, l, a, h, w) = (sequence, checksum, key_code, is_virtual_key, ctrl, alt, shift, win);
    assert((raw >> 20u32) % (1u32 << 4u32) == s
        && (raw >> 13u32) % (1u32 << 7u32) == c
        && (raw >> 5u32) % (1u32 << 8u32) == k
        && (raw >> 4u32) % (1u32 << 1u32) == v
        && (raw >> 3u32) % (1u32 << 1u32) == l
        && (raw >> 2u32) % (1u32 << 1u32) == a
        && (raw >> 1u32) % (1u32 << 1u32) == h
        && (raw >> 0u32) % (1u32 << 1u32) == w) by (bit_vector)
        requires
            raw == (s << 20u32) | (c << 13u32) | (k << 5u32) | (v << 4u32) | (l << 3u32) | (a << 2u32) | (h << 1u32) | w,
            s < 16, c < 128, k < 256, v < 2, l < 2, a < 2, h < 2, w < 2;
    reveal_with_fuel(field_sum, 8);
    let fs = layout_b_fields();
    assert(fs.drop_last() =~= fs.subrange(0, 6));
    assert(fs.subrange(0, 6).drop_last() =~= fs.subrange(0, 5));
    assert(fs.subrange(0, 5).drop_last() =~= fs.subrange(0, 4));
    assert(fs.subrange(0, 4).drop_last() =~= fs.subrange(0, 3));
    assert(fs.subrange(0, 3).drop_last() =~= fs.subrange(0, 2));
    assert(fs.subrange(0, 2).drop_last() =~= fs.subrange(0, 1));
    assert(fs.subrange(0, 1).drop_last() =~= Seq::<BitField>::empty());
}

} // verus!
