//! Layout profiles: where each field of a frame sits inside a raw sample.
use vstd::prelude::*;

verus! {

/// A run of `width` bits starting `offset` bits above the least significant bit.
#[derive(Clone, Copy, Debug, PartialEq, Eq, Structural)]
pub struct BitField {
    pub offset: u32,
    pub width: u32,
}

/// Number of meaningful bits in a raw sample.
pub const SAMPLE_BITS: u32 = 24;

/// Widest field a layout may describe: every field fits in a byte.
pub const MAX_FIELD_WIDTH: u32 = 8;

impl BitField {
    /// The field is one to eight bits wide and lies inside the sample.
    pub open spec fn wf(self) -> bool {
        &&& 1 <= self.width <= MAX_FIELD_WIDTH
        &&& self.offset + self.width <= SAMPLE_BITS
    }

    /// The two fields share at least one bit.
    pub open spec fn overlaps(self, other: BitField) -> bool {
        &&& self.offset < other.offset + other.width
        &&& other.offset < self.offset + self.width
    }

    /// Whether the field is one to eight bits wide and lies inside the sample.
    pub fn is_valid(&self) -> (r: bool)
        ensures
            r == self.wf(),
    {
        1 <= self.width && self.width <= MAX_FIELD_WIDTH && self.offset <= SAMPLE_BITS
            && self.width <= SAMPLE_BITS - self.offset
    }

    /// Whether the two fields share a bit.
    pub fn overlaps_with(&self, other: &BitField) -> (r: bool)
        ensures
            r == self.overlaps(*other),
    {
        (self.offset as u64) < other.offset as u64 + other.width as u64
            && (other.offset as u64) < self.offset as u64 + self.width as u64
    }

    /// The unsigned value held by this field of `raw`.
    pub open spec fn value_of(self, raw: u32) -> u32 {
        (raw >> self.offset) % (1u32 << self.width)
    }

    /// Reads this field of `raw`.
    pub fn extract(&self, raw: u32) -> (r: u8)
        requires
            self.wf(),
        ensures
            r as u32 == self.value_of(raw),
    {
        let w = self.width;
        assert(1 <= w <= 8 ==> 2 <= (1u32 << w) <= 256) by (bit_vector);
        let v = (raw >> self.offset) % (1u32 << w);
        v as u8
    }
}

/// Which framing a layout describes, and so what its fields mean.
#[derive(Clone, Copy, Debug, PartialEq, Eq, Structural)]
pub enum Variant {
    /// Metadata-aware frames reassembled into text messages: fields are
    /// is-metadata, message type, sequence number, payload.
    Framed,
    /// Self-contained key presses: fields are sequence number, key code,
    /// is-virtual-key, ctrl, alt, shift, win.
    KeyEvent,
}

/// Position of each field of a `Framed` layout.
pub const IS_METADATA: usize = 0;
pub const MESSAGE_TYPE: usize = 1;
pub const SEQUENCE: usize = 2;
pub const PAYLOAD: usize = 3;

/// Position of each field of a `KeyEvent` layout.
pub const KEY_SEQUENCE: usize = 0;
pub const KEY_CODE: usize = 1;
pub const VIRTUAL_KEY: usize = 2;
pub const CTRL: usize = 3;
pub const ALT: usize = 4;
pub const SHIFT: usize = 5;
pub const WIN: usize = 6;

impl Variant {
    /// How many fields (besides the checksum) a layout of this variant has.
    pub open spec fn field_count(self) -> nat {
        match self {
            Variant::Framed => 4,
            Variant::KeyEvent => 7,
        }
    }
}

/// A data-described layout: the checksum field and, in the order that the
/// variant gives them meaning, the fields that the checksum averages.
pub struct LayoutProfile {
    pub variant: Variant,
    pub checksum: BitField,
    pub fields: Vec<BitField>,
}

impl LayoutProfile {
    /// Every field is valid, the count matches the variant, and no two fields
    /// (checksum included) share a bit.
    pub open spec fn wf(&self) -> bool {
        layout_ok(self.variant, self.checksum, self.fields@)
    }

    /// A profile of `variant` with the given fields, if they describe a valid
    /// layout.
    pub fn custom(variant: Variant, checksum: BitField, fields: Vec<BitField>) -> (r: Option<LayoutProfile>)
        ensures
            r is Some <==> layout_ok(variant, checksum, fields@),
            r matches Some(l) ==> l.variant == variant && l.checksum == checksum && l.fields@ == fields@,
    {
        let count: usize = match variant {
            Variant::Framed => 4,
            Variant::KeyEvent => 7,
        };
        if !checksum.is_valid() || fields.len() != count {
            return None;
        }
        let n = fields.len();
        let mut i: usize = 0;
        while i < n
            invariant
                n == fields@.len(),
                i <= n,
                forall|k: int| 0 <= k < i ==> (#[trigger] fields@[k]).wf(),
                forall|k: int| 0 <= k < i ==> !(#[trigger] fields@[k]).overlaps(checksum),
                forall|k: int, j: int| 0 <= k < j < n && k < i ==> !(#[trigger] fields@[k]).overlaps(#[trigger] fields@[j]),
            decreases n - i,
        {
            let f = fields[i];
            if !f.is_valid() || f.overlaps_with(&checksum) {
                return None;
            }
            let mut j: usize = i + 1;
            while j < n
                invariant
                    n == fields@.len(),
                    i < n,
                    i < j <= n,
                    f == fields@[i as int],
                    forall|m: int| i < m < j ==> !f.overlaps(#[trigger] fields@[m]),
                decreases n - j,
            {
                if f.overlaps_with(&fields[j]) {
                    return None;
                }
                j = j + 1;
            }
            i = i + 1;
        }
        Some(LayoutProfile { variant, checksum, fields })
    }

    /// Metadata-aware layout, most significant bit first: is-metadata (1),
    /// message type (4), sequence number (4), checksum (7), payload (8).
    pub fn layout_a() -> (r: LayoutProfile)
        ensures
            r.wf(),
            r.variant == Variant::Framed,
            r.checksum == layout_a_checksum(),
            r.fields@ == layout_a_fields(),
    {
        let fields = vec![
            BitField { offset: 23, width: 1 },
            BitField { offset: 19, width: 4 },
            BitField { offset: 15, width: 4 },
            BitField { offset: 0, width: 8 },
        ];
        LayoutProfile { variant: Variant::Framed, checksum: BitField { offset: 8, width: 7 }, fields }
    }

    /// Key-event layout, most significant bit first: sequence number (4),
    /// checksum (7), key code (8), is-virtual-key, ctrl, alt, shift, win (1 each).
    pub fn layout_b() -> (r: LayoutProfile)
        ensures
            r.wf(),
            r.variant == Variant::KeyEvent,
            r.checksum == layout_b_checksum(),
            r.fields@ == layout_b_fields(),
    {
        let fields = vec![
            BitField { offset: 20, width: 4 },
            BitField { offset: 5, width: 8 },
            BitField { offset: 4, width: 1 },
            BitField { offset: 3, width: 1 },
            BitField { offset: 2, width: 1 },
            BitField { offset: 1, width: 1 },
            BitField { offset: 0, width: 1 },
        ];
        LayoutProfile { variant: Variant::KeyEvent, checksum: BitField { offset: 13, width: 7 }, fields }
    }
}

/// `fields` and `checksum` are valid, their count matches `variant`, and no two
/// of them share a bit.
pub open spec fn layout_ok(variant: Variant, checksum: BitField, fields: Seq<BitField>) -> bool {
    &&& checksum.wf()
    &&& fields.len() == variant.field_count()
    &&& forall|i: int| 0 <= i < fields.len() ==> (#[trigger] fields[i]).wf()
    &&& forall|i: int| 0 <= i < fields.len() ==> !(#[trigger] fields[i]).overlaps(checksum)
    &&& forall|i: int, j: int|
        0 <= i < j < fields.len() ==> !(#[trigger] fields[i]).overlaps(#[trigger] fields[j])
}

pub open spec fn layout_a_checksum() -> BitField {
    BitField { offset: 8, width: 7 }
}

pub open spec fn layout_a_fields() -> Seq<BitField> {
    seq![
        BitField { offset: 23, width: 1 },
        BitField { offset: 19, width: 4 },
        BitField { offset: 15, width: 4 },
        BitField { offset: 0, width: 8 },
    ]
}

pub open spec fn layout_b_checksum() -> BitField {
    BitField { offset: 13, width: 7 }
}

pub open spec fn layout_b_fields() -> Seq<BitField> {
    seq![
        BitField { offset: 20, width: 4 },
        BitField { offset: 5, width: 8 },
        BitField { offset: 4, width: 1 },
        BitField { offset: 3, width: 1 },
        BitField { offset: 2, width: 1 },
        BitField { offset: 1, width: 1 },
        BitField { offset: 0, width: 1 },
    ]
}

} // verus!
