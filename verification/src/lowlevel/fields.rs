//! Bit fields of eight-bit registers: reading a field out of a raw byte,
//! writing one into it, and chains of such writes as values.

use vstd::prelude::*;

verus! {

/// A run of adjacent bits of an eight-bit register.
#[derive(Clone, Copy, Debug, PartialEq, Eq, Structural)]
pub struct Field {
    /// Position of the lowest bit of the run.
    pub offset: u8,
    /// Number of bits in the run.
    pub width: u8,
}

/// The byte whose `width` lowest bits are set and no others.
pub open spec fn low_bits(width: u8) -> u8 {
    if width == 0 {
        0x00
    } else if width == 1 {
        0x01
    } else if width == 2 {
        0x03
    } else if width == 3 {
        0x07
    } else if width == 4 {
        0x0F
    } else if width == 5 {
        0x1F
    } else if width == 6 {
        0x3F
    } else if width == 7 {
        0x7F
    } else {
        0xFF
    }
}

impl Field {
    /// The run is not empty and lies inside the eight bits.
    pub open spec fn valid(self) -> bool {
        1 <= self.width && self.offset + self.width <= 8
    }

    /// The largest value that fits the field.
    pub open spec fn max(self) -> u8 {
        low_bits(self.width)
    }

    /// The byte in which exactly the field's bits are set.
    pub open spec fn spec_mask(self) -> u8 {
        low_bits(self.width) << self.offset
    }

    /// The field's value inside `raw`.
    pub open spec fn spec_extract(self, raw: u8) -> u8 {
        (raw >> self.offset) & low_bits(self.width)
    }

    /// `raw` with the field replaced by the low bits of `value`.
    pub open spec fn spec_insert(self, raw: u8, value: u8) -> u8 {
        (raw & !self.spec_mask()) | ((value << self.offset) & self.spec_mask())
    }

    /// Whether the two fields have no bit in common.
    pub open spec fn disjoint(self, other: Field) -> bool {
        self.offset + self.width <= other.offset || other.offset + other.width <= self.offset
    }

    /// The largest value that fits the field.
    pub fn limit(self) -> (byte: u8)
        requires
            self.valid(),
        ensures
            byte == self.max(),
    {
        if self.width == 1 {
            0x01
        } else if self.width == 2 {
            0x03
        } else if self.width == 3 {
            0x07
        } else if self.width == 4 {
            0x0F
        } else if self.width == 5 {
            0x1F
        } else if self.width == 6 {
            0x3F
        } else if self.width == 7 {
            0x7F
        } else {
            0xFF
        }
    }

    /// The byte in which exactly the field's bits are set.
    #[verifier::when_used_as_spec(spec_mask)]
    pub fn mask(self) -> (byte: u8)
        requires
            self.valid(),
        ensures
            byte == self.spec_mask(),
    {
        self.limit() << self.offset
    }

    /// Reads the field out of `raw`.
    #[verifier::when_used_as_spec(spec_extract)]
    pub fn extract(self, raw: u8) -> (value: u8)
        requires
            self.valid(),
        ensures
            value == self.spec_extract(raw),
            value <= self.max(),
    {
        let limit = self.limit();
        let shifted = raw >> self.offset;
        proof {
            assert(shifted & limit <= limit) by (bit_vector);
        }
        shifted & limit
    }

    /// Writes the low bits of `value` into the field and leaves every other
    /// bit of `raw` as it is.
    #[verifier::when_used_as_spec(spec_insert)]
    pub fn insert(self, raw: u8, value: u8) -> (byte: u8)
        requires
            self.valid(),
        ensures
            byte == self.spec_insert(raw, value),
    {
        let mask = self.mask();
        (raw & !mask) | ((value << self.offset) & mask)
    }
}

/// What a chain of field writes does to a byte: the bits under `mask` are
/// replaced by those of `bits`, the others stay.
#[derive(Clone, Copy, Debug, PartialEq, Eq, Structural)]
pub struct Patch {
    /// The bits that the chain writes.
    pub mask: u8,
    /// The values written, in place.
    pub bits: u8,
}

impl Patch {
    /// The byte that the chain makes of `raw`.
    pub open spec fn spec_apply(self, raw: u8) -> u8 {
        (raw & !self.mask) | (self.bits & self.mask)
    }

    /// The chain that first makes the writes of `self`, then those of
    /// `next`.
    pub open spec fn spec_followed_by(self, next: Patch) -> Patch {
        Patch { mask: self.mask | next.mask, bits: (self.bits & !next.mask) | (next.bits & next.mask) }
    }

    /// The chain of the one write of `value` to `field`.
    pub open spec fn spec_field(field: Field, value: u8) -> Patch {
        Patch { mask: field.spec_mask(), bits: (value << field.offset) & field.spec_mask() }
    }

    /// The empty chain.
    pub fn none() -> (patch: Patch)
        ensures
            patch == (Patch { mask: 0, bits: 0 }),
    {
        Patch { mask: 0, bits: 0 }
    }

    /// The chain of the one write of `value` to `field`.
    #[verifier::when_used_as_spec(spec_field)]
    pub fn field(field: Field, value: u8) -> (patch: Patch)
        requires
            field.valid(),
        ensures
            patch == Patch::spec_field(field, value),
    {
        let mask = field.mask();
        Patch { mask, bits: (value << field.offset) & mask }
    }

    /// Appends the writes of `next` to the chain.
    #[verifier::when_used_as_spec(spec_followed_by)]
    pub fn followed_by(self, next: Patch) -> (patch: Patch)
        ensures
            patch == self.spec_followed_by(next),
    {
        Patch { mask: self.mask | next.mask, bits: (self.bits & !next.mask) | (next.bits & next.mask) }
    }

    /// Makes the chain's writes to `raw`.
    #[verifier::when_used_as_spec(spec_apply)]
    pub fn apply(self, raw: u8) -> (byte: u8)
        ensures
            byte == self.spec_apply(raw),
    {
        (raw & !self.mask) | (self.bits & self.mask)
    }
}

/// The chain of one write does to a byte what the write does.
pub proof fn patch_of_field(field: Field, value: u8, raw: u8)
    ensures
        Patch::field(field, value).apply(raw) == field.insert(raw, value),
{
    let m = field.spec_mask();
    let v = value << field.offset;
    assert((raw & !m) | ((v & m) & m) == (raw & !m) | (v & m)) by (bit_vector);
}

/// A chain put together from two does what the two do one after the other.
pub proof fn patch_of_chain(first: Patch, second: Patch, raw: u8)
    ensures
        first.followed_by(second).apply(raw) == second.apply(first.apply(raw)),
{
    let m1 = first.mask;
    let b1 = first.bits;
    let m2 = second.mask;
    let b2 = second.bits;
    assert((raw & !(m1 | m2)) | (((b1 & !m2) | (b2 & m2)) & (m1 | m2)) == (((raw & !m1) | (b1 & m1))
        & !m2) | (b2 & m2)) by (bit_vector);
}

/// A patch touches no bit outside its mask.
pub proof fn patch_keeps_rest(patch: Patch, raw: u8)
    ensures
        patch.apply(raw) & !patch.mask == raw & !patch.mask,
{
    let m = patch.mask;
    let b = patch.bits;
    assert(((raw & !m) | (b & m)) & !m == raw & !m) by (bit_vector);
}

/// Reading a field back after writing it gives the value written, cut to
/// the field's width; a value that fits comes back unchanged.
pub proof fn extract_after_insert(field: Field, raw: u8, value: u8)
    requires
        field.valid(),
    ensures
        field.extract(field.insert(raw, value)) == value & field.max(),
        value <= field.max() ==> field.extract(field.insert(raw, value)) == value,
{
    let o = field.offset;
    let l = low_bits(field.width);
    assert(o < 8);
    assert(l == 0x01 || l == 0x03 || l == 0x07 || l == 0x0F || l == 0x1F || l == 0x3F || l == 0x7F
        || l == 0xFF);
    assert((l << o) >> o == l) by (bit_vector)
        requires
            o < 8,
            l == 0x01 && o <= 7 || l == 0x03 && o <= 6 || l == 0x07 && o <= 5 || l == 0x0F && o <= 4
                || l == 0x1F && o <= 3 || l == 0x3F && o <= 2 || l == 0x7F && o <= 1 || l == 0xFF
                && o == 0,
    ;
    assert((((raw & !(l << o)) | ((value << o) & (l << o))) >> o) & l == value & l) by (bit_vector)
        requires
            o < 8,
            (l << o) >> o == l,
    ;
    assert(value <= l ==> value & l == value) by (bit_vector)
        requires
            l == 0x01 || l == 0x03 || l == 0x07 || l == 0x0F || l == 0x1F || l == 0x3F || l == 0x7F
                || l == 0xFF,
    ;
}

/// Writing a field touches no bit outside it.
pub proof fn insert_keeps_rest(field: Field, raw: u8, value: u8)
    ensures
        field.insert(raw, value) & !field.mask() == raw & !field.mask(),
        field.insert(raw, value) & field.mask() == (value << field.offset) & field.mask(),
{
    let o = field.offset;
    let m = field.spec_mask();
    assert(((raw & !m) | ((value << o) & m)) & !m == raw & !m) by (bit_vector);
    assert(((raw & !m) | ((value << o) & m)) & m == (value << o) & m) by (bit_vector);
}

/// Of two writes to the same field the later one wins.
pub proof fn insert_overwrites(field: Field, raw: u8, first: u8, second: u8)
    ensures
        field.insert(field.insert(raw, first), second) == field.insert(raw, second),
{
    let o = field.offset;
    let m = field.spec_mask();
    assert(((((raw & !m) | ((first << o) & m)) & !m) | ((second << o) & m)) == ((raw & !m) | ((
    second << o) & m))) by (bit_vector);
}

/// The byte with the `width` lowest bits set is the full byte shifted
/// right by the bits that are left out.
proof fn low_bits_by_shift(width: u8)
    requires
        1 <= width <= 8,
    ensures
        low_bits(width) == 0xFFu8 >> ((8 - width) as u8),
{
    assert(0xFFu8 >> 7u8 == 0x01 && 0xFFu8 >> 6u8 == 0x03 && 0xFFu8 >> 5u8 == 0x07 && 0xFFu8 >> 4u8
        == 0x0F && 0xFFu8 >> 3u8 == 0x1F && 0xFFu8 >> 2u8 == 0x3F && 0xFFu8 >> 1u8 == 0x7F
        && 0xFFu8 >> 0u8 == 0xFF) by (bit_vector);
}

/// The masks of two fields without a common bit have no common bit.
pub proof fn disjoint_masks(a: Field, b: Field)
    requires
        a.valid(),
        b.valid(),
        a.disjoint(b),
    ensures
        a.mask() & b.mask() == 0,
{
    low_bits_by_shift(a.width);
    low_bits_by_shift(b.width);
    let oa = a.offset;
    let ob = b.offset;
    let ra: u8 = (8 - a.width) as u8;
    let rb: u8 = (8 - b.width) as u8;
    assert(((0xFFu8 >> ra) << oa) & ((0xFFu8 >> rb) << ob) == 0) by (bit_vector)
        requires
            ra < 8,
            rb < 8,
            oa <= ra,
            ob <= rb,
            oa + (8 - ra) <= ob || ob + (8 - rb) <= oa,
    ;
}

/// Writes to two fields without a common bit do not disturb each other:
/// either order gives the same byte, and each value reads back.
pub proof fn inserts_commute(a: Field, b: Field, raw: u8, x: u8, y: u8)
    requires
        a.valid(),
        b.valid(),
        a.disjoint(b),
    ensures
        b.insert(a.insert(raw, x), y) == a.insert(b.insert(raw, y), x),
        a.extract(b.insert(raw, y)) == a.extract(raw),
        b.extract(a.insert(raw, x)) == b.extract(raw),
{
    disjoint_masks(a, b);
    let ma = a.spec_mask();
    let mb = b.spec_mask();
    let oa = a.offset;
    let ob = b.offset;
    let la = low_bits(a.width);
    let lb = low_bits(b.width);
    assert((((raw & !ma) | ((x << oa) & ma)) & !mb) | ((y << ob) & mb) == (((raw & !mb) | ((y
        << ob) & mb)) & !ma) | ((x << oa) & ma)) by (bit_vector)
        requires
            ma & mb == 0,
    ;
    extract_after_insert(a, raw, x);
    extract_after_insert(b, raw, y);
    assert(la == 0x01 || la == 0x03 || la == 0x07 || la == 0x0F || la == 0x1F || la == 0x3F || la
        == 0x7F || la == 0xFF);
    assert(lb == 0x01 || lb == 0x03 || lb == 0x07 || lb == 0x0F || lb == 0x1F || lb == 0x3F || lb
        == 0x7F || lb == 0xFF);
    assert((((raw & !mb) | ((y << ob) & mb)) >> oa) & la == (raw >> oa) & la) by (bit_vector)
        requires
            ma & mb == 0,
            ma == la << oa,
            oa < 8,
    ;
    assert((((raw & !ma) | ((x << oa) & ma)) >> ob) & lb == (raw >> ob) & lb) by (bit_vector)
        requires
            ma & mb == 0,
            mb == lb << ob,
            ob < 8,
    ;
}

} // verus!
