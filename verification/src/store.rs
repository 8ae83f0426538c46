//! Memory elements: the fixed-width unsigned integers that hold bits.
//!
//! An element type says what its values are as numbers, by [`BitMemory`].
//! From that alone every element gets its bits, by [`BitStore`]: the model of
//! an element is the sequence of its bits, indexed by physical position,
//! where position 0 is the least significant bit.

use vstd::prelude::*;
use crate::index::BitPos;

verus! {

/// The memory representation of an element type.
///
/// Two element types can be compared position for position only if they have
/// the same representation.
#[derive(Clone, Copy, Debug, PartialEq, Eq, Structural)]
pub enum Representation {
    /// One byte.
    Bits8,
    /// Two bytes.
    Bits16,
    /// Four bytes.
    Bits32,
    /// Eight bytes.
    Bits64,
}

impl Representation {
    /// The number of bits in an element of this representation.
    pub open spec fn width(self) -> nat {
        match self {
            Representation::Bits8 => 8,
            Representation::Bits16 => 16,
            Representation::Bits32 => 32,
            Representation::Bits64 => 64,
        }
    }

    /// The greatest number that an element of this representation holds.
    pub open spec fn max_value(self) -> u64 {
        match self {
            Representation::Bits8 => 0xFF,
            Representation::Bits16 => 0xFFFF,
            Representation::Bits32 => 0xFFFF_FFFF,
            Representation::Bits64 => 0xFFFF_FFFF_FFFF_FFFF,
        }
    }

    /// The number of bits in an element of this representation.
    pub fn bit_width(self) -> (n: u8)
        ensures
            n == self.width(),
    {
        match self {
            Representation::Bits8 => 8,
            Representation::Bits16 => 16,
            Representation::Bits32 => 32,
            Representation::Bits64 => 64,
        }
    }
}

/// A fixed-width unsigned integer that backs a run of bits.
pub trait BitMemory: Copy + Sized {
    /// The representation of this element type.
    spec fn representation() -> Representation;

    /// The element as a number.
    spec fn value(self) -> u64;

    /// The number of an element fits its representation.
    proof fn lemma_value_fits(self)
        ensures
            self.value() <= Self::representation().max_value(),
    ;

    /// Two elements with the same number are the same element.
    proof fn lemma_value_injective(self, other: Self)
        requires
            self.value() == other.value(),
        ensures
            self == other,
    ;

    /// The representation of this element type.
    fn repr() -> (r: Representation)
        ensures
            r == Self::representation(),
    ;

    /// The element as a number.
    fn load_value(&self) -> (value: u64)
        ensures
            value == self.value(),
    ;

    /// Makes the element the one whose number is `value`.
    fn store_value(&mut self, value: u64)
        requires
            value <= Self::representation().max_value(),
        ensures
            final(self).value() == value,
    ;
}

/// An element of memory whose bits can be read and written one at a time.
///
/// Every [`BitMemory`] is one, and in one way: its bits are the binary
/// digits of its number.
pub trait BitStore: BitMemory {
    /// The bits of the element, by physical position.
    spec fn bits(self) -> Seq<bool>;

    /// An element has as many bits as its representation says.
    proof fn lemma_bits_len(self)
        ensures
            self.bits().len() == Self::representation().width(),
    ;

    /// Two elements with the same bits are the same element.
    proof fn lemma_bits_injective(self, other: Self)
        requires
            self.bits() == other.bits(),
        ensures
            self == other,
    ;

    /// The element whose number is zero has every bit clear.
    proof fn lemma_bits_of_zero(self)
        requires
            self.value() == 0,
        ensures
            forall|i: int| 0 <= i < self.bits().len() ==> !self.bits()[i],
    ;

    /// Whether the bit at `pos` is set.
    fn get_bit(&self, pos: BitPos<Self>) -> (bit: bool)
        ensures
            bit == self.bits()[pos@ as int],
    ;

    /// Sets the bit at `pos` to `value` and leaves every other bit as it was.
    fn set_bit(&mut self, pos: BitPos<Self>, value: bool)
        ensures
            final(self).bits() == old(self).bits().update(pos@ as int, value),
    ;
}

/// Whether the bit at position `i` of `x` is set.
pub open spec fn bit_of(x: u64, i: u64) -> bool {
    (x >> i) & 1 == 1
}

/// How one bit of a number moves when the bit at `p` is set or cleared, and
/// how the bit at `p` is tested.
proof fn lemma_bit_moves(x: u64, p: u64, i: u64)
    requires
        p < 64,
        i < 64,
    ensures
        bit_of(x | (1u64 << p), i) == (i == p || bit_of(x, i)),
        bit_of(x & !(1u64 << p), i) == (i != p && bit_of(x, i)),
        bit_of(x, p) == (x & (1u64 << p) != 0),
{
    assert((((x | (1u64 << p)) >> i) & 1 == 1) <==> (i == p || (x >> i) & 1 == 1)) by (bit_vector)
        requires
            p < 64,
            i < 64,
    ;
    assert((((x & !(1u64 << p)) >> i) & 1 == 1) <==> (i != p && (x >> i) & 1 == 1))
        by (bit_vector)
        requires
            p < 64,
            i < 64,
    ;
    assert(((x >> p) & 1 == 1) <==> (x & (1u64 << p) != 0)) by (bit_vector)
        requires
            p < 64,
    ;
}

/// A number that fits a representation still fits it after one of the bits
/// inside that representation is set or cleared.
proof fn lemma_bit_moves_fit(repr: Representation, x: u64, p: u64)
    requires
        x <= repr.max_value(),
        p < repr.width(),
    ensures
        x | (1u64 << p) <= repr.max_value(),
        x & !(1u64 << p) <= repr.max_value(),
{
    assert(x & !(1u64 << p) <= x) by (bit_vector);
    match repr {
        Representation::Bits8 => {
            assert(x | (1u64 << p) <= 0xFF) by (bit_vector)
                requires
                    x <= 0xFF,
                    p < 8,
            ;
        },
        Representation::Bits16 => {
            assert(x | (1u64 << p) <= 0xFFFF) by (bit_vector)
                requires
                    x <= 0xFFFF,
                    p < 16,
            ;
        },
        Representation::Bits32 => {
            assert(x | (1u64 << p) <= 0xFFFF_FFFF) by (bit_vector)
                requires
                    x <= 0xFFFF_FFFF,
                    p < 32,
            ;
        },
        Representation::Bits64 => {},
    }
}

/// A number that fits a representation has no bit set outside it.
proof fn lemma_no_bit_outside(repr: Representation, x: u64, i: u64)
    requires
        x <= repr.max_value(),
        repr.width() <= i < 64,
    ensures
        !bit_of(x, i),
{
    match repr {
        Representation::Bits8 => {
            assert((x >> i) & 1 != 1) by (bit_vector)
                requires
                    x <= 0xFF,
                    8 <= i < 64,
            ;
        },
        Representation::Bits16 => {
            assert((x >> i) & 1 != 1) by (bit_vector)
                requires
                    x <= 0xFFFF,
                    16 <= i < 64,
            ;
        },
        Representation::Bits32 => {
            assert((x >> i) & 1 != 1) by (bit_vector)
                requires
                    x <= 0xFFFF_FFFF,
                    32 <= i < 64,
            ;
        },
        Representation::Bits64 => {},
    }
}

/// Two numbers that agree on their lowest `k` bits are equal once the bits
/// above those are shifted out.
proof fn lemma_low_bits_equal(x: u64, y: u64, k: u64)
    requires
        1 <= k <= 64,
        forall|i: u64| i < k ==> bit_of(x, i) == bit_of(y, i),
    ensures
        x << ((64 - k) as u64) == y << ((64 - k) as u64),
    decreases k,
{
    if k == 1 {
        assert(bit_of(x, 0) == bit_of(y, 0));
        assert(x << 63 == y << 63) by (bit_vector)
            requires
                ((x >> 0) & 1 == 1) <==> ((y >> 0) & 1 == 1),
        ;
    } else {
        lemma_low_bits_equal(x, y, (k - 1) as u64);
        let s: u64 = (64 - k) as u64;
        let top: u64 = (k - 1) as u64;
        assert(bit_of(x, top) == bit_of(y, top));
        assert(x << s == y << s) by (bit_vector)
            requires
                s < 63,
                top == 63 - s,
                x << ((s + 1) as u64) == y << ((s + 1) as u64),
                ((x >> top) & 1 == 1) <==> ((y >> top) & 1 == 1),
        ;
    }
}

/// Two numbers that agree on every bit are equal.
proof fn lemma_all_bits_equal(x: u64, y: u64)
    requires
        forall|i: u64| i < 64 ==> bit_of(x, i) == bit_of(y, i),
    ensures
        x == y,
{
    lemma_low_bits_equal(x, y, 64);
    assert(x == y) by (bit_vector)
        requires
            x << 0 == y << 0,
    ;
}

impl<T: BitMemory> BitStore for T {
    open spec fn bits(self) -> Seq<bool> {
        Seq::new(Self::representation().width(), |i: int| bit_of(self.value(), i as u64))
    }

    proof fn lemma_bits_len(self) {
    }

    proof fn lemma_bits_injective(self, other: Self) {
        let repr = Self::representation();
        let x = self.value();
        let y = other.value();
        self.lemma_value_fits();
        other.lemma_value_fits();
        assert forall|i: u64| i < 64 implies bit_of(x, i) == bit_of(y, i) by {
            if i < repr.width() {
                assert(self.bits()[i as int] == bit_of(x, i as int as u64));
                assert(other.bits()[i as int] == bit_of(y, i as int as u64));
            } else {
                lemma_no_bit_outside(repr, x, i);
                lemma_no_bit_outside(repr, y, i);
            }
        }
        lemma_all_bits_equal(x, y);
        self.lemma_value_injective(other);
    }

    proof fn lemma_bits_of_zero(self) {
        assert forall|i: int| 0 <= i < self.bits().len() implies !self.bits()[i] by {
            let n: u64 = i as u64;
            assert((0u64 >> n) & 1 != 1) by (bit_vector);
        }
    }

    fn get_bit(&self, pos: BitPos<Self>) -> (bit: bool) {
        let p: u8 = pos.value();
        let x: u64 = self.load_value();
        proof {
            lemma_bit_moves(x, p as u64, 0);
        }
        x & (1u64 << p) != 0
    }

    fn set_bit(&mut self, pos: BitPos<Self>, value: bool) {
        let p: u8 = pos.value();
        let x: u64 = self.load_value();
        proof {
            self.lemma_value_fits();
            lemma_bit_moves_fit(Self::representation(), x, p as u64);
        }
        if value {
            self.store_value(x | (1u64 << p));
        } else {
            self.store_value(x & !(1u64 << p));
        }
        proof {
            let before = old(self).bits();
            assert forall|i: int| 0 <= i < before.len() implies self.bits()[i] == before.update(
                p as int,
                value,
            )[i] by {
                lemma_bit_moves(x, p as u64, i as u64);
            }
            assert(self.bits() =~= before.update(p as int, value));
        }
    }
}

impl BitMemory for u8 {
    open spec fn representation() -> Representation {
        Representation::Bits8
    }

    open spec fn value(self) -> u64 {
        self as u64
    }

    proof fn lemma_value_fits(self) {
    }

    proof fn lemma_value_injective(self, other: Self) {
    }

    fn repr() -> (r: Representation) {
        Representation::Bits8
    }

    fn load_value(&self) -> (value: u64) {
        *self as u64
    }

    fn store_value(&mut self, value: u64) {
        *self = value as u8;
    }
}

impl BitMemory for u16 {
    open spec fn representation() -> Representation {
        Representation::Bits16
    }

    open spec fn value(self) -> u64 {
        self as u64
    }

    proof fn lemma_value_fits(self) {
    }

    proof fn lemma_value_injective(self, other: Self) {
    }

    fn repr() -> (r: Representation) {
        Representation::Bits16
    }

    fn load_value(&self) -> (value: u64) {
        *self as u64
    }

    fn store_value(&mut self, value: u64) {
        *self = value as u16;
    }
}

impl BitMemory for u32 {
    open spec fn representation() -> Representation {
        Representation::Bits32
    }

    open spec fn value(self) -> u64 {
        self as u64
    }

    proof fn lemma_value_fits(self) {
    }

    proof fn lemma_value_injective(self, other: Self) {
    }

    fn repr() -> (r: Representation) {
        Representation::Bits32
    }

    fn load_value(&self) -> (value: u64) {
        *self as u64
    }

    fn store_value(&mut self, value: u64) {
        *self = value as u32;
    }
}

impl BitMemory for u64 {
    open spec fn representation() -> Representation {
        Representation::Bits64
    }

    open spec fn value(self) -> u64 {
        self
    }

    proof fn lemma_value_fits(self) {
    }

    proof fn lemma_value_injective(self, other: Self) {
    }

    fn repr() -> (r: Representation) {
        Representation::Bits64
    }

    fn load_value(&self) -> (value: u64) {
        *self
    }

    fn store_value(&mut self, value: u64) {
        *self = value;
    }
}

} // verus!
