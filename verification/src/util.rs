//! Bit-level helpers on bytes and the two-byte register pair.

use vstd::prelude::*;

verus! {

/// Bit `n` of `v`, as a boolean.
pub open spec fn spec_get_bit(v: u8, n: u8) -> bool {
    (v >> n) & 1 == 1
}

/// `v` with bit `n` forced to `val` and every other bit unchanged.
pub open spec fn spec_set_bit(v: u8, n: u8, val: bool) -> u8 {
    if val {
        v | (1u8 << n)
    } else {
        v & !(1u8 << n)
    }
}

/// The high and low nibbles of `v` exchanged.
pub open spec fn spec_swap_nibbles(v: u8) -> u8 {
    (v << 4u8) | (v >> 4u8)
}

/// Bit manipulation on an 8-bit value.
pub trait Twiddling {
    /// Force bit `n` to `val`, leaving the other bits alone.
    fn set_bit(&mut self, n: u8, val: bool)
        requires
            n < 8,
    ;

    /// Read bit `n`.
    fn get_bit(&self, n: u8) -> bool
        requires
            n < 8,
    ;

    /// The high nibble and the low nibble, in that order.
    fn msb_and_lsb(&self) -> [u8; 2];

    /// Exchange the high and low nibbles.
    fn swap_nibbles(&mut self);
}

impl Twiddling for u8 {
    fn set_bit(&mut self, n: u8, val: bool)
        ensures
            *final(self) == spec_set_bit(*old(self), n, val),
            spec_get_bit(*final(self), n) == val,
            forall|i: u8| i < 8 && i != n ==> spec_get_bit(*final(self), i) == spec_get_bit(
                *old(self),
                i,
            ),
    {
        let mask: u8 = 1u8 << n;
        let negged: u8 = if val {
            0b1111_1111
        } else {
            0
        };
        let prev: u8 = *self;
        *self = prev ^ ((negged ^ prev) & mask);
        proof {
            lemma_set_bit_xor_form(prev, n, val);
            lemma_set_get_bit(prev, n, val);
        }
    }

    fn get_bit(&self, n: u8) -> (r: bool)
        ensures
            r == spec_get_bit(*self, n),
    {
        let mask: u8 = 1u8 << n;
        let bit: u8 = *self & mask;
        proof {
            let v = *self;
            assert((v & (1u8 << n) != 0) == ((v >> n) & 1 == 1)) by (bit_vector)
                requires
                    n < 8,
            ;
        }
        bit != 0
    }

    fn msb_and_lsb(&self) -> (r: [u8; 2])
        ensures
            r@ == seq![*self / 16, *self % 16],
    {
        let r = [(*self & 0b1111_0000) >> 4u8, *self & 0b0000_1111];
        proof {
            let v = *self;
            assert((v & 0b1111_0000) >> 4u8 == v / 16 && (v & 0b0000_1111) == v % 16)
                by (bit_vector);
            assert(r@ =~= seq![v / 16, v % 16]);
        }
        r
    }

    fn swap_nibbles(&mut self)
        ensures
            *final(self) == spec_swap_nibbles(*old(self)),
    {
        let swapped = (*self << 4u8) | (*self >> 4u8);
        *self = swapped;
    }
}

/// `spec_set_bit` agrees with the xor-and-mask formulation used by `set_bit`.
proof fn lemma_set_bit_xor_form(v: u8, n: u8, val: bool)
    requires
        n < 8,
    ensures
        v ^ (((if val {
            0xFFu8
        } else {
            0u8
        }) ^ v) & (1u8 << n)) == spec_set_bit(v, n, val),
{
    if val {
        assert(v ^ ((0xFFu8 ^ v) & (1u8 << n)) == v | (1u8 << n)) by (bit_vector)
            requires
                n < 8,
        ;
    } else {
        assert(v ^ ((0u8 ^ v) & (1u8 << n)) == v & !(1u8 << n)) by (bit_vector)
            requires
                n < 8,
        ;
    }
}

/// Setting bit `n` to `val` makes bit `n` read back as `val` and leaves
/// every other bit position unchanged.
pub proof fn lemma_set_get_bit(v: u8, n: u8, val: bool)
    requires
        n < 8,
    ensures
        spec_get_bit(spec_set_bit(v, n, val), n) == val,
        forall|i: u8| i < 8 && i != n ==> spec_get_bit(spec_set_bit(v, n, val), i) == spec_get_bit(
            v,
            i,
        ),
{
    if val {
        assert((((v | (1u8 << n)) >> n) & 1 == 1) == true) by (bit_vector)
            requires
                n < 8,
        ;
        assert forall|i: u8| i < 8 && i != n implies spec_get_bit(spec_set_bit(v, n, val), i)
            == spec_get_bit(v, i) by {
            assert((((v | (1u8 << n)) >> i) & 1) == ((v >> i) & 1)) by (bit_vector)
                requires
                    n < 8 && i < 8 && i != n,
            ;
        }
    } else {
        assert((((v & !(1u8 << n)) >> n) & 1 == 1) == false) by (bit_vector)
            requires
                n < 8,
        ;
        assert forall|i: u8| i < 8 && i != n implies spec_get_bit(spec_set_bit(v, n, val), i)
            == spec_get_bit(v, i) by {
            assert((((v & !(1u8 << n)) >> i) & 1) == ((v >> i) & 1)) by (bit_vector)
                requires
                    n < 8 && i < 8 && i != n,
            ;
        }
    }
}

/// Swapping the nibbles of a byte twice gives the original byte back.
pub proof fn lemma_swap_nibbles_involution(v: u8)
    ensures
        spec_swap_nibbles(spec_swap_nibbles(v)) == v,
{
    assert((((v << 4u8) | (v >> 4u8)) << 4u8) | (((v << 4u8) | (v >> 4u8)) >> 4u8) == v)
        by (bit_vector);
}

/// Two 8-bit registers that are also addressable as one 16-bit register,
/// high half first.
#[derive(Clone, Copy, Debug, PartialEq, Eq, Structural)]
pub struct RegisterPair {
    pub hi: u8,
    pub lo: u8,
}

impl Default for RegisterPair {
    /// Both halves start at zero.
    fn default() -> (r: Self)
        ensures
            r.hi == 0 && r.lo == 0,
    {
        RegisterPair { hi: 0, lo: 0 }
    }
}

/// The register pair whose combined 16-bit view is `v`.
pub open spec fn spec_pair_from(v: u16) -> RegisterPair {
    RegisterPair { hi: (v / 256) as u8, lo: (v % 256) as u8 }
}

impl RegisterPair {
    /// The combined 16-bit view: high half times 256 plus low half.
    pub open spec fn spec_both(self) -> u16 {
        (self.hi * 256 + self.lo) as u16
    }

    /// Read the two halves as one 16-bit value.
    pub fn as_both(&self) -> (r: u16)
        ensures
            r == self.spec_both(),
    {
        let hi = (self.hi as u16) << 8u16;
        let lo = self.lo as u16;
        proof {
            let h = self.hi;
            let l = self.lo;
            assert(((h as u16) << 8u16) | (l as u16) == h * 256 + l) by (bit_vector);
        }
        hi | lo
    }

    /// Store a 16-bit value into the two halves.
    pub fn set_both(&mut self, value: u16)
        ensures
            *final(self) == spec_pair_from(value),
            final(self).spec_both() == value,
    {
        self.hi = (value / 256) as u8;
        self.lo = (value % 256) as u8;
        proof {
            vstd::arithmetic::div_mod::lemma_fundamental_div_mod(value as int, 256);
        }
    }

    /// Increment the combined value by one, wrapping modulo 65536.
    pub fn inc(&mut self)
        ensures
            *final(self) == spec_pair_from(old(self).spec_both().wrapping_add(1)),
            final(self).spec_both() == old(self).spec_both().wrapping_add(1),
    {
        let v = self.as_both();
        self.set_both(v.wrapping_add(1));
    }

    /// Decrement the combined value by one, wrapping modulo 65536.
    pub fn dec(&mut self)
        ensures
            *final(self) == spec_pair_from(old(self).spec_both().wrapping_sub(1)),
            final(self).spec_both() == old(self).spec_both().wrapping_sub(1),
    {
        let v = self.as_both();
        let after_dec = v.wrapping_add(0xFFFF);
        proof {
            let x = v;
            assert(x.wrapping_add(0xFFFF) == x.wrapping_sub(1));
        }
        self.set_both(after_dec);
    }

    /// Add `rhs` into the combined value, wrapping modulo 65536.
    pub fn add_both(&mut self, rhs: u16)
        ensures
            *final(self) == spec_pair_from(old(self).spec_both().wrapping_add(rhs)),
            final(self).spec_both() == old(self).spec_both().wrapping_add(rhs),
    {
        let v = self.as_both();
        self.set_both(v.wrapping_add(rhs));
    }
}

/// Writing a 16-bit value into a pair and reading the combined view gives
/// the value back.
pub proof fn lemma_pair_set_get(v: u16)
    ensures
        spec_pair_from(v).spec_both() == v,
{
    vstd::arithmetic::div_mod::lemma_fundamental_div_mod(v as int, 256);
}

} // verus!
