use crate::v128::{mask_word, sign_bit, V128, ALL_ONES};
use vstd::prelude::*;

verus! {

/// Four boolean lanes. As a register value each lane is all ones (true) or
/// all zeros (false), which makes the bitwise operations on the register the
/// lane-wise boolean ones.
#[derive(Clone, Copy, Debug, PartialEq, Eq, Structural)]
pub struct Bx4(pub bool, pub bool, pub bool, pub bool);

impl View for Bx4 {
    type V = Seq<bool>;

    open spec fn view(&self) -> Seq<bool> {
        seq![self.0, self.1, self.2, self.3]
    }
}

/// The four lanes of a mask given by its bitmask: lane `i` is bit `i`.
pub open spec fn bitmask_value(s: Seq<bool>) -> int {
    (if s[0] { 1int } else { 0 }) + (if s[1] { 2int } else { 0 }) + (if s[2] { 4int } else { 0 })
        + (if s[3] { 8int } else { 0 })
}

proof fn lemma_sign_bit_mask_word()
    ensures
        sign_bit(mask_word(true)) == 1,
        sign_bit(mask_word(false)) == 0,
{
    assert(sign_bit(0xFFFF_FFFFu32) == 1 && sign_bit(0u32) == 0) by (bit_vector);
}

proof fn lemma_bit_of_packed(r: u8, x0: u8, x1: u8, x2: u8, x3: u8, i: u8)
    by (bit_vector)
    requires
        x0 <= 1 && x1 <= 1 && x2 <= 1 && x3 <= 1,
        r == x0 + 2 * x1 + 4 * x2 + 8 * x3,
        i < 4,
    ensures
        r < 16,
        (r >> i) & 1u8 == if i == 0 {
            x0
        } else if i == 1 {
            x1
        } else if i == 2 {
            x2
        } else {
            x3
        },
{
}

/// The lanes of a mask built from four values are those values, in order,
/// and the four lanes determine the mask.
pub proof fn lemma_new_extract_round_trip(m: Bx4, v1: bool, v2: bool, v3: bool, v4: bool)
    requires
        m@ == seq![v1, v2, v3, v4],
    ensures
        m@[0] == v1 && m@[1] == v2 && m@[2] == v3 && m@[3] == v4,
        m == Bx4(v1, v2, v3, v4),
{
    assert(m@[0] == v1 && m@[1] == v2 && m@[2] == v3 && m@[3] == v4);
}

impl Bx4 {
    /// All lanes false.
    pub fn default() -> (r: Bx4)
        ensures
            r@ == seq![false, false, false, false],
    {
        Bx4::from_v128(V128::new(0, 0, 0, 0))
    }

    pub fn new(v1: bool, v2: bool, v3: bool, v4: bool) -> (r: Bx4)
        ensures
            r@ == seq![v1, v2, v3, v4],
    {
        Bx4(v1, v2, v3, v4)
    }

    /// One value in every lane.
    pub fn splat(value: bool) -> (r: Bx4)
        ensures
            r@ == seq![value, value, value, value],
    {
        Bx4(value, value, value, value)
    }

    /// Reads a mask from a register value: a lane is true when its word is
    /// nonzero.
    pub fn from_v128(data: V128) -> (r: Bx4)
        ensures
            r@ == seq![data.w0 != 0, data.w1 != 0, data.w2 != 0, data.w3 != 0],
    {
        Bx4(data.w0 != 0, data.w1 != 0, data.w2 != 0, data.w3 != 0)
    }

    /// The register value of the mask: all ones for a true lane, all zeros
    /// for a false one.
    pub fn to_v128(self) -> (r: V128)
        ensures
            r.words() == self@.map_values(|b: bool| mask_word(b)),
            r.w0 == mask_word(self@[0]),
            r.w1 == mask_word(self@[1]),
            r.w2 == mask_word(self@[2]),
            r.w3 == mask_word(self@[3]),
    {
        let r = V128::new(
            if self.0 { ALL_ONES } else { 0 },
            if self.1 { ALL_ONES } else { 0 },
            if self.2 { ALL_ONES } else { 0 },
            if self.3 { ALL_ONES } else { 0 },
        );
        assert(r.words() =~= self@.map_values(|b: bool| mask_word(b)));
        r
    }

    pub fn extract_lanes(&self) -> (r: (bool, bool, bool, bool))
        ensures
            r == (self@[0], self@[1], self@[2], self@[3]),
    {
        (self.0, self.1, self.2, self.3)
    }

    /// The lane at `index`; an index outside 0..3 is a caller error.
    pub fn extract_lane(&self, index: usize) -> (r: bool)
        requires
            index < 4,
        ensures
            r == self@[index as int],
    {
        let lanes = [self.0, self.1, self.2, self.3];
        assert(lanes@ =~= self@);
        lanes[index]
    }

    /// Rewrites the lane at `index`; an index outside 0..3 is a caller error.
    pub fn set_lane(&mut self, index: usize, value: bool)
        requires
            index < 4,
        ensures
            final(self)@ == old(self)@.update(index as int, value),
    {
        let mut lanes = [self.0, self.1, self.2, self.3];
        lanes[index] = value;
        *self = Bx4(lanes[0], lanes[1], lanes[2], lanes[3]);
        assert(self@ =~= old(self)@.update(index as int, value));
    }

    /// Packs the lanes into the low four bits: bit `i` is lane `i`.
    pub fn to_bitmask(self) -> (r: u8)
        ensures
            r as int == bitmask_value(self@),
            r < 16,
            forall|i: u8| 0 <= i < 4 ==> ((r >> i) & 1u8 == 1u8) == #[trigger] self@[i as int],
    {
        let data = self.to_v128();
        let r = data.bitmask();
        proof {
            lemma_sign_bit_mask_word();
            let (x0, x1, x2, x3) = (sign_bit(data.w0), sign_bit(data.w1), sign_bit(data.w2), sign_bit(data.w3));
            assert forall|i: u8| 0 <= i < 4 implies ((r >> i) & 1u8 == 1u8) == #[trigger] self@[i as int] by {
                lemma_bit_of_packed(r, x0, x1, x2, x3, i);
            }
        }
        r
    }
}


/// Lane-wise AND of two masks.
pub open spec fn and_spec(a: Bx4, b: Bx4) -> Bx4 {
    Bx4(a.0 && b.0, a.1 && b.1, a.2 && b.2, a.3 && b.3)
}

/// Lane-wise OR of two masks.
pub open spec fn or_spec(a: Bx4, b: Bx4) -> Bx4 {
    Bx4(a.0 || b.0, a.1 || b.1, a.2 || b.2, a.3 || b.3)
}

/// Lane-wise XOR of two masks.
pub open spec fn xor_spec(a: Bx4, b: Bx4) -> Bx4 {
    Bx4(a.0 != b.0, a.1 != b.1, a.2 != b.2, a.3 != b.3)
}

/// Lane-wise NOT of a mask.
pub open spec fn not_spec(a: Bx4) -> Bx4 {
    Bx4(!a.0, !a.1, !a.2, !a.3)
}

/// The mask with one value in every lane.
pub open spec fn splat_spec(b: bool) -> Bx4 {
    Bx4(b, b, b, b)
}

proof fn lemma_word_ops(a: bool, b: bool)
    ensures
        mask_word(a) & mask_word(b) == mask_word(a && b),
        mask_word(a) | mask_word(b) == mask_word(a || b),
        mask_word(a) ^ mask_word(b) == mask_word(a != b),
        !mask_word(a) == mask_word(!a),
        (mask_word(a) != 0) == a,
{
    lemma_word_table();
}

proof fn lemma_word_table()
    by (bit_vector)
    ensures
        0xFFFF_FFFFu32 & 0xFFFF_FFFFu32 == 0xFFFF_FFFFu32,
        0xFFFF_FFFFu32 & 0u32 == 0u32,
        0u32 & 0xFFFF_FFFFu32 == 0u32,
        0u32 & 0u32 == 0u32,
        0xFFFF_FFFFu32 | 0xFFFF_FFFFu32 == 0xFFFF_FFFFu32,
        0xFFFF_FFFFu32 | 0u32 == 0xFFFF_FFFFu32,
        0u32 | 0xFFFF_FFFFu32 == 0xFFFF_FFFFu32,
        0u32 | 0u32 == 0u32,
        0xFFFF_FFFFu32 ^ 0xFFFF_FFFFu32 == 0u32,
        0xFFFF_FFFFu32 ^ 0u32 == 0xFFFF_FFFFu32,
        0u32 ^ 0xFFFF_FFFFu32 == 0xFFFF_FFFFu32,
        0u32 ^ 0u32 == 0u32,
        !0xFFFF_FFFFu32 == 0u32,
        !0u32 == 0xFFFF_FFFFu32,
{
}

proof fn lemma_v128_ops(a: Bx4, b: Bx4)
    ensures
        mask_word(a.0) & mask_word(b.0) == mask_word(a.0 && b.0),
        mask_word(a.1) & mask_word(b.1) == mask_word(a.1 && b.1),
        mask_word(a.2) & mask_word(b.2) == mask_word(a.2 && b.2),
        mask_word(a.3) & mask_word(b.3) == mask_word(a.3 && b.3),
        mask_word(a.0) | mask_word(b.0) == mask_word(a.0 || b.0),
        mask_word(a.1) | mask_word(b.1) == mask_word(a.1 || b.1),
        mask_word(a.2) | mask_word(b.2) == mask_word(a.2 || b.2),
        mask_word(a.3) | mask_word(b.3) == mask_word(a.3 || b.3),
        mask_word(a.0) ^ mask_word(b.0) == mask_word(a.0 != b.0),
        mask_word(a.1) ^ mask_word(b.1) == mask_word(a.1 != b.1),
        mask_word(a.2) ^ mask_word(b.2) == mask_word(a.2 != b.2),
        mask_word(a.3) ^ mask_word(b.3) == mask_word(a.3 != b.3),
        !mask_word(a.0) == mask_word(!a.0),
        !mask_word(a.1) == mask_word(!a.1),
        !mask_word(a.2) == mask_word(!a.2),
        !mask_word(a.3) == mask_word(!a.3),
        forall|x: bool| (#[trigger] mask_word(x) != 0) == x,
{
    lemma_word_ops(a.0, b.0);
    lemma_word_ops(a.1, b.1);
    lemma_word_ops(a.2, b.2);
    lemma_word_ops(a.3, b.3);
    assert forall|x: bool| (#[trigger] mask_word(x) != 0) == x by {
        lemma_word_ops(x, x);
    }
}

impl core::ops::BitAnd for Bx4 {
    type Output = Bx4;

    /// AND of the two register values.
    fn bitand(self, other: Bx4) -> (r: Bx4)
        ensures
            r == and_spec(self, other),
    {
        proof {
            lemma_v128_ops(self, other);
        }
        Bx4::from_v128(self.to_v128().and(other.to_v128()))
    }
}

impl vstd::std_specs::ops::BitAndSpecImpl for Bx4 {
    open spec fn obeys_bitand_spec() -> bool {
        true
    }

    open spec fn bitand_req(self, other: Bx4) -> bool {
        true
    }

    open spec fn bitand_spec(self, other: Bx4) -> Bx4 {
        and_spec(self, other)
    }
}

impl core::ops::BitAnd<bool> for Bx4 {
    type Output = Bx4;

    /// AND with the scalar broadcast to every lane.
    fn bitand(self, other: bool) -> (r: Bx4)
        ensures
            r == and_spec(self, splat_spec(other)),
    {
        self & Bx4::splat(other)
    }
}

impl vstd::std_specs::ops::BitAndSpecImpl<bool> for Bx4 {
    open spec fn obeys_bitand_spec() -> bool {
        true
    }

    open spec fn bitand_req(self, other: bool) -> bool {
        true
    }

    open spec fn bitand_spec(self, other: bool) -> Bx4 {
        and_spec(self, splat_spec(other))
    }
}

impl core::ops::BitAnd<Bx4> for bool {
    type Output = Bx4;

    /// AND with the scalar broadcast to every lane.
    fn bitand(self, other: Bx4) -> (r: Bx4)
        ensures
            r == and_spec(splat_spec(self), other),
    {
        Bx4::splat(self) & other
    }
}

impl vstd::std_specs::ops::BitAndSpecImpl<Bx4> for bool {
    open spec fn obeys_bitand_spec() -> bool {
        true
    }

    open spec fn bitand_req(self, other: Bx4) -> bool {
        true
    }

    open spec fn bitand_spec(self, other: Bx4) -> Bx4 {
        and_spec(splat_spec(self), other)
    }
}

impl core::ops::BitAndAssign for Bx4 {
    fn bitand_assign(&mut self, other: Bx4)
        ensures
            *final(self) == and_spec(*old(self), other),
    {
        *self = *self & other;
    }
}

impl core::ops::BitOr for Bx4 {
    type Output = Bx4;

    /// OR of the two register values.
    fn bitor(self, other: Bx4) -> (r: Bx4)
        ensures
            r == or_spec(self, other),
    {
        proof {
            lemma_v128_ops(self, other);
        }
        Bx4::from_v128(self.to_v128().or(other.to_v128()))
    }
}

impl vstd::std_specs::ops::BitOrSpecImpl for Bx4 {
    open spec fn obeys_bitor_spec() -> bool {
        true
    }

    open spec fn bitor_req(self, other: Bx4) -> bool {
        true
    }

    open spec fn bitor_spec(self, other: Bx4) -> Bx4 {
        or_spec(self, other)
    }
}

impl core::ops::BitOr<bool> for Bx4 {
    type Output = Bx4;

    /// OR with the scalar broadcast to every lane.
    fn bitor(self, other: bool) -> (r: Bx4)
        ensures
            r == or_spec(self, splat_spec(other)),
    {
        self | Bx4::splat(other)
    }
}

impl vstd::std_specs::ops::BitOrSpecImpl<bool> for Bx4 {
    open spec fn obeys_bitor_spec() -> bool {
        true
    }

    open spec fn bitor_req(self, other: bool) -> bool {
        true
    }

    open spec fn bitor_spec(self, other: bool) -> Bx4 {
        or_spec(self, splat_spec(other))
    }
}

impl core::ops::BitOr<Bx4> for bool {
    type Output = Bx4;

    /// OR with the scalar broadcast to every lane.
    fn bitor(self, other: Bx4) -> (r: Bx4)
        ensures
            r == or_spec(splat_spec(self), other),
    {
        Bx4::splat(self) | other
    }
}

impl vstd::std_specs::ops::BitOrSpecImpl<Bx4> for bool {
    open spec fn obeys_bitor_spec() -> bool {
        true
    }

    open spec fn bitor_req(self, other: Bx4) -> bool {
        true
    }

    open spec fn bitor_spec(self, other: Bx4) -> Bx4 {
        or_spec(splat_spec(self), other)
    }
}

impl core::ops::BitOrAssign for Bx4 {
    fn bitor_assign(&mut self, other: Bx4)
        ensures
            *final(self) == or_spec(*old(self), other),
    {
        *self = *self | other;
    }
}

impl core::ops::BitXor for Bx4 {
    type Output = Bx4;

    /// XOR of the two register values.
    fn bitxor(self, other: Bx4) -> (r: Bx4)
        ensures
            r == xor_spec(self, other),
    {
        proof {
            lemma_v128_ops(self, other);
        }
        Bx4::from_v128(self.to_v128().xor(other.to_v128()))
    }
}

impl vstd::std_specs::ops::BitXorSpecImpl for Bx4 {
    open spec fn obeys_bitxor_spec() -> bool {
        true
    }

    open spec fn bitxor_req(self, other: Bx4) -> bool {
        true
    }

    open spec fn bitxor_spec(self, other: Bx4) -> Bx4 {
        xor_spec(self, other)
    }
}

impl core::ops::BitXor<bool> for Bx4 {
    type Output = Bx4;

    /// XOR with the scalar broadcast to every lane.
    fn bitxor(self, other: bool) -> (r: Bx4)
        ensures
            r == xor_spec(self, splat_spec(other)),
    {
        self ^ Bx4::splat(other)
    }
}

impl vstd::std_specs::ops::BitXorSpecImpl<bool> for Bx4 {
    open spec fn obeys_bitxor_spec() -> bool {
        true
    }

    open spec fn bitxor_req(self, other: bool) -> bool {
        true
    }

    open spec fn bitxor_spec(self, other: bool) -> Bx4 {
        xor_spec(self, splat_spec(other))
    }
}

impl core::ops::BitXor<Bx4> for bool {
    type Output = Bx4;

    /// XOR with the scalar broadcast to every lane.
    fn bitxor(self, other: Bx4) -> (r: Bx4)
        ensures
            r == xor_spec(splat_spec(self), other),
    {
        Bx4::splat(self) ^ other
    }
}

impl vstd::std_specs::ops::BitXorSpecImpl<Bx4> for bool {
    open spec fn obeys_bitxor_spec() -> bool {
        true
    }

    open spec fn bitxor_req(self, other: Bx4) -> bool {
        true
    }

    open spec fn bitxor_spec(self, other: Bx4) -> Bx4 {
        xor_spec(splat_spec(self), other)
    }
}

impl core::ops::BitXorAssign for Bx4 {
    fn bitxor_assign(&mut self, other: Bx4)
        ensures
            *final(self) == xor_spec(*old(self), other),
    {
        *self = *self ^ other;
    }
}

impl core::ops::Not for Bx4 {
    type Output = Bx4;

    /// Complement of the register value.
    fn not(self) -> (r: Bx4)
        ensures
            r == not_spec(self),
    {
        proof {
            lemma_v128_ops(self, self);
        }
        Bx4::from_v128(self.to_v128().not())
    }
}

impl vstd::std_specs::ops::NotSpecImpl for Bx4 {
    open spec fn obeys_not_spec() -> bool {
        true
    }

    open spec fn not_req(self) -> bool {
        true
    }

    open spec fn not_spec(self) -> Bx4 {
        not_spec(self)
    }
}

impl Default for Bx4 {
    /// All lanes false.
    fn default() -> (r: Bx4)
        ensures
            r@ == seq![false, false, false, false],
    {
        Bx4::default()
    }
}

} // verus!
