use vstd::prelude::*;

verus! {

/// The word that stands for a true mask lane: every bit set.
pub const ALL_ONES: u32 = 0xFFFF_FFFFu32;

/// One 128-bit register, read as four 32-bit words in lane order.
#[derive(Clone, Copy, Debug, PartialEq, Eq, Structural)]
pub struct V128 {
    pub w0: u32,
    pub w1: u32,
    pub w2: u32,
    pub w3: u32,
}

/// The word of a mask lane: all ones for true, all zeros for false.
pub open spec fn mask_word(b: bool) -> u32 {
    if b {
        ALL_ONES
    } else {
        0u32
    }
}

/// Bitwise blend of one word: bits of `a` where `m` is set, else bits of `b`.
pub open spec fn select_word(a: u32, b: u32, m: u32) -> u32 {
    (a & m) | (b & !m)
}

/// The top (sign) bit of a word, as 0 or 1.
pub open spec fn sign_bit(w: u32) -> u8 {
    (w >> 31u32) as u8
}

pub broadcast proof fn lemma_select_mask_word(a: u32, b: u32, m: bool)
    ensures
        #[trigger] select_word(a, b, mask_word(m)) == if m {
            a
        } else {
            b
        },
{
    if m {
        assert((a & 0xFFFF_FFFFu32) | (b & !0xFFFF_FFFFu32) == a) by (bit_vector);
    } else {
        assert((a & 0u32) | (b & !0u32) == b) by (bit_vector);
    }
}

impl V128 {
    pub open spec fn words(self) -> Seq<u32> {
        seq![self.w0, self.w1, self.w2, self.w3]
    }

    pub fn new(w0: u32, w1: u32, w2: u32, w3: u32) -> (r: V128)
        ensures
            r.words() == seq![w0, w1, w2, w3],
    {
        V128 { w0, w1, w2, w3 }
    }

    /// Word-wise AND.
    pub fn and(self, o: V128) -> (r: V128)
        ensures
            r.w0 == self.w0 & o.w0,
            r.w1 == self.w1 & o.w1,
            r.w2 == self.w2 & o.w2,
            r.w3 == self.w3 & o.w3,
    {
        V128 { w0: self.w0 & o.w0, w1: self.w1 & o.w1, w2: self.w2 & o.w2, w3: self.w3 & o.w3 }
    }

    /// Word-wise OR.
    pub fn or(self, o: V128) -> (r: V128)
        ensures
            r.w0 == self.w0 | o.w0,
            r.w1 == self.w1 | o.w1,
            r.w2 == self.w2 | o.w2,
            r.w3 == self.w3 | o.w3,
    {
        V128 { w0: self.w0 | o.w0, w1: self.w1 | o.w1, w2: self.w2 | o.w2, w3: self.w3 | o.w3 }
    }

    /// Word-wise XOR.
    pub fn xor(self, o: V128) -> (r: V128)
        ensures
            r.w0 == self.w0 ^ o.w0,
            r.w1 == self.w1 ^ o.w1,
            r.w2 == self.w2 ^ o.w2,
            r.w3 == self.w3 ^ o.w3,
    {
        V128 { w0: self.w0 ^ o.w0, w1: self.w1 ^ o.w1, w2: self.w2 ^ o.w2, w3: self.w3 ^ o.w3 }
    }

    /// Word-wise complement.
    pub fn not(self) -> (r: V128)
        ensures
            r.w0 == !self.w0,
            r.w1 == !self.w1,
            r.w2 == !self.w2,
            r.w3 == !self.w3,
    {
        V128 { w0: !self.w0, w1: !self.w1, w2: !self.w2, w3: !self.w3 }
    }

    /// Bitwise blend: the bits of `self` where `mask` is set, the bits of
    /// `other` elsewhere.
    pub fn bitselect(self, other: V128, mask: V128) -> (r: V128)
        ensures
            r.w0 == select_word(self.w0, other.w0, mask.w0),
            r.w1 == select_word(self.w1, other.w1, mask.w1),
            r.w2 == select_word(self.w2, other.w2, mask.w2),
            r.w3 == select_word(self.w3, other.w3, mask.w3),
    {
        self.and(mask).or(other.and(mask.not()))
    }

    /// Gathers the top bit of each word: bit `i` of the result is the top bit
    /// of word `i`, and bits 4 to 7 are zero.
    pub fn bitmask(self) -> (r: u8)
        ensures
            r == sign_bit(self.w0) + 2 * sign_bit(self.w1) + 4 * sign_bit(self.w2) + 8 * sign_bit(
                self.w3,
            ),
    {
        let b0 = (self.w0 >> 31u32) as u8;
        let b1 = (self.w1 >> 31u32) as u8;
        let b2 = (self.w2 >> 31u32) as u8;
        let b3 = (self.w3 >> 31u32) as u8;
        proof {
            let (w0, w1, w2, w3) = (self.w0, self.w1, self.w2, self.w3);
            assert(w0 >> 31u32 <= 1 && w1 >> 31u32 <= 1 && w2 >> 31u32 <= 1 && w3 >> 31u32 <= 1)
                by (bit_vector);
        }
        b0 + 2 * b1 + 4 * b2 + 8 * b3
    }
}

} // verus!
