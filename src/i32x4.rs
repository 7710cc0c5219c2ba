use crate::bx4::Bx4;
use crate::v128::{lemma_select_mask_word, V128};
use vstd::prelude::*;

verus! {

/// Four signed 32-bit lanes. Arithmetic wraps as two's-complement integers do.
#[derive(Clone, Copy, Debug, PartialEq, Eq, Structural)]
pub struct I32x4(pub i32, pub i32, pub i32, pub i32);

impl View for I32x4 {
    type V = Seq<i32>;

    open spec fn view(&self) -> Seq<i32> {
        seq![self.0, self.1, self.2, self.3]
    }
}

/// The vector with one value in every lane.
pub open spec fn splat_spec(x: i32) -> I32x4 {
    I32x4(x, x, x, x)
}

/// Lane `i` of the eight lanes of `a` followed by `b`.
pub open spec fn concat_lane(a: I32x4, b: I32x4, i: int) -> i32 {
    if i < 4 {
        a@[i]
    } else {
        b@[i - 4]
    }
}

/// Lane-wise wrapping addition.
pub open spec fn add_spec(a: I32x4, b: I32x4) -> I32x4 {
    I32x4(a.0.wrapping_add(b.0), a.1.wrapping_add(b.1), a.2.wrapping_add(b.2), a.3.wrapping_add(b.3))
}

/// Lane-wise wrapping subtraction.
pub open spec fn sub_spec(a: I32x4, b: I32x4) -> I32x4 {
    I32x4(a.0.wrapping_sub(b.0), a.1.wrapping_sub(b.1), a.2.wrapping_sub(b.2), a.3.wrapping_sub(b.3))
}

/// Lane-wise wrapping multiplication.
pub open spec fn mul_spec(a: I32x4, b: I32x4) -> I32x4 {
    I32x4(a.0.wrapping_mul(b.0), a.1.wrapping_mul(b.1), a.2.wrapping_mul(b.2), a.3.wrapping_mul(b.3))
}

/// Integer division of one lane, rounding toward zero; `i32::MIN / -1`
/// wraps to `i32::MIN`.
pub open spec fn div_lane(n: i32, d: i32) -> i32 {
    if n == i32::MIN && d == -1 {
        i32::MIN
    } else if n >= 0 {
        (n / d) as i32
    } else {
        (-((-n) / (d as int))) as i32
    }
}

/// Every lane of the divisor is nonzero.
pub open spec fn div_ok(a: I32x4, b: I32x4) -> bool {
    b.0 != 0 && b.1 != 0 && b.2 != 0 && b.3 != 0
}

/// Wrapping division of one lane; a zero divisor is a caller error.
fn wrapping_div_lane(n: i32, d: i32) -> (r: i32)
    requires
        d != 0,
    ensures
        r == div_lane(n, d),
{
    if n == i32::MIN && d == -1 {
        i32::MIN
    } else {
        n / d
    }
}

/// Lane-wise integer division.
pub open spec fn div_spec(a: I32x4, b: I32x4) -> I32x4 {
    I32x4(div_lane(a.0, b.0), div_lane(a.1, b.1), div_lane(a.2, b.2), div_lane(a.3, b.3))
}

/// Two's-complement negation of one lane; `i32::MIN` stays `i32::MIN`.
pub open spec fn neg_lane(x: i32) -> i32 {
    0i32.wrapping_sub(x)
}

/// Lane-wise negation.
pub open spec fn neg_spec(a: I32x4) -> I32x4 {
    I32x4(neg_lane(a.0), neg_lane(a.1), neg_lane(a.2), neg_lane(a.3))
}

/// Absolute value of one lane; `i32::MIN` stays `i32::MIN`.
pub open spec fn abs_lane(x: i32) -> i32 {
    if x < 0 {
        neg_lane(x)
    } else {
        x
    }
}

/// Left shift of every lane by `amt` taken modulo 32.
pub open spec fn shl_spec(a: I32x4, amt: u32) -> I32x4 {
    I32x4(a.0.wrapping_shl(amt), a.1.wrapping_shl(amt), a.2.wrapping_shl(amt), a.3.wrapping_shl(amt))
}

/// Arithmetic (sign-extending) right shift of every lane by `amt` taken
/// modulo 32.
pub open spec fn shr_spec(a: I32x4, amt: u32) -> I32x4 {
    I32x4(a.0.wrapping_shr(amt), a.1.wrapping_shr(amt), a.2.wrapping_shr(amt), a.3.wrapping_shr(amt))
}

/// The lesser of two lanes.
pub open spec fn min_lane(a: i32, b: i32) -> i32 {
    if a < b {
        a
    } else {
        b
    }
}

/// The greater of two lanes.
pub open spec fn max_lane(a: i32, b: i32) -> i32 {
    if a > b {
        a
    } else {
        b
    }
}

/// `f` applied to the lanes from lane 0 to lane 3, starting from `init`.
pub open spec fn fold_lanes(v: I32x4, init: i32, f: spec_fn(i32, i32) -> i32) -> i32 {
    v@.fold_left(init, f)
}

proof fn lemma_fold_lanes(v: I32x4, init: i32, f: spec_fn(i32, i32) -> i32)
    ensures
        fold_lanes(v, init, f) == f(f(f(f(init, v.0), v.1), v.2), v.3),
{
    let s = v@;
    assert(s.drop_last() =~= seq![v.0, v.1, v.2]);
    assert(s.drop_last().drop_last() =~= seq![v.0, v.1]);
    assert(s.drop_last().drop_last().drop_last() =~= seq![v.0]);
    assert(s.drop_last().drop_last().drop_last().drop_last() =~= Seq::<i32>::empty());
    reveal_with_fuel(Seq::fold_left, 5);
}

proof fn lemma_word_round_trip(x: i32)
    ensures
        (x as u32) as i32 == x,
{
    assert((x as u32) as i32 == x) by (bit_vector);
}

/// The lanes of a vector built from four values are those values, in
/// order, and the four lanes determine the vector.
pub proof fn lemma_new_extract_round_trip(v: I32x4, v1: i32, v2: i32, v3: i32, v4: i32)
    requires
        v@ == seq![v1, v2, v3, v4],
    ensures
        v@[0] == v1 && v@[1] == v2 && v@[2] == v3 && v@[3] == v4,
        v == I32x4(v1, v2, v3, v4),
{
    assert(v@[0] == v1 && v@[1] == v2 && v@[2] == v3 && v@[3] == v4);
}

/// A zero in any lane of the divisor puts the division outside its
/// contract, whichever lane it is in.
pub proof fn lemma_zero_divisor_lane_refused(a: I32x4, b: I32x4, i: int)
    requires
        0 <= i < 4,
        b@[i] == 0,
    ensures
        !div_ok(a, b),
{
}

/// Shuffling a vector with itself only reindexes it: the indices 0, 1, 2, 3
/// give the vector back and 3, 2, 1, 0 give it reversed; index `i + 4` picks
/// the same lane as `i`.
pub proof fn lemma_shuffle_reindexing(a: I32x4)
    ensures
        seq![concat_lane(a, a, 0), concat_lane(a, a, 1), concat_lane(a, a, 2), concat_lane(a, a, 3)]
            == a@,
        seq![concat_lane(a, a, 3), concat_lane(a, a, 2), concat_lane(a, a, 1), concat_lane(a, a, 0)]
            == a@.reverse(),
        forall|i: int| 0 <= i < 4 ==> #[trigger] concat_lane(a, a, i + 4) == concat_lane(a, a, i),
{
    assert(seq![concat_lane(a, a, 0), concat_lane(a, a, 1), concat_lane(a, a, 2), concat_lane(a, a, 3)]
        =~= a@);
    assert(seq![concat_lane(a, a, 3), concat_lane(a, a, 2), concat_lane(a, a, 1), concat_lane(a, a, 0)]
        =~= a@.reverse());
}

impl I32x4 {
    /// All lanes zero.
    pub fn default() -> (r: I32x4)
        ensures
            r@ == seq![0i32, 0i32, 0i32, 0i32],
    {
        I32x4(0, 0, 0, 0)
    }

    pub fn new(v1: i32, v2: i32, v3: i32, v4: i32) -> (r: I32x4)
        ensures
            r@ == seq![v1, v2, v3, v4],
    {
        I32x4(v1, v2, v3, v4)
    }

    /// One value in every lane.
    pub fn splat(value: i32) -> (r: I32x4)
        ensures
            r == splat_spec(value),
    {
        I32x4(value, value, value, value)
    }

    /// Lane `i` is `f(i)`; `f` is called once per lane, in lane order.
    pub fn new_from_fn<F: Fn(usize) -> i32>(f: F) -> (r: I32x4)
        requires
            forall|i: usize| i < 4 ==> f.requires((i,)),
        ensures
            forall|i: usize| i < 4 ==> f.ensures((i,), #[trigger] r@[i as int]),
    {
        let v0 = f(0);
        let v1 = f(1);
        let v2 = f(2);
        let v3 = f(3);
        let r = I32x4(v0, v1, v2, v3);
        assert forall|i: usize| i < 4 implies f.ensures((i,), #[trigger] r@[i as int]) by {
            if i == 0 {
            } else if i == 1 {
            } else if i == 2 {
            } else {
            }
        }
        r
    }

    /// Reads the four lanes from a register value.
    pub fn from_v128(data: V128) -> (r: I32x4)
        ensures
            r == I32x4(data.w0 as i32, data.w1 as i32, data.w2 as i32, data.w3 as i32),
    {
        I32x4(data.w0 as i32, data.w1 as i32, data.w2 as i32, data.w3 as i32)
    }

    /// The register value of the four lanes.
    pub fn to_v128(self) -> (r: V128)
        ensures
            r == (V128 { w0: self.0 as u32, w1: self.1 as u32, w2: self.2 as u32, w3: self.3 as u32 }),
    {
        V128::new(self.0 as u32, self.1 as u32, self.2 as u32, self.3 as u32)
    }

    /// `f` applied to each lane on its own.
    pub fn apply<F: Fn(i32) -> i32>(&self, f: F) -> (r: I32x4)
        requires
            forall|i: int| 0 <= i < 4 ==> f.requires((#[trigger] self@[i],)),
        ensures
            forall|i: int| 0 <= i < 4 ==> f.ensures((self@[i],), #[trigger] r@[i]),
    {
        assert(f.requires((self@[0],)) && f.requires((self@[1],)) && f.requires((self@[2],))
            && f.requires((self@[3],)));
        let r = I32x4(f(self.0), f(self.1), f(self.2), f(self.3));
        assert forall|i: int| 0 <= i < 4 implies f.ensures((self@[i],), #[trigger] r@[i]) by {
            if i == 0 {
            } else if i == 1 {
            } else if i == 2 {
            } else {
            }
        }
        r
    }

    /// Folds the lanes with `f`, from lane 0 to lane 3, starting from
    /// `init_val`: `f(f(f(f(init_val, v0), v1), v2), v3)`.
    pub fn reduce<F: Fn(i32, i32) -> i32>(&self, f: F, init_val: i32) -> (r: i32)
        requires
            forall|a: i32, b: i32| #[trigger] f.requires((a, b)),
        ensures
            exists|a1: i32, a2: i32, a3: i32|
                {
                    &&& #[trigger] f.ensures((init_val, self.0), a1)
                    &&& #[trigger] f.ensures((a1, self.1), a2)
                    &&& #[trigger] f.ensures((a2, self.2), a3)
                    &&& f.ensures((a3, self.3), r)
                },
    {
        let a1 = f(init_val, self.0);
        let a2 = f(a1, self.1);
        let a3 = f(a2, self.2);
        f(a3, self.3)
    }

    /// The same fold as `reduce`.
    pub fn fold<F: Fn(i32, i32) -> i32>(&self, f: F, init_val: i32) -> (r: i32)
        requires
            forall|a: i32, b: i32| #[trigger] f.requires((a, b)),
        ensures
            exists|a1: i32, a2: i32, a3: i32|
                {
                    &&& #[trigger] f.ensures((init_val, self.0), a1)
                    &&& #[trigger] f.ensures((a1, self.1), a2)
                    &&& #[trigger] f.ensures((a2, self.2), a3)
                    &&& f.ensures((a3, self.3), r)
                },
    {
        self.reduce(f, init_val)
    }

    /// Wrapping sum of the lanes.
    pub fn reduce_add(&self) -> (r: i32)
        ensures
            r == fold_lanes(*self, 0, |a: i32, b: i32| a.wrapping_add(b)),
    {
        let r = self.reduce(|a: i32, b: i32| -> (c: i32) ensures c == a.wrapping_add(b) { a.wrapping_add(b) }, 0);
        proof { lemma_fold_lanes(*self, 0, |a: i32, b: i32| a.wrapping_add(b)); }
        r
    }

    /// Wrapping product of the lanes.
    pub fn reduce_mul(&self) -> (r: i32)
        ensures
            r == fold_lanes(*self, 1, |a: i32, b: i32| a.wrapping_mul(b)),
    {
        let r = self.reduce(|a: i32, b: i32| -> (c: i32) ensures c == a.wrapping_mul(b) { a.wrapping_mul(b) }, 1);
        proof { lemma_fold_lanes(*self, 1, |a: i32, b: i32| a.wrapping_mul(b)); }
        r
    }

    /// The least lane.
    pub fn reduce_min(&self) -> (r: i32)
        ensures
            r == fold_lanes(*self, i32::MAX, |a: i32, b: i32| min_lane(a, b)),
            forall|i: int| 0 <= i < 4 ==> r <= #[trigger] self@[i],
            exists|i: int| 0 <= i < 4 && r == #[trigger] self@[i],
    {
        let r = self.reduce(|a: i32, b: i32| -> (c: i32) ensures c == min_lane(a, b) { if a < b { a } else { b } }, i32::MAX);
        proof {
            lemma_fold_lanes(*self, i32::MAX, |a: i32, b: i32| min_lane(a, b));
            if r == self.0 { assert(r == self@[0]); }
            else if r == self.1 { assert(r == self@[1]); }
            else if r == self.2 { assert(r == self@[2]); }
            else { assert(r == self@[3]); }
        }
        r
    }

    /// The greatest lane.
    pub fn reduce_max(&self) -> (r: i32)
        ensures
            r == fold_lanes(*self, i32::MIN, |a: i32, b: i32| max_lane(a, b)),
            forall|i: int| 0 <= i < 4 ==> r >= #[trigger] self@[i],
            exists|i: int| 0 <= i < 4 && r == #[trigger] self@[i],
    {
        let r = self.reduce(|a: i32, b: i32| -> (c: i32) ensures c == max_lane(a, b) { if a > b { a } else { b } }, i32::MIN);
        proof {
            lemma_fold_lanes(*self, i32::MIN, |a: i32, b: i32| max_lane(a, b));
            if r == self.0 { assert(r == self@[0]); }
            else if r == self.1 { assert(r == self@[1]); }
            else if r == self.2 { assert(r == self@[2]); }
            else { assert(r == self@[3]); }
        }
        r
    }

    pub fn extract_lanes(&self) -> (r: (i32, i32, i32, i32))
        ensures
            r == (self@[0], self@[1], self@[2], self@[3]),
    {
        (self.0, self.1, self.2, self.3)
    }

    /// The lane at `index`; an index outside 0..3 is a caller error.
    pub fn extract_lane(&self, index: usize) -> (r: i32)
        requires
            index < 4,
        ensures
            r == self@[index as int],
    {
        let lanes = [self.0, self.1, self.2, self.3];
        assert(lanes@ =~= self@);
        lanes[index]
    }

    /// Rewrites the lane at `index`; an index outside 0..3 is a caller error.
    pub fn set_lane(&mut self, index: usize, value: i32)
        requires
            index < 4,
        ensures
            final(self)@ == old(self)@.update(index as int, value),
    {
        let mut lanes = [self.0, self.1, self.2, self.3];
        lanes[index] = value;
        *self = I32x4(lanes[0], lanes[1], lanes[2], lanes[3]);
        assert(self@ =~= old(self)@.update(index as int, value));
    }

    /// Lane `i` is lane `i` of `self` where lane `i` of `mask` is true, else
    /// lane `i` of `other`: a bitwise blend of the register values.
    pub fn if_else(&self, other: &I32x4, mask: &Bx4) -> (r: I32x4)
        ensures
            forall|i: int| 0 <= i < 4 ==> #[trigger] r@[i] == if mask@[i] {
                self@[i]
            } else {
                other@[i]
            },
    {
        let data = self.to_v128().bitselect(other.to_v128(), mask.to_v128());
        proof {
            broadcast use lemma_select_mask_word;
            lemma_word_round_trip(self.0);
            lemma_word_round_trip(self.1);
            lemma_word_round_trip(self.2);
            lemma_word_round_trip(self.3);
            lemma_word_round_trip(other.0);
            lemma_word_round_trip(other.1);
            lemma_word_round_trip(other.2);
            lemma_word_round_trip(other.3);
        }
        I32x4::from_v128(data)
    }

    /// Whether every lane is nonzero.
    pub fn all_nonzero(self) -> (r: bool)
        ensures
            r == forall|i: int| 0 <= i < 4 ==> #[trigger] self@[i] != 0,
    {
        let r = self.0 != 0 && self.1 != 0 && self.2 != 0 && self.3 != 0;
        assert(r == forall|i: int| 0 <= i < 4 ==> #[trigger] self@[i] != 0) by {
            if !r {
                if self.0 == 0 { assert(self@[0] == 0); }
                else if self.1 == 0 { assert(self@[1] == 0); }
                else if self.2 == 0 { assert(self@[2] == 0); }
                else { assert(self@[3] == 0); }
            }
        }
        r
    }

    /// Lane `i` of the result is lane `Ii` of the eight lanes of `self`
    /// followed by `other`.
    pub fn shuffle<const I0: usize, const I1: usize, const I2: usize, const I3: usize>(
        &self,
        other: &I32x4,
    ) -> (r: I32x4)
        requires
            I0 < 8 && I1 < 8 && I2 < 8 && I3 < 8,
        ensures
            r@ == seq![
                concat_lane(*self, *other, I0 as int),
                concat_lane(*self, *other, I1 as int),
                concat_lane(*self, *other, I2 as int),
                concat_lane(*self, *other, I3 as int),
            ],
    {
        let lanes = [self.0, self.1, self.2, self.3, other.0, other.1, other.2, other.3];
        assert(forall|i: int| 0 <= i < 8 ==> #[trigger] lanes@[i] == concat_lane(*self, *other, i));
        I32x4(lanes[I0], lanes[I1], lanes[I2], lanes[I3])
    }

    /// Lane-wise: whether lane `i` of `self` is equal to lane `i` of `other`.
    pub fn eq(&self, other: &I32x4) -> (r: Bx4)
        ensures
            r == Bx4(self.0 == other.0, self.1 == other.1, self.2 == other.2, self.3 == other.3),
    {
        Bx4::new(self.0 == other.0, self.1 == other.1, self.2 == other.2, self.3 == other.3)
    }

    /// Lane-wise: whether each lane is equal to `other`.
    pub fn s_eq(&self, other: i32) -> (r: Bx4)
        ensures
            r == Bx4(self.0 == other, self.1 == other, self.2 == other, self.3 == other),
    {
        self.eq(&I32x4::splat(other))
    }

    /// Lane-wise: whether lane `i` of `self` is different from lane `i` of `other`.
    pub fn ne(&self, other: &I32x4) -> (r: Bx4)
        ensures
            r == Bx4(self.0 != other.0, self.1 != other.1, self.2 != other.2, self.3 != other.3),
    {
        Bx4::new(self.0 != other.0, self.1 != other.1, self.2 != other.2, self.3 != other.3)
    }

    /// Lane-wise: whether each lane is different from `other`.
    pub fn s_ne(&self, other: i32) -> (r: Bx4)
        ensures
            r == Bx4(self.0 != other, self.1 != other, self.2 != other, self.3 != other),
    {
        self.ne(&I32x4::splat(other))
    }

    /// Lane-wise: whether lane `i` of `self` is less than lane `i` of `other`.
    pub fn lt(&self, other: &I32x4) -> (r: Bx4)
        ensures
            r == Bx4(self.0 < other.0, self.1 < other.1, self.2 < other.2, self.3 < other.3),
    {
        Bx4::new(self.0 < other.0, self.1 < other.1, self.2 < other.2, self.3 < other.3)
    }

    /// Lane-wise: whether each lane is less than `other`.
    pub fn s_lt(&self, other: i32) -> (r: Bx4)
        ensures
            r == Bx4(self.0 < other, self.1 < other, self.2 < other, self.3 < other),
    {
        self.lt(&I32x4::splat(other))
    }

    /// Lane-wise: whether lane `i` of `self` is at most lane `i` of `other`.
    pub fn le(&self, other: &I32x4) -> (r: Bx4)
        ensures
            r == Bx4(self.0 <= other.0, self.1 <= other.1, self.2 <= other.2, self.3 <= other.3),
    {
        Bx4::new(self.0 <= other.0, self.1 <= other.1, self.2 <= other.2, self.3 <= other.3)
    }

    /// Lane-wise: whether each lane is at most `other`.
    pub fn s_le(&self, other: i32) -> (r: Bx4)
        ensures
            r == Bx4(self.0 <= other, self.1 <= other, self.2 <= other, self.3 <= other),
    {
        self.le(&I32x4::splat(other))
    }

    /// Lane-wise: whether lane `i` of `self` is greater than lane `i` of `other`.
    pub fn gt(&self, other: &I32x4) -> (r: Bx4)
        ensures
            r == Bx4(self.0 > other.0, self.1 > other.1, self.2 > other.2, self.3 > other.3),
    {
        Bx4::new(self.0 > other.0, self.1 > other.1, self.2 > other.2, self.3 > other.3)
    }

    /// Lane-wise: whether each lane is greater than `other`.
    pub fn s_gt(&self, other: i32) -> (r: Bx4)
        ensures
            r == Bx4(self.0 > other, self.1 > other, self.2 > other, self.3 > other),
    {
        self.gt(&I32x4::splat(other))
    }

    /// Lane-wise: whether lane `i` of `self` is at least lane `i` of `other`.
    pub fn ge(&self, other: &I32x4) -> (r: Bx4)
        ensures
            r == Bx4(self.0 >= other.0, self.1 >= other.1, self.2 >= other.2, self.3 >= other.3),
    {
        Bx4::new(self.0 >= other.0, self.1 >= other.1, self.2 >= other.2, self.3 >= other.3)
    }

    /// Lane-wise: whether each lane is at least `other`.
    pub fn s_ge(&self, other: i32) -> (r: Bx4)
        ensures
            r == Bx4(self.0 >= other, self.1 >= other, self.2 >= other, self.3 >= other),
    {
        self.ge(&I32x4::splat(other))
    }

    /// Lane-wise lesser of the two lanes.
    pub fn min(&self, other: &I32x4) -> (r: I32x4)
        ensures
            r == I32x4(min_lane(self.0, other.0), min_lane(self.1, other.1), min_lane(self.2, other.2), min_lane(self.3, other.3)),
    {
        I32x4(
            if self.0 < other.0 { self.0 } else { other.0 },
            if self.1 < other.1 { self.1 } else { other.1 },
            if self.2 < other.2 { self.2 } else { other.2 },
            if self.3 < other.3 { self.3 } else { other.3 },
        )
    }

    /// Lane-wise lesser of each lane and `other`.
    pub fn s_min(&self, other: i32) -> (r: I32x4)
        ensures
            r == I32x4(min_lane(self.0, other), min_lane(self.1, other), min_lane(self.2, other), min_lane(self.3, other)),
    {
        self.min(&I32x4::splat(other))
    }

    /// Lane-wise greater of the two lanes.
    pub fn max(&self, other: &I32x4) -> (r: I32x4)
        ensures
            r == I32x4(max_lane(self.0, other.0), max_lane(self.1, other.1), max_lane(self.2, other.2), max_lane(self.3, other.3)),
    {
        I32x4(
            if self.0 > other.0 { self.0 } else { other.0 },
            if self.1 > other.1 { self.1 } else { other.1 },
            if self.2 > other.2 { self.2 } else { other.2 },
            if self.3 > other.3 { self.3 } else { other.3 },
        )
    }

    /// Lane-wise greater of each lane and `other`.
    pub fn s_max(&self, other: i32) -> (r: I32x4)
        ensures
            r == I32x4(max_lane(self.0, other), max_lane(self.1, other), max_lane(self.2, other), max_lane(self.3, other)),
    {
        self.max(&I32x4::splat(other))
    }

    /// Lane-wise absolute value; `i32::MIN` stays `i32::MIN`.
    pub fn abs(self) -> (r: I32x4)
        ensures
            r == I32x4(abs_lane(self.0), abs_lane(self.1), abs_lane(self.2), abs_lane(self.3)),
    {
        I32x4(
            if self.0 < 0 { 0i32.wrapping_sub(self.0) } else { self.0 },
            if self.1 < 0 { 0i32.wrapping_sub(self.1) } else { self.1 },
            if self.2 < 0 { 0i32.wrapping_sub(self.2) } else { self.2 },
            if self.3 < 0 { 0i32.wrapping_sub(self.3) } else { self.3 },
        )
    }
}


impl core::ops::Add for I32x4 {
    type Output = I32x4;

    /// Lane-wise wrapping addition.
    fn add(self, other: I32x4) -> (r: I32x4)
        ensures
            r == add_spec(self, other),
    {
        I32x4(self.0.wrapping_add(other.0), self.1.wrapping_add(other.1), self.2.wrapping_add(other.2), self.3.wrapping_add(other.3))
    }
}

impl vstd::std_specs::ops::AddSpecImpl for I32x4 {
    open spec fn obeys_add_spec() -> bool {
        true
    }

    open spec fn add_req(self, other: I32x4) -> bool {
        true
    }

    open spec fn add_spec(self, other: I32x4) -> I32x4 {
        add_spec(self, other)
    }
}

impl core::ops::Add<i32> for I32x4 {
    type Output = I32x4;

    /// Lane-wise wrapping addition with the scalar broadcast to every lane.
    fn add(self, other: i32) -> (r: I32x4)
        ensures
            r == add_spec(self, splat_spec(other)),
    {
        self + I32x4::splat(other)
    }
}

impl vstd::std_specs::ops::AddSpecImpl<i32> for I32x4 {
    open spec fn obeys_add_spec() -> bool {
        true
    }

    open spec fn add_req(self, other: i32) -> bool {
        true
    }

    open spec fn add_spec(self, other: i32) -> I32x4 {
        add_spec(self, splat_spec(other))
    }
}

impl core::ops::Add<I32x4> for i32 {
    type Output = I32x4;

    /// Lane-wise wrapping addition with the scalar broadcast to every lane.
    fn add(self, other: I32x4) -> (r: I32x4)
        ensures
            r == add_spec(splat_spec(self), other),
    {
        I32x4::splat(self) + other
    }
}

impl vstd::std_specs::ops::AddSpecImpl<I32x4> for i32 {
    open spec fn obeys_add_spec() -> bool {
        true
    }

    open spec fn add_req(self, other: I32x4) -> bool {
        true
    }

    open spec fn add_spec(self, other: I32x4) -> I32x4 {
        add_spec(splat_spec(self), other)
    }
}

impl core::ops::AddAssign for I32x4 {
    fn add_assign(&mut self, other: I32x4)
        ensures
            *final(self) == add_spec(*old(self), other),
    {
        *self = *self + other;
    }
}

impl core::ops::AddAssign<i32> for I32x4 {
    fn add_assign(&mut self, other: i32)
        ensures
            *final(self) == add_spec(*old(self), splat_spec(other)),
    {
        *self = *self + I32x4::splat(other);
    }
}

impl core::ops::Sub for I32x4 {
    type Output = I32x4;

    /// Lane-wise wrapping subtraction.
    fn sub(self, other: I32x4) -> (r: I32x4)
        ensures
            r == sub_spec(self, other),
    {
        I32x4(self.0.wrapping_sub(other.0), self.1.wrapping_sub(other.1), self.2.wrapping_sub(other.2), self.3.wrapping_sub(other.3))
    }
}

impl vstd::std_specs::ops::SubSpecImpl for I32x4 {
    open spec fn obeys_sub_spec() -> bool {
        true
    }

    open spec fn sub_req(self, other: I32x4) -> bool {
        true
    }

    open spec fn sub_spec(self, other: I32x4) -> I32x4 {
        sub_spec(self, other)
    }
}

impl core::ops::Sub<i32> for I32x4 {
    type Output = I32x4;

    /// Lane-wise wrapping subtraction with the scalar broadcast to every lane.
    fn sub(self, other: i32) -> (r: I32x4)
        ensures
            r == sub_spec(self, splat_spec(other)),
    {
        self - I32x4::splat(other)
    }
}

impl vstd::std_specs::ops::SubSpecImpl<i32> for I32x4 {
    open spec fn obeys_sub_spec() -> bool {
        true
    }

    open spec fn sub_req(self, other: i32) -> bool {
        true
    }

    open spec fn sub_spec(self, other: i32) -> I32x4 {
        sub_spec(self, splat_spec(other))
    }
}

impl core::ops::Sub<I32x4> for i32 {
    type Output = I32x4;

    /// Lane-wise wrapping subtraction with the scalar broadcast to every lane.
    fn sub(self, other: I32x4) -> (r: I32x4)
        ensures
            r == sub_spec(splat_spec(self), other),
    {
        I32x4::splat(self) - other
    }
}

impl vstd::std_specs::ops::SubSpecImpl<I32x4> for i32 {
    open spec fn obeys_sub_spec() -> bool {
        true
    }

    open spec fn sub_req(self, other: I32x4) -> bool {
        true
    }

    open spec fn sub_spec(self, other: I32x4) -> I32x4 {
        sub_spec(splat_spec(self), other)
    }
}

impl core::ops::SubAssign for I32x4 {
    fn sub_assign(&mut self, other: I32x4)
        ensures
            *final(self) == sub_spec(*old(self), other),
    {
        *self = *self - other;
    }
}

impl core::ops::SubAssign<i32> for I32x4 {
    fn sub_assign(&mut self, other: i32)
        ensures
            *final(self) == sub_spec(*old(self), splat_spec(other)),
    {
        *self = *self - I32x4::splat(other);
    }
}

impl core::ops::Mul for I32x4 {
    type Output = I32x4;

    /// Lane-wise wrapping multiplication.
    fn mul(self, other: I32x4) -> (r: I32x4)
        ensures
            r == mul_spec(self, other),
    {
        I32x4(self.0.wrapping_mul(other.0), self.1.wrapping_mul(other.1), self.2.wrapping_mul(other.2), self.3.wrapping_mul(other.3))
    }
}

impl vstd::std_specs::ops::MulSpecImpl for I32x4 {
    open spec fn obeys_mul_spec() -> bool {
        true
    }

    open spec fn mul_req(self, other: I32x4) -> bool {
        true
    }

    open spec fn mul_spec(self, other: I32x4) -> I32x4 {
        mul_spec(self, other)
    }
}

impl core::ops::Mul<i32> for I32x4 {
    type Output = I32x4;

    /// Lane-wise wrapping multiplication with the scalar broadcast to every lane.
    fn mul(self, other: i32) -> (r: I32x4)
        ensures
            r == mul_spec(self, splat_spec(other)),
    {
        self * I32x4::splat(other)
    }
}

impl vstd::std_specs::ops::MulSpecImpl<i32> for I32x4 {
    open spec fn obeys_mul_spec() -> bool {
        true
    }

    open spec fn mul_req(self, other: i32) -> bool {
        true
    }

    open spec fn mul_spec(self, other: i32) -> I32x4 {
        mul_spec(self, splat_spec(other))
    }
}

impl core::ops::Mul<I32x4> for i32 {
    type Output = I32x4;

    /// Lane-wise wrapping multiplication with the scalar broadcast to every lane.
    fn mul(self, other: I32x4) -> (r: I32x4)
        ensures
            r == mul_spec(splat_spec(self), other),
    {
        I32x4::splat(self) * other
    }
}

impl vstd::std_specs::ops::MulSpecImpl<I32x4> for i32 {
    open spec fn obeys_mul_spec() -> bool {
        true
    }

    open spec fn mul_req(self, other: I32x4) -> bool {
        true
    }

    open spec fn mul_spec(self, other: I32x4) -> I32x4 {
        mul_spec(splat_spec(self), other)
    }
}

impl core::ops::MulAssign for I32x4 {
    fn mul_assign(&mut self, other: I32x4)
        ensures
            *final(self) == mul_spec(*old(self), other),
    {
        *self = *self * other;
    }
}

impl core::ops::MulAssign<i32> for I32x4 {
    fn mul_assign(&mut self, other: i32)
        ensures
            *final(self) == mul_spec(*old(self), splat_spec(other)),
    {
        *self = *self * I32x4::splat(other);
    }
}

impl core::ops::Div for I32x4 {
    type Output = I32x4;

    /// Lane-wise integer division, rounding toward zero and wrapping `i32::MIN / -1`; a zero divisor lane is a caller error.
    fn div(self, other: I32x4) -> (r: I32x4)
        ensures
            r == div_spec(self, other),
    {
        I32x4(
            wrapping_div_lane(self.0, other.0),
            wrapping_div_lane(self.1, other.1),
            wrapping_div_lane(self.2, other.2),
            wrapping_div_lane(self.3, other.3),
        )
    }
}

impl vstd::std_specs::ops::DivSpecImpl for I32x4 {
    open spec fn obeys_div_spec() -> bool {
        true
    }

    open spec fn div_req(self, other: I32x4) -> bool {
        div_ok(self, other)
    }

    open spec fn div_spec(self, other: I32x4) -> I32x4 {
        div_spec(self, other)
    }
}

impl core::ops::Div<i32> for I32x4 {
    type Output = I32x4;

    /// Lane-wise integer division, rounding toward zero and wrapping `i32::MIN / -1`; a zero divisor lane is a caller error with the scalar broadcast to every lane.
    fn div(self, other: i32) -> (r: I32x4)
        ensures
            r == div_spec(self, splat_spec(other)),
    {
        self / I32x4::splat(other)
    }
}

impl vstd::std_specs::ops::DivSpecImpl<i32> for I32x4 {
    open spec fn obeys_div_spec() -> bool {
        true
    }

    open spec fn div_req(self, other: i32) -> bool {
        div_ok(self, splat_spec(other))
    }

    open spec fn div_spec(self, other: i32) -> I32x4 {
        div_spec(self, splat_spec(other))
    }
}

impl core::ops::Div<I32x4> for i32 {
    type Output = I32x4;

    /// Lane-wise integer division, rounding toward zero and wrapping `i32::MIN / -1`; a zero divisor lane is a caller error with the scalar broadcast to every lane.
    fn div(self, other: I32x4) -> (r: I32x4)
        ensures
            r == div_spec(splat_spec(self), other),
    {
        I32x4::splat(self) / other
    }
}

impl vstd::std_specs::ops::DivSpecImpl<I32x4> for i32 {
    open spec fn obeys_div_spec() -> bool {
        true
    }

    open spec fn div_req(self, other: I32x4) -> bool {
        div_ok(splat_spec(self), other)
    }

    open spec fn div_spec(self, other: I32x4) -> I32x4 {
        div_spec(splat_spec(self), other)
    }
}

impl I32x4 {
    /// In-place lane-wise division; a zero divisor lane is a caller error.
    pub fn div_assign(&mut self, other: I32x4)
        requires
            div_ok(*old(self), other),
        ensures
            *final(self) == div_spec(*old(self), other),
    {
        *self = *self / other;
    }

    /// In-place division of every lane by `other`, which must not be zero.
    pub fn div_assign_scalar(&mut self, other: i32)
        requires
            div_ok(*old(self), splat_spec(other)),
        ensures
            *final(self) == div_spec(*old(self), splat_spec(other)),
    {
        *self = *self / other;
    }
}

impl core::ops::Neg for I32x4 {
    type Output = I32x4;

    /// Lane-wise two's-complement negation; `i32::MIN` stays `i32::MIN`.
    fn neg(self) -> (r: I32x4)
        ensures
            r == neg_spec(self),
    {
        I32x4(0i32.wrapping_sub(self.0), 0i32.wrapping_sub(self.1), 0i32.wrapping_sub(self.2), 0i32.wrapping_sub(self.3))
    }
}

impl vstd::std_specs::ops::NegSpecImpl for I32x4 {
    open spec fn obeys_neg_spec() -> bool {
        true
    }

    open spec fn neg_req(self) -> bool {
        true
    }

    open spec fn neg_spec(self) -> I32x4 {
        neg_spec(self)
    }
}

impl core::ops::Shl<u32> for I32x4 {
    type Output = I32x4;

    /// Left shift of every lane by `amt` modulo 32.
    fn shl(self, amt: u32) -> (r: I32x4)
        ensures
            r == shl_spec(self, amt),
    {
        I32x4(self.0.wrapping_shl(amt), self.1.wrapping_shl(amt), self.2.wrapping_shl(amt), self.3.wrapping_shl(amt))
    }
}

impl vstd::std_specs::ops::ShlSpecImpl<u32> for I32x4 {
    open spec fn obeys_shl_spec() -> bool {
        true
    }

    open spec fn shl_req(self, amt: u32) -> bool {
        true
    }

    open spec fn shl_spec(self, amt: u32) -> I32x4 {
        shl_spec(self, amt)
    }
}

impl core::ops::ShlAssign<u32> for I32x4 {
    fn shl_assign(&mut self, amt: u32)
        ensures
            *final(self) == shl_spec(*old(self), amt),
    {
        *self = *self << amt;
    }
}

impl core::ops::Shr<u32> for I32x4 {
    type Output = I32x4;

    /// Arithmetic right shift of every lane by `amt` modulo 32.
    fn shr(self, amt: u32) -> (r: I32x4)
        ensures
            r == shr_spec(self, amt),
    {
        I32x4(self.0.wrapping_shr(amt), self.1.wrapping_shr(amt), self.2.wrapping_shr(amt), self.3.wrapping_shr(amt))
    }
}

impl vstd::std_specs::ops::ShrSpecImpl<u32> for I32x4 {
    open spec fn obeys_shr_spec() -> bool {
        true
    }

    open spec fn shr_req(self, amt: u32) -> bool {
        true
    }

    open spec fn shr_spec(self, amt: u32) -> I32x4 {
        shr_spec(self, amt)
    }
}

impl core::ops::ShrAssign<u32> for I32x4 {
    fn shr_assign(&mut self, amt: u32)
        ensures
            *final(self) == shr_spec(*old(self), amt),
    {
        *self = *self >> amt;
    }
}

impl From<[i32; 4]> for I32x4 {
    /// Lane `i` is element `i`.
    fn from(arr: [i32; 4]) -> (r: I32x4)
        ensures
            r@ == arr@,
    {
        let r = I32x4(arr[0], arr[1], arr[2], arr[3]);
        assert(r@ =~= arr@);
        r
    }
}

impl vstd::std_specs::convert::FromSpecImpl<[i32; 4]> for I32x4 {
    open spec fn obeys_from_spec() -> bool {
        true
    }

    open spec fn from_spec(arr: [i32; 4]) -> I32x4 {
        I32x4(arr@[0], arr@[1], arr@[2], arr@[3])
    }
}

impl From<&[i32; 4]> for I32x4 {
    /// Lane `i` is element `i`.
    fn from(arr: &[i32; 4]) -> (r: I32x4)
        ensures
            r@ == arr@,
    {
        let r = I32x4(arr[0], arr[1], arr[2], arr[3]);
        assert(r@ =~= arr@);
        r
    }
}

impl vstd::std_specs::convert::FromSpecImpl<&[i32; 4]> for I32x4 {
    open spec fn obeys_from_spec() -> bool {
        true
    }

    open spec fn from_spec(arr: &[i32; 4]) -> I32x4 {
        I32x4(arr@[0], arr@[1], arr@[2], arr@[3])
    }
}

impl From<I32x4> for [i32; 4] {
    /// Element `i` is lane `i`.
    fn from(v: I32x4) -> (r: [i32; 4])
        ensures
            r@ == v@,
    {
        let r = [v.0, v.1, v.2, v.3];
        assert(r@ =~= v@);
        r
    }
}

impl vstd::std_specs::convert::FromSpecImpl<I32x4> for [i32; 4] {
    open spec fn obeys_from_spec() -> bool {
        true
    }

    open spec fn from_spec(v: I32x4) -> [i32; 4] {
        [v.0, v.1, v.2, v.3]
    }
}

impl From<I32x4> for Vec<i32> {
    /// Element `i` is lane `i`.
    fn from(v: I32x4) -> (r: Vec<i32>)
        ensures
            r@ == v@,
    {
        let r = vec![v.0, v.1, v.2, v.3];
        assert(r@ =~= v@);
        r
    }
}

impl vstd::std_specs::convert::FromSpecImpl<I32x4> for Vec<i32> {
    /// A vector is not determined by its elements alone (its capacity is
    /// not), so the contract of `from` above is all that is stated.
    open spec fn obeys_from_spec() -> bool {
        false
    }

    open spec fn from_spec(v: I32x4) -> Vec<i32> {
        arbitrary()
    }
}

impl Default for I32x4 {
    /// All lanes zero.
    fn default() -> (r: I32x4)
        ensures
            r@ == seq![0i32, 0i32, 0i32, 0i32],
    {
        I32x4::default()
    }
}

} // verus!
