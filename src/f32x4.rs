use crate::bx4::Bx4;
use crate::i32x4::I32x4;
use crate::u32x4::U32x4;
use crate::v128::{lemma_select_mask_word, V128};
use vstd::arithmetic::div_mod::{
    lemma_basic_div, lemma_div_by_multiple, lemma_div_is_ordered, lemma_fundamental_div_mod,
    lemma_multiply_divide_lt,
};
use vstd::arithmetic::power2::{lemma2_to64, lemma_pow2_adds, lemma_pow2_strictly_increases, pow2};
use vstd::bits::{lemma_u32_shl_is_mul, lemma_u32_shr_is_div};
use vstd::prelude::*;

verus! {

/// Four IEEE-754 single-precision lanes, each held as its 32-bit pattern.
/// Only the operations that are exact on the patterns live here: the
/// bitwise blend, sign changes and the conversions to integers.
#[derive(Clone, Copy)]
pub struct F32x4 {
    bits: V128,
}

impl View for F32x4 {
    type V = Seq<u32>;

    closed spec fn view(&self) -> Seq<u32> {
        self.bits.words()
    }
}

/// Whether the sign bit of a single-precision pattern is set.
pub open spec fn f32_negative(b: u32) -> bool {
    b >> 31u32 == 1u32
}

/// The biased exponent field (bits 23 to 30).
pub open spec fn f32_exponent(b: u32) -> nat {
    ((b >> 23u32) & 0xFFu32) as nat
}

/// The fraction field (bits 0 to 22).
pub open spec fn f32_fraction(b: u32) -> nat {
    (b & 0x7F_FFFFu32) as nat
}

pub open spec fn f32_is_nan(b: u32) -> bool {
    f32_exponent(b) == 255 && f32_fraction(b) != 0
}

pub open spec fn f32_is_infinite(b: u32) -> bool {
    f32_exponent(b) == 255 && f32_fraction(b) == 0
}

/// For a finite pattern, the magnitude of its value rounded toward zero.
/// A normal value is `(2^23 + fraction) * 2^(exponent - 150)`; zero and the
/// subnormals lie below one.
pub open spec fn f32_trunc_magnitude(b: u32) -> nat {
    let e = f32_exponent(b);
    let sig = f32_fraction(b) + pow2(23);
    if e == 0 {
        0
    } else if e >= 150 {
        sig * pow2((e - 150) as nat)
    } else {
        sig / pow2((150 - e) as nat)
    }
}

/// Truncating, saturating conversion to `i32`: NaN gives 0, values beyond
/// the range give `i32::MIN` or `i32::MAX`.
pub open spec fn trunc_sat_i32(b: u32) -> i32 {
    let m = f32_trunc_magnitude(b);
    if f32_is_nan(b) {
        0
    } else if f32_is_infinite(b) {
        if f32_negative(b) {
            i32::MIN
        } else {
            i32::MAX
        }
    } else if f32_negative(b) {
        if m >= 0x8000_0000 {
            i32::MIN
        } else {
            (-(m as int)) as i32
        }
    } else if m > i32::MAX {
        i32::MAX
    } else {
        m as i32
    }
}

/// Truncating, saturating conversion to `u32`: NaN and negative values give
/// 0, values beyond the range give `u32::MAX`.
pub open spec fn trunc_sat_u32(b: u32) -> u32 {
    let m = f32_trunc_magnitude(b);
    if f32_is_nan(b) || f32_negative(b) {
        0
    } else if f32_is_infinite(b) || m > u32::MAX {
        u32::MAX
    } else {
        m as u32
    }
}

/// The fields of a pattern as the bit operations compute them.
proof fn lemma_fields(b: u32)
    ensures
        (b >> 31u32) <= 1,
        f32_negative(b) == ((b >> 31u32) == 1u32),
        (b >> 23u32) & 0xFFu32 <= 255,
        b & 0x7F_FFFFu32 < 0x80_0000,
        (b & 0x7F_FFFFu32) | 0x80_0000u32 == (b & 0x7F_FFFFu32) + 0x80_0000u32,
{
    assert((b >> 31u32) <= 1) by (bit_vector);
    assert((b >> 23u32) & 0xFFu32 <= 255) by (bit_vector);
    assert(b & 0x7F_FFFFu32 < 0x80_0000) by (bit_vector);
    assert((b & 0x7F_FFFFu32) | 0x80_0000u32 == (b & 0x7F_FFFFu32) + 0x80_0000u32) by (bit_vector);
}

/// The truncated magnitude of a pattern whose exponent lies in 127..=158,
/// that is whose value lies in [1, 2^32).
fn trunc_magnitude(b: u32) -> (r: u32)
    requires
        127 <= f32_exponent(b) <= 158,
    ensures
        r as nat == f32_trunc_magnitude(b),
        f32_exponent(b) <= 157 ==> r < 0x8000_0000,
{
    proof {
        lemma_fields(b);
        lemma2_to64();
    }
    let e = (b >> 23u32) & 0xFFu32;
    let sig = (b & 0x7F_FFFFu32) | 0x80_0000u32;
    if e >= 150 {
        let s = e - 150;
        proof {
            if s < 7 {
                lemma_pow2_strictly_increases(s as nat, 7);
            }
            if s < 8 {
                lemma_pow2_strictly_increases(s as nat, 8);
            }
            assert(sig * pow2(s as nat) <= 0xFF_FFFF * 256) by (nonlinear_arith)
                requires
                    sig <= 0xFF_FFFF,
                    pow2(s as nat) <= 256,
            ;
            if e <= 157 {
                assert(sig * pow2(s as nat) <= 0xFF_FFFF * 128) by (nonlinear_arith)
                    requires
                        sig <= 0xFF_FFFF,
                        pow2(s as nat) <= 128,
                ;
            }
            lemma_u32_shl_is_mul(sig, s);
        }
        sig << s
    } else {
        let s = 150 - e;
        proof {
            lemma_u32_shr_is_div(sig, s);
            assert(sig as nat / pow2(s as nat) <= sig) by (nonlinear_arith)
                requires
                    pow2(s as nat) >= 1,
            ;
        }
        sig >> s
    }
}

/// A normal pattern whose exponent is at least `150 + k` has a truncated
/// magnitude of at least `2^(23 + k)`.
proof fn lemma_magnitude_at_least(b: u32, k: nat)
    requires
        150 <= f32_exponent(b) < 255,
        k <= f32_exponent(b) - 150,
    ensures
        f32_trunc_magnitude(b) >= pow2(23) * pow2(k),
{
    let s = (f32_exponent(b) - 150) as nat;
    if k < s {
        lemma_pow2_strictly_increases(k, s);
    }
    let sig = f32_fraction(b) + pow2(23);
    assert(sig * pow2(s) >= pow2(23) * pow2(k)) by (nonlinear_arith)
        requires
            sig >= pow2(23),
            pow2(s) >= pow2(k),
    ;
}

/// Truncating, saturating conversion of one lane to `i32`.
fn lane_to_i32(b: u32) -> (r: i32)
    ensures
        r == trunc_sat_i32(b),
{
    proof {
        lemma_fields(b);
        lemma2_to64();
    }
    let negative = (b >> 31u32) == 1;
    let e = (b >> 23u32) & 0xFFu32;
    let frac = b & 0x7F_FFFFu32;
    if e == 255 {
        if frac != 0 {
            0
        } else if negative {
            i32::MIN
        } else {
            i32::MAX
        }
    } else if e < 127 {
        proof {
            if e != 0 {
                let s = (150 - e) as nat;
                if s > 24 {
                    lemma_pow2_strictly_increases(24, s);
                }
                lemma_basic_div((f32_fraction(b) + pow2(23)) as int, pow2(s) as int);
            }
        }
        0
    } else if e >= 158 {
        proof {
            lemma_magnitude_at_least(b, 8);
        }
        if negative {
            i32::MIN
        } else {
            i32::MAX
        }
    } else {
        let m = trunc_magnitude(b);
        if negative {
            0i32 - (m as i32)
        } else {
            m as i32
        }
    }
}

/// Truncating, saturating conversion of one lane to `u32`.
fn lane_to_u32(b: u32) -> (r: u32)
    ensures
        r == trunc_sat_u32(b),
{
    proof {
        lemma_fields(b);
        lemma2_to64();
    }
    let negative = (b >> 31u32) == 1;
    let e = (b >> 23u32) & 0xFFu32;
    let frac = b & 0x7F_FFFFu32;
    if e == 255 && frac != 0 {
        0
    } else if negative {
        0
    } else if e == 255 {
        u32::MAX
    } else if e < 127 {
        proof {
            if e != 0 {
                let s = (150 - e) as nat;
                if s > 24 {
                    lemma_pow2_strictly_increases(24, s);
                }
                lemma_basic_div((f32_fraction(b) + pow2(23)) as int, pow2(s) as int);
            }
        }
        0
    } else if e >= 159 {
        proof {
            lemma_magnitude_at_least(b, 9);
        }
        u32::MAX
    } else {
        trunc_magnitude(b)
    }
}

/// The pattern with the sign bit cleared: the absolute value, NaN included.
pub open spec fn abs_bits(b: u32) -> u32 {
    b & 0x7FFF_FFFFu32
}

/// The pattern with the sign bit flipped: the negation, NaN included.
pub open spec fn neg_bits(b: u32) -> u32 {
    b ^ 0x8000_0000u32
}

/// The lanes of a vector built from four patterns are those patterns, in
/// order.
pub proof fn lemma_from_bits_extract_round_trip(v: F32x4, b0: u32, b1: u32, b2: u32, b3: u32)
    requires
        v@ == seq![b0, b1, b2, b3],
    ensures
        v@[0] == b0 && v@[1] == b1 && v@[2] == b2 && v@[3] == b3,
{
    assert(v@[0] == b0 && v@[1] == b1 && v@[2] == b2 && v@[3] == b3);
}

impl F32x4 {
    /// All lanes positive zero.
    pub fn default() -> (r: F32x4)
        ensures
            r@ == seq![0u32, 0u32, 0u32, 0u32],
    {
        F32x4 { bits: V128::new(0, 0, 0, 0) }
    }

    /// The vector whose lane `i` has the single-precision pattern `bi`.
    pub fn from_bits(b0: u32, b1: u32, b2: u32, b3: u32) -> (r: F32x4)
        ensures
            r@ == seq![b0, b1, b2, b3],
    {
        F32x4 { bits: V128::new(b0, b1, b2, b3) }
    }

    /// The single-precision patterns of the four lanes.
    pub fn to_bits(&self) -> (r: (u32, u32, u32, u32))
        ensures
            r == (self@[0], self@[1], self@[2], self@[3]),
    {
        (self.bits.w0, self.bits.w1, self.bits.w2, self.bits.w3)
    }

    /// The same single-precision pattern in every lane.
    pub fn splat_bits(b: u32) -> (r: F32x4)
        ensures
            r@ == seq![b, b, b, b],
    {
        F32x4 { bits: V128::new(b, b, b, b) }
    }

    /// The pattern of the lane at `index`; an index outside 0..3 is a caller
    /// error.
    pub fn extract_lane_bits(&self, index: usize) -> (r: u32)
        requires
            index < 4,
        ensures
            r == self@[index as int],
    {
        let lanes = [self.bits.w0, self.bits.w1, self.bits.w2, self.bits.w3];
        assert(lanes@ =~= self@);
        lanes[index]
    }

    /// Rewrites the pattern of the lane at `index`; an index outside 0..3 is
    /// a caller error.
    pub fn set_lane_bits(&mut self, index: usize, bits: u32)
        requires
            index < 4,
        ensures
            final(self)@ == old(self)@.update(index as int, bits),
    {
        let mut lanes = [self.bits.w0, self.bits.w1, self.bits.w2, self.bits.w3];
        lanes[index] = bits;
        self.bits = V128::new(lanes[0], lanes[1], lanes[2], lanes[3]);
        assert(self@ =~= old(self)@.update(index as int, bits));
    }

    pub fn from_v128(data: V128) -> (r: F32x4)
        ensures
            r@ == data.words(),
    {
        F32x4 { bits: data }
    }

    pub fn to_v128(self) -> (r: V128)
        ensures
            r.words() == self@,
    {
        self.bits
    }

    /// Lane `i` is lane `i` of `self` where lane `i` of `mask` is true, else
    /// lane `i` of `other`: a bitwise blend of the register values.
    pub fn if_else(&self, other: &F32x4, mask: &Bx4) -> (r: F32x4)
        ensures
            forall|i: int| 0 <= i < 4 ==> #[trigger] r@[i] == if mask@[i] {
                self@[i]
            } else {
                other@[i]
            },
    {
        proof {
            broadcast use lemma_select_mask_word;
        }
        F32x4 { bits: self.bits.bitselect(other.bits, mask.to_v128()) }
    }

    /// Lane-wise absolute value: the sign bit cleared.
    pub fn abs(self) -> (r: F32x4)
        ensures
            r@ == self@.map_values(|b: u32| abs_bits(b)),
    {
        let r = F32x4 {
            bits: V128::new(
                self.bits.w0 & 0x7FFF_FFFFu32,
                self.bits.w1 & 0x7FFF_FFFFu32,
                self.bits.w2 & 0x7FFF_FFFFu32,
                self.bits.w3 & 0x7FFF_FFFFu32,
            ),
        };
        assert(r@ =~= self@.map_values(|b: u32| abs_bits(b)));
        r
    }
}

impl core::ops::Neg for F32x4 {
    type Output = F32x4;

    /// Lane-wise negation: the sign bit flipped.
    fn neg(self) -> (r: F32x4)
        ensures
            r@ == self@.map_values(|b: u32| neg_bits(b)),
    {
        let r = F32x4 {
            bits: V128::new(
                self.bits.w0 ^ 0x8000_0000u32,
                self.bits.w1 ^ 0x8000_0000u32,
                self.bits.w2 ^ 0x8000_0000u32,
                self.bits.w3 ^ 0x8000_0000u32,
            ),
        };
        assert(r@ =~= self@.map_values(|b: u32| neg_bits(b)));
        r
    }
}

impl vstd::std_specs::ops::NegSpecImpl for F32x4 {
    open spec fn obeys_neg_spec() -> bool {
        true
    }

    open spec fn neg_req(self) -> bool {
        true
    }

    closed spec fn neg_spec(self) -> F32x4 {
        F32x4 {
            bits: V128 {
                w0: neg_bits(self.bits.w0),
                w1: neg_bits(self.bits.w1),
                w2: neg_bits(self.bits.w2),
                w3: neg_bits(self.bits.w3),
            },
        }
    }
}

impl From<F32x4> for I32x4 {
    /// Lane-wise truncating, saturating conversion.
    fn from(v: F32x4) -> (r: I32x4)
        ensures
            r@ == v@.map_values(|b: u32| trunc_sat_i32(b)),
    {
        let (b0, b1, b2, b3) = v.to_bits();
        let r = I32x4(lane_to_i32(b0), lane_to_i32(b1), lane_to_i32(b2), lane_to_i32(b3));
        assert(r@ =~= v@.map_values(|b: u32| trunc_sat_i32(b)));
        r
    }
}

impl vstd::std_specs::convert::FromSpecImpl<F32x4> for I32x4 {
    open spec fn obeys_from_spec() -> bool {
        true
    }

    open spec fn from_spec(v: F32x4) -> I32x4 {
        I32x4(trunc_sat_i32(v@[0]), trunc_sat_i32(v@[1]), trunc_sat_i32(v@[2]), trunc_sat_i32(v@[3]))
    }
}

impl From<F32x4> for U32x4 {
    /// Lane-wise truncating, saturating conversion.
    fn from(v: F32x4) -> (r: U32x4)
        ensures
            r@ == v@.map_values(|b: u32| trunc_sat_u32(b)),
    {
        let (b0, b1, b2, b3) = v.to_bits();
        let r = U32x4(lane_to_u32(b0), lane_to_u32(b1), lane_to_u32(b2), lane_to_u32(b3));
        assert(r@ =~= v@.map_values(|b: u32| trunc_sat_u32(b)));
        r
    }
}

impl vstd::std_specs::convert::FromSpecImpl<F32x4> for U32x4 {
    open spec fn obeys_from_spec() -> bool {
        true
    }

    open spec fn from_spec(v: F32x4) -> U32x4 {
        U32x4(trunc_sat_u32(v@[0]), trunc_sat_u32(v@[1]), trunc_sat_u32(v@[2]), trunc_sat_u32(v@[3]))
    }
}


/// The exponent of the highest power of two that is at most `m`.
pub open spec fn floor_log2(m: nat) -> nat
    decreases m,
{
    if m < 2 {
        0
    } else {
        1 + floor_log2(m / 2)
    }
}

/// `n / d` rounded to the nearest integer, a tie going to the even one.
pub open spec fn round_half_even(n: nat, d: nat) -> nat {
    let q = n / d;
    let r = n % d;
    if 2 * r > d || (2 * r == d && q % 2 == 1) {
        q + 1
    } else {
        q
    }
}

/// The pattern with the given sign, biased exponent and fraction fields.
pub open spec fn f32_pattern(negative: bool, exponent: nat, fraction: nat) -> u32 {
    ((if negative {
        0x8000_0000int
    } else {
        0int
    }) + exponent * 0x80_0000 + fraction) as u32
}

/// The single-precision pattern of the integer `x`, rounded to nearest with
/// ties to even. With `k = floor_log2(|x|)`, the value is a 24-bit
/// significand times `2^(k - 23)`: exact when `k <= 23`, else the
/// significand is `|x| / 2^(k - 23)` rounded, and a carry out of 24 bits
/// moves to the next exponent.
pub open spec fn i32_to_f32_bits(x: i32) -> u32 {
    let m = if x < 0 {
        -x
    } else {
        x as int
    } as nat;
    let k = floor_log2(m);
    if m == 0 {
        0
    } else if k <= 23 {
        f32_pattern(x < 0, k + 127, (m * pow2((23 - k) as nat) - pow2(23)) as nat)
    } else {
        let q = round_half_even(m, pow2((k - 23) as nat));
        if q == pow2(24) {
            f32_pattern(x < 0, k + 128, 0)
        } else {
            f32_pattern(x < 0, k + 127, (q - pow2(23)) as nat)
        }
    }
}

proof fn lemma_floor_log2_bounds(m: nat)
    requires
        m >= 1,
    ensures
        pow2(floor_log2(m)) <= m < pow2(floor_log2(m) + 1),
    decreases m,
{
    lemma2_to64();
    if m >= 2 {
        let h = m / 2;
        lemma_floor_log2_bounds(h);
        let k = floor_log2(h);
        lemma_pow2_adds(k, 1);
        lemma_pow2_adds(k + 1, 1);
    }
}

/// `floor_log2(m)`, by halving.
fn floor_log2_exec(m: u32) -> (k: u32)
    requires
        m >= 1,
    ensures
        k as nat == floor_log2(m as nat),
        k <= 31,
{
    proof {
        lemma_floor_log2_bounds(m as nat);
        lemma2_to64();
        if floor_log2(m as nat) >= 32 {
            lemma_pow2_strictly_increases(32, floor_log2(m as nat));
        }
    }
    let mut t = m;
    let mut k: u32 = 0;
    while t >= 2
        invariant
            t >= 1,
            k + floor_log2(t as nat) == floor_log2(m as nat),
            floor_log2(m as nat) <= 31,
        decreases t,
    {
        assert(t >> 1u32 == t / 2) by (bit_vector);
        t = t >> 1u32;
        k = k + 1;
    }
    k
}

/// Conversion of one lane to the nearest single-precision pattern.
fn lane_from_i32(x: i32) -> (r: u32)
    ensures
        r == i32_to_f32_bits(x),
{
    if x == 0 {
        return 0;
    }
    let negative = x < 0;
    let m: u32 = if negative {
        (0i64 - x as i64) as u32
    } else {
        x as u32
    };
    let k = floor_log2_exec(m);
    let sign: u32 = if negative {
        0x8000_0000
    } else {
        0
    };
    proof {
        lemma2_to64();
        lemma_floor_log2_bounds(m as nat);
    }
    if k <= 23 {
        let s = 23 - k;
        proof {
            lemma_pow2_adds(k as nat, s as nat);
            lemma_pow2_adds((k + 1) as nat, s as nat);
            assert(m * pow2(s as nat) < pow2((k + 1) as nat) * pow2(s as nat)) by (nonlinear_arith)
                requires
                    m < pow2((k + 1) as nat),
                    pow2(s as nat) > 0,
            ;
            assert(m * pow2(s as nat) >= pow2(k as nat) * pow2(s as nat)) by (nonlinear_arith)
                requires
                    m >= pow2(k as nat),
            ;
            lemma_u32_shl_is_mul(m, s);
        }
        let sig = m << s;
        sign + (k + 127) * 0x80_0000 + (sig - 0x80_0000)
    } else {
        let s = k - 23;
        let ghost d = pow2(s as nat);
        proof {
            lemma_u32_shr_is_div(m, s);
            lemma_pow2_adds(23, s as nat);
            lemma_pow2_adds(24, s as nat);
            lemma_fundamental_div_mod(m as int, d as int);
            lemma_div_is_ordered((pow2(23) * d) as int, m as int, d as int);
            lemma_div_by_multiple(pow2(23) as int, d as int);
            lemma_multiply_divide_lt(m as int, d as int, pow2(24) as int);
            if s > 8 {
                lemma_pow2_strictly_increases(8, s as nat);
            }
        }
        let q = m >> s;
        proof {
            assert(q * d <= m) by (nonlinear_arith)
                requires
                    m as int == d * q + (m as int) % (d as int),
                    (m as int) % (d as int) >= 0,
            ;
            lemma_u32_shl_is_mul(q, s);
            lemma_pow2_adds((s - 1) as nat, 1);
            lemma_u32_shl_is_mul(1u32, (s - 1) as u32);
        }
        let rem = m - (q << s);
        let half = 1u32 << (s - 1);
        let up = rem > half || (rem == half && q % 2 == 1);
        let q2 = if up {
            q + 1
        } else {
            q
        };
        if q2 == 0x100_0000 {
            sign + (k + 128) * 0x80_0000
        } else {
            sign + (k + 127) * 0x80_0000 + (q2 - 0x80_0000)
        }
    }
}

impl From<I32x4> for F32x4 {
    /// Lane-wise conversion to the nearest single-precision value, ties to
    /// even.
    fn from(v: I32x4) -> (r: F32x4)
        ensures
            r@ == v@.map_values(|x: i32| i32_to_f32_bits(x)),
    {
        let r = F32x4::from_bits(lane_from_i32(v.0), lane_from_i32(v.1), lane_from_i32(v.2), lane_from_i32(v.3));
        assert(r@ =~= v@.map_values(|x: i32| i32_to_f32_bits(x)));
        r
    }
}

impl vstd::std_specs::convert::FromSpecImpl<I32x4> for F32x4 {
    open spec fn obeys_from_spec() -> bool {
        true
    }

    closed spec fn from_spec(v: I32x4) -> F32x4 {
        F32x4 {
            bits: V128 {
                w0: i32_to_f32_bits(v.0),
                w1: i32_to_f32_bits(v.1),
                w2: i32_to_f32_bits(v.2),
                w3: i32_to_f32_bits(v.3),
            },
        }
    }
}

impl Default for F32x4 {
    /// All lanes positive zero.
    fn default() -> (r: F32x4)
        ensures
            r@ == seq![0u32, 0u32, 0u32, 0u32],
    {
        F32x4::default()
    }
}

} // verus!
