//! A number type of the library's own: fixed point, for pictures that come
//! out the same on every machine.

use crate::component::{less_is_strict, Component};
use vstd::prelude::*;

verus! {

/// The bits of the number one.
pub const ONE: i64 = 4_294_967_296;

/// The bits of half a turn.
pub const HALF_TURN: i64 = 13_493_037_705;

/// The bits of a full turn.
pub const FULL_TURN: i64 = 26_986_075_409;

/// The bits of a quarter of a turn.
pub const QUARTER_TURN: i64 = 6_746_518_852;

/// The bits of five times the square of half a turn.
pub const FIVE_HALF_TURNS_SQUARED: i64 = 211_948_140_636;

/// A number with 32 binary digits behind the point: `bits / 2^32`, from
/// `-2^31` up to just below `2^31`.
///
/// Nothing overflows: a result beyond the range is the nearest end of the
/// range. Products, quotients and roots are cut off towards zero at the last
/// digit.
#[derive(Clone, Copy, Debug, PartialEq, Eq)]
pub struct Fixed {
    pub bits: i64,
}

/// `value`, or the end of the 64-bit range that it lies beyond.
pub open spec fn saturated(value: int) -> i64 {
    if value > i64::MAX {
        i64::MAX
    } else if value < i64::MIN {
        i64::MIN
    } else {
        value as i64
    }
}

/// The distance of `bits` from zero.
pub open spec fn magnitude(bits: i64) -> nat {
    if bits < 0 {
        (-bits) as nat
    } else {
        bits as nat
    }
}

/// `magnitude`, below zero if `negative`.
pub open spec fn signed(negative: bool, magnitude: nat) -> int {
    if negative {
        -magnitude
    } else {
        magnitude as int
    }
}

/// Whether `root` is the whole part of the square root of `n`.
pub open spec fn is_integer_root(n: nat, root: nat) -> bool {
    root * root <= n < (root + 1) * (root + 1)
}

/// The whole part of the square root of `n`.
pub open spec fn integer_root(n: nat) -> nat {
    choose|root: nat| is_integer_root(n, root)
}

/// `bits` brought into one turn, from zero up to just below a full turn.
pub open spec fn wound(bits: i64) -> i64 {
    if bits >= 0 {
        bits % FULL_TURN
    } else if (-bits) % (FULL_TURN as int) == 0 {
        0
    } else {
        (FULL_TURN - (-bits) % (FULL_TURN as int)) as i64
    }
}

impl Fixed {
    /// The number that the fixed-point number stands for is `bits / 2^32`;
    /// this is the number with the bits `bits`.
    pub open spec fn of(bits: int) -> Fixed {
        Fixed { bits: saturated(bits) }
    }

    /// The sine of `self`, an angle within the first half turn, after
    /// Bhaskara: `16 x (h - x) / (5 h^2 - 4 x (h - x))` with `h` half a turn.
    /// It is exact at zero, at a quarter and at half a turn, and off by less
    /// than two thousandths between them.
    pub open spec fn arch(self) -> Fixed {
        let bow = self.product(Fixed { bits: HALF_TURN }.difference(self));
        Fixed::of(16 * ONE).product(bow).quotient(
            Fixed { bits: FIVE_HALF_TURNS_SQUARED }.difference(Fixed::of(4 * ONE).product(bow)),
        )
    }

    /// The sine of the angle `self`.
    pub open spec fn sine(self) -> Fixed {
        let angle = wound(self.bits);
        if angle <= HALF_TURN {
            Fixed { bits: angle }.arch()
        } else {
            Fixed { bits: (angle - HALF_TURN) as i64 }.arch().negation()
        }
    }

    /// The cosine of the angle `self`: the sine a quarter of a turn on.
    pub open spec fn cosine(self) -> Fixed {
        Fixed { bits: wound(self.bits) }.sum(Fixed { bits: QUARTER_TURN }).sine()
    }

    fn arched(self) -> (r: Self)
        ensures
            r == self.arch(),
    {
        let bow = self.mul(Fixed { bits: HALF_TURN }.sub(self));
        Fixed { bits: 16 * ONE }.mul(bow).div(
            Fixed { bits: FIVE_HALF_TURNS_SQUARED }.sub(Fixed { bits: 4 * ONE }.mul(bow)),
        )
    }
}

/// `value` held within the 64-bit range.
fn saturate(value: i128) -> (r: i64)
    ensures
        r == saturated(value as int),
{
    if value > 0x7fff_ffff_ffff_ffff {
        0x7fff_ffff_ffff_ffff
    } else if value < -0x8000_0000_0000_0000 {
        -0x8000_0000_0000_0000
    } else {
        value as i64
    }
}

/// The distance of `bits` from zero.
fn distance(bits: i64) -> (r: u128)
    ensures
        r == magnitude(bits),
{
    if bits < 0 {
        (-(bits as i128)) as u128
    } else {
        bits as u128
    }
}

/// `magnitude`, below zero if `negative`, held within the 64-bit range.
fn with_sign(negative: bool, magnitude: u128) -> (r: i64)
    ensures
        r == saturated(signed(negative, magnitude as nat)),
{
    if magnitude > 0x8000_0000_0000_0000 {
        if negative {
            -0x8000_0000_0000_0000
        } else {
            0x7fff_ffff_ffff_ffff
        }
    } else if negative {
        saturate(-(magnitude as i128))
    } else {
        saturate(magnitude as i128)
    }
}

/// There is one whole part of a square root.
pub proof fn lemma_integer_root_is_unique(n: nat, first: nat, second: nat)
    requires
        is_integer_root(n, first),
        is_integer_root(n, second),
    ensures
        first == second,
{
    if first < second {
        assert((first + 1) * (first + 1) <= second * second) by (nonlinear_arith)
            requires
                first + 1 <= second,
        ;
    } else if second < first {
        assert((second + 1) * (second + 1) <= first * first) by (nonlinear_arith)
            requires
                second + 1 <= first,
        ;
    }
}

/// The whole part of the square root of `n`, found by halving the range in
/// which it lies.
fn whole_root(n: u128) -> (r: u128)
    requires
        n < 0x8000_0000_0000_0000_0000_0000,
    ensures
        r == integer_root(n as nat),
        is_integer_root(n as nat, r as nat),
        r < 0x1_0000_0000_0000,
{
    let mut low: u128 = 0;
    let mut high: u128 = 0x1_0000_0000_0000;
    assert(0x1_0000_0000_0000u128 * 0x1_0000_0000_0000u128 > n) by (nonlinear_arith)
        requires
            n < 0x8000_0000_0000_0000_0000_0000,
    ;
    while high - low > 1
        invariant
            low < high <= 0x1_0000_0000_0000,
            low * low <= n < high * high,
        decreases high - low,
    {
        let middle = low + (high - low) / 2;
        assert(middle * middle <= 0x1_0000_0000_0000 * 0x1_0000_0000_0000) by (nonlinear_arith)
            requires
                middle <= 0x1_0000_0000_0000,
        ;
        if middle * middle <= n {
            low = middle;
        } else {
            high = middle;
        }
    }
    proof {
        let found = integer_root(n as nat);
        assert(is_integer_root(n as nat, low as nat));
        lemma_integer_root_is_unique(n as nat, low as nat, found);
    }
    low
}

/// `bits` brought into one turn.
fn wind(bits: i64) -> (r: i64)
    ensures
        r == wound(bits),
        0 <= r < FULL_TURN,
{
    if bits >= 0 {
        bits % FULL_TURN
    } else {
        let rest = (-(bits as i128)) % (FULL_TURN as i128);
        if rest == 0 {
            0
        } else {
            (FULL_TURN as i128 - rest) as i64
        }
    }
}

impl Component for Fixed {
    open spec fn count_value(n: usize) -> Self {
        Fixed::of(n * ONE)
    }

    open spec fn unit_value(word: u32) -> Self {
        Fixed { bits: word as i64 }
    }

    open spec fn full_turn() -> Self {
        Fixed { bits: FULL_TURN }
    }

    open spec fn sum(self, rhs: Self) -> Self {
        Fixed::of(self.bits + rhs.bits)
    }

    open spec fn difference(self, rhs: Self) -> Self {
        Fixed::of(self.bits - rhs.bits)
    }

    open spec fn product(self, rhs: Self) -> Self {
        Fixed::of(
            signed(
                (self.bits < 0) != (rhs.bits < 0),
                magnitude(self.bits) * magnitude(rhs.bits) / (ONE as nat),
            ),
        )
    }

    /// A number divided by zero is the end of the range on its side of zero,
    /// and zero divided by zero is zero.
    open spec fn quotient(self, rhs: Self) -> Self {
        if rhs.bits == 0 {
            if self.bits > 0 {
                Fixed { bits: i64::MAX }
            } else if self.bits < 0 {
                Fixed { bits: i64::MIN }
            } else {
                Fixed { bits: 0 }
            }
        } else {
            Fixed::of(
                signed(
                    (self.bits < 0) != (rhs.bits < 0),
                    magnitude(self.bits) * (ONE as nat) / magnitude(rhs.bits),
                ),
            )
        }
    }

    open spec fn negation(self) -> Self {
        Fixed::of(-self.bits)
    }

    /// The root of a number that is not above zero is zero.
    open spec fn root(self) -> Self {
        if self.bits <= 0 {
            Fixed { bits: 0 }
        } else {
            Fixed { bits: integer_root((self.bits * ONE) as nat) as i64 }
        }
    }

    open spec fn less(self, rhs: Self) -> bool {
        self.bits < rhs.bits
    }

    open spec fn same(self, rhs: Self) -> bool {
        self.bits == rhs.bits
    }

    open spec fn truncated(self) -> u8 {
        if self.bits < 0 {
            0
        } else if self.bits / ONE > 255 {
            255
        } else {
            (self.bits / ONE) as u8
        }
    }

    fn from_count(n: usize) -> (r: Self) {
        assert(n * ONE <= 0xffff_ffff_ffff_ffff * 0x1_0000_0000) by (nonlinear_arith)
            requires
                n <= 0xffff_ffff_ffff_ffff,
                ONE == 0x1_0000_0000,
        ;
        Fixed { bits: saturate(n as i128 * ONE as i128) }
    }

    fn from_random_word(word: u32) -> (r: Self) {
        Fixed { bits: word as i64 }
    }

    fn tau() -> (r: Self) {
        Fixed { bits: FULL_TURN }
    }

    fn add(self, rhs: Self) -> (r: Self) {
        Fixed { bits: saturate(self.bits as i128 + rhs.bits as i128) }
    }

    fn sub(self, rhs: Self) -> (r: Self) {
        Fixed { bits: saturate(self.bits as i128 - rhs.bits as i128) }
    }

    fn mul(self, rhs: Self) -> (r: Self) {
        let left = distance(self.bits);
        let right = distance(rhs.bits);
        assert(left * right <= 0x8000_0000_0000_0000 * 0x8000_0000_0000_0000) by (nonlinear_arith)
            requires
                left <= 0x8000_0000_0000_0000,
                right <= 0x8000_0000_0000_0000,
        ;
        Fixed { bits: with_sign((self.bits < 0) != (rhs.bits < 0), left * right / (ONE as u128)) }
    }

    fn div(self, rhs: Self) -> (r: Self) {
        if rhs.bits == 0 {
            if self.bits > 0 {
                Fixed { bits: 0x7fff_ffff_ffff_ffff }
            } else if self.bits < 0 {
                Fixed { bits: -0x8000_0000_0000_0000 }
            } else {
                Fixed { bits: 0 }
            }
        } else {
            let left = distance(self.bits);
            let right = distance(rhs.bits);
            assert(left * ONE <= 0x8000_0000_0000_0000 * 0x1_0000_0000) by (nonlinear_arith)
                requires
                    left <= 0x8000_0000_0000_0000,
                    ONE == 0x1_0000_0000,
            ;
            Fixed {
                bits: with_sign((self.bits < 0) != (rhs.bits < 0), left * (ONE as u128) / right),
            }
        }
    }

    fn neg(self) -> (r: Self) {
        Fixed { bits: saturate(-(self.bits as i128)) }
    }

    fn sqrt(self) -> (r: Self) {
        if self.bits <= 0 {
            Fixed { bits: 0 }
        } else {
            assert(self.bits * ONE < 0x8000_0000_0000_0000 * 0x1_0000_0000) by (nonlinear_arith)
                requires
                    0 < self.bits < 0x8000_0000_0000_0000,
                    ONE == 0x1_0000_0000,
            ;
            Fixed { bits: whole_root(self.bits as u128 * ONE as u128) as i64 }
        }
    }

    fn lt(self, rhs: Self) -> (r: bool) {
        self.bits < rhs.bits
    }

    fn equals(self, rhs: Self) -> (r: bool) {
        self.bits == rhs.bits
    }

    fn to_byte(self) -> (r: u8) {
        if self.bits < 0 {
            0
        } else if self.bits / ONE > 255 {
            255
        } else {
            (self.bits / ONE) as u8
        }
    }

    fn cos(self) -> (r: Self)
        ensures
            r == self.cosine(),
    {
        Fixed { bits: wind(self.bits) }.add(Fixed { bits: QUARTER_TURN }).sin()
    }

    fn sin(self) -> (r: Self)
        ensures
            r == self.sine(),
    {
        let angle = wind(self.bits);
        if angle <= HALF_TURN {
            Fixed { bits: angle }.arched()
        } else {
            Fixed { bits: angle - HALF_TURN }.arched().neg()
        }
    }
}

/// Fixed-point numbers are strictly ordered.
pub proof fn lemma_fixed_is_strictly_ordered()
    ensures
        less_is_strict::<Fixed>(),
{
}

} // verus!
