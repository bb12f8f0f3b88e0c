use vstd::prelude::*;

verus! {

/// The minimal capability a scalar must supply to take part in vector and
/// matrix arithmetic: copy semantics, the four arithmetic operators, an
/// equality test, and a canonical zero value.
///
/// Each operator comes in three parts: a spec-level precondition (`*_req`)
/// saying when the operation may be performed, a spec-level result
/// (`*_spec`) that is total over all inputs, and the executable operation
/// itself, whose contract ties it to the spec. The library does not demand
/// true field axioms of a scalar; integer scalars whose division truncates
/// are admitted.
pub trait Numeric: Sized + Copy {
    spec fn zero_spec() -> Self;

    spec fn add_req(self, rhs: Self) -> bool;

    spec fn add_spec(self, rhs: Self) -> Self;

    spec fn sub_req(self, rhs: Self) -> bool;

    spec fn sub_spec(self, rhs: Self) -> Self;

    spec fn mul_req(self, rhs: Self) -> bool;

    spec fn mul_spec(self, rhs: Self) -> Self;

    spec fn div_req(self, rhs: Self) -> bool;

    spec fn div_spec(self, rhs: Self) -> Self;

    /// The scalar's zero, the value broadcast by the zero constructors.
    fn zero() -> (r: Self)
        ensures
            r == Self::zero_spec(),
    ;

    fn add(self, rhs: Self) -> (r: Self)
        requires
            self.add_req(rhs),
        ensures
            r == self.add_spec(rhs),
    ;

    fn sub(self, rhs: Self) -> (r: Self)
        requires
            self.sub_req(rhs),
        ensures
            r == self.sub_spec(rhs),
    ;

    fn mul(self, rhs: Self) -> (r: Self)
        requires
            self.mul_req(rhs),
        ensures
            r == self.mul_spec(rhs),
    ;

    fn div(self, rhs: Self) -> (r: Self)
        requires
            self.div_req(rhs),
        ensures
            r == self.div_spec(rhs),
    ;

    /// Equality test; the result agrees with spec-level equality.
    fn eq_val(self, rhs: Self) -> (r: bool)
        ensures
            r == (self == rhs),
    ;
}

/// The narrower capability tier: scalars that additionally supply the unit
/// values and a (possibly truncating) reciprocal. The identity and axis
/// constructors and matrix inversion need it; the purely algebraic
/// operations do not, so a scalar without this tier is rejected from those
/// operations at compile time.
pub trait Fractional: Numeric {
    spec fn one_spec() -> Self;

    spec fn neg_one_spec() -> Self;

    spec fn recip_req(self) -> bool;

    spec fn recip_spec(self) -> Self;

    fn one() -> (r: Self)
        ensures
            r == Self::one_spec(),
    ;

    fn neg_one() -> (r: Self)
        ensures
            r == Self::neg_one_spec(),
    ;

    /// The multiplicative inverse in the scalar's own division semantics:
    /// exact for scalars with exact division, truncating for integers.
    fn recip(self) -> (r: Self)
        requires
            self.recip_req(),
        ensures
            r == self.recip_spec(),
    ;
}

/// The two-term product sum `a1*b1 + a2*b2` over a scalar's own operations;
/// the building block of dot products and matrix entries.
pub open spec fn dot2_spec<T: Numeric>(a1: T, a2: T, b1: T, b2: T) -> T {
    a1.mul_spec(b1).add_spec(a2.mul_spec(b2))
}

/// When `a1*b1 + a2*b2` may be computed over a scalar's own operations.
pub open spec fn dot2_req<T: Numeric>(a1: T, a2: T, b1: T, b2: T) -> bool {
    &&& a1.mul_req(b1)
    &&& a2.mul_req(b2)
    &&& a1.mul_spec(b1).add_req(a2.mul_spec(b2))
}

impl Numeric for i64 {
    open spec fn zero_spec() -> i64 {
        0
    }

    open spec fn add_req(self, rhs: i64) -> bool {
        i64::MIN <= self + rhs <= i64::MAX
    }

    open spec fn add_spec(self, rhs: i64) -> i64 {
        (self + rhs) as i64
    }

    open spec fn sub_req(self, rhs: i64) -> bool {
        i64::MIN <= self - rhs <= i64::MAX
    }

    open spec fn sub_spec(self, rhs: i64) -> i64 {
        (self - rhs) as i64
    }

    open spec fn mul_req(self, rhs: i64) -> bool {
        i64::MIN <= self * rhs <= i64::MAX
    }

    open spec fn mul_spec(self, rhs: i64) -> i64 {
        (self * rhs) as i64
    }

    open spec fn div_req(self, rhs: i64) -> bool {
        rhs != 0 && !(self == i64::MIN && rhs == -1)
    }

    open spec fn div_spec(self, rhs: i64) -> i64 {
        if self >= 0 {
            (self / rhs) as i64
        } else {
            (-((-self) / (rhs as int))) as i64
        }
    }

    fn zero() -> i64 {
        0
    }

    fn add(self, rhs: i64) -> i64 {
        self + rhs
    }

    fn sub(self, rhs: i64) -> i64 {
        self - rhs
    }

    fn mul(self, rhs: i64) -> i64 {
        self * rhs
    }

    fn div(self, rhs: i64) -> i64 {
        self / rhs
    }

    fn eq_val(self, rhs: i64) -> bool {
        self == rhs
    }
}

impl Fractional for i64 {
    open spec fn one_spec() -> i64 {
        1
    }

    open spec fn neg_one_spec() -> i64 {
        -1i64
    }

    open spec fn recip_req(self) -> bool {
        self != 0
    }

    open spec fn recip_spec(self) -> i64 {
        (1int / (self as int)) as i64
    }

    fn one() -> i64 {
        1
    }

    fn neg_one() -> i64 {
        -1
    }

    fn recip(self) -> (r: i64) {
        1i64 / self
    }
}

impl Numeric for i32 {
    open spec fn zero_spec() -> i32 {
        0
    }

    open spec fn add_req(self, rhs: i32) -> bool {
        i32::MIN <= self + rhs <= i32::MAX
    }

    open spec fn add_spec(self, rhs: i32) -> i32 {
        (self + rhs) as i32
    }

    open spec fn sub_req(self, rhs: i32) -> bool {
        i32::MIN <= self - rhs <= i32::MAX
    }

    open spec fn sub_spec(self, rhs: i32) -> i32 {
        (self - rhs) as i32
    }

    open spec fn mul_req(self, rhs: i32) -> bool {
        i32::MIN <= self * rhs <= i32::MAX
    }

    open spec fn mul_spec(self, rhs: i32) -> i32 {
        (self * rhs) as i32
    }

    open spec fn div_req(self, rhs: i32) -> bool {
        rhs != 0 && !(self == i32::MIN && rhs == -1)
    }

    open spec fn div_spec(self, rhs: i32) -> i32 {
        if self >= 0 {
            (self / rhs) as i32
        } else {
            (-((-self) / (rhs as int))) as i32
        }
    }

    fn zero() -> i32 {
        0
    }

    fn add(self, rhs: i32) -> i32 {
        self + rhs
    }

    fn sub(self, rhs: i32) -> i32 {
        self - rhs
    }

    fn mul(self, rhs: i32) -> i32 {
        self * rhs
    }

    fn div(self, rhs: i32) -> i32 {
        self / rhs
    }

    fn eq_val(self, rhs: i32) -> bool {
        self == rhs
    }
}

impl Fractional for i32 {
    open spec fn one_spec() -> i32 {
        1
    }

    open spec fn neg_one_spec() -> i32 {
        -1i32
    }

    open spec fn recip_req(self) -> bool {
        self != 0
    }

    open spec fn recip_spec(self) -> i32 {
        (1int / (self as int)) as i32
    }

    fn one() -> i32 {
        1
    }

    fn neg_one() -> i32 {
        -1
    }

    fn recip(self) -> (r: i32) {
        1i32 / self
    }
}

/// The integer square root of `n`: the largest `r` with `r * r <= n`.
pub open spec fn sqrt_floor(n: int) -> int
    decreases n,
{
    if n <= 0 {
        0
    } else if (sqrt_floor(n - 1) + 1) * (sqrt_floor(n - 1) + 1) <= n {
        sqrt_floor(n - 1) + 1
    } else {
        sqrt_floor(n - 1)
    }
}

/// `sqrt_floor(n)` is the unique nonnegative root bracketing `n` between
/// consecutive squares.
pub proof fn lemma_sqrt_floor_bounds(n: int)
    requires
        n >= 0,
    ensures
        sqrt_floor(n) >= 0,
        sqrt_floor(n) * sqrt_floor(n) <= n,
        (sqrt_floor(n) + 1) * (sqrt_floor(n) + 1) > n,
    decreases n,
{
    if n > 0 {
        lemma_sqrt_floor_bounds(n - 1);
        let s = sqrt_floor(n - 1);
        if (s + 1) * (s + 1) <= n {
            assert(sqrt_floor(n) == s + 1);
            assert((s + 2) * (s + 2) > n) by (nonlinear_arith)
                requires
                    s >= 0,
                    (s + 1) * (s + 1) > n - 1,
            ;
        } else {
            assert(sqrt_floor(n) == s);
        }
    }
}

/// Any nonnegative value bracketing `n` between consecutive squares is
/// `sqrt_floor(n)`.
pub proof fn lemma_sqrt_floor_unique(n: int, r: int)
    requires
        n >= 0,
        r >= 0,
        r * r <= n,
        (r + 1) * (r + 1) > n,
    ensures
        r == sqrt_floor(n),
{
    let s = sqrt_floor(n);
    lemma_sqrt_floor_bounds(n);
    if r < s {
        assert((r + 1) * (r + 1) <= s * s) by (nonlinear_arith)
            requires
                0 <= r,
                r + 1 <= s,
        ;
    }
    if s < r {
        assert((s + 1) * (s + 1) <= r * r) by (nonlinear_arith)
            requires
                0 <= s,
                s + 1 <= r,
        ;
    }
}

/// The executable integer square root, by bisection on the root.
pub fn isqrt(n: i64) -> (r: i64)
    requires
        n >= 0,
    ensures
        r >= 0,
        r == sqrt_floor(n as int),
{
    if n == 0 {
        proof {
            assert(sqrt_floor(0) == 0);
        }
        return 0;
    }
    let mut lo: i64 = 0;
    let mut hi: i64 = 3037000500;
    proof {
        assert(3037000500int * 3037000500int > i64::MAX) by (nonlinear_arith);
    }
    while lo + 1 < hi
        invariant
            0 <= lo < hi <= 3037000500,
            lo * lo <= n,
            hi * hi > n,
            n >= 0,
        decreases hi - lo,
    {
        let mid: i64 = lo + (hi - lo) / 2;
        assert(lo < mid < hi);
        assert(mid * mid <= 3037000499int * 3037000499int) by (nonlinear_arith)
            requires
                0 < mid <= 3037000499,
        ;
        assert(3037000499int * 3037000499int < i64::MAX) by (nonlinear_arith);
        let sq: i64 = mid * mid;
        if sq <= n {
            lo = mid;
        } else {
            hi = mid;
        }
    }
    proof {
        lemma_sqrt_floor_unique(n as int, lo as int);
    }
    lo
}

} // verus!
