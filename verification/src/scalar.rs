use vstd::prelude::*;

verus! {

/// The arithmetic capability the integrator is generic over.
///
/// Every executable operation is pinned to a spec function of the same
/// implementation (`add` returns exactly `add_spec`, and so on), so the
/// integrator's contracts can say precisely which operations, applied in
/// which order, produced its results.  The proof obligations at the end
/// are the ordering and arithmetic facts the integrator's proofs rely
/// on; each implementation must establish them.
pub trait Scalar: Sized + Copy {
    /// What `add` returns.
    spec fn add_spec(self, o: Self) -> Self;

    /// What `sub` returns.
    spec fn sub_spec(self, o: Self) -> Self;

    /// What `mul` returns.
    spec fn mul_spec(self, o: Self) -> Self;

    /// What `div` returns.
    spec fn div_spec(self, o: Self) -> Self;

    /// What `sqrt` returns.
    spec fn sqrt_spec(self) -> Self;

    /// The strict order that `is_lt` decides.
    spec fn lt_spec(self, o: Self) -> bool;

    /// The additive identity.
    spec fn zero_spec() -> Self;

    /// The factor applied to averaged accelerations (one half).
    spec fn half_spec() -> Self;

    /// The factor applied to the raw error estimate (two).
    spec fn two_spec() -> Self;

    /// Lower clamp for one step-size adjustment (a tenth).
    spec fn shrink_limit_spec() -> Self;

    /// Upper clamp for one step-size adjustment (seven fifths).
    spec fn grow_limit_spec() -> Self;

    /// Default initial step size of a fresh stepper.
    spec fn dt_default_spec() -> Self;

    /// Default per-step error target of a fresh stepper.
    spec fn target_error_default_spec() -> Self;

    /// Default lower step-size bound of a fresh stepper.
    spec fn min_dt_default_spec() -> Self;

    /// Default upper step-size bound of a fresh stepper.
    spec fn max_dt_default_spec() -> Self;

    fn add(self, o: Self) -> (r: Self)
        ensures
            r == self.add_spec(o),
    ;

    fn sub(self, o: Self) -> (r: Self)
        ensures
            r == self.sub_spec(o),
    ;

    fn mul(self, o: Self) -> (r: Self)
        ensures
            r == self.mul_spec(o),
    ;

    fn div(self, o: Self) -> (r: Self)
        ensures
            r == self.div_spec(o),
    ;

    fn sqrt(self) -> (r: Self)
        ensures
            r == self.sqrt_spec(),
    ;

    fn is_lt(self, o: Self) -> (r: bool)
        ensures
            r == self.lt_spec(o),
    ;

    fn is_zero(self) -> (r: bool)
        ensures
            r == (self == Self::zero_spec()),
    ;

    fn zero() -> (r: Self)
        ensures
            r == Self::zero_spec(),
    ;

    fn half() -> (r: Self)
        ensures
            r == Self::half_spec(),
    ;

    fn two() -> (r: Self)
        ensures
            r == Self::two_spec(),
    ;

    fn shrink_limit() -> (r: Self)
        ensures
            r == Self::shrink_limit_spec(),
    ;

    fn grow_limit() -> (r: Self)
        ensures
            r == Self::grow_limit_spec(),
    ;

    fn dt_default() -> (r: Self)
        ensures
            r == Self::dt_default_spec(),
    ;

    fn target_error_default() -> (r: Self)
        ensures
            r == Self::target_error_default_spec(),
    ;

    fn min_dt_default() -> (r: Self)
        ensures
            r == Self::min_dt_default_spec(),
    ;

    fn max_dt_default() -> (r: Self)
        ensures
            r == Self::max_dt_default_spec(),
    ;

    /// Nothing is less than itself.
    proof fn lt_irreflexive(a: Self)
        ensures
            !a.lt_spec(a),
    ;

    /// The order has no two-element cycles.
    proof fn lt_asymmetric(a: Self, b: Self)
        requires
            a.lt_spec(b),
        ensures
            !b.lt_spec(a),
    ;

    /// Not-less-than chains: it is the transitivity of the reflexive
    /// order that `lt_spec` complements.
    proof fn nlt_transitive(a: Self, b: Self, c: Self)
        requires
            !a.lt_spec(b),
            !b.lt_spec(c),
        ensures
            !a.lt_spec(c),
    ;

    /// Adding back a difference restores the minuend; this is what lets
    /// a truncated closing step land on the requested end time exactly.
    proof fn add_sub_inverse(a: Self, b: Self)
        ensures
            a.add_spec(b.sub_spec(a)) == b,
    ;

    /// The order is connected: two values are strictly ordered one way
    /// or the other, or equal.
    proof fn lt_connected(a: Self, b: Self)
        ensures
            a.lt_spec(b) || b.lt_spec(a) || a == b,
    ;

    /// A value minus itself is the additive identity.
    proof fn sub_self_zero(a: Self)
        ensures
            a.sub_spec(a) == Self::zero_spec(),
    ;
}

/// Integer square root, defined by counting up: the largest `r` with
/// `r * r <= x` (zero for non-positive `x`).
pub open spec fn isqrt_int(x: int) -> int
    decreases x,
{
    if x <= 0 {
        0
    } else {
        let p = isqrt_int(x - 1);
        if (p + 1) * (p + 1) <= x {
            p + 1
        } else {
            p
        }
    }
}

pub proof fn lemma_isqrt_bounds(x: int)
    requires
        x >= 0,
    ensures
        0 <= isqrt_int(x),
        isqrt_int(x) * isqrt_int(x) <= x,
        x < (isqrt_int(x) + 1) * (isqrt_int(x) + 1),
    decreases x,
{
    if x > 0 {
        lemma_isqrt_bounds(x - 1);
        let p = isqrt_int(x - 1);
        if (p + 1) * (p + 1) <= x {
            assert((p + 2) * (p + 2) == (p + 1) * (p + 1) + 2 * p + 3) by (nonlinear_arith);
        }
    }
}

pub proof fn lemma_isqrt_unique(x: int, r: int)
    requires
        x >= 0,
        r >= 0,
        r * r <= x,
        x < (r + 1) * (r + 1),
    ensures
        r == isqrt_int(x),
{
    lemma_isqrt_bounds(x);
    let q = isqrt_int(x);
    if r < q {
        assert((r + 1) * (r + 1) <= q * q) by (nonlinear_arith)
            requires
                0 <= r + 1 <= q,
        ;
    } else if q < r {
        assert((q + 1) * (q + 1) <= r * r) by (nonlinear_arith)
            requires
                0 <= q + 1 <= r,
        ;
    }
}

/// `i64` with wrapping arithmetic is the crate's own `Scalar` instance:
/// every operation is total, and the ordering and add/sub laws hold
/// without side conditions.  The sub-unit tuning constants (one half, a
/// tenth) have no integer counterpart and truncate to the identity;
/// nothing in the integrator's proofs rests on their values, only on
/// the laws.
impl Scalar for i64 {
    open spec fn add_spec(self, o: i64) -> i64 {
        vstd::wrapping::i64_specs::wrapping_add(self, o)
    }

    open spec fn sub_spec(self, o: i64) -> i64 {
        vstd::wrapping::i64_specs::wrapping_sub(self, o)
    }

    open spec fn mul_spec(self, o: i64) -> i64 {
        vstd::wrapping::i64_specs::wrapping_mul(self, o)
    }

    open spec fn div_spec(self, o: i64) -> i64 {
        match i64::checked_div(self, o) {
            Some(v) => v,
            None => if o == 0 {
                0
            } else {
                i64::MIN
            },
        }
    }

    open spec fn sqrt_spec(self) -> i64 {
        isqrt_int(self as int) as i64
    }

    open spec fn lt_spec(self, o: i64) -> bool {
        self < o
    }

    open spec fn zero_spec() -> i64 {
        0
    }

    open spec fn half_spec() -> i64 {
        0
    }

    open spec fn two_spec() -> i64 {
        2
    }

    open spec fn shrink_limit_spec() -> i64 {
        0
    }

    open spec fn grow_limit_spec() -> i64 {
        2
    }

    open spec fn dt_default_spec() -> i64 {
        1
    }

    open spec fn target_error_default_spec() -> i64 {
        0
    }

    open spec fn min_dt_default_spec() -> i64 {
        0
    }

    open spec fn max_dt_default_spec() -> i64 {
        i64::MAX
    }

    fn add(self, o: i64) -> (r: i64) {
        self.wrapping_add(o)
    }

    fn sub(self, o: i64) -> (r: i64) {
        self.wrapping_sub(o)
    }

    fn mul(self, o: i64) -> (r: i64) {
        self.wrapping_mul(o)
    }

    fn div(self, o: i64) -> (r: i64) {
        match self.checked_div(o) {
            Some(v) => v,
            None => if o == 0 {
                0
            } else {
                i64::MIN
            },
        }
    }

    fn sqrt(self) -> (r: i64) {
        if self <= 0 {
            return 0;
        }
        let x = self;
        let mut r: i64 = 0;
        loop
            invariant_except_break
                0 <= r <= 3037000499,
                0 < x,
                r * r <= x,
            ensures
                0 <= r,
                r * r <= x,
                x < (r + 1) * (r + 1) || r == 3037000499,
            decreases x - r,
        {
            if r >= 3037000499 {
                break;
            }
            let next = r + 1;
            proof {
                assert(next * next <= 3037000499 * 3037000499) by (nonlinear_arith)
                    requires
                        0 <= next <= 3037000499,
                ;
            }
            if next * next > x {
                break;
            }
            r = next;
            proof {
                assert(r <= r * r) by (nonlinear_arith)
                    requires
                        1 <= r,
                ;
            }
        }
        proof {
            if r == 3037000499 {
                assert(x < (r + 1) * (r + 1));
            }
            lemma_isqrt_unique(x as int, r as int);
        }
        r
    }

    fn is_lt(self, o: i64) -> (r: bool) {
        self < o
    }

    fn is_zero(self) -> (r: bool) {
        self == 0
    }

    fn zero() -> (r: i64) {
        0
    }

    fn half() -> (r: i64) {
        0
    }

    fn two() -> (r: i64) {
        2
    }

    fn shrink_limit() -> (r: i64) {
        0
    }

    fn grow_limit() -> (r: i64) {
        2
    }

    fn dt_default() -> (r: i64) {
        1
    }

    fn target_error_default() -> (r: i64) {
        0
    }

    fn min_dt_default() -> (r: i64) {
        0
    }

    fn max_dt_default() -> (r: i64) {
        i64::MAX
    }

    proof fn lt_irreflexive(a: i64) {
    }

    proof fn lt_asymmetric(a: i64, b: i64) {
    }

    proof fn nlt_transitive(a: i64, b: i64, c: i64) {
    }

    proof fn add_sub_inverse(a: i64, b: i64) {
    }

    proof fn lt_connected(a: i64, b: i64) {
    }

    proof fn sub_self_zero(a: i64) {
    }
}

} // verus!
