//! Wall-clock values returned by `get_time`: whole seconds plus a
//! microsecond remainder, decomposed from a microseconds-since-boot count.

use vstd::prelude::*;
use vstd::arithmetic::div_mod::{
    lemma_fundamental_div_mod, lemma_div_is_ordered, lemma_mod_division_less_than_divisor,
};

verus! {

/// Microseconds in one second; the modulus of the `usec` field.
pub const USEC_PER_SEC: usize = 1_000_000;

/// Time split into whole seconds since an arbitrary epoch and the
/// microsecond remainder. Produced fresh on each `get_time` call.
#[derive(Clone, Copy, Debug, PartialEq, Eq, Structural)]
pub struct TimeVal {
    pub sec: usize,
    pub usec: usize,
}

/// Whole seconds of a microsecond count.
pub open spec fn spec_sec_of(us: int) -> int {
    us / (USEC_PER_SEC as int)
}

/// Microsecond remainder of a microsecond count.
pub open spec fn spec_usec_of(us: int) -> int {
    us % (USEC_PER_SEC as int)
}

/// The invariant of a decomposed time value: the remainder is a proper
/// remainder.
pub open spec fn timeval_wf(tv: TimeVal) -> bool {
    tv.usec < USEC_PER_SEC
}

/// The microsecond count a time value decodes back to.
pub open spec fn spec_total_us(tv: TimeVal) -> int {
    tv.sec * (USEC_PER_SEC as int) + tv.usec
}

/// The decomposed form of a microsecond count.
pub open spec fn spec_timeval_of(us: usize) -> TimeVal {
    TimeVal {
        sec: spec_sec_of(us as int) as usize,
        usec: spec_usec_of(us as int) as usize,
    }
}

/// Ordering of decomposed time values: by seconds, then by the remainder.
pub open spec fn timeval_le(a: TimeVal, b: TimeVal) -> bool {
    a.sec < b.sec || (a.sec == b.sec && a.usec <= b.usec)
}

/// Decompose a microsecond count into seconds and the remainder.
pub fn timeval_of_us(us: usize) -> (tv: TimeVal)
    ensures
        tv == spec_timeval_of(us),
        tv.sec == spec_sec_of(us as int),
        tv.usec == spec_usec_of(us as int),
        timeval_wf(tv),
        spec_total_us(tv) == us,
{
    proof {
        lemma_fundamental_div_mod(us as int, USEC_PER_SEC as int);
        lemma_mod_division_less_than_divisor(us as int, USEC_PER_SEC as int);
    }
    TimeVal { sec: us / USEC_PER_SEC, usec: us % USEC_PER_SEC }
}

/// The decomposition is exact: a time value decodes back to the very
/// microsecond count it was made from. Hence two readings decode to
/// counts whose difference is exactly the clock's advance between them.
pub proof fn lemma_time_decomposition(us: int)
    requires
        0 <= us,
    ensures
        spec_sec_of(us) * (USEC_PER_SEC as int) + spec_usec_of(us) == us,
        0 <= spec_usec_of(us) < USEC_PER_SEC,
        0 <= spec_sec_of(us) <= us,
{
    lemma_fundamental_div_mod(us, USEC_PER_SEC as int);
    lemma_mod_division_less_than_divisor(us, USEC_PER_SEC as int);
    assert(spec_sec_of(us) <= spec_sec_of(us) * (USEC_PER_SEC as int)) by (nonlinear_arith)
        requires
            0 <= spec_sec_of(us),
    ;
}

/// A non-decreasing microsecond clock gives non-decreasing time values:
/// the decomposition of the later count is the later pair, seconds first,
/// remainder second.
pub proof fn lemma_time_monotone(us1: int, us2: int)
    requires
        0 <= us1 <= us2,
    ensures
        spec_sec_of(us1) < spec_sec_of(us2) || (spec_sec_of(us1) == spec_sec_of(us2)
            && spec_usec_of(us1) <= spec_usec_of(us2)),
{
    lemma_time_decomposition(us1);
    lemma_time_decomposition(us2);
    lemma_div_is_ordered(us1, us2, USEC_PER_SEC as int);
    if spec_sec_of(us1) == spec_sec_of(us2) {
        assert(spec_usec_of(us1) <= spec_usec_of(us2));
    }
}

/// `get_time` is monotone: readings taken while the clock only moved
/// forward never go back, and every reading carries a proper microsecond
/// remainder.
pub proof fn lemma_get_time_monotone(us1: usize, us2: usize)
    requires
        us1 <= us2,
    ensures
        timeval_le(spec_timeval_of(us1), spec_timeval_of(us2)),
        timeval_wf(spec_timeval_of(us1)),
        spec_total_us(spec_timeval_of(us1)) == us1,
{
    lemma_time_decomposition(us1 as int);
    lemma_time_decomposition(us2 as int);
    lemma_time_monotone(us1 as int, us2 as int);
}

} // verus!
