//! Small general-purpose helpers: modular indexing into a vector and a
//! combined `and_then` / `or` for options.

use vstd::arithmetic::div_mod::{
    lemma_fundamental_div_mod,
    lemma_fundamental_div_mod_converse,
    lemma_mod_pos_bound,
};
use vstd::prelude::*;

verus! {

/// The element of `v` at `idx` taken modulo `v`'s length, so that negative
/// and overlarge indices wrap around; `None` only for an empty vector.
///
/// The result is `v[idx mod len]` with the mathematical (always
/// non-negative) remainder.
pub fn nth_mod<T>(v: &Vec<T>, idx: i32) -> (r: Option<&T>)
    requires
        v@.len() <= i32::MAX,
    ensures
        match r {
            Some(t) => v@.len() > 0 && *t == v@[(idx as int) % (v@.len() as int)],
            None => v@.len() == 0,
        },
{
    let n = v.len();
    if n == 0 {
        None
    } else {
        let ni = n as i32;
        let m0 = idx % ni;
        let m = if m0 < 0 {
            m0 + ni
        } else {
            m0
        };
        proof {
            let ii = idx as int;
            let nn = v@.len() as int;
            if idx < 0 {
                // The machine remainder is the negated mathematical remainder
                // of the magnitude; shift it into [0, n) and justify it with
                // the converse of the fundamental division property.
                let e = (-ii) % nn;
                lemma_mod_pos_bound(-ii, nn);
                lemma_fundamental_div_mod(-ii, nn);
                let q = (-ii) / nn;
                if e == 0 {
                    assert(ii == (-q) * nn + 0) by (nonlinear_arith)
                        requires
                            -ii == nn * q + e,
                            e == 0,
                    ;
                    lemma_fundamental_div_mod_converse(ii, nn, -q, 0);
                } else {
                    assert(ii == (-q - 1) * nn + (nn - e)) by (nonlinear_arith)
                        requires
                            -ii == nn * q + e,
                    ;
                    lemma_fundamental_div_mod_converse(ii, nn, -q - 1, nn - e);
                }
            }
        }
        assert(m as int == (idx as int) % (v@.len() as int));
        Some(&v[m as usize])
    }
}

/// Combine `and_then` with `or`: apply `f` to a present value — keeping
/// `f`'s result even when that is `None` — and fall back to `default` only
/// when no value was present.
///
/// This differs from `opt.and_then(f).or(default)`, which would also replace
/// an empty result of `f` by the fallback.
pub fn and_then_or<T, U, F: FnOnce(T) -> Option<U>>(opt: Option<T>, f: F, default: Option<U>) -> (r:
    Option<U>)
    requires
        opt matches Some(x) ==> call_requires(f, (x,)),
    ensures
        match opt {
            Some(x) => call_ensures(f, (x,), r),
            None => r == default,
        },
{
    match opt {
        Some(x) => f(x),
        None => default,
    }
}

} // verus!
