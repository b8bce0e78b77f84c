use vstd::prelude::*;

verus! {

/// Remainder that is always in `[0, n)`, even for a negative `x`: Rust's `%`
/// is a truncating remainder, so `-1 % 10` is `-1`, while the wrap-around
/// arithmetic of the grid needs `9`. Verus's mathematical `%` is Euclidean,
/// which is exactly the intended result.
pub fn modulo(x: isize, n: isize) -> (r: isize)
    requires
        1 <= n,
    ensures
        r == (x as int) % (n as int),
        0 <= r < n,
{
    let m = x % n;
    proof {
        if x < 0 {
            // Rust's truncating remainder negates the remainder of the
            // magnitude: m == -((-x) % n).
            let a = -(x as int);
            let nn = n as int;
            let q = a / nn;
            let e = a % nn;
            vstd::arithmetic::div_mod::lemma_fundamental_div_mod(a, nn);
            vstd::arithmetic::div_mod::lemma_mod_pos_bound(a, nn);
            assert(m == -e);
            if e == 0 {
                assert(x as int == (-q) * nn + 0) by (nonlinear_arith)
                    requires
                        a == nn * q + e,
                        a == -(x as int),
                        e == 0,
                ;
                vstd::arithmetic::div_mod::lemma_fundamental_div_mod_converse_mod(
                    x as int, nn, -q, 0,
                );
            } else {
                assert(x as int == (-q - 1) * nn + (nn - e)) by (nonlinear_arith)
                    requires
                        a == nn * q + e,
                        a == -(x as int),
                ;
                vstd::arithmetic::div_mod::lemma_fundamental_div_mod_converse_mod(
                    x as int, nn, -q - 1, nn - e,
                );
            }
        }
    }
    if m < 0 {
        m + n
    } else {
        m
    }
}

/// Step a coordinate up by one, wrapping from `n - 1` back to `0`.
pub fn wrap_inc(x: &mut isize, n: isize)
    requires
        1 <= n,
        *old(x) < isize::MAX,
    ensures
        *final(x) == (*old(x) + 1) % (n as int),
        0 <= *final(x) < n,
{
    *x = modulo(*x + 1, n);
}

/// Step a coordinate down by one, wrapping from `0` back to `n - 1`.
pub fn wrap_dec(x: &mut isize, n: isize)
    requires
        1 <= n,
        isize::MIN < *old(x),
    ensures
        *final(x) == (*old(x) - 1) % (n as int),
        0 <= *final(x) < n,
{
    *x = modulo(*x - 1, n);
}

} // verus!
