//! Moving an index by a signed step: clamped at the ends, or around a ring.

use vstd::arithmetic::div_mod::lemma_fundamental_div_mod;
use vstd::arithmetic::div_mod::lemma_fundamental_div_mod_converse_mod;
use vstd::prelude::*;

verus! {

/// The nearest number that is no less than `low` and no more than `high`.
pub open spec fn clamped(value: int, low: int, high: int) -> int {
    if value < low {
        low
    } else if value > high {
        high
    } else {
        value
    }
}

/// Moves an index by a signed step and stops at either end.
pub fn clamp_step(current: usize, delta: isize, last: usize) -> (next: usize)
    ensures
        next == clamped(current + delta, 0, last as int),
{
    let sum: i128 = current as i128 + delta as i128;
    if sum < 0 {
        0
    } else if sum > last as i128 {
        last
    } else {
        sum as usize
    }
}

/// Moves an index by a signed step around a ring. The ring may have a few more
/// places than a list can have elements.
pub fn ring_step(current: u128, delta: isize, len: u128) -> (next: u128)
    requires
        0 < len,
        current <= usize::MAX + 2,
    ensures
        next == (current + delta) % (len as int),
        next < len,
{
    let n: u128 = len;
    let sum: i128 = current as i128 + delta as i128;
    if sum >= 0 {
        let rest: u128 = (sum as u128) % n;
        rest
    } else {
        let back: u128 = (-sum) as u128;
        let rest: u128 = back % n;
        proof {
            let q = (back / n) as int;
            lemma_fundamental_div_mod(back as int, n as int);
            if rest == 0 {
                assert(sum == (-q) * (n as int) + 0) by (nonlinear_arith)
                    requires
                        back == n * q + rest,
                        rest == 0,
                        sum == -back,
                ;
                lemma_fundamental_div_mod_converse_mod(sum as int, n as int, -q, 0);
            } else {
                assert(sum == (-q - 1) * (n as int) + (n - rest)) by (nonlinear_arith)
                    requires
                        back == n * q + rest,
                        sum == -back,
                ;
                lemma_fundamental_div_mod_converse_mod(
                    sum as int,
                    n as int,
                    -q - 1,
                    n - rest,
                );
            }
        }
        if rest == 0 {
            0
        } else {
            n - rest
        }
    }
}

/// A step around a ring is undone by the opposite step.
pub proof fn law_ring_steps_undo_each_other(current: int, delta: int, len: int)
    requires
        0 <= current < len,
    ensures
        ((current + delta) % len - delta) % len == current,
{
    let q = (current + delta) / len;
    let r = (current + delta) % len;
    lemma_fundamental_div_mod(current + delta, len);
    assert(r - delta == (-q) * len + current) by (nonlinear_arith)
        requires
            current + delta == len * q + r,
    ;
    lemma_fundamental_div_mod_converse_mod(r - delta, len, -q, current);
}

} // verus!
