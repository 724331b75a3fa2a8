use vstd::arithmetic::div_mod::{lemma_fundamental_div_mod, lemma_fundamental_div_mod_converse};
use vstd::prelude::*;

verus! {

/// Number of cells across the board.
pub const GRID_WIDTH: i16 = 56;

/// Number of cells down the board.
pub const GRID_HEIGHT: i16 = 30;

/// Side of one cell, in pixels.
pub const CELL_SIZE: i16 = 32;

/// The mathematical (never negative) remainder of `coord` modulo a positive
/// `modulus`.
pub open spec fn wrapped(coord: int, modulus: int) -> int {
    coord % modulus
}

/// `t` is Rust's truncating remainder of `c` by `n` (its sign follows `c`);
/// adding `n` and reducing once more gives the mathematical remainder.
proof fn lemma_truncated_rem_corrected(c: int, n: int, t: int, r: int)
    requires
        n > 0,
        -n < t < n,
        c >= 0 ==> t == c % n,
        c < 0 ==> t == -((-c) % n),
        r == (t + n) % n,
    ensures
        r == c % n,
{
    if c >= 0 {
        lemma_fundamental_div_mod_converse(t + n, n, 1, t);
    } else {
        let q = (-c) / n;
        let m = (-c) % n;
        lemma_fundamental_div_mod(-c, n);
        if m == 0 {
            lemma_fundamental_div_mod_converse(t + n, n, 1, 0);
            assert(c == (-q) * n + 0) by (nonlinear_arith)
                requires -c == n * q + m, m == 0;
            lemma_fundamental_div_mod_converse(c, n, -q, 0);
        } else {
            lemma_fundamental_div_mod_converse(t + n, n, 0, n - m);
            assert(c == (-q - 1) * n + (n - m)) by (nonlinear_arith)
                requires -c == n * q + m;
            lemma_fundamental_div_mod_converse(c, n, -q - 1, n - m);
        }
    }
}

/// Signed-correct modulo: brings `coord` into `[0, modulus)`, so that `-1`
/// becomes `modulus - 1` rather than a negative remainder.
pub fn wrap(coord: i32, modulus: i16) -> (r: i16)
    requires
        modulus > 0,
    ensures
        r as int == wrapped(coord as int, modulus as int),
        0 <= r < modulus,
{
    let c: i32 = coord;
    let n: i32 = modulus as i32;
    let t: i32 = c % n;
    let r: i32 = (t + n) % n;
    proof {
        lemma_truncated_rem_corrected(c as int, n as int, t as int, r as int);
    }
    r as i16
}

/// Stepping off either edge lands on the opposite one: `-1` wraps to the
/// last coordinate and `modulus` wraps to zero.
pub proof fn lemma_wrap_edges(n: int)
    requires
        n > 0,
    ensures
        wrapped(-1, n) == n - 1,
        wrapped(n, n) == 0,
{
    lemma_fundamental_div_mod_converse(-1, n, -1, n - 1);
    lemma_fundamental_div_mod_converse(n, n, 1, 0);
}

} // verus!
