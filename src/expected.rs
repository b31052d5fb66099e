use vstd::prelude::*;
use vstd::arithmetic::power::{pow, lemma_pow_increases, lemma_pow_positive};
use vstd::arithmetic::mul::{lemma_mul_inequality, lemma_mul_strictly_positive};
use crate::edges::{lemma_edge_01, step_edge};

verus! {

/// Points at stake in one match: the K-factor of the rating update.
pub const K_FACTOR: i64 = 32;

/// The expected score of a party whose rating exceeds its opponent's by `t`
/// is `1 / (1 + 10^(-t/400))`: `expected_at_least(t, n, m)` holds when that
/// score is at least `n / m`.
///
/// For `0 < n < m` the comparison `m >= n * (1 + 10^(-t/400))` is raised to the
/// 400th power, which keeps it exact over the integers.
pub open spec fn expected_at_least(t: int, n: int, m: int) -> bool {
    if n <= 0 {
        true
    } else if m <= n {
        false
    } else if t >= 0 {
        pow(n, 400) <= pow(m - n, 400) * pow(10, t as nat)
    } else {
        pow(n, 400) * pow(10, (-t) as nat) <= pow(m - n, 400)
    }
}

/// The expected score of a party ahead by `t` is strictly above `n / m`.
pub open spec fn expected_above(t: int, n: int, m: int) -> bool {
    if n < 0 {
        true
    } else if m <= n {
        false
    } else if t >= 0 {
        pow(n, 400) < pow(m - n, 400) * pow(10, t as nat)
    } else {
        pow(n, 400) * pow(10, (-t) as nat) < pow(m - n, 400)
    }
}

/// `g` is the K-factor times the expected score of a party ahead by `t`,
/// rounded down.
pub open spec fn is_points(t: int, g: int) -> bool {
    0 <= g < K_FACTOR && expected_at_least(t, g, K_FACTOR as int) && !expected_at_least(
        t,
        g + 1,
        K_FACTOR as int,
    )
}

/// The K-factor times the expected score of a party ahead by `t`, rounded down.
pub open spec fn points(t: int) -> int {
    choose|g: int| is_points(t, g)
}

/// The `(t, j)` pair is where the expected score first reaches `j / 32`.
pub open spec fn is_step_edge(j: int, t: int) -> bool {
    expected_at_least(t, j, K_FACTOR as int) && !expected_at_least(t - 1, j, K_FACTOR as int)
}

/// `pow` grows with its base.
proof fn lemma_pow_base_grows(a: int, b: int, e: nat)
    requires
        0 <= a <= b,
    ensures
        0 <= pow(a, e) <= pow(b, e),
    decreases e,
{
    reveal_with_fuel(pow, 2);
    if e > 0 {
        lemma_pow_base_grows(a, b, (e - 1) as nat);
        let x = pow(a, (e - 1) as nat);
        let y = pow(b, (e - 1) as nat);
        assert(a * x <= b * y) by (nonlinear_arith)
            requires
                0 <= a <= b,
                0 <= x <= y,
        ;
    }
}

/// The expected score grows with the rating advantage.
pub proof fn lemma_expected_grows(t1: int, t2: int, n: int, m: int)
    requires
        t1 <= t2,
        expected_at_least(t1, n, m),
    ensures
        expected_at_least(t2, n, m),
{
    if 0 < n < m {
        let a = pow(n, 400);
        let b = pow(m - n, 400);
        lemma_pow_positive(n, 400);
        lemma_pow_positive(m - n, 400);
        if t1 >= 0 {
            lemma_pow_increases(10, t1 as nat, t2 as nat);
            lemma_mul_inequality(pow(10, t1 as nat), pow(10, t2 as nat), b);
            assert(b * pow(10, t1 as nat) <= b * pow(10, t2 as nat)) by (nonlinear_arith)
                requires
                    pow(10, t1 as nat) * b <= pow(10, t2 as nat) * b,
            ;
        } else if t2 < 0 {
            lemma_pow_increases(10, (-t2) as nat, (-t1) as nat);
            lemma_mul_inequality(pow(10, (-t2) as nat), pow(10, (-t1) as nat), a);
            assert(a * pow(10, (-t2) as nat) <= a * pow(10, (-t1) as nat)) by (nonlinear_arith)
                requires
                    pow(10, (-t2) as nat) * a <= pow(10, (-t1) as nat) * a,
            ;
        } else {
            let p = pow(10, (-t1) as nat);
            let q = pow(10, t2 as nat);
            lemma_pow_positive(10, (-t1) as nat);
            lemma_pow_positive(10, t2 as nat);
            assert(a <= b * q) by (nonlinear_arith)
                requires
                    a * p <= b,
                    p >= 1,
                    q >= 1,
                    a > 0,
                    b > 0,
            ;
        }
    }
}

/// A score that reaches `(n + 1) / m` reaches `n / m`.
proof fn lemma_expected_step_down(t: int, n: int, m: int)
    requires
        0 <= n,
        expected_at_least(t, n + 1, m),
    ensures
        expected_at_least(t, n, m),
{
    if 0 < n && n + 1 < m {
        lemma_pow_base_grows(n, n + 1, 400);
        lemma_pow_base_grows(m - n - 1, m - n, 400);
        let a0 = pow(n, 400);
        let a1 = pow(n + 1, 400);
        let b0 = pow(m - n, 400);
        let b1 = pow(m - n - 1, 400);
        if t >= 0 {
            let p = pow(10, t as nat);
            lemma_pow_positive(10, t as nat);
            assert(a0 <= b0 * p) by (nonlinear_arith)
                requires
                    a0 <= a1,
                    a1 <= b1 * p,
                    b1 <= b0,
                    p > 0,
            ;
        } else {
            let p = pow(10, (-t) as nat);
            lemma_pow_positive(10, (-t) as nat);
            assert(a0 * p <= b0) by (nonlinear_arith)
                requires
                    0 <= a0 <= a1,
                    a1 * p <= b1,
                    b1 <= b0,
                    p > 0,
            ;
        }
    }
}

/// A score that reaches `n2 / m` reaches every smaller `n1 / m`.
pub proof fn lemma_expected_shrinks(t: int, n1: int, n2: int, m: int)
    requires
        0 <= n1 <= n2,
        expected_at_least(t, n2, m),
    ensures
        expected_at_least(t, n1, m),
    decreases n2 - n1,
{
    if n1 < n2 {
        lemma_expected_step_down(t, n2 - 1, m);
        lemma_expected_shrinks(t, n1, n2 - 1, m);
    }
}

proof fn lemma_points_exist_from(t: int, k: int)
    requires
        0 <= k < K_FACTOR,
        expected_at_least(t, k, K_FACTOR as int),
    ensures
        exists|g: int| is_points(t, g),
    decreases K_FACTOR - k,
{
    if expected_at_least(t, k + 1, K_FACTOR as int) {
        lemma_points_exist_from(t, k + 1);
    } else {
        assert(is_points(t, k));
    }
}

/// `points(t)` is the one rounded-down multiple that `is_points` describes.
pub proof fn lemma_points(t: int, g: int)
    ensures
        is_points(t, points(t)),
        is_points(t, g) ==> g == points(t),
{
    lemma_points_exist_from(t, 0);
    let p = points(t);
    if is_points(t, g) && g != p {
        if g < p {
            lemma_expected_shrinks(t, g + 1, p, K_FACTOR as int);
        } else {
            lemma_expected_shrinks(t, p + 1, g, K_FACTOR as int);
        }
    }
}

/// Any party not more than 596 points behind expects at least one point in 32.
pub proof fn lemma_points_positive(t: int)
    requires
        t >= -596,
    ensures
        points(t) >= 1,
{
    lemma_points(t, 0);
    lemma_edge_01();
    lemma_expected_grows(-596, t, 1, K_FACTOR as int);
}

/// A party facing an equal rating expects exactly one half.
pub proof fn lemma_even_match()
    ensures
        expected_at_least(0, 1, 2),
        !expected_above(0, 1, 2),
{
    reveal_with_fuel(pow, 1);
    lemma_pow_positive(1, 400);
}

/// A party rated above its opponent expects more than one half.
pub proof fn lemma_ahead_favoured(t: int)
    requires
        t > 0,
    ensures
        expected_above(t, 1, 2),
{
    reveal_with_fuel(pow, 2);
    vstd::arithmetic::power::lemma1_pow(400);
    lemma_pow_increases(10, 1, t as nat);
    assert(pow(10, 1) == 10);
    assert(pow(1, 400) < pow(1, 400) * pow(10, t as nat));
}

/// The two sides' expected scores add up to one: the score of a party ahead
/// by `t` reaches `n / m` exactly when its opponent's stays at or below
/// `(m - n) / m`.
pub proof fn lemma_scores_complement(t: int, n: int, m: int)
    requires
        0 <= n <= m,
        0 < m,
    ensures
        expected_at_least(t, n, m) == !expected_above(-t, m - n, m),
{
    reveal_with_fuel(pow, 1);
    let k = m - n;
    if n == m {
        vstd::arithmetic::power::lemma0_pow(400);
        lemma_pow_positive(m, 400);
        assert(k == 0 && m - k == m);
        if -t >= 0 {
            lemma_pow_positive(10, (-t) as nat);
            lemma_mul_strictly_positive(pow(m, 400), pow(10, (-t) as nat));
            assert(pow(k, 400) < pow(m - k, 400) * pow(10, (-t) as nat));
        } else {
            assert(pow(k, 400) * pow(10, (-(-t)) as nat) < pow(m - k, 400));
        }
        assert(expected_above(-t, k, m));
    } else if n > 0 {
        assert(m - k == n);
        if t > 0 {
            assert((-(-t)) as nat == t as nat);
            assert(expected_at_least(t, n, m) == (pow(n, 400) <= pow(k, 400) * pow(10, t as nat)));
            assert(expected_above(-t, k, m) == (pow(k, 400) * pow(10, t as nat) < pow(n, 400)));
        } else if t == 0 {
            assert(pow(10, 0) == 1);
            assert(expected_at_least(t, n, m) == (pow(n, 400) <= pow(k, 400) * 1));
            assert(expected_above(-t, k, m) == (pow(k, 400) < pow(n, 400) * 1));
        } else {
            assert(expected_at_least(t, n, m) == (pow(n, 400) * pow(10, (-t) as nat) <= pow(k, 400)));
            assert(expected_above(-t, k, m) == (pow(k, 400) < pow(n, 400) * pow(10, (-t) as nat)));
        }
    }
}

/// K-factor times the expected score of a party whose rating exceeds its
/// opponent's by `t`, rounded down.
pub fn points_of(t: i64) -> (g: i64)
    ensures
        g == points(t as int),
        0 <= g < K_FACTOR,
{
    let mut g: u8 = 0;
    let mut done = false;
    while !done && g < 31
        invariant
            0 <= g <= 31,
            expected_at_least(t as int, g as int, K_FACTOR as int),
            done ==> !expected_at_least(t as int, g + 1, K_FACTOR as int),
        decreases 31 - g + (if done { 0int } else { 1int }),
    {
        let edge = step_edge(g + 1);
        if t < edge {
            proof {
                if expected_at_least(t as int, g + 1, K_FACTOR as int) {
                    lemma_expected_grows(t as int, edge - 1, g + 1, K_FACTOR as int);
                }
            }
            done = true;
        } else {
            proof {
                lemma_expected_grows(edge as int, t as int, g + 1, K_FACTOR as int);
            }
            g = g + 1;
        }
    }
    proof {
        lemma_points(t as int, g as int);
    }
    g as i64
}

} // verus!
