use vstd::prelude::*;
use vstd::arithmetic::power::{pow, lemma_pow_adds, lemma_pow_multiplies, lemma_pow_positive};
use crate::expected::is_step_edge;

verus! {

// Where the expected score crosses each multiple of 1/32. Each crossing is a
// comparison of numbers with some six hundred digits; they are reached through
// twentieth powers, whose values are written out, and products unfolded one
// factor at a time, so that the solver only ever multiplies by constants.

proof fn lemma_twentieth_powers()
    ensures
        pow(1, 20) == 1,
        pow(2, 20) == 1048576,
        pow(3, 20) == 3486784401,
        pow(4, 20) == 1099511627776,
        pow(5, 20) == 95367431640625,
        pow(6, 20) == 3656158440062976,
        pow(7, 20) == 79792266297612001,
        pow(8, 20) == 1152921504606846976,
        pow(9, 20) == 12157665459056928801,
        pow(10, 20) == 100000000000000000000,
        pow(11, 20) == 672749994932560009201,
        pow(12, 20) == 3833759992447475122176,
        pow(13, 20) == 19004963774880799438801,
        pow(14, 20) == 83668255425284801560576,
        pow(15, 20) == 332525673007965087890625,
        pow(16, 20) == 1208925819614629174706176,
        pow(17, 20) == 4064231406647572522401601,
        pow(18, 20) == 12748236216396078174437376,
        pow(19, 20) == 37589973457545958193355601,
        pow(20, 20) == 104857600000000000000000000,
        pow(21, 20) == 278218429446951548637196401,
        pow(22, 20) == 705429498686404044207947776,
        pow(23, 20) == 1716155831334586342923895201,
        pow(24, 20) == 4019988717840603673710821376,
        pow(25, 20) == 9094947017729282379150390625,
        pow(26, 20) == 19928148895209409152340197376,
        pow(27, 20) == 42391158275216203514294433201,
        pow(28, 20) == 87732524600823436081182539776,
        pow(29, 20) == 176994576151109753197786640401,
        pow(30, 20) == 348678440100000000000000000000,
        pow(31, 20) == 671790528819082282036142601601,
{
    reveal_with_fuel(pow, 21);
}

proof fn lemma_pow_split(b: int, e: nat)
    ensures
        pow(b, e) == pow(pow(b, 20), e / 20) * pow(b, e % 20),
{
    lemma_pow_multiplies(b, 20, e / 20);
    lemma_pow_adds(b, 20 * (e / 20), e % 20);
}

/// The 400th power of `j`, through its twentieth power `p`.
proof fn lemma_pow400(j: int, p: int)
    requires
        p == pow(j, 20),
    ensures
        pow(j, 400) == pow(p, 20),
{
    lemma_pow_multiplies(j, 20, 20);
}

/// `x * f^n`, unfolded one factor at a time.
spec fn scaled(x: int, f: int, n: nat) -> int
    decreases n,
{
    if n == 0 {
        x
    } else {
        f * scaled(x, f, (n - 1) as nat)
    }
}

proof fn lemma_scaled(x: int, f: int, n: nat)
    ensures
        scaled(x, f, n) == x * pow(f, n),
    decreases n,
{
    reveal_with_fuel(pow, 2);
    if n > 0 {
        lemma_scaled(x, f, (n - 1) as nat);
        assert(x * (f * pow(f, (n - 1) as nat)) == f * (x * pow(f, (n - 1) as nat))) by (nonlinear_arith);
    }
}

/// `x` times a power of ten, with the power split into twentieth powers and a
/// rest `w == 10^r`.
proof fn lemma_shift(x: int, e: nat, q: nat, r: nat, w: int)
    requires
        e == 20 * q + r,
        w == pow(10, r),
    ensures
        x * pow(10, e) == scaled(x * w, 100000000000000000000, q),
{
    lemma_twentieth_powers();
    lemma_pow_multiplies(10, 20, q);
    lemma_pow_adds(10, 20 * q, r);
    lemma_scaled(x * w, 100000000000000000000, q);
    assert(x * (pow(100000000000000000000, q) * w) == (x * w) * pow(100000000000000000000, q)) by (nonlinear_arith);
}

/// The expected score first reaches 1/32 at an advantage of -596.
#[verifier::rlimit(60)]
pub(crate) proof fn lemma_edge_01()
    ensures
        is_step_edge(1, -596),
{
    reveal_with_fuel(pow, 31);
    reveal_with_fuel(scaled, 31);
    lemma_twentieth_powers();
    lemma_pow400(1, 1);
    lemma_pow400(31, 671790528819082282036142601601);
    lemma_shift(pow(1, 400), 596, 29, 16, 10000000000000000);
    lemma_shift(pow(1, 400), 597, 29, 17, 100000000000000000);
    assert(pow(1, 400) * pow(10, 596) <= pow(31, 400));
    assert(pow(1, 400) * pow(10, 597) > pow(31, 400));
}

/// The expected score first reaches 2/32 at an advantage of -470.
#[verifier::rlimit(60)]
proof fn lemma_edge_02()
    ensures
        is_step_edge(2, -470),
{
    reveal_with_fuel(pow, 31);
    reveal_with_fuel(scaled, 31);
    lemma_twentieth_powers();
    lemma_pow400(2, 1048576);
    lemma_pow400(30, 348678440100000000000000000000);
    lemma_shift(pow(2, 400), 470, 23, 10, 10000000000);
    lemma_shift(pow(2, 400), 471, 23, 11, 100000000000);
    assert(pow(2, 400) * pow(10, 470) <= pow(30, 400));
    assert(pow(2, 400) * pow(10, 471) > pow(30, 400));
}

/// The expected score first reaches 3/32 at an advantage of -394.
#[verifier::rlimit(60)]
proof fn lemma_edge_03()
    ensures
        is_step_edge(3, -394),
{
    reveal_with_fuel(pow, 31);
    reveal_with_fuel(scaled, 31);
    lemma_twentieth_powers();
    lemma_pow400(3, 3486784401);
    lemma_pow400(29, 176994576151109753197786640401);
    lemma_shift(pow(3, 400), 394, 19, 14, 100000000000000);
    lemma_shift(pow(3, 400), 395, 19, 15, 1000000000000000);
    assert(pow(3, 400) * pow(10, 394) <= pow(29, 400));
    assert(pow(3, 400) * pow(10, 395) > pow(29, 400));
}

/// The expected score first reaches 4/32 at an advantage of -338.
#[verifier::rlimit(60)]
proof fn lemma_edge_04()
    ensures
        is_step_edge(4, -338),
{
    reveal_with_fuel(pow, 31);
    reveal_with_fuel(scaled, 31);
    lemma_twentieth_powers();
    lemma_pow400(4, 1099511627776);
    lemma_pow400(28, 87732524600823436081182539776);
    lemma_shift(pow(4, 400), 338, 16, 18, 1000000000000000000);
    lemma_shift(pow(4, 400), 339, 16, 19, 10000000000000000000);
    assert(pow(4, 400) * pow(10, 338) <= pow(28, 400));
    assert(pow(4, 400) * pow(10, 339) > pow(28, 400));
}

/// The expected score first reaches 5/32 at an advantage of -292.
#[verifier::rlimit(60)]
proof fn lemma_edge_05()
    ensures
        is_step_edge(5, -292),
{
    reveal_with_fuel(pow, 31);
    reveal_with_fuel(scaled, 31);
    lemma_twentieth_powers();
    lemma_pow400(5, 95367431640625);
    lemma_pow400(27, 42391158275216203514294433201);
    lemma_shift(pow(5, 400), 292, 14, 12, 1000000000000);
    lemma_shift(pow(5, 400), 293, 14, 13, 10000000000000);
    assert(pow(5, 400) * pow(10, 292) <= pow(27, 400));
    assert(pow(5, 400) * pow(10, 293) > pow(27, 400));
}

/// The expected score first reaches 6/32 at an advantage of -254.
#[verifier::rlimit(60)]
proof fn lemma_edge_06()
    ensures
        is_step_edge(6, -254),
{
    reveal_with_fuel(pow, 31);
    reveal_with_fuel(scaled, 31);
    lemma_twentieth_powers();
    lemma_pow400(6, 3656158440062976);
    lemma_pow400(26, 19928148895209409152340197376);
    lemma_shift(pow(6, 400), 254, 12, 14, 100000000000000);
    lemma_shift(pow(6, 400), 255, 12, 15, 1000000000000000);
    assert(pow(6, 400) * pow(10, 254) <= pow(26, 400));
    assert(pow(6, 400) * pow(10, 255) > pow(26, 400));
}

/// The expected score first reaches 7/32 at an advantage of -221.
#[verifier::rlimit(60)]
proof fn lemma_edge_07()
    ensures
        is_step_edge(7, -221),
{
    reveal_with_fuel(pow, 31);
    reveal_with_fuel(scaled, 31);
    lemma_twentieth_powers();
    lemma_pow400(7, 79792266297612001);
    lemma_pow400(25, 9094947017729282379150390625);
    lemma_shift(pow(7, 400), 221, 11, 1, 10);
    lemma_shift(pow(7, 400), 222, 11, 2, 100);
    assert(pow(7, 400) * pow(10, 221) <= pow(25, 400));
    assert(pow(7, 400) * pow(10, 222) > pow(25, 400));
}

/// The expected score first reaches 8/32 at an advantage of -190.
#[verifier::rlimit(60)]
proof fn lemma_edge_08()
    ensures
        is_step_edge(8, -190),
{
    reveal_with_fuel(pow, 31);
    reveal_with_fuel(scaled, 31);
    lemma_twentieth_powers();
    lemma_pow400(8, 1152921504606846976);
    lemma_pow400(24, 4019988717840603673710821376);
    lemma_shift(pow(8, 400), 190, 9, 10, 10000000000);
    lemma_shift(pow(8, 400), 191, 9, 11, 100000000000);
    assert(pow(8, 400) * pow(10, 190) <= pow(24, 400));
    assert(pow(8, 400) * pow(10, 191) > pow(24, 400));
}

/// The expected score first reaches 9/32 at an advantage of -162.
#[verifier::rlimit(60)]
proof fn lemma_edge_09()
    ensures
        is_step_edge(9, -162),
{
    reveal_with_fuel(pow, 31);
    reveal_with_fuel(scaled, 31);
    lemma_twentieth_powers();
    lemma_pow400(9, 12157665459056928801);
    lemma_pow400(23, 1716155831334586342923895201);
    lemma_shift(pow(9, 400), 162, 8, 2, 100);
    lemma_shift(pow(9, 400), 163, 8, 3, 1000);
    assert(pow(9, 400) * pow(10, 162) <= pow(23, 400));
    assert(pow(9, 400) * pow(10, 163) > pow(23, 400));
}

/// The expected score first reaches 10/32 at an advantage of -136.
#[verifier::rlimit(60)]
proof fn lemma_edge_10()
    ensures
        is_step_edge(10, -136),
{
    reveal_with_fuel(pow, 31);
    reveal_with_fuel(scaled, 31);
    lemma_twentieth_powers();
    lemma_pow400(10, 100000000000000000000);
    lemma_pow400(22, 705429498686404044207947776);
    lemma_shift(pow(10, 400), 136, 6, 16, 10000000000000000);
    lemma_shift(pow(10, 400), 137, 6, 17, 100000000000000000);
    assert(pow(10, 400) * pow(10, 136) <= pow(22, 400));
    assert(pow(10, 400) * pow(10, 137) > pow(22, 400));
}

/// The expected score first reaches 11/32 at an advantage of -112.
#[verifier::rlimit(60)]
proof fn lemma_edge_11()
    ensures
        is_step_edge(11, -112),
{
    reveal_with_fuel(pow, 31);
    reveal_with_fuel(scaled, 31);
    lemma_twentieth_powers();
    lemma_pow400(11, 672749994932560009201);
    lemma_pow400(21, 278218429446951548637196401);
    lemma_shift(pow(11, 400), 112, 5, 12, 1000000000000);
    lemma_shift(pow(11, 400), 113, 5, 13, 10000000000000);
    assert(pow(11, 400) * pow(10, 112) <= pow(21, 400));
    assert(pow(11, 400) * pow(10, 113) > pow(21, 400));
}

/// The expected score first reaches 12/32 at an advantage of -88.
#[verifier::rlimit(60)]
proof fn lemma_edge_12()
    ensures
        is_step_edge(12, -88),
{
    reveal_with_fuel(pow, 31);
    reveal_with_fuel(scaled, 31);
    lemma_twentieth_powers();
    lemma_pow400(12, 3833759992447475122176);
    lemma_pow400(20, 104857600000000000000000000);
    lemma_shift(pow(12, 400), 88, 4, 8, 100000000);
    lemma_shift(pow(12, 400), 89, 4, 9, 1000000000);
    assert(pow(12, 400) * pow(10, 88) <= pow(20, 400));
    assert(pow(12, 400) * pow(10, 89) > pow(20, 400));
}

/// The expected score first reaches 13/32 at an advantage of -65.
#[verifier::rlimit(60)]
proof fn lemma_edge_13()
    ensures
        is_step_edge(13, -65),
{
    reveal_with_fuel(pow, 31);
    reveal_with_fuel(scaled, 31);
    lemma_twentieth_powers();
    lemma_pow400(13, 19004963774880799438801);
    lemma_pow400(19, 37589973457545958193355601);
    lemma_shift(pow(13, 400), 65, 3, 5, 100000);
    lemma_shift(pow(13, 400), 66, 3, 6, 1000000);
    assert(pow(13, 400) * pow(10, 65) <= pow(19, 400));
    assert(pow(13, 400) * pow(10, 66) > pow(19, 400));
}

/// The expected score first reaches 14/32 at an advantage of -43.
#[verifier::rlimit(60)]
proof fn lemma_edge_14()
    ensures
        is_step_edge(14, -43),
{
    reveal_with_fuel(pow, 31);
    reveal_with_fuel(scaled, 31);
    lemma_twentieth_powers();
    lemma_pow400(14, 83668255425284801560576);
    lemma_pow400(18, 12748236216396078174437376);
    lemma_shift(pow(14, 400), 43, 2, 3, 1000);
    lemma_shift(pow(14, 400), 44, 2, 4, 10000);
    assert(pow(14, 400) * pow(10, 43) <= pow(18, 400));
    assert(pow(14, 400) * pow(10, 44) > pow(18, 400));
}

/// The expected score first reaches 15/32 at an advantage of -21.
#[verifier::rlimit(60)]
proof fn lemma_edge_15()
    ensures
        is_step_edge(15, -21),
{
    reveal_with_fuel(pow, 31);
    reveal_with_fuel(scaled, 31);
    lemma_twentieth_powers();
    lemma_pow400(15, 332525673007965087890625);
    lemma_pow400(17, 4064231406647572522401601);
    lemma_shift(pow(15, 400), 21, 1, 1, 10);
    lemma_shift(pow(15, 400), 22, 1, 2, 100);
    assert(pow(15, 400) * pow(10, 21) <= pow(17, 400));
    assert(pow(15, 400) * pow(10, 22) > pow(17, 400));
}

/// The expected score first reaches 16/32 at an advantage of 0.
#[verifier::rlimit(60)]
proof fn lemma_edge_16()
    ensures
        is_step_edge(16, 0),
{
    reveal_with_fuel(pow, 2);
    lemma_pow_positive(16, 400);
    assert(pow(10, 0) == 1);
    assert(pow(10, 1) == 10);
}

/// The expected score first reaches 17/32 at an advantage of 22.
#[verifier::rlimit(60)]
proof fn lemma_edge_17()
    ensures
        is_step_edge(17, 22),
{
    reveal_with_fuel(pow, 31);
    reveal_with_fuel(scaled, 31);
    lemma_twentieth_powers();
    lemma_pow400(17, 4064231406647572522401601);
    lemma_pow400(15, 332525673007965087890625);
    lemma_shift(pow(15, 400), 22, 1, 2, 100);
    lemma_shift(pow(15, 400), 21, 1, 1, 10);
    assert(pow(17, 400) <= pow(15, 400) * pow(10, 22));
    assert(pow(17, 400) > pow(15, 400) * pow(10, 21));
}

/// The expected score first reaches 18/32 at an advantage of 44.
#[verifier::rlimit(60)]
proof fn lemma_edge_18()
    ensures
        is_step_edge(18, 44),
{
    reveal_with_fuel(pow, 31);
    reveal_with_fuel(scaled, 31);
    lemma_twentieth_powers();
    lemma_pow400(18, 12748236216396078174437376);
    lemma_pow400(14, 83668255425284801560576);
    lemma_shift(pow(14, 400), 44, 2, 4, 10000);
    lemma_shift(pow(14, 400), 43, 2, 3, 1000);
    assert(pow(18, 400) <= pow(14, 400) * pow(10, 44));
    assert(pow(18, 400) > pow(14, 400) * pow(10, 43));
}

/// The expected score first reaches 19/32 at an advantage of 66.
#[verifier::rlimit(60)]
proof fn lemma_edge_19()
    ensures
        is_step_edge(19, 66),
{
    reveal_with_fuel(pow, 31);
    reveal_with_fuel(scaled, 31);
    lemma_twentieth_powers();
    lemma_pow400(19, 37589973457545958193355601);
    lemma_pow400(13, 19004963774880799438801);
    lemma_shift(pow(13, 400), 66, 3, 6, 1000000);
    lemma_shift(pow(13, 400), 65, 3, 5, 100000);
    assert(pow(19, 400) <= pow(13, 400) * pow(10, 66));
    assert(pow(19, 400) > pow(13, 400) * pow(10, 65));
}

/// The expected score first reaches 20/32 at an advantage of 89.
#[verifier::rlimit(60)]
proof fn lemma_edge_20()
    ensures
        is_step_edge(20, 89),
{
    reveal_with_fuel(pow, 31);
    reveal_with_fuel(scaled, 31);
    lemma_twentieth_powers();
    lemma_pow400(20, 104857600000000000000000000);
    lemma_pow400(12, 3833759992447475122176);
    lemma_shift(pow(12, 400), 89, 4, 9, 1000000000);
    lemma_shift(pow(12, 400), 88, 4, 8, 100000000);
    assert(pow(20, 400) <= pow(12, 400) * pow(10, 89));
    assert(pow(20, 400) > pow(12, 400) * pow(10, 88));
}

/// The expected score first reaches 21/32 at an advantage of 113.
#[verifier::rlimit(60)]
proof fn lemma_edge_21()
    ensures
        is_step_edge(21, 113),
{
    reveal_with_fuel(pow, 31);
    reveal_with_fuel(scaled, 31);
    lemma_twentieth_powers();
    lemma_pow400(21, 278218429446951548637196401);
    lemma_pow400(11, 672749994932560009201);
    lemma_shift(pow(11, 400), 113, 5, 13, 10000000000000);
    lemma_shift(pow(11, 400), 112, 5, 12, 1000000000000);
    assert(pow(21, 400) <= pow(11, 400) * pow(10, 113));
    assert(pow(21, 400) > pow(11, 400) * pow(10, 112));
}

/// The expected score first reaches 22/32 at an advantage of 137.
#[verifier::rlimit(60)]
proof fn lemma_edge_22()
    ensures
        is_step_edge(22, 137),
{
    reveal_with_fuel(pow, 31);
    reveal_with_fuel(scaled, 31);
    lemma_twentieth_powers();
    lemma_pow400(22, 705429498686404044207947776);
    lemma_pow400(10, 100000000000000000000);
    lemma_shift(pow(10, 400), 137, 6, 17, 100000000000000000);
    lemma_shift(pow(10, 400), 136, 6, 16, 10000000000000000);
    assert(pow(22, 400) <= pow(10, 400) * pow(10, 137));
    assert(pow(22, 400) > pow(10, 400) * pow(10, 136));
}

/// The expected score first reaches 23/32 at an advantage of 163.
#[verifier::rlimit(60)]
proof fn lemma_edge_23()
    ensures
        is_step_edge(23, 163),
{
    reveal_with_fuel(pow, 31);
    reveal_with_fuel(scaled, 31);
    lemma_twentieth_powers();
    lemma_pow400(23, 1716155831334586342923895201);
    lemma_pow400(9, 12157665459056928801);
    lemma_shift(pow(9, 400), 163, 8, 3, 1000);
    lemma_shift(pow(9, 400), 162, 8, 2, 100);
    assert(pow(23, 400) <= pow(9, 400) * pow(10, 163));
    assert(pow(23, 400) > pow(9, 400) * pow(10, 162));
}

/// The expected score first reaches 24/32 at an advantage of 191.
#[verifier::rlimit(60)]
proof fn lemma_edge_24()
    ensures
        is_step_edge(24, 191),
{
    reveal_with_fuel(pow, 31);
    reveal_with_fuel(scaled, 31);
    lemma_twentieth_powers();
    lemma_pow400(24, 4019988717840603673710821376);
    lemma_pow400(8, 1152921504606846976);
    lemma_shift(pow(8, 400), 191, 9, 11, 100000000000);
    lemma_shift(pow(8, 400), 190, 9, 10, 10000000000);
    assert(pow(24, 400) <= pow(8, 400) * pow(10, 191));
    assert(pow(24, 400) > pow(8, 400) * pow(10, 190));
}

/// The expected score first reaches 25/32 at an advantage of 222.
#[verifier::rlimit(60)]
proof fn lemma_edge_25()
    ensures
        is_step_edge(25, 222),
{
    reveal_with_fuel(pow, 31);
    reveal_with_fuel(scaled, 31);
    lemma_twentieth_powers();
    lemma_pow400(25, 9094947017729282379150390625);
    lemma_pow400(7, 79792266297612001);
    lemma_shift(pow(7, 400), 222, 11, 2, 100);
    lemma_shift(pow(7, 400), 221, 11, 1, 10);
    assert(pow(25, 400) <= pow(7, 400) * pow(10, 222));
    assert(pow(25, 400) > pow(7, 400) * pow(10, 221));
}

/// The expected score first reaches 26/32 at an advantage of 255.
#[verifier::rlimit(60)]
proof fn lemma_edge_26()
    ensures
        is_step_edge(26, 255),
{
    reveal_with_fuel(pow, 31);
    reveal_with_fuel(scaled, 31);
    lemma_twentieth_powers();
    lemma_pow400(26, 19928148895209409152340197376);
    lemma_pow400(6, 3656158440062976);
    lemma_shift(pow(6, 400), 255, 12, 15, 1000000000000000);
    lemma_shift(pow(6, 400), 254, 12, 14, 100000000000000);
    assert(pow(26, 400) <= pow(6, 400) * pow(10, 255));
    assert(pow(26, 400) > pow(6, 400) * pow(10, 254));
}

/// The expected score first reaches 27/32 at an advantage of 293.
#[verifier::rlimit(60)]
proof fn lemma_edge_27()
    ensures
        is_step_edge(27, 293),
{
    reveal_with_fuel(pow, 31);
    reveal_with_fuel(scaled, 31);
    lemma_twentieth_powers();
    lemma_pow400(27, 42391158275216203514294433201);
    lemma_pow400(5, 95367431640625);
    lemma_shift(pow(5, 400), 293, 14, 13, 10000000000000);
    lemma_shift(pow(5, 400), 292, 14, 12, 1000000000000);
    assert(pow(27, 400) <= pow(5, 400) * pow(10, 293));
    assert(pow(27, 400) > pow(5, 400) * pow(10, 292));
}

/// The expected score first reaches 28/32 at an advantage of 339.
#[verifier::rlimit(60)]
proof fn lemma_edge_28()
    ensures
        is_step_edge(28, 339),
{
    reveal_with_fuel(pow, 31);
    reveal_with_fuel(scaled, 31);
    lemma_twentieth_powers();
    lemma_pow400(28, 87732524600823436081182539776);
    lemma_pow400(4, 1099511627776);
    lemma_shift(pow(4, 400), 339, 16, 19, 10000000000000000000);
    lemma_shift(pow(4, 400), 338, 16, 18, 1000000000000000000);
    assert(pow(28, 400) <= pow(4, 400) * pow(10, 339));
    assert(pow(28, 400) > pow(4, 400) * pow(10, 338));
}

/// The expected score first reaches 29/32 at an advantage of 395.
#[verifier::rlimit(60)]
proof fn lemma_edge_29()
    ensures
        is_step_edge(29, 395),
{
    reveal_with_fuel(pow, 31);
    reveal_with_fuel(scaled, 31);
    lemma_twentieth_powers();
    lemma_pow400(29, 176994576151109753197786640401);
    lemma_pow400(3, 3486784401);
    lemma_shift(pow(3, 400), 395, 19, 15, 1000000000000000);
    lemma_shift(pow(3, 400), 394, 19, 14, 100000000000000);
    assert(pow(29, 400) <= pow(3, 400) * pow(10, 395));
    assert(pow(29, 400) > pow(3, 400) * pow(10, 394));
}

/// The expected score first reaches 30/32 at an advantage of 471.
#[verifier::rlimit(60)]
proof fn lemma_edge_30()
    ensures
        is_step_edge(30, 471),
{
    reveal_with_fuel(pow, 31);
    reveal_with_fuel(scaled, 31);
    lemma_twentieth_powers();
    lemma_pow400(30, 348678440100000000000000000000);
    lemma_pow400(2, 1048576);
    lemma_shift(pow(2, 400), 471, 23, 11, 100000000000);
    lemma_shift(pow(2, 400), 470, 23, 10, 10000000000);
    assert(pow(30, 400) <= pow(2, 400) * pow(10, 471));
    assert(pow(30, 400) > pow(2, 400) * pow(10, 470));
}

/// The expected score first reaches 31/32 at an advantage of 597.
#[verifier::rlimit(60)]
proof fn lemma_edge_31()
    ensures
        is_step_edge(31, 597),
{
    reveal_with_fuel(pow, 31);
    reveal_with_fuel(scaled, 31);
    lemma_twentieth_powers();
    lemma_pow400(31, 671790528819082282036142601601);
    lemma_pow400(1, 1);
    lemma_shift(pow(1, 400), 597, 29, 17, 100000000000000000);
    lemma_shift(pow(1, 400), 596, 29, 16, 10000000000000000);
    assert(pow(31, 400) <= pow(1, 400) * pow(10, 597));
    assert(pow(31, 400) > pow(1, 400) * pow(10, 596));
}

/// The rating advantage at which the expected score first reaches `j / 32`.
pub(crate) fn step_edge(j: u8) -> (t: i64)
    requires
        1 <= j < 32,
    ensures
        is_step_edge(j as int, t as int),
{
    match j {
        1 => {
            proof {
                lemma_edge_01();
            }
            -596
        },
        2 => {
            proof {
                lemma_edge_02();
            }
            -470
        },
        3 => {
            proof {
                lemma_edge_03();
            }
            -394
        },
        4 => {
            proof {
                lemma_edge_04();
            }
            -338
        },
        5 => {
            proof {
                lemma_edge_05();
            }
            -292
        },
        6 => {
            proof {
                lemma_edge_06();
            }
            -254
        },
        7 => {
            proof {
                lemma_edge_07();
            }
            -221
        },
        8 => {
            proof {
                lemma_edge_08();
            }
            -190
        },
        9 => {
            proof {
                lemma_edge_09();
            }
            -162
        },
        10 => {
            proof {
                lemma_edge_10();
            }
            -136
        },
        11 => {
            proof {
                lemma_edge_11();
            }
            -112
        },
        12 => {
            proof {
                lemma_edge_12();
            }
            -88
        },
        13 => {
            proof {
                lemma_edge_13();
            }
            -65
        },
        14 => {
            proof {
                lemma_edge_14();
            }
            -43
        },
        15 => {
            proof {
                lemma_edge_15();
            }
            -21
        },
        16 => {
            proof {
                lemma_edge_16();
            }
            0
        },
        17 => {
            proof {
                lemma_edge_17();
            }
            22
        },
        18 => {
            proof {
                lemma_edge_18();
            }
            44
        },
        19 => {
            proof {
                lemma_edge_19();
            }
            66
        },
        20 => {
            proof {
                lemma_edge_20();
            }
            89
        },
        21 => {
            proof {
                lemma_edge_21();
            }
            113
        },
        22 => {
            proof {
                lemma_edge_22();
            }
            137
        },
        23 => {
            proof {
                lemma_edge_23();
            }
            163
        },
        24 => {
            proof {
                lemma_edge_24();
            }
            191
        },
        25 => {
            proof {
                lemma_edge_25();
            }
            222
        },
        26 => {
            proof {
                lemma_edge_26();
            }
            255
        },
        27 => {
            proof {
                lemma_edge_27();
            }
            293
        },
        28 => {
            proof {
                lemma_edge_28();
            }
            339
        },
        29 => {
            proof {
                lemma_edge_29();
            }
            395
        },
        30 => {
            proof {
                lemma_edge_30();
            }
            471
        },
        31 => {
            proof {
                lemma_edge_31();
            }
            597
        },
        _ => {
            assert(false);
            0
        },
    }
}

} // verus!
