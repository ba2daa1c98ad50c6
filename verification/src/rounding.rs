//! The whole part of the double nearest to a decimal number, worked out in
//! whole numbers: what reading a number into an `f64` and truncating it to
//! an unsigned integer gives.
use crate::text::{all_digits, capped, digits_value, lemma_digits_value_push, zeros};
use vstd::prelude::*;

verus! {

/// `2` to the power `n`.
pub open spec fn pow2(n: nat) -> nat
    decreases n,
{
    if n == 0 {
        1
    } else {
        2 * pow2((n - 1) as nat)
    }
}

/// `10` to the power `n`.
pub open spec fn pow10(n: nat) -> nat
    decreases n,
{
    if n == 0 {
        1
    } else {
        10 * pow10((n - 1) as nat)
    }
}

/// The number of binary digits of `n` (0 for 0).
pub open spec fn bit_len(n: nat) -> nat
    decreases n,
{
    if n == 0 {
        0
    } else {
        1 + bit_len(n / 2)
    }
}

/// Where the fraction `0.F`, of decimal digits `f`, lies against
/// `c / 2^m`: -1 below it, 0 at it, 1 above it.
pub open spec fn fraction_sign(f: Seq<char>, c: nat, m: nat) -> int {
    let a = digits_value(f) * pow2(m);
    let b = c * pow10(f.len());
    if a < b {
        -1
    } else if a == b {
        0
    } else {
        1
    }
}

/// The whole part of the double nearest to `w + 0.F` (`f` its decimal
/// digits after the point), ties going to the even significand. A double
/// holds 53 significant binary digits, so near `w`, of `b` binary digits,
/// doubles lie `2^(b - 53)` apart:
/// - below `2^52` that spacing is at most a half, and the whole part is
///   `w`, or `w + 1` when the value lies within half a spacing, `2^(b - 54)`,
///   of `w + 1` (a tie goes up, `w + 1` having the even significand); below
///   1, the spacing of `[1/2, 1)` decides alike;
/// - from `2^52` on, the spacing `2^k` (`k = b - 53`) is whole: `w + 0.F` goes
///   to the nearest multiple of it, `q` or `q + 1` times it, `q` being the
///   quotient and `r` the remainder of `w` by it, ties to an even multiple.
pub open spec fn double_whole(w: nat, f: Seq<char>) -> nat {
    let b = bit_len(w);
    if b <= 52 {
        let m = (54 - b) as nat;
        if fraction_sign(f, (pow2(m) - 1) as nat, m) >= 0 {
            w + 1
        } else {
            w
        }
    } else {
        let k = (b - 53) as nat;
        let q = w / pow2(k);
        let r = w % pow2(k);
        let up = if k == 0 {
            fraction_sign(f, 1, 1) > 0 || (fraction_sign(f, 1, 1) == 0 && q % 2 == 1)
        } else {
            r > pow2((k - 1) as nat) || (r == pow2((k - 1) as nat) && (digits_value(f) > 0 || q % 2 == 1))
        };
        if up {
            (q + 1) * pow2(k)
        } else {
            q * pow2(k)
        }
    }
}

/// Powers of two and of ten are positive.
proof fn lemma_pow_pos(n: nat)
    ensures
        pow2(n) >= 1,
        pow10(n) >= 1,
    decreases n,
{
    if n > 0 {
        lemma_pow_pos((n - 1) as nat);
    }
}

/// `10^(a + b) = 10^a * 10^b`.
proof fn lemma_pow10_add(a: nat, b: nat)
    ensures
        pow10(a + b) == pow10(a) * pow10(b),
    decreases b,
{
    if b > 0 {
        let b1 = (b - 1) as nat;
        lemma_pow10_add(a, b1);
        assert(pow10(a + b) == 10 * pow10(a + b1));
        assert(pow10(b) == 10 * pow10(b1));
        let x = pow10(a);
        let y = pow10(b1);
        assert(10 * (x * y) == x * (10 * y)) by (nonlinear_arith);
        assert(pow10(a + b) == x * pow10(b));
    } else {
        assert(pow10(0) == 1);
        assert(a + b == a);
        assert(pow10(a) * 1 == pow10(a));
    }
}

/// `2^(a + b) = 2^a * 2^b`.
proof fn lemma_pow2_add(a: nat, b: nat)
    ensures
        pow2(a + b) == pow2(a) * pow2(b),
    decreases b,
{
    if b > 0 {
        let b1 = (b - 1) as nat;
        lemma_pow2_add(a, b1);
        assert(pow2(a + b) == 2 * pow2(a + b1));
        assert(pow2(b) == 2 * pow2(b1));
        let x = pow2(a);
        let y = pow2(b1);
        assert(2 * (x * y) == x * (2 * y)) by (nonlinear_arith);
        assert(pow2(a + b) == x * pow2(b));
    } else {
        assert(pow2(0) == 1);
        assert(a + b == a);
        assert(pow2(a) * 1 == pow2(a));
    }
}

/// Powers of two grow with the exponent.
proof fn lemma_pow2_monotone(a: nat, b: nat)
    requires
        a <= b,
    ensures
        pow2(a) <= pow2(b),
    decreases b,
{
    if a < b {
        lemma_pow2_monotone(a, (b - 1) as nat);
        lemma_pow_pos((b - 1) as nat);
    }
}

/// `2^n <= 10^n`.
proof fn lemma_pow2_le_pow10(n: nat)
    ensures
        pow2(n) <= pow10(n),
    decreases n,
{
    if n > 0 {
        lemma_pow2_le_pow10((n - 1) as nat);
    }
}

/// A number of `bit_len(n)` binary digits lies between the powers of two
/// around it.
proof fn lemma_bit_len_bounds(n: nat)
    requires
        n >= 1,
    ensures
        bit_len(n) >= 1,
        pow2((bit_len(n) - 1) as nat) <= n < pow2(bit_len(n)),
    decreases n,
{
    if n == 1 {
        assert(bit_len(0) == 0);
        assert(bit_len(1) == 1 + bit_len(0));
    } else {
        lemma_bit_len_bounds(n / 2);
        assert(bit_len(n) == 1 + bit_len(n / 2));
    }
}

/// A number below `2^k` has at most `k` binary digits.
proof fn lemma_bit_len_at_most(n: nat, k: nat)
    requires
        n < pow2(k),
    ensures
        bit_len(n) <= k,
    decreases k,
{
    if n > 0 {
        if k == 0 {
            assert(false);
        } else {
            lemma_bit_len_at_most(n / 2, (k - 1) as nat);
        }
    }
}

/// The value of digits written after others: `dv(a + b) = dv(a) * 10^|b| + dv(b)`.
proof fn lemma_digits_value_concat(a: Seq<char>, b: Seq<char>)
    ensures
        digits_value(a + b) == digits_value(a) * pow10(b.len()) + digits_value(b),
    decreases b.len(),
{
    if b.len() == 0 {
        assert(a + b =~= a);
        assert(digits_value(b) == 0);
        assert(pow10(0) == 1);
        assert(digits_value(a) * 1 == digits_value(a));
    } else {
        let b1 = b.drop_last();
        let ch = b.last();
        assert(a + b =~= (a + b1).push(ch));
        assert(b1.push(ch) =~= b);
        lemma_digits_value_push(a + b1, ch);
        lemma_digits_value_push(b1, ch);
        lemma_digits_value_concat(a, b1);
        let x = digits_value(a);
        let p = pow10(b1.len());
        let y = digits_value(b1);
        let d = ((ch as u32) - ('0' as u32)) as nat;
        assert(pow10(b.len()) == 10 * p);
        assert((x * p + y) * 10 + d == x * (10 * p) + (y * 10 + d)) by (nonlinear_arith);
        assert(digits_value(a + b) == (x * p + y) * 10 + d);
        assert(digits_value(b) == y * 10 + d);
    }
}

/// Digits spell a number below `10^len`.
proof fn lemma_digits_value_bound(t: Seq<char>)
    requires
        all_digits(t),
    ensures
        digits_value(t) < pow10(t.len()),
    decreases t.len(),
{
    if t.len() > 0 {
        let t1 = t.drop_last();
        assert(all_digits(t1)) by {
            assert forall|i: int| 0 <= i < t1.len() implies '0' <= #[trigger] t1[i] <= '9' by {
                assert(t1[i] == t[i]);
            }
        }
        lemma_digits_value_bound(t1);
        assert('0' <= t[t.len() - 1] <= '9');
        assert(t1.push(t.last()) =~= t);
        lemma_digits_value_push(t1, t.last());
    }
}

/// Leading zeros add nothing to the value.
proof fn lemma_digits_value_zeros_prefix(z: nat, t: Seq<char>)
    ensures
        digits_value(zeros(z) + t) == digits_value(t),
    decreases z,
{
    lemma_digits_value_concat(zeros(z), t);
    lemma_zeros_value_zero(z);
}

/// Zeros spell 0.
proof fn lemma_zeros_value_zero(z: nat)
    ensures
        digits_value(zeros(z)) == 0,
    decreases z,
{
    if z > 0 {
        lemma_zeros_value_zero((z - 1) as nat);
        assert(zeros((z - 1) as nat).push('0') =~= zeros(z));
        lemma_digits_value_push(zeros((z - 1) as nat), '0');
    }
}

/// Leading zeros and digits are digits.
proof fn lemma_all_digits_zeros_prefix(z: nat, t: Seq<char>)
    requires
        all_digits(t),
    ensures
        all_digits(zeros(z) + t),
{
    assert forall|i: int| 0 <= i < (zeros(z) + t).len() implies '0' <= #[trigger] (zeros(z) + t)[i] <= '9' by {
        if i >= z {
            assert((zeros(z) + t)[i] == t[i - z]);
        }
    }
}

/// The first `j` digits of `f` decide where `0.F` lies against `c / u`
/// (`u` a power of two) once they do so by a whole step.
proof fn lemma_prefix_decides(f: Seq<char>, j: nat, c: nat, u: nat)
    requires
        all_digits(f),
        j <= f.len(),
        u >= 1,
    ensures
        digits_value(f.take(j as int)) * u > c * pow10(j) ==> digits_value(f) * u > c * pow10(f.len()),
        digits_value(f.take(j as int)) * u + u <= c * pow10(j) ==> digits_value(f) * u < c * pow10(f.len()),
{
    let p = f.take(j as int);
    let t = f.skip(j as int);
    assert(p + t =~= f);
    lemma_digits_value_concat(p, t);
    assert(all_digits(t)) by {
        assert forall|i: int| 0 <= i < t.len() implies '0' <= #[trigger] t[i] <= '9' by {
            assert(t[i] == f[i + j]);
        }
    }
    lemma_digits_value_bound(t);
    lemma_pow10_add(j, t.len());
    lemma_pow_pos(t.len());
    let a = digits_value(p);
    let r = pow10(t.len());
    let dt = digits_value(t);
    let pj = pow10(j);
    assert(a * u > c * pj ==> (a * r + dt) * u > c * (pj * r)) by (nonlinear_arith)
        requires
            r >= 1,
            dt >= 0,
            u >= 1,
    ;
    assert(a * u + u <= c * pj ==> (a * r + dt) * u < c * (pj * r)) by (nonlinear_arith)
        requires
            r >= 1,
            0 <= dt < r,
            u >= 1,
    ;
}

/// With at least `m` leading zeros, the fraction lies below any positive
/// `c / 2^m`.
proof fn lemma_many_zeros_below(z: nat, t: Seq<char>, c: nat, m: nat)
    requires
        all_digits(t),
        c >= 1,
        m <= z,
    ensures
        fraction_sign(zeros(z) + t, c, m) == -1,
{
    let f = zeros(z) + t;
    lemma_digits_value_zeros_prefix(z, t);
    lemma_digits_value_bound(t);
    lemma_pow2_monotone(m, z);
    lemma_pow2_le_pow10(z);
    lemma_pow10_add(t.len(), z);
    assert(f.len() == t.len() + z);
    lemma_pow_pos(m);
    let dt = digits_value(t);
    let pt = pow10(t.len());
    let pm = pow2(m);
    let pz = pow10(z);
    assert(dt * pm < c * (pt * pz)) by (nonlinear_arith)
        requires
            dt < pt,
            1 <= pm <= pz,
            c >= 1,
    ;
}

/// The powers of two that the rounding meets.
pub proof fn lemma_pow2_values()
    ensures
        pow2(1) == 2,
        pow2(10) == 1024,
        pow2(11) == 2048,
        pow2(52) == 0x10_0000_0000_0000,
        pow2(53) == 0x20_0000_0000_0000,
        pow2(54) == 0x40_0000_0000_0000,
        pow2(63) == 0x8000_0000_0000_0000,
        pow2(64) == 0x1_0000_0000_0000_0000,
{
    reveal_with_fuel(pow2, 12);
    assert(pow2(11) == 2048);
    assert(pow2(8) == 256);
    lemma_pow2_add(11, 11);
    assert(pow2(22) == 4194304);
    lemma_pow2_add(22, 22);
    assert(pow2(44) == 17592186044416);
    lemma_pow2_add(44, 8);
    assert(pow2(52) == 0x10_0000_0000_0000);
    lemma_pow2_add(52, 1);
    lemma_pow2_add(52, 2);
    lemma_pow2_add(11, 1);
    assert(pow2(12) == 4096);
    lemma_pow2_add(52, 11);
    lemma_pow2_add(52, 12);
    assert(pow2(63) == 0x10_0000_0000_0000 * 2048);
    assert(pow2(64) == 0x10_0000_0000_0000 * 4096);
}

/// From `2^64 - 1` on, the nearest double is at least `2^64 - 1`.
pub proof fn lemma_double_whole_large(w: nat, f: Seq<char>)
    requires
        w >= u64::MAX,
    ensures
        double_whole(w, f) >= u64::MAX,
{
    lemma_pow2_values();
    lemma_bit_len_bounds(w);
    let b = bit_len(w);
    if b <= 63 {
        lemma_pow2_monotone(b, 63);
        assert(false);
    }
    let k = (b - 53) as nat;
    let pk = pow2(k);
    lemma_pow_pos(k);
    lemma_pow2_add(52, k);
    let q = w / pk;
    let r = w % pk;
    assert(q * pk <= w < (q + 1) * pk && r == w - q * pk) by (nonlinear_arith)
        requires
            pk >= 1,
            q == w / pk,
            r == w % pk,
    ;
    if b == 64 {
        assert(w < pow2(64));
        assert(w == u64::MAX);
        assert(k == 11);
        assert(q == 9007199254740991);
        assert(r == 2047);
    } else {
        lemma_pow2_monotone(64, (b - 1) as nat);
        assert(q >= pow2(52)) by (nonlinear_arith)
            requires
                w >= pow2(52) * pk,
                w < (q + 1) * pk,
                pk >= 1,
        ;
        assert(q * pk >= pow2(52) * pk) by (nonlinear_arith)
            requires
                q >= pow2(52),
                pk >= 1,
        ;
        assert((q + 1) * pk >= q * pk) by (nonlinear_arith)
            requires
                pk >= 1,
        ;
    }
}

/// `2^m`, for `m` below 64.
fn pow2_u64(m: u64) -> (r: u64)
    requires
        m < 64,
    ensures
        r == pow2(m as nat),
{
    let mut r: u64 = 1;
    let mut i: u64 = 0;
    proof {
        lemma_pow2_values();
    }
    while i < m
        invariant
            i <= m < 64,
            r == pow2(i as nat),
            pow2(63) == 0x8000_0000_0000_0000,
        decreases m - i,
    {
        proof {
            lemma_pow2_monotone((i + 1) as nat, 63);
            assert(pow2((i + 1) as nat) == 2 * pow2(i as nat));
        }
        r = r * 2;
        i = i + 1;
    }
    r
}

/// The number of binary digits of `w`.
fn bit_len_u64(w: u64) -> (b: u64)
    ensures
        b == bit_len(w as nat),
        b <= 64,
{
    proof {
        lemma_pow2_values();
        lemma_bit_len_at_most(w as nat, 64);
    }
    let mut x = w;
    let mut b: u64 = 0;
    while x > 0
        invariant
            b + bit_len(x as nat) == bit_len(w as nat),
            bit_len(w as nat) <= 64,
        decreases x,
    {
        assert(bit_len(x as nat) == 1 + bit_len((x / 2) as nat));
        x = x / 2;
        b = b + 1;
    }
    b
}

/// Where the fraction of decimal digits `fr` lies against `c / 2^m`
/// (`unit` being `2^m`): its digits are compared with those of `c / 2^m`,
/// worked out one by one.
fn fraction_sign_in(fr: &Vec<char>, c: u64, m: u64, unit: u64) -> (s: i8)
    requires
        all_digits(fr@),
        m <= 54,
        unit == pow2(m as nat),
        c < unit,
    ensures
        s == fraction_sign(fr@, c as nat, m as nat),
{
    let n = fr.len();
    let mut x: u64 = c;
    let mut j: usize = 0;
    proof {
        lemma_pow2_values();
        lemma_pow2_monotone(m as nat, 54);
        assert(fr@.take(0) =~= Seq::<char>::empty());
        assert(digits_value(Seq::<char>::empty()) == 0);
        assert(pow10(0) == 1);
    }
    while j < n
        invariant
            n == fr@.len(),
            j <= n,
            all_digits(fr@),
            x < unit,
            unit == pow2(m as nat),
            unit <= 0x40_0000_0000_0000,
            c as nat * pow10(j as nat) == digits_value(fr@.take(j as int)) * unit + x,
        decreases n - j,
    {
        let t = x * 10;
        let cd = t / unit;
        let nx = t % unit;
        let ch = fr[j];
        assert('0' <= fr@[j as int] <= '9');
        let fd = (ch as u32 - '0' as u32) as u64;
        let ghost d0 = digits_value(fr@.take(j as int));
        let ghost d1 = digits_value(fr@.take(j + 1));
        let ghost p0 = pow10(j as nat);
        let ghost p1 = pow10((j + 1) as nat);
        proof {
            assert(fr@.take(j as int).push(ch) =~= fr@.take(j + 1));
            lemma_digits_value_push(fr@.take(j as int), ch);
            assert(d1 == d0 * 10 + fd);
            assert(p1 == 10 * p0);
            vstd::arithmetic::div_mod::lemma_fundamental_div_mod(t as int, unit as int);
            assert(t == cd * unit + nx);
            lemma_prefix_decides(fr@, (j + 1) as nat, c as nat, unit as nat);
            lemma_pow_pos(j as nat);
        }
        if fd > cd {
            proof {
                let u = unit as nat;
                assert(d1 * u > c * p1) by (nonlinear_arith)
                    requires
                        c * p0 == d0 * u + x,
                        t == x * 10,
                        t == cd * u + nx,
                        nx < u,
                        fd >= cd + 1,
                        d1 == d0 * 10 + fd,
                        p1 == 10 * p0,
                ;
            }
            return 1;
        }
        if fd < cd {
            proof {
                let u = unit as nat;
                assert(d1 * u + u <= c * p1) by (nonlinear_arith)
                    requires
                        c * p0 == d0 * u + x,
                        t == x * 10,
                        t == cd * u + nx,
                        nx >= 0,
                        fd + 1 <= cd,
                        d1 == d0 * 10 + fd,
                        p1 == 10 * p0,
                ;
            }
            return -1;
        }
        proof {
            let u = unit as nat;
            assert(c * p1 == d1 * u + nx) by (nonlinear_arith)
                requires
                    c * p0 == d0 * u + x,
                    t == x * 10,
                    t == cd * u + nx,
                    fd == cd,
                    d1 == d0 * 10 + fd,
                    p1 == 10 * p0,
            ;
        }
        x = nx;
        j = j + 1;
    }
    assert(fr@.take(n as int) =~= fr@);
    if x == 0 {
        0
    } else {
        -1
    }
}

/// Where the fraction of `zg` leading zeros followed by the digits `tail`
/// lies against `c / 2^m`: `z` holds `zg` when `many` does not, `many`
/// telling that there are 64 zeros or more.
fn fraction_sign_of(tail: &Vec<char>, z: u64, many: bool, Ghost(zg): Ghost<nat>, c: u64, m: u64, unit: u64) -> (s: i8)
    requires
        all_digits(tail@),
        m <= 54,
        unit == pow2(m as nat),
        c < unit,
        many ==> zg >= 64,
        !many ==> zg == z && z < 64,
    ensures
        s == fraction_sign(zeros(zg) + tail@, c as nat, m as nat),
{
    if c == 0 {
        proof {
            lemma_digits_value_zeros_prefix(zg, tail@);
        }
        return fraction_sign_in(tail, 0, m, unit);
    }
    if many {
        proof {
            lemma_many_zeros_below(zg, tail@, c as nat, m as nat);
        }
        return -1;
    }
    let mut fr: Vec<char> = Vec::new();
    let mut i: u64 = 0;
    proof {
        assert(fr@ =~= zeros(0));
    }
    while i < z
        invariant
            i <= z,
            fr@ == zeros(i as nat),
        decreases z - i,
    {
        fr.push('0');
        i = i + 1;
        assert(fr@ =~= zeros(i as nat));
    }
    let mut k: usize = 0;
    proof {
        assert(fr@ + tail@.take(0) =~= fr@);
    }
    while k < tail.len()
        invariant
            k <= tail@.len(),
            fr@ == zeros(z as nat) + tail@.take(k as int),
        decreases tail@.len() - k,
    {
        fr.push(tail[k]);
        k = k + 1;
        assert(fr@ =~= zeros(z as nat) + tail@.take(k as int));
    }
    assert(tail@.take(tail@.len() as int) =~= tail@);
    proof {
        lemma_all_digits_zeros_prefix(z as nat, tail@);
    }
    fraction_sign_in(&fr, c, m, unit)
}

/// The whole part, capped at `u64::MAX`, of the double nearest to `w`
/// plus the fraction of `zg` leading zeros and the digits `tail` (`z` and
/// `many` telling `zg` as `fraction_sign_of` takes it).
pub fn double_whole_u64(w: u64, tail: &Vec<char>, z: u64, many: bool, Ghost(zg): Ghost<nat>) -> (r: u64)
    requires
        w < u64::MAX,
        all_digits(tail@),
        many ==> zg >= 64,
        !many ==> zg == z && z < 64,
    ensures
        r == capped(double_whole(w as nat, zeros(zg) + tail@)),
{
    let ghost f = zeros(zg) + tail@;
    proof {
        lemma_pow2_values();
    }
    let b = bit_len_u64(w);
    if b <= 52 {
        let m = 54 - b;
        let unit = pow2_u64(m);
        proof {
            lemma_pow_pos(m as nat);
        }
        let s = fraction_sign_of(tail, z, many, Ghost(zg), unit - 1, m, unit);
        if s >= 0 {
            w + 1
        } else {
            w
        }
    } else {
        let k = b - 53;
        let pk = pow2_u64(k);
        proof {
            lemma_pow2_monotone(k as nat, 11);
            lemma_pow_pos(k as nat);
        }
        let q = w / pk;
        let r = w % pk;
        let up = if k == 0 {
            let s = fraction_sign_of(tail, z, many, Ghost(zg), 1, 1, 2);
            s > 0 || (s == 0 && q % 2 == 1)
        } else {
            let h = pow2_u64(k - 1);
            if r > h {
                true
            } else if r == h {
                let s = fraction_sign_of(tail, z, many, Ghost(zg), 0, 0, 1);
                proof {
                    assert(pow2(0) == 1);
                    assert(digits_value(f) * 1 == digits_value(f));
                    assert(0 * pow10(f.len()) == 0);
                }
                s > 0 || q % 2 == 1
            } else {
                false
            }
        };
        assert((q as u128 + 1) * (pk as u128) <= 0x1_0000_0000_0000_0000 * 2048) by (nonlinear_arith)
            requires
                q <= u64::MAX,
                pk <= 2048,
        ;
        assert((q as u128) * (pk as u128) <= 0x1_0000_0000_0000_0000 * 2048) by (nonlinear_arith)
            requires
                q <= u64::MAX,
                pk <= 2048,
        ;
        let res: u128 = if up {
            (q as u128 + 1) * (pk as u128)
        } else {
            (q as u128) * (pk as u128)
        };
        if res > u64::MAX as u128 {
            u64::MAX
        } else {
            res as u64
        }
    }
}

} // verus!
