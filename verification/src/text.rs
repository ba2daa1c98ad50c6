//! Text helpers shared by the rest of the library: decimal rendering of
//! integers and string building.
use crate::rounding::{double_whole, double_whole_u64, lemma_double_whole_large};
use vstd::prelude::*;
use vstd::string::*;

verus! {

/// The character of a decimal digit.
pub open spec fn digit_char(d: nat) -> char {
    if d == 0 { '0' }
    else if d == 1 { '1' }
    else if d == 2 { '2' }
    else if d == 3 { '3' }
    else if d == 4 { '4' }
    else if d == 5 { '5' }
    else if d == 6 { '6' }
    else if d == 7 { '7' }
    else if d == 8 { '8' }
    else { '9' }
}

/// The decimal rendering of `n`, without leading zeros.
pub open spec fn decimal(n: nat) -> Seq<char>
    decreases n,
{
    if n < 10 {
        seq![digit_char(n)]
    } else {
        decimal(n / 10) + seq![digit_char(n % 10)]
    }
}

fn digit_str(d: u64) -> (s: &'static str)
    requires
        d < 10,
    ensures
        s@ == seq![digit_char(d as nat)],
{
    proof {
        reveal_strlit("0");
        reveal_strlit("1");
        reveal_strlit("2");
        reveal_strlit("3");
        reveal_strlit("4");
        reveal_strlit("5");
        reveal_strlit("6");
        reveal_strlit("7");
        reveal_strlit("8");
        reveal_strlit("9");
    }
    if d == 0 { "0" }
    else if d == 1 { "1" }
    else if d == 2 { "2" }
    else if d == 3 { "3" }
    else if d == 4 { "4" }
    else if d == 5 { "5" }
    else if d == 6 { "6" }
    else if d == 7 { "7" }
    else if d == 8 { "8" }
    else { "9" }
}

/// Appends the decimal rendering of `n` to `out`.
pub fn push_decimal(out: &mut String, n: u64)
    ensures
        final(out)@ == old(out)@ + decimal(n as nat),
    decreases n,
{
    if n < 10 {
        out.append(digit_str(n));
    } else {
        push_decimal(out, n / 10);
        out.append(digit_str(n % 10));
    }
}



/// The characters of `s`, in order.
pub fn chars_of(s: &str) -> (v: Vec<char>)
    ensures
        v@ == s@,
{
    let mut v: Vec<char> = Vec::new();
    for c in it: s.chars()
        invariant
            v@ == it.seq().take(it.index() as int),
            it.seq() == s@,
    {
        v.push(c);
    }
    v
}



/// Whether `c` has the Unicode White_Space property.
pub open spec fn is_ws(c: char) -> bool {
    let u = c as u32;
    (0x09 <= u && u <= 0x0D) || u == 0x20 || u == 0x85 || u == 0xA0 || u == 0x1680
        || (0x2000 <= u && u <= 0x200A) || u == 0x2028 || u == 0x2029 || u == 0x202F
        || u == 0x205F || u == 0x3000
}

/// `s` without its leading white space.
pub open spec fn trim_start(s: Seq<char>) -> Seq<char>
    decreases s.len(),
{
    if s.len() > 0 && is_ws(s[0]) {
        trim_start(s.drop_first())
    } else {
        s
    }
}

/// `s` without its trailing white space.
pub open spec fn trim_end(s: Seq<char>) -> Seq<char>
    decreases s.len(),
{
    if s.len() > 0 && is_ws(s.last()) {
        trim_end(s.drop_last())
    } else {
        s
    }
}

/// `s` without leading and trailing white space.
pub open spec fn trim(s: Seq<char>) -> Seq<char> {
    trim_end(trim_start(s))
}

/// The number of bytes that `c` takes in UTF-8.
pub open spec fn utf8_len(c: char) -> nat {
    let u = c as u32;
    if u < 0x80 { 1 } else if u < 0x800 { 2 } else if u < 0x10000 { 3 } else { 4 }
}

/// The number of bytes that `s` takes in UTF-8.
pub open spec fn byte_len(s: Seq<char>) -> nat
    decreases s.len(),
{
    if s.len() == 0 {
        0
    } else {
        byte_len(s.drop_last()) + utf8_len(s.last())
    }
}

/// The position of the first `c` in `s`, if any.
pub open spec fn find_char(s: Seq<char>, c: char) -> Option<int>
    decreases s.len(),
{
    if s.len() == 0 {
        None
    } else if s[0] == c {
        Some(0)
    } else {
        match find_char(s.drop_first(), c) {
            Some(i) => Some(i + 1),
            None => None,
        }
    }
}

/// Whether every character of `s` is an ASCII digit.
pub open spec fn all_digits(s: Seq<char>) -> bool {
    forall|i: int| 0 <= i < s.len() ==> '0' <= #[trigger] s[i] <= '9'
}

/// The number that the ASCII digits `s` spell, most significant first.
pub open spec fn digits_value(s: Seq<char>) -> nat
    decreases s.len(),
{
    if s.len() == 0 {
        0
    } else {
        digits_value(s.drop_last()) * 10 + ((s.last() as u32) - ('0' as u32)) as nat
    }
}

/// What reading `s` as an unsigned 64-bit number gives: an optional `+`, then
/// at least one digit, and a value that fits.
pub open spec fn parse_u64_spec(s: Seq<char>) -> Option<nat> {
    let body = if s.len() > 0 && s[0] == '+' { s.drop_first() } else { s };
    if body.len() > 0 && all_digits(body) && digits_value(body) <= u64::MAX {
        Some(digits_value(body))
    } else {
        None
    }
}

/// Trimming the start of `s` drops exactly its first `j` characters when
/// they are white space and the next one is not.
pub proof fn lemma_trim_start_skip(s: Seq<char>, j: int)
    requires
        0 <= j <= s.len(),
        forall|k: int| 0 <= k < j ==> is_ws(#[trigger] s[k]),
        j == s.len() || !is_ws(s[j]),
    ensures
        trim_start(s) == s.skip(j),
    decreases j,
{
    if j == 0 {
        assert(s.skip(0) =~= s);
    } else {
        let t = s.drop_first();
        assert forall|k: int| 0 <= k < j - 1 implies is_ws(#[trigger] t[k]) by {
            assert(t[k] == s[k + 1]);
        }
        if j - 1 < t.len() {
            assert(t[j - 1] == s[j]);
        }
        lemma_trim_start_skip(t, j - 1);
        assert(t.skip(j - 1) =~= s.skip(j));
    }
}

/// Trimming the end of `s` keeps exactly its first `j` characters when
/// the rest is white space and the last kept one is not.
pub proof fn lemma_trim_end_take(s: Seq<char>, j: int)
    requires
        0 <= j <= s.len(),
        forall|k: int| j <= k < s.len() ==> is_ws(#[trigger] s[k]),
        j == 0 || !is_ws(s[j - 1]),
    ensures
        trim_end(s) == s.take(j),
    decreases s.len() - j,
{
    if j == s.len() {
        assert(s.take(j) =~= s);
    } else {
        let t = s.drop_last();
        assert forall|k: int| j <= k < t.len() implies is_ws(#[trigger] t[k]) by {
            assert(t[k] == s[k]);
        }
        if j > 0 {
            assert(t[j - 1] == s[j - 1]);
        }
        lemma_trim_end_take(t, j);
        assert(t.take(j) =~= s.take(j));
    }
}

/// The UTF-8 length of a text grows by the length of each character added.
pub proof fn lemma_byte_len_push(s: Seq<char>, c: char)
    ensures
        byte_len(s.push(c)) == byte_len(s) + utf8_len(c),
{
    assert(s.push(c).drop_last() =~= s);
}

/// A digit added at the end of a numeral multiplies its value by ten and
/// adds the digit.
pub proof fn lemma_digits_value_push(s: Seq<char>, c: char)
    ensures
        digits_value(s.push(c)) == digits_value(s) * 10 + ((c as u32) - ('0' as u32)) as nat,
{
    assert(s.push(c).drop_last() =~= s);
}

/// A character absent from `s` is not found in it.
pub proof fn lemma_find_char_none(s: Seq<char>, c: char)
    requires
        forall|k: int| 0 <= k < s.len() ==> #[trigger] s[k] != c,
    ensures
        find_char(s, c) == None::<int>,
    decreases s.len(),
{
    if s.len() > 0 {
        let t = s.drop_first();
        assert forall|k: int| 0 <= k < t.len() implies #[trigger] t[k] != c by {
            assert(t[k] == s[k + 1]);
        }
        lemma_find_char_none(t, c);
    }
}

/// The first occurrence of a character is where it is found.
pub proof fn lemma_find_char_some(s: Seq<char>, c: char, j: int)
    requires
        0 <= j < s.len(),
        s[j] == c,
        forall|k: int| 0 <= k < j ==> #[trigger] s[k] != c,
    ensures
        find_char(s, c) == Some(j),
    decreases j,
{
    if j > 0 {
        let t = s.drop_first();
        assert forall|k: int| 0 <= k < j - 1 implies #[trigger] t[k] != c by {
            assert(t[k] == s[k + 1]);
        }
        lemma_find_char_some(t, c, j - 1);
    }
}

/// Whether `c` has the Unicode White_Space property.
pub fn char_is_whitespace(c: char) -> (b: bool)
    ensures
        b == is_ws(c),
{
    let u = c as u32;
    (0x09 <= u && u <= 0x0D) || u == 0x20 || u == 0x85 || u == 0xA0 || u == 0x1680
        || (0x2000 <= u && u <= 0x200A) || u == 0x2028 || u == 0x2029 || u == 0x202F
        || u == 0x205F || u == 0x3000
}

/// The number of bytes that `c` takes in UTF-8.
pub fn char_utf8_len(c: char) -> (n: usize)
    ensures
        n == utf8_len(c),
{
    let u = c as u32;
    if u < 0x80 { 1 } else if u < 0x800 { 2 } else if u < 0x10000 { 3 } else { 4 }
}

/// The bounds of `v[lo..hi]` once white space is trimmed from both ends.
pub fn trim_bounds(v: &Vec<char>, lo: usize, hi: usize) -> (r: (usize, usize))
    requires
        lo <= hi <= v@.len(),
    ensures
        lo <= r.0 <= r.1 <= hi,
        trim(v@.subrange(lo as int, hi as int)) == v@.subrange(r.0 as int, r.1 as int),
{
    let ghost s = v@.subrange(lo as int, hi as int);
    let mut a = lo;
    while a < hi && char_is_whitespace(v[a])
        invariant
            lo <= a <= hi <= v@.len(),
            s == v@.subrange(lo as int, hi as int),
            forall|k: int| lo <= k < a ==> is_ws(#[trigger] v@[k]),
        decreases hi - a,
    {
        a = a + 1;
    }
    proof {
        assert forall|k: int| 0 <= k < a - lo implies is_ws(#[trigger] s[k]) by {
            assert(s[k] == v@[lo + k]);
        }
        lemma_trim_start_skip(s, a - lo);
        assert(s.skip(a - lo) =~= v@.subrange(a as int, hi as int));
    }
    let ghost t = v@.subrange(a as int, hi as int);
    let mut b = hi;
    while b > a && char_is_whitespace(v[b - 1])
        invariant
            lo <= a <= b <= hi <= v@.len(),
            t == v@.subrange(a as int, hi as int),
            forall|k: int| b <= k < hi ==> is_ws(#[trigger] v@[k]),
        decreases b - a,
    {
        b = b - 1;
    }
    proof {
        assert forall|k: int| b - a <= k < t.len() implies is_ws(#[trigger] t[k]) by {
            assert(t[k] == v@[a + k]);
        }
        lemma_trim_end_take(t, b - a);
        assert(t.take(b - a) =~= v@.subrange(a as int, b as int));
    }
    (a, b)
}

/// The position of the first `c` in `v[lo..hi]`, counted from `lo`.
pub fn find_in(v: &Vec<char>, lo: usize, hi: usize, c: char) -> (r: Option<usize>)
    requires
        lo <= hi <= v@.len(),
    ensures
        match r {
            Some(k) => lo <= k < hi && find_char(v@.subrange(lo as int, hi as int), c) == Some(k - lo),
            None => find_char(v@.subrange(lo as int, hi as int), c) == None::<int>,
        },
{
    let ghost s = v@.subrange(lo as int, hi as int);
    let mut k = lo;
    while k < hi
        invariant
            lo <= k <= hi <= v@.len(),
            s == v@.subrange(lo as int, hi as int),
            forall|j: int| lo <= j < k ==> #[trigger] v@[j] != c,
        decreases hi - k,
    {
        if v[k] == c {
            proof {
                assert forall|j: int| 0 <= j < k - lo implies #[trigger] s[j] != c by {
                    assert(s[j] == v@[lo + j]);
                }
                lemma_find_char_some(s, c, k - lo);
            }
            return Some(k);
        }
        k = k + 1;
    }
    proof {
        assert forall|j: int| 0 <= j < s.len() implies #[trigger] s[j] != c by {
            assert(s[j] == v@[lo + j]);
        }
        lemma_find_char_none(s, c);
    }
    None
}

/// The number of UTF-8 bytes of `v[lo..hi]`, or `cap` when that number is
/// at least `cap`.
pub fn byte_len_capped(v: &Vec<char>, lo: usize, hi: usize, cap: usize) -> (n: usize)
    requires
        lo <= hi <= v@.len(),
        cap <= 1000,
    ensures
        n == if byte_len(v@.subrange(lo as int, hi as int)) < cap {
            byte_len(v@.subrange(lo as int, hi as int))
        } else {
            cap as nat
        },
{
    let mut n: usize = 0;
    let mut k = lo;
    proof {
        assert(v@.subrange(lo as int, lo as int) =~= Seq::<char>::empty());
    }
    while k < hi
        invariant
            lo <= k <= hi <= v@.len(),
            cap <= 1000,
            n < cap ==> n == byte_len(v@.subrange(lo as int, k as int)),
            n >= cap ==> n == cap && byte_len(v@.subrange(lo as int, k as int)) >= cap,
        decreases hi - k,
    {
        proof {
            lemma_byte_len_push(v@.subrange(lo as int, k as int), v@[k as int]);
            assert(v@.subrange(lo as int, k as int).push(v@[k as int]) =~= v@.subrange(
                lo as int,
                k + 1,
            ));
        }
        if n < cap {
            let l = char_utf8_len(v[k]);
            n = n + l;
            if n > cap {
                n = cap;
            }
        }
        k = k + 1;
    }
    n
}

/// Reads the characters `v[lo..hi]` as an unsigned 64-bit number, as
/// `str::parse::<u64>` does.
pub fn parse_u64_in(v: &Vec<char>, lo: usize, hi: usize) -> (r: Option<u64>)
    requires
        lo <= hi <= v@.len(),
    ensures
        match r {
            Some(x) => parse_u64_spec(v@.subrange(lo as int, hi as int)) == Some(x as nat),
            None => parse_u64_spec(v@.subrange(lo as int, hi as int)) == None::<nat>,
        },
{
    let ghost s = v@.subrange(lo as int, hi as int);
    let mut a = lo;
    if a < hi && v[a] == '+' {
        a = a + 1;
    }
    let ghost body = if s.len() > 0 && s[0] == '+' { s.drop_first() } else { s };
    assert(body =~= v@.subrange(a as int, hi as int));
    if a == hi {
        assert(body.len() == 0);
        return None;
    }
    let mut acc: u64 = 0;
    let mut over = false;
    let mut k = a;
    proof {
        assert(v@.subrange(a as int, a as int) =~= Seq::<char>::empty());
    }
    while k < hi
        invariant
            lo <= a <= k <= hi <= v@.len(),
            body == v@.subrange(a as int, hi as int),
            s == v@.subrange(lo as int, hi as int),
            body == (if s.len() > 0 && s[0] == '+' { s.drop_first() } else { s }),
            all_digits(v@.subrange(a as int, k as int)),
            !over ==> acc as nat == digits_value(v@.subrange(a as int, k as int)),
            over ==> digits_value(v@.subrange(a as int, k as int)) > u64::MAX,
        decreases hi - k,
    {
        let c = v[k];
        if c < '0' || c > '9' {
            proof {
                assert(body[k - a] == c);
                assert(!all_digits(body));
            }
            return None;
        }
        let d = (c as u32 - '0' as u32) as u64;
        proof {
            lemma_digits_value_push(v@.subrange(a as int, k as int), c);
            assert(v@.subrange(a as int, k as int).push(c) =~= v@.subrange(a as int, k + 1));
        }
        if !over {
            if acc > (u64::MAX - d) / 10 {
                over = true;
            } else {
                acc = acc * 10 + d;
            }
        }
        k = k + 1;
    }
    assert(v@.subrange(a as int, hi as int) =~= body);
    if over {
        None
    } else {
        Some(acc)
    }
}



/// `s` split at its first `.`: the digits before and after it.
pub open spec fn decimal_parts(s: Seq<char>) -> (Seq<char>, Seq<char>) {
    match find_char(s, '.') {
        Some(p) => (s.take(p), s.skip(p + 1)),
        None => (s, Seq::<char>::empty()),
    }
}

/// Whether `s` is a plain decimal numeral: digits, at most one `.`, and at
/// least one digit on either side of it.
pub open spec fn is_decimal_numeral(s: Seq<char>) -> bool {
    let (i, f) = decimal_parts(s);
    all_digits(i) && all_digits(f) && i.len() + f.len() > 0
}

/// Whether the lower-case ASCII letter or other character `l` is `c` once
/// ASCII case is ignored.
pub open spec fn same_ignoring_case(c: char, l: char) -> bool {
    c == l || ('A' <= c <= 'Z' && (c as u32) + 32 == (l as u32))
}

/// Whether `s` equals `w` when ASCII case is ignored (`w` being lower case).
pub open spec fn eq_ignore_case(s: Seq<char>, w: Seq<char>) -> bool {
    s.len() == w.len() && forall|i: int| 0 <= i < s.len() ==> same_ignoring_case(#[trigger] s[i], w[i])
}

/// Whether `s` names infinity: `inf` or `infinity`, in any case.
pub open spec fn is_infinity_word(s: Seq<char>) -> bool {
    eq_ignore_case(s, seq!['i', 'n', 'f']) || eq_ignore_case(
        s,
        seq!['i', 'n', 'f', 'i', 'n', 'i', 't', 'y'],
    )
}

/// `n` copies of the digit `0`.
pub open spec fn zeros(n: nat) -> Seq<char> {
    Seq::new(n, |_i: int| '0')
}

/// `n`, or `u64::MAX` when `n` does not fit in 64 bits.
pub open spec fn capped(n: nat) -> nat {
    if n <= u64::MAX {
        n
    } else {
        u64::MAX as nat
    }
}

/// The digits of the whole part of the number that the digits `d` spell
/// once its decimal point, after the last digit, is moved `shift` places to
/// the right (to the left when negative): zeros are appended, or the last
/// digits dropped.
pub open spec fn whole_digits(d: Seq<char>, shift: int) -> Seq<char> {
    if shift >= 0 {
        d + zeros(shift as nat)
    } else if d.len() + shift <= 0 {
        Seq::empty()
    } else {
        d.take(d.len() + shift)
    }
}

/// The position of the first `e` or `E` in `s`, if any.
pub open spec fn find_exponent_mark(s: Seq<char>) -> Option<int> {
    match (find_char(s, 'e'), find_char(s, 'E')) {
        (Some(a), Some(b)) => Some(if a <= b { a } else { b }),
        (Some(a), None) => Some(a),
        (None, Some(b)) => Some(b),
        (None, None) => None,
    }
}

/// The value of an exponent field: an optional sign, then at least one
/// digit.
pub open spec fn exponent_value(x: Seq<char>) -> Option<int> {
    let body = if x.len() > 0 && (x[0] == '+' || x[0] == '-') { x.drop_first() } else { x };
    if body.len() > 0 && all_digits(body) {
        Some(if x[0] == '-' { -(digits_value(body) as int) } else { digits_value(body) as int })
    } else {
        None
    }
}

/// The digits after the decimal point of the number that the digits `d`
/// spell once its decimal point, after the last digit, is moved `shift`
/// places to the right (to the left when negative): none, the last digits,
/// or all of them behind leading zeros.
pub open spec fn fraction_digits(d: Seq<char>, shift: int) -> Seq<char> {
    if shift >= 0 {
        Seq::empty()
    } else if d.len() + shift >= 0 {
        d.skip(d.len() + shift)
    } else {
        zeros((-shift - d.len()) as nat) + d
    }
}

/// What reading the unsigned number `s` into an `f64` and truncating it to
/// a `u64` gives: the whole part of the double nearest to its value,
/// capped at `u64::MAX`. `s` is a decimal numeral, possibly followed by `e`
/// or `E` and an exponent; `None` when it is not such a number.
pub open spec fn number_whole_part(s: Seq<char>) -> Option<nat> {
    let (m, e) = match find_exponent_mark(s) {
        Some(p) => (s.take(p), exponent_value(s.skip(p + 1))),
        None => (s, Some(0int)),
    };
    if is_decimal_numeral(m) && e is Some {
        let (i, f) = decimal_parts(m);
        let shift = e.unwrap() - f.len();
        Some(capped(double_whole(digits_value(whole_digits(i + f, shift)), fraction_digits(i + f, shift))))
    } else {
        None
    }
}

/// The whole seconds that a timestamp field `r` stands for, as reading it
/// into an `f64` (0 when it does not read) and casting that to a `u64`
/// gives (`12`, `30.50`, `+5.`, `.5`, `1e2`): the whole part of the double
/// nearest to the number, capped at `u64::MAX`; a negative number gives 0,
/// `inf` and `infinity` give `u64::MAX` (or 0 when negative), and anything
/// else gives 0.
pub open spec fn timestamp_seconds(r: Seq<char>) -> nat {
    let neg = r.len() > 0 && r[0] == '-';
    let body = if r.len() > 0 && (r[0] == '+' || r[0] == '-') { r.drop_first() } else { r };
    match number_whole_part(body) {
        Some(w) => if neg {
            0
        } else {
            w
        },
        None => if is_infinity_word(body) && !neg {
            u64::MAX as nat
        } else {
            0
        },
    }
}

/// Appending a zero to `t` followed by `k` zeros gives `t` followed by
/// `k + 1` zeros.
proof fn lemma_zeros_push(t: Seq<char>, k: nat)
    ensures
        (t + zeros(k)).push('0') == t + zeros(k + 1),
{
    assert((t + zeros(k)).push('0') =~= t + zeros(k + 1));
}

/// Zeros appended in two goes are zeros appended in one.
proof fn lemma_zeros_concat(t: Seq<char>, a: nat, b: nat)
    ensures
        t + zeros(a + b) == (t + zeros(a)) + zeros(b),
{
    assert(t + zeros(a + b) =~= (t + zeros(a)) + zeros(b));
}

/// Appending `m` zeros never lowers a value, keeps 0 at 0, and takes a
/// positive value to at least `m + 1`.
proof fn lemma_zeros_value(t: Seq<char>, m: nat)
    ensures
        digits_value(t + zeros(m)) >= digits_value(t),
        digits_value(t) == 0 ==> digits_value(t + zeros(m)) == 0,
        digits_value(t) >= 1 ==> digits_value(t + zeros(m)) >= m + 1,
    decreases m,
{
    if m == 0 {
        assert(t + zeros(0) =~= t);
    } else {
        lemma_zeros_value(t, (m - 1) as nat);
        lemma_zeros_push(t, (m - 1) as nat);
        lemma_digits_value_push(t + zeros((m - 1) as nat), '0');
    }
}

fn all_digits_in(v: &Vec<char>, lo: usize, hi: usize) -> (b: bool)
    requires
        lo <= hi <= v@.len(),
    ensures
        b == all_digits(v@.subrange(lo as int, hi as int)),
{
    let ghost s = v@.subrange(lo as int, hi as int);
    let mut k = lo;
    while k < hi
        invariant
            lo <= k <= hi <= v@.len(),
            s == v@.subrange(lo as int, hi as int),
            forall|j: int| lo <= j < k ==> '0' <= #[trigger] v@[j] <= '9',
        decreases hi - k,
    {
        if v[k] < '0' || v[k] > '9' {
            assert(s[k - lo] == v@[k as int]);
            return false;
        }
        k = k + 1;
    }
    assert forall|j: int| 0 <= j < s.len() implies '0' <= #[trigger] s[j] <= '9' by {
        assert(s[j] == v@[lo + j]);
    }
    true
}

/// Reads on the digits `v[lo..hi]` after the digits `pre`, whose value is
/// `acc`, or more than `u64::MAX` when `over`: the value of all of them, or
/// `over` when it is more than `u64::MAX`.
fn continue_digits(v: &Vec<char>, lo: usize, hi: usize, acc: u64, over: bool, Ghost(pre): Ghost<Seq<char>>) -> (r: (u64, bool))
    requires
        lo <= hi <= v@.len(),
        all_digits(v@.subrange(lo as int, hi as int)),
        !over ==> acc as nat == digits_value(pre),
        over ==> digits_value(pre) > u64::MAX,
    ensures
        !r.1 ==> r.0 as nat == digits_value(pre + v@.subrange(lo as int, hi as int)),
        r.1 ==> digits_value(pre + v@.subrange(lo as int, hi as int)) > u64::MAX,
{
    let mut acc = acc;
    let mut over = over;
    let mut k = lo;
    proof {
        assert(pre + v@.subrange(lo as int, lo as int) =~= pre);
    }
    while k < hi
        invariant
            lo <= k <= hi <= v@.len(),
            all_digits(v@.subrange(lo as int, hi as int)),
            !over ==> acc as nat == digits_value(pre + v@.subrange(lo as int, k as int)),
            over ==> digits_value(pre + v@.subrange(lo as int, k as int)) > u64::MAX,
        decreases hi - k,
    {
        let c = v[k];
        assert(v@.subrange(lo as int, hi as int)[k - lo] == c);
        let d = (c as u32 - '0' as u32) as u64;
        proof {
            let t = pre + v@.subrange(lo as int, k as int);
            lemma_digits_value_push(t, c);
            assert(t.push(c) =~= pre + v@.subrange(lo as int, k + 1));
        }
        if !over {
            if acc > (u64::MAX - d) / 10 {
                over = true;
            } else {
                acc = acc * 10 + d;
            }
        }
        k = k + 1;
    }
    (acc, over)
}

/// `acc`, or `u64::MAX` when `over`.
fn cap_of(acc: u64, over: bool) -> (x: u64)
    ensures
        x == if over { u64::MAX } else { acc },
{
    if over {
        u64::MAX
    } else {
        acc
    }
}

/// The value, capped at `u64::MAX`, of the digits `pre` followed by `n`
/// zeros, from the value `acc` of `pre` (more than `u64::MAX` when `over`).
fn append_zeros(acc: u64, over: bool, n: u128, Ghost(pre): Ghost<Seq<char>>) -> (x: u64)
    requires
        !over ==> acc as nat == digits_value(pre),
        over ==> digits_value(pre) > u64::MAX,
    ensures
        x as nat == capped(digits_value(pre + zeros(n as nat))),
{
    if over {
        proof {
            lemma_zeros_value(pre, n as nat);
        }
        return u64::MAX;
    }
    let mut a = acc;
    let mut k: u128 = 0;
    proof {
        assert(pre + zeros(0) =~= pre);
    }
    while k < n
        invariant
            k <= n,
            a as nat == digits_value(pre + zeros(k as nat)),
        decreases n - k,
    {
        proof {
            lemma_zeros_push(pre, k as nat);
            lemma_digits_value_push(pre + zeros(k as nat), '0');
        }
        if a == 0 {
            proof {
                lemma_zeros_value(pre + zeros(k as nat), (n - k) as nat);
                lemma_zeros_concat(pre, k as nat, (n - k) as nat);
            }
            return 0;
        }
        if a > u64::MAX / 10 {
            proof {
                lemma_zeros_value(pre + zeros((k + 1) as nat), (n - k - 1) as nat);
                lemma_zeros_concat(pre, (k + 1) as nat, (n - k - 1) as nat);
            }
            return u64::MAX;
        }
        a = a * 10;
        k = k + 1;
    }
    a
}

/// The value of the digits `v[lo..hi]` when it fits in 128 bits.
fn digits_value_u128(v: &Vec<char>, lo: usize, hi: usize) -> (r: Option<u128>)
    requires
        lo <= hi <= v@.len(),
        all_digits(v@.subrange(lo as int, hi as int)),
    ensures
        match r {
            Some(x) => x as nat == digits_value(v@.subrange(lo as int, hi as int)),
            None => digits_value(v@.subrange(lo as int, hi as int)) > u128::MAX,
        },
{
    let mut acc: u128 = 0;
    let mut over = false;
    let mut k = lo;
    proof {
        assert(v@.subrange(lo as int, lo as int) =~= Seq::<char>::empty());
    }
    while k < hi
        invariant
            lo <= k <= hi <= v@.len(),
            all_digits(v@.subrange(lo as int, hi as int)),
            !over ==> acc as nat == digits_value(v@.subrange(lo as int, k as int)),
            over ==> digits_value(v@.subrange(lo as int, k as int)) > u128::MAX,
        decreases hi - k,
    {
        let c = v[k];
        assert(v@.subrange(lo as int, hi as int)[k - lo] == c);
        let d = (c as u32 - '0' as u32) as u128;
        proof {
            lemma_digits_value_push(v@.subrange(lo as int, k as int), c);
            assert(v@.subrange(lo as int, k as int).push(c) =~= v@.subrange(lo as int, k + 1));
        }
        if !over {
            if acc > (u128::MAX - d) / 10 {
                over = true;
            } else {
                acc = acc * 10 + d;
            }
        }
        k = k + 1;
    }
    if over {
        None
    } else {
        Some(acc)
    }
}

fn same_ignoring_case_exec(c: char, l: char) -> (b: bool)
    ensures
        b == same_ignoring_case(c, l),
{
    c == l || ('A' <= c && c <= 'Z' && (c as u32) + 32 == (l as u32))
}

fn eq_ignore_case_in(v: &Vec<char>, lo: usize, hi: usize, w: &Vec<char>) -> (b: bool)
    requires
        lo <= hi <= v@.len(),
    ensures
        b == eq_ignore_case(v@.subrange(lo as int, hi as int), w@),
{
    let ghost s = v@.subrange(lo as int, hi as int);
    if hi - lo != w.len() {
        return false;
    }
    let mut k: usize = 0;
    while k < w.len()
        invariant
            lo <= hi <= v@.len(),
            hi - lo == w@.len(),
            k <= w@.len(),
            s == v@.subrange(lo as int, hi as int),
            forall|j: int| 0 <= j < k ==> same_ignoring_case(#[trigger] s[j], w@[j]),
        decreases w@.len() - k,
    {
        if !same_ignoring_case_exec(v[lo + k], w[k]) {
            assert(s[k as int] == v@[lo + k]);
            return false;
        }
        assert(s[k as int] == v@[lo + k]);
        k = k + 1;
    }
    true
}

/// The position of the first `e` or `E` in `v[lo..hi]`.
fn find_exponent_mark_in(v: &Vec<char>, lo: usize, hi: usize) -> (r: Option<usize>)
    requires
        lo <= hi <= v@.len(),
    ensures
        match r {
            Some(p) => lo <= p < hi && find_exponent_mark(v@.subrange(lo as int, hi as int)) == Some(p - lo),
            None => find_exponent_mark(v@.subrange(lo as int, hi as int)) == None::<int>,
        },
{
    let small = find_in(v, lo, hi, 'e');
    let capital = find_in(v, lo, hi, 'E');
    match (small, capital) {
        (Some(a), Some(b)) => Some(if a <= b { a } else { b }),
        (Some(a), None) => Some(a),
        (None, Some(b)) => Some(b),
        (None, None) => None,
    }
}

/// The digits of an exponent field, its sign left aside.
pub open spec fn exponent_digits(x: Seq<char>) -> Seq<char> {
    if x.len() > 0 && (x[0] == '+' || x[0] == '-') {
        x.drop_first()
    } else {
        x
    }
}

/// Reads the exponent field `v[lo..hi]`: `None` when it is not one, else
/// whether it is negative and its magnitude when that fits in 128 bits.
fn exponent_in(v: &Vec<char>, lo: usize, hi: usize) -> (r: Option<(bool, Option<u128>)>)
    requires
        lo <= hi <= v@.len(),
    ensures
        ({
            let x = v@.subrange(lo as int, hi as int);
            let mag = digits_value(exponent_digits(x));
            match r {
                None => exponent_value(x) is None,
                Some((neg, m)) => {
                    &&& exponent_value(x) == Some(if neg { -(mag as int) } else { mag as int })
                    &&& (m matches Some(e) ==> e as nat == mag)
                    &&& (m is None ==> mag > u128::MAX)
                },
            }
        }),
{
    let ghost x = v@.subrange(lo as int, hi as int);
    let neg = lo < hi && v[lo] == '-';
    let b = if lo < hi && (v[lo] == '+' || v[lo] == '-') { lo + 1 } else { lo };
    assert(exponent_digits(x) =~= v@.subrange(b as int, hi as int));
    if !(b < hi && all_digits_in(v, b, hi)) {
        return None;
    }
    Some((neg, digits_value_u128(v, b, hi)))
}

/// The whole part, capped, of the digits `i` (`v[lo..ie]`) and `f`
/// (`v[fs..me]`) once the point after them moves `e - f.len()` places,
/// for an exponent `e` of magnitude `mag` (when it fits in 128 bits) and
/// sign `neg`.
#[verifier::spinoff_prover]
#[verifier::rlimit(40)]
fn shifted_whole_part(
    v: &Vec<char>,
    lo: usize,
    ie: usize,
    fs: usize,
    me: usize,
    neg: bool,
    mag: Option<u128>,
    Ghost(e_abs): Ghost<nat>,
) -> (w: u64)
    requires
        lo <= ie <= fs <= me <= v@.len(),
        all_digits(v@.subrange(lo as int, ie as int)),
        all_digits(v@.subrange(fs as int, me as int)),
        mag matches Some(x) ==> x as nat == e_abs,
        mag is None ==> e_abs > u128::MAX,
    ensures
        ({
            let i = v@.subrange(lo as int, ie as int);
            let f = v@.subrange(fs as int, me as int);
            let e = if neg { -(e_abs as int) } else { e_abs as int };
            w as nat == capped(digits_value(whole_digits(i + f, e - f.len())))
        }),
{
    let ghost i = v@.subrange(lo as int, ie as int);
    let ghost f = v@.subrange(fs as int, me as int);
    let ghost d = i + f;
    let ghost e = if neg { -(e_abs as int) } else { e_abs as int };
    let ilen = ie - lo;
    let flen = me - fs;
    assert(Seq::<char>::empty() + i =~= i);
    assert(digits_value(Seq::<char>::empty()) == 0);
    let (ai, oi) = continue_digits(v, lo, ie, 0, false, Ghost(Seq::<char>::empty()));
    match mag {
        None => {
            if neg {
                assert(whole_digits(d, e - f.len()) =~= Seq::<char>::empty());
                0
            } else {
                let (ad, od) = continue_digits(v, fs, me, ai, oi, Ghost(i));
                proof {
                    assert(whole_digits(d, e - f.len()) == d + zeros((e - f.len()) as nat));
                    lemma_zeros_value(d, (e - f.len()) as nat);
                }
                if !od && ad == 0 {
                    0
                } else {
                    u64::MAX
                }
            }
        },
        Some(x) => {
            if neg {
                if x < ilen as u128 {
                    let keep = ilen - (x as usize);
                    proof {
                        assert(whole_digits(d, e - f.len()) =~= v@.subrange(lo as int, (lo + keep) as int));
                        assert(Seq::<char>::empty() + v@.subrange(lo as int, (lo + keep) as int)
                            =~= v@.subrange(lo as int, (lo + keep) as int));
                        assert(all_digits(v@.subrange(lo as int, (lo + keep) as int))) by {
                            assert forall|j: int| 0 <= j < keep implies '0' <= #[trigger] v@.subrange(
                                lo as int,
                                (lo + keep) as int,
                            )[j] <= '9' by {
                                assert(v@.subrange(lo as int, (lo + keep) as int)[j] == i[j]);
                            }
                        }
                    }
                    let (ak, ok) = continue_digits(v, lo, lo + keep, 0, false, Ghost(Seq::<char>::empty()));
                    cap_of(ak, ok)
                } else {
                    assert(whole_digits(d, e - f.len()) =~= Seq::<char>::empty());
                    0
                }
            } else if x >= flen as u128 {
                let (ad, od) = continue_digits(v, fs, me, ai, oi, Ghost(i));
                assert(whole_digits(d, e - f.len()) == d + zeros((x - flen) as nat));
                append_zeros(ad, od, x - flen as u128, Ghost(d))
            } else {
                let k = fs + x as usize;
                proof {
                    if ilen + x > 0 {
                        assert(whole_digits(d, e - f.len()) =~= i + v@.subrange(fs as int, k as int));
                    } else {
                        assert(whole_digits(d, e - f.len()) =~= Seq::<char>::empty());
                        assert(i + v@.subrange(fs as int, k as int) =~= Seq::<char>::empty());
                    }
                    assert(all_digits(v@.subrange(fs as int, k as int))) by {
                        assert forall|j: int| 0 <= j < x implies '0' <= #[trigger] v@.subrange(
                            fs as int,
                            k as int,
                        )[j] <= '9' by {
                            assert(v@.subrange(fs as int, k as int)[j] == f[j]);
                        }
                    }
                }
                let (ak, ok) = continue_digits(v, fs, k, ai, oi, Ghost(i));
                cap_of(ak, ok)
            }
        },
    }
}

/// Digits after digits are digits.
proof fn lemma_all_digits_concat(a: Seq<char>, b: Seq<char>)
    requires
        all_digits(a),
        all_digits(b),
    ensures
        all_digits(a + b),
{
    assert forall|k: int| 0 <= k < (a + b).len() implies '0' <= #[trigger] (a + b)[k] <= '9' by {
        if k < a.len() {
            assert((a + b)[k] == a[k]);
        } else {
            assert((a + b)[k] == b[k - a.len()]);
        }
    }
}

/// Appends the characters `v[a..b]` to `out`.
fn push_range(out: &mut Vec<char>, v: &Vec<char>, a: usize, b: usize)
    requires
        a <= b <= v@.len(),
    ensures
        final(out)@ == old(out)@ + v@.subrange(a as int, b as int),
{
    let ghost start = out@;
    let mut k = a;
    assert(start + v@.subrange(a as int, a as int) =~= start);
    while k < b
        invariant
            a <= k <= b <= v@.len(),
            out@ == start + v@.subrange(a as int, k as int),
        decreases b - k,
    {
        out.push(v[k]);
        k = k + 1;
        assert(out@ =~= start + v@.subrange(a as int, k as int));
    }
}

/// The digits after the decimal point of the number of digits `i`
/// (`v[lo..ie]`) and `f` (`v[fs..me]`) once the point after them moves
/// `e - f.len()` places, for an exponent `e` of magnitude `mag` (when it
/// fits in 128 bits) and sign `neg`: a count of leading zeros (the second
/// item, or 64 and more when the third holds; the ghost fourth tells it
/// exactly) and the digits after them.
#[verifier::spinoff_prover]
#[verifier::rlimit(40)]
fn shifted_fraction(
    v: &Vec<char>,
    lo: usize,
    ie: usize,
    fs: usize,
    me: usize,
    neg: bool,
    mag: Option<u128>,
    Ghost(e_abs): Ghost<nat>,
) -> (r: (Vec<char>, u64, bool, Ghost<nat>))
    requires
        lo <= ie <= fs <= me <= v@.len(),
        all_digits(v@.subrange(lo as int, ie as int)),
        all_digits(v@.subrange(fs as int, me as int)),
        mag matches Some(x) ==> x as nat == e_abs,
        mag is None ==> e_abs > u128::MAX,
    ensures
        all_digits(r.0@),
        r.2 ==> r.3@ >= 64,
        !r.2 ==> r.3@ == r.1 && r.1 < 64,
        ({
            let i = v@.subrange(lo as int, ie as int);
            let f = v@.subrange(fs as int, me as int);
            let e = if neg { -(e_abs as int) } else { e_abs as int };
            zeros(r.3@) + r.0@ == fraction_digits(i + f, e - f.len())
        }),
{
    let ghost i = v@.subrange(lo as int, ie as int);
    let ghost f = v@.subrange(fs as int, me as int);
    let ghost d = i + f;
    let ghost e = if neg { -(e_abs as int) } else { e_abs as int };
    let ilen = ie - lo;
    let flen = me - fs;
    proof {
        lemma_all_digits_concat(i, f);
    }
    let mut tail: Vec<char> = Vec::new();
    match mag {
        None => {
            if neg {
                push_range(&mut tail, v, lo, ie);
                push_range(&mut tail, v, fs, me);
                assert(tail@ =~= d);
                let ghost zg = (e_abs - ilen) as nat;
                assert(zeros(zg) + tail@ == fraction_digits(d, e - f.len()));
                (tail, 0, true, Ghost(zg))
            } else {
                assert(zeros(0) + tail@ =~= fraction_digits(d, e - f.len()));
                (tail, 0, false, Ghost(0nat))
            }
        },
        Some(x) => {
            if neg {
                if x <= ilen as u128 {
                    let xs = x as usize;
                    push_range(&mut tail, v, ie - xs, ie);
                    push_range(&mut tail, v, fs, me);
                    assert(tail@ =~= d.skip(ilen - xs));
                    assert(zeros(0) + tail@ =~= fraction_digits(d, e - f.len()));
                    proof {
                        assert forall|k: int| 0 <= k < tail@.len() implies '0' <= #[trigger] tail@[k] <= '9' by {
                            assert(tail@[k] == d[k + ilen - xs]);
                        }
                    }
                    (tail, 0, false, Ghost(0nat))
                } else {
                    push_range(&mut tail, v, lo, ie);
                    push_range(&mut tail, v, fs, me);
                    assert(tail@ =~= d);
                    let zz = x - ilen as u128;
                    assert(zeros(zz as nat) + tail@ == fraction_digits(d, e - f.len()));
                    if zz >= 64 {
                        (tail, 0, true, Ghost(zz as nat))
                    } else {
                        (tail, zz as u64, false, Ghost(zz as nat))
                    }
                }
            } else if x >= flen as u128 {
                assert(zeros(0) + tail@ =~= fraction_digits(d, e - f.len()));
                (tail, 0, false, Ghost(0nat))
            } else {
                let xs = x as usize;
                push_range(&mut tail, v, fs + xs, me);
                assert(tail@ =~= d.skip(ilen + xs));
                assert(zeros(0) + tail@ =~= fraction_digits(d, e - f.len()));
                proof {
                    assert forall|k: int| 0 <= k < tail@.len() implies '0' <= #[trigger] tail@[k] <= '9' by {
                        assert(tail@[k] == f[k + xs]);
                    }
                }
                (tail, 0, false, Ghost(0nat))
            }
        },
    }
}

/// The whole part, capped, of the double nearest to the number of digits
/// `i` (`v[lo..ie]`) and `f` (`v[fs..me]`) once the point after them moves
/// `e - f.len()` places, for an exponent `e` of magnitude `mag` (when it
/// fits in 128 bits) and sign `neg`.
fn shifted_double_whole(
    v: &Vec<char>,
    lo: usize,
    ie: usize,
    fs: usize,
    me: usize,
    neg: bool,
    mag: Option<u128>,
    Ghost(e_abs): Ghost<nat>,
) -> (w: u64)
    requires
        lo <= ie <= fs <= me <= v@.len(),
        all_digits(v@.subrange(lo as int, ie as int)),
        all_digits(v@.subrange(fs as int, me as int)),
        mag matches Some(x) ==> x as nat == e_abs,
        mag is None ==> e_abs > u128::MAX,
    ensures
        ({
            let i = v@.subrange(lo as int, ie as int);
            let f = v@.subrange(fs as int, me as int);
            let e = if neg { -(e_abs as int) } else { e_abs as int };
            w as nat == capped(
                double_whole(digits_value(whole_digits(i + f, e - f.len())), fraction_digits(i + f, e - f.len())),
            )
        }),
{
    let w = shifted_whole_part(v, lo, ie, fs, me, neg, mag, Ghost(e_abs));
    let (tail, z, many, Ghost(zg)) = shifted_fraction(v, lo, ie, fs, me, neg, mag, Ghost(e_abs));
    let ghost i = v@.subrange(lo as int, ie as int);
    let ghost f = v@.subrange(fs as int, me as int);
    let ghost e = if neg { -(e_abs as int) } else { e_abs as int };
    let ghost whole = digits_value(whole_digits(i + f, e - f.len()));
    if w == u64::MAX {
        proof {
            lemma_double_whole_large(whole, fraction_digits(i + f, e - f.len()));
        }
        u64::MAX
    } else {
        double_whole_u64(w, &tail, z, many, Ghost(zg))
    }
}

/// The whole part of the unsigned number `v[lo..hi]`, as
/// `number_whole_part` gives it.
#[verifier::spinoff_prover]
#[verifier::rlimit(40)]
fn number_whole_part_in(v: &Vec<char>, lo: usize, hi: usize) -> (r: Option<u64>)
    requires
        lo <= hi <= v@.len(),
    ensures
        match r {
            Some(w) => number_whole_part(v@.subrange(lo as int, hi as int)) == Some(w as nat),
            None => number_whole_part(v@.subrange(lo as int, hi as int)) == None::<nat>,
        },
{
    let ghost s = v@.subrange(lo as int, hi as int);
    let mark = find_exponent_mark_in(v, lo, hi);
    let me = match mark {
        Some(p) => p,
        None => hi,
    };
    let ghost m = v@.subrange(lo as int, me as int);
    let (neg, mag) = match mark {
        Some(p) => {
            assert(s.take(p - lo) =~= m);
            assert(s.skip(p - lo + 1) =~= v@.subrange(p + 1, hi as int));
            match exponent_in(v, p + 1, hi) {
                None => {
                    return None;
                },
                Some(x) => x,
            }
        },
        None => {
            assert(s =~= m);
            (false, Some(0u128))
        },
    };
    let ghost e_abs: nat = match mark {
        Some(p) => digits_value(exponent_digits(v@.subrange(p + 1, hi as int))),
        None => 0,
    };
    let dot = find_in(v, lo, me, '.');
    let (ie, fs) = match dot {
        Some(p) => (p, p + 1),
        None => (me, me),
    };
    proof {
        match dot {
            Some(p) => {
                assert(m.take(p - lo) =~= v@.subrange(lo as int, ie as int));
                assert(m.skip(p - lo + 1) =~= v@.subrange(fs as int, me as int));
            },
            None => {
                assert(v@.subrange(fs as int, me as int) =~= Seq::<char>::empty());
                assert(m =~= v@.subrange(lo as int, ie as int));
            },
        }
    }
    if !(all_digits_in(v, lo, ie) && all_digits_in(v, fs, me) && (ie - lo) + (me - fs) > 0) {
        return None;
    }
    Some(shifted_double_whole(v, lo, ie, fs, me, neg, mag, Ghost(e_abs)))
}

/// The whole seconds of the timestamp field `v[lo..hi]`.
pub fn timestamp_seconds_in(v: &Vec<char>, lo: usize, hi: usize) -> (x: u64)
    requires
        lo <= hi <= v@.len(),
    ensures
        x as nat == timestamp_seconds(v@.subrange(lo as int, hi as int)),
{
    let ghost r = v@.subrange(lo as int, hi as int);
    let neg = lo < hi && v[lo] == '-';
    let a = if lo < hi && (v[lo] == '+' || v[lo] == '-') { lo + 1 } else { lo };
    let ghost body = if r.len() > 0 && (r[0] == '+' || r[0] == '-') { r.drop_first() } else { r };
    assert(body =~= v@.subrange(a as int, hi as int));
    match number_whole_part_in(v, a, hi) {
        Some(w) => if neg {
            0
        } else {
            w
        },
        None => {
            let inf: Vec<char> = vec!['i', 'n', 'f'];
            let infinity: Vec<char> = vec!['i', 'n', 'f', 'i', 'n', 'i', 't', 'y'];
            assert(inf@ =~= seq!['i', 'n', 'f']);
            assert(infinity@ =~= seq!['i', 'n', 'f', 'i', 'n', 'i', 't', 'y']);
            if !neg && (eq_ignore_case_in(v, a, hi, &inf) || eq_ignore_case_in(v, a, hi, &infinity)) {
                u64::MAX
            } else {
                0
            }
        },
    }
}

/// What `find_char` finds: the first position holding `c`, or none when
/// no position holds it.
pub proof fn lemma_find_char_facts(s: Seq<char>, c: char)
    ensures
        match find_char(s, c) {
            Some(k) => 0 <= k < s.len() && s[k] == c && forall|j: int| 0 <= j < k ==> #[trigger] s[j] != c,
            None => forall|j: int| 0 <= j < s.len() ==> #[trigger] s[j] != c,
        },
    decreases s.len(),
{
    if s.len() > 0 {
        let t = s.drop_first();
        lemma_find_char_facts(t, c);
        if s[0] != c {
            match find_char(t, c) {
                Some(k) => {
                    assert forall|j: int| 0 <= j < k + 1 implies #[trigger] s[j] != c by {
                        if j > 0 {
                            assert(s[j] == t[j - 1]);
                        }
                    }
                },
                None => {
                    assert forall|j: int| 0 <= j < s.len() implies #[trigger] s[j] != c by {
                        if j > 0 {
                            assert(s[j] == t[j - 1]);
                        }
                    }
                },
            }
        }
    }
}

/// A sequence of pieces joined with `sep` between consecutive pieces.
pub open spec fn join(pieces: Seq<Seq<char>>, sep: Seq<char>) -> Seq<char>
    decreases pieces.len(),
{
    if pieces.len() == 0 {
        Seq::<char>::empty()
    } else if pieces.len() == 1 {
        pieces[0]
    } else {
        join(pieces.drop_last(), sep) + sep + pieces.last()
    }
}

/// `n` with at least two digits, padded with a leading zero.
pub open spec fn two_digits(n: nat) -> Seq<char> {
    if n < 10 {
        seq!['0'] + decimal(n)
    } else {
        decimal(n)
    }
}

/// Appends `n` to `out` with at least two digits.
pub fn push_two_digits(out: &mut String, n: u64)
    ensures
        final(out)@ == old(out)@ + two_digits(n as nat),
{
    if n < 10 {
        proof {
            reveal_strlit("0");
        }
        out.append("0");
    }
    push_decimal(out, n);
}

/// A copy of the string `s`.
pub fn string_of(s: &str) -> (r: String)
    ensures
        r@ == s@,
{
    let mut r = String::new();
    r.append(s);
    r
}

/// The characters `lo..hi` of `s`, as a string.
pub fn substring(s: &str, lo: usize, hi: usize) -> (r: String)
    requires
        lo <= hi <= s@.len(),
    ensures
        r@ == s@.subrange(lo as int, hi as int),
{
    string_of(s.substring_char(lo, hi))
}

/// Whether two strings hold the same characters.
pub fn same_text(a: &str, b: &str) -> (r: bool)
    ensures
        r == (a@ == b@),
{
    let x = string_of(a);
    let y = string_of(b);
    x == y
}

/// `s` cut to at most `max` characters: when longer, its first `max - 1`
/// characters (none when `max` is 0) followed by an ellipsis.
pub open spec fn truncated(s: Seq<char>, max: nat) -> Seq<char> {
    if s.len() <= max {
        s
    } else {
        s.take(if max >= 1 { max - 1 } else { 0 }) + "…"@
    }
}

/// `s` cut to at most `max` characters, an ellipsis marking the cut.
pub fn truncate(s: &str, max: usize) -> (r: String)
    ensures
        r@ == truncated(s@, max as nat),
{
    let n = s.unicode_len();
    if n <= max {
        string_of(s)
    } else {
        let k = if max >= 1 { max - 1 } else { 0 };
        let mut r = substring(s, 0, k);
        r.append("…");
        r
    }
}

/// A cut text has at most `max` characters (for `max` of at least 1), and
/// a text that fits is left whole.
pub proof fn lemma_truncated_fits(s: Seq<char>, max: nat)
    ensures
        max >= 1 ==> truncated(s, max).len() <= max,
        s.len() <= max ==> truncated(s, max) == s,
        s.len() > max ==> truncated(s, max).len() == (if max >= 1 { max } else { 1 }),
{
    reveal_strlit("…");
}

} // verus!
