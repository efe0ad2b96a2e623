//! Exact rational values and the frame-rate fraction parser.
//!
//! Frame rates and time stamps arrive as strings, either `"num/den"` or a
//! plain decimal. They are kept as exact rationals: a sign, a numerator and
//! a positive denominator. All comparisons are defined by cross
//! multiplication over the mathematical integers.

use vstd::prelude::*;

verus! {

/// An exact rational number: `(-1)^neg * num / den`.
#[derive(Clone, Copy, Debug)]
pub struct Frac {
    pub neg: bool,
    pub num: u64,
    pub den: u64,
}

impl Frac {
    /// Well-formed: the denominator is positive.
    pub open spec fn wf(self) -> bool {
        self.den >= 1
    }

    /// The signed numerator as a mathematical integer.
    pub open spec fn snum(self) -> int {
        if self.neg {
            -(self.num as int)
        } else {
            self.num as int
        }
    }

    /// Value comparison `self <= other`, by cross multiplication.
    pub open spec fn le(self, other: Frac) -> bool {
        self.snum() * other.den <= other.snum() * self.den
    }

    /// Value comparison `self < other`, by cross multiplication.
    pub open spec fn lt(self, other: Frac) -> bool {
        self.snum() * other.den < other.snum() * self.den
    }

    /// Value equality, by cross multiplication.
    pub open spec fn eqv(self, other: Frac) -> bool {
        self.snum() * other.den == other.snum() * self.den
    }

    /// The value is exactly zero.
    pub open spec fn is_zero(self) -> bool {
        self.num == 0
    }

    /// The value is negative.
    pub open spec fn is_neg(self) -> bool {
        self.neg && self.num > 0
    }
}

/// The rational zero.
pub fn frac_zero() -> (r: Frac)
    ensures
        r.wf(),
        r.is_zero(),
        !r.neg,
        r.den == 1,
{
    Frac { neg: false, num: 0, den: 1 }
}

proof fn lemma_mul_le_mono(a: int, b: int, c: int, d: int)
    by (nonlinear_arith)
    requires
        0 <= a <= b,
        0 <= c <= d,
    ensures
        a * c <= b * d,
{
}

proof fn lemma_mul_pos(a: int, b: int)
    by (nonlinear_arith)
    requires
        a >= 1,
        b >= 1,
    ensures
        a * b >= 1,
{
}

proof fn lemma_neg_mul(a: int, b: int)
    by (nonlinear_arith)
    ensures
        (-a) * b == -(a * b),
{
}

/// `a <= b` as rational values.
pub fn frac_le(a: &Frac, b: &Frac) -> (r: bool)
    requires
        a.wf(),
        b.wf(),
    ensures
        r == a.le(*b),
{
    proof {
        lemma_mul_le_mono(a.num as int, u64::MAX as int, b.den as int, u64::MAX as int);
        lemma_mul_le_mono(b.num as int, u64::MAX as int, a.den as int, u64::MAX as int);
        lemma_mul_le_mono(0, a.num as int, 0, b.den as int);
        lemma_mul_le_mono(0, b.num as int, 0, a.den as int);
        lemma_neg_mul(a.num as int, b.den as int);
        lemma_neg_mul(b.num as int, a.den as int);
        lemma_mul_pos(if a.num >= 1 { a.num as int } else { 1 }, b.den as int);
        lemma_mul_pos(if b.num >= 1 { b.num as int } else { 1 }, a.den as int);
    }
    let lhs: u128 = (a.num as u128) * (b.den as u128);
    let rhs: u128 = (b.num as u128) * (a.den as u128);
    if a.is_negative() {
        if b.is_negative() {
            // -an/ad <= -bn/bd  <=>  bn*ad <= an*bd
            rhs <= lhs
        } else {
            true
        }
    } else {
        if b.is_negative() {
            false
        } else {
            lhs <= rhs
        }
    }
}

/// `a < b` as rational values.
pub fn frac_lt(a: &Frac, b: &Frac) -> (r: bool)
    requires
        a.wf(),
        b.wf(),
    ensures
        r == a.lt(*b),
{
    !frac_le(b, a)
}

/// `a == b` as rational values.
pub fn frac_eq(a: &Frac, b: &Frac) -> (r: bool)
    requires
        a.wf(),
        b.wf(),
    ensures
        r == a.eqv(*b),
{
    frac_le(a, b) && frac_le(b, a)
}

impl Frac {
    /// The value is strictly negative.
    pub fn is_negative(&self) -> (r: bool)
        ensures
            r == self.is_neg(),
    {
        self.neg && self.num > 0
    }
}

// ---------------------------------------------------------------------------
// Grammar of decimal and fractional strings, as spec functions.
// ---------------------------------------------------------------------------

/// `c` is an ASCII digit.
pub open spec fn is_digit(c: char) -> bool {
    48 <= c as u32 <= 57
}

/// The numeric value of an ASCII digit.
pub open spec fn digit_val(c: char) -> nat {
    (c as u32 - 48) as nat
}

/// Every character of `s` is an ASCII digit.
pub open spec fn all_digits(s: Seq<char>) -> bool {
    forall|i: int| 0 <= i < s.len() ==> is_digit(s[i])
}

/// The value of a digit string, most significant digit first.
pub open spec fn digits_val(s: Seq<char>) -> nat
    decreases s.len(),
{
    if s.len() == 0 {
        0
    } else {
        digits_val(s.drop_last()) * 10 + digit_val(s.last())
    }
}

/// Ten to the `k`.
pub open spec fn pow10(k: nat) -> nat
    decreases k,
{
    if k == 0 {
        1
    } else {
        10 * pow10((k - 1) as nat)
    }
}

/// `c` occurs nowhere in `s`.
pub open spec fn no_char(s: Seq<char>, c: char) -> bool {
    forall|i: int| 0 <= i < s.len() ==> s[i] != c
}

/// `c` occurs in `s` exactly once, at index `i`.
pub open spec fn only_at(s: Seq<char>, c: char, i: int) -> bool {
    &&& 0 <= i < s.len()
    &&& s[i] == c
    &&& forall|j: int| 0 <= j < s.len() && j != i ==> s[j] != c
}

/// The string begins with an explicit sign.
pub open spec fn has_sign(s: Seq<char>) -> bool {
    s.len() > 0 && (s[0] == '+' || s[0] == '-')
}

/// The string with any leading sign removed.
pub open spec fn body_of(s: Seq<char>) -> Seq<char> {
    if has_sign(s) {
        s.skip(1)
    } else {
        s
    }
}

/// The parsed value is negative.
pub open spec fn neg_of(s: Seq<char>) -> bool {
    s.len() > 0 && s[0] == '-'
}

/// The index of the unique `.` in `t`.
pub open spec fn dot_pos(t: Seq<char>) -> int {
    choose|i: int| only_at(t, '.', i)
}

/// The sign-free body is a well-formed decimal numeral: either all digits,
/// or digits with a single `.` somewhere and at least one digit overall.
pub open spec fn body_ok(t: Seq<char>) -> bool {
    if no_char(t, '.') {
        t.len() > 0 && all_digits(t)
    } else if exists|i: int| only_at(t, '.', i) {
        let i = dot_pos(t);
        t.len() > 1 && all_digits(t.take(i)) && all_digits(t.skip(i + 1))
    } else {
        false
    }
}

/// The mantissa of a well-formed body: the value of its digits with the
/// decimal point removed.
pub open spec fn body_mant(t: Seq<char>) -> nat {
    if no_char(t, '.') {
        digits_val(t)
    } else {
        let i = dot_pos(t);
        digits_val(t.take(i) + t.skip(i + 1))
    }
}

/// The number of digits after the decimal point.
pub open spec fn body_scale(t: Seq<char>) -> nat {
    if no_char(t, '.') {
        0
    } else {
        (t.len() - dot_pos(t) - 1) as nat
    }
}

/// What the decimal parser returns: `m / 10^k` with the written sign, or
/// nothing when the numeral is malformed or does not fit in 64 bits.
pub open spec fn dec_sem(s: Seq<char>) -> Option<Frac> {
    let t = body_of(s);
    if body_ok(t) && body_mant(t) <= u64::MAX && body_scale(t) <= 19 {
        Some(
            Frac {
                neg: neg_of(s),
                num: body_mant(t) as u64,
                den: pow10(body_scale(t)) as u64,
            },
        )
    } else {
        None
    }
}

/// The quotient of two parsed decimals, or nothing when either side is
/// malformed, the divisor is zero, or the products do not fit.
pub open spec fn quot_sem(a: Seq<char>, b: Seq<char>) -> Option<Frac> {
    match (dec_sem(a), dec_sem(b)) {
        (Some(fa), Some(fb)) => if fb.num == 0 {
            None
        } else {
            let n = fa.num * fb.den;
            let d = fa.den * fb.num;
            if n <= u64::MAX && d <= u64::MAX {
                Some(Frac { neg: fa.neg != fb.neg, num: n as u64, den: d as u64 })
            } else {
                None
            }
        },
        _ => None,
    }
}

/// The index of the unique `/` in `s`.
pub open spec fn slash_pos(s: Seq<char>) -> int {
    choose|i: int| only_at(s, '/', i)
}

/// What the fraction parser returns: a plain decimal when there is no `/`,
/// the quotient of the two parts around a single `/`, and nothing otherwise.
pub open spec fn frac_sem(s: Seq<char>) -> Option<Frac> {
    if no_char(s, '/') {
        dec_sem(s)
    } else if exists|i: int| only_at(s, '/', i) {
        let i = slash_pos(s);
        quot_sem(s.take(i), s.skip(i + 1))
    } else {
        None
    }
}

// ---------------------------------------------------------------------------
// Executable parsing.
// ---------------------------------------------------------------------------

/// The characters of a string slice, as a vector.
pub fn chars_of(s: &str) -> (v: Vec<char>)
    ensures
        v@ == s@,
{
    let n = s.unicode_len();
    let mut v: Vec<char> = Vec::new();
    let mut i: usize = 0;
    while i < n
        invariant
            n == s@.len(),
            i <= n,
            v@ == s@.take(i as int),
        decreases n - i,
    {
        let c = s.get_char(i);
        v.push(c);
        assert(s@.take(i + 1) =~= s@.take(i as int).push(s@[i as int]));
        i += 1;
    }
    assert(s@.take(n as int) =~= s@);
    v
}

fn copy_range(v: &Vec<char>, from: usize, to: usize) -> (r: Vec<char>)
    requires
        from <= to <= v@.len(),
    ensures
        r@ == v@.subrange(from as int, to as int),
{
    let mut r: Vec<char> = Vec::new();
    let mut i = from;
    while i < to
        invariant
            from <= i <= to <= v@.len(),
            r@ == v@.subrange(from as int, i as int),
        decreases to - i,
    {
        r.push(v[i]);
        assert(v@.subrange(from as int, i + 1) =~= v@.subrange(from as int, i as int).push(
            v@[i as int],
        ));
        i += 1;
    }
    r
}

/// Where a character occurs in a string: nowhere, exactly once, or more.
enum Found {
    Absent,
    At(usize),
    Several,
}

fn find_only(v: &Vec<char>, c: char) -> (r: Found)
    ensures
        match r {
            Found::Absent => no_char(v@, c),
            Found::At(i) => only_at(v@, c, i as int),
            Found::Several => !no_char(v@, c) && forall|k: int| !only_at(v@, c, k),
        },
{
    let n = v.len();
    let mut i: usize = 0;
    let mut first: usize = 0;
    let mut have_first: bool = false;
    let mut second: usize = 0;
    let mut have_second: bool = false;
    while i < n
        invariant
            n == v@.len(),
            i <= n,
            !have_first ==> forall|j: int| 0 <= j < i ==> v@[j] != c,
            have_first ==> first < i && v@[first as int] == c,
            have_first && !have_second ==> forall|j: int|
                0 <= j < i && j != first ==> v@[j] != c,
            have_second ==> have_first && second < i && first < second && v@[second as int] == c,
        decreases n - i,
    {
        if v[i] == c {
            if !have_first {
                first = i;
                have_first = true;
            } else if !have_second {
                second = i;
                have_second = true;
            }
        }
        i += 1;
    }
    if !have_first {
        Found::Absent
    } else if !have_second {
        Found::At(first)
    } else {
        assert forall|k: int| !only_at(v@, c, k) by {
            if only_at(v@, c, k) {
                if k == first as int {
                    assert(v@[second as int] != c);
                } else {
                    assert(v@[first as int] != c);
                }
            }
        }
        Found::Several
    }
}

fn all_digits_range(v: &Vec<char>, from: usize, to: usize) -> (r: bool)
    requires
        from <= to <= v@.len(),
    ensures
        r == all_digits(v@.subrange(from as int, to as int)),
{
    let mut i = from;
    while i < to
        invariant
            from <= i <= to <= v@.len(),
            forall|j: int| from <= j < i ==> is_digit(v@[j]),
        decreases to - i,
    {
        let u = v[i] as u32;
        if !(48 <= u && u <= 57) {
            assert(!is_digit(v@.subrange(from as int, to as int)[i - from]));
            return false;
        }
        i += 1;
    }
    assert forall|j: int| 0 <= j < to - from implies is_digit(
        v@.subrange(from as int, to as int)[j],
    ) by {
        assert(v@.subrange(from as int, to as int)[j] == v@[from + j]);
    }
    true
}

proof fn lemma_digits_prefix_le(s: Seq<char>, i: int)
    requires
        0 <= i <= s.len(),
    ensures
        digits_val(s.take(i)) <= digits_val(s),
    decreases s.len() - i,
{
    if i < s.len() {
        assert(digits_val(s) == digits_val(s.drop_last()) * 10 + digit_val(s.last()));
        assert(s.drop_last().take(i) =~= s.take(i));
        lemma_digits_prefix_le(s.drop_last(), i);
    } else {
        assert(s.take(i) =~= s);
    }
}

proof fn lemma_digits_concat(a: Seq<char>, b: Seq<char>)
    ensures
        digits_val(a + b) == digits_val(a) * pow10(b.len()) + digits_val(b),
    decreases b.len(),
{
    if b.len() == 0 {
        assert(a + b =~= a);
        assert(pow10(0) == 1);
        assert(digits_val(a) * 1 == digits_val(a)) by (nonlinear_arith);
    } else {
        lemma_digits_concat(a, b.drop_last());
        assert((a + b).drop_last() =~= a + b.drop_last());
        assert((a + b).last() == b.last());
        assert(digits_val(a + b) == digits_val(a + b.drop_last()) * 10 + digit_val(b.last()));
        assert(digits_val(a + b.drop_last()) == digits_val(a) * pow10((b.len() - 1) as nat)
            + digits_val(b.drop_last()));
        assert(pow10(b.len()) == 10 * pow10((b.len() - 1) as nat));
        assert((digits_val(a) * pow10((b.len() - 1) as nat) + digits_val(b.drop_last())) * 10
            + digit_val(b.last()) == digits_val(a) * (10 * pow10((b.len() - 1) as nat)) + (
        digits_val(b.drop_last()) * 10 + digit_val(b.last()))) by (nonlinear_arith);
    }
}

proof fn lemma_pow10_mono(i: nat, j: nat)
    requires
        i <= j,
    ensures
        pow10(i) <= pow10(j),
    decreases j,
{
    if i < j {
        lemma_pow10_mono(i, (j - 1) as nat);
    }
}

proof fn lemma_pow10_pos(k: nat)
    ensures
        pow10(k) >= 1,
    decreases k,
{
    if k > 0 {
        lemma_pow10_pos((k - 1) as nat);
    }
}

proof fn lemma_mul_ge_left(a: int, p: int)
    by (nonlinear_arith)
    requires
        a >= 0,
        p >= 1,
    ensures
        a * p >= a,
{
}

fn digits_value(v: &Vec<char>, from: usize, to: usize) -> (r: Option<u64>)
    requires
        from <= to <= v@.len(),
        all_digits(v@.subrange(from as int, to as int)),
    ensures
        match r {
            Some(m) => m == digits_val(v@.subrange(from as int, to as int)),
            None => digits_val(v@.subrange(from as int, to as int)) > u64::MAX,
        },
{
    let ghost whole = v@.subrange(from as int, to as int);
    let mut acc: u64 = 0;
    let mut i = from;
    while i < to
        invariant
            from <= i <= to <= v@.len(),
            all_digits(whole),
            whole == v@.subrange(from as int, to as int),
            acc == digits_val(v@.subrange(from as int, i as int)),
        decreases to - i,
    {
        let c = v[i];
        proof {
            assert(whole[i - from] == v@[i as int]);
            assert(is_digit(v@[i as int]));
            assert(v@.subrange(from as int, i + 1).drop_last() =~= v@.subrange(
                from as int,
                i as int,
            ));
            assert(v@.subrange(from as int, i + 1).last() == v@[i as int]);
        }
        let d: u64 = (c as u32 - 48) as u64;
        let ghost next_val = digits_val(v@.subrange(from as int, i + 1));
        assert(next_val == acc * 10 + d);
        let step = match acc.checked_mul(10) {
            Some(t) => t.checked_add(d),
            None => None,
        };
        match step {
            Some(t) => {
                acc = t;
            },
            None => {
                proof {
                    assert(next_val > u64::MAX);
                    assert(whole.take(i + 1 - from) =~= v@.subrange(from as int, i + 1));
                    lemma_digits_prefix_le(whole, i + 1 - from);
                }
                return None;
            },
        }
        i += 1;
    }
    assert(v@.subrange(from as int, to as int) =~= whole);
    Some(acc)
}

pub fn pow10_val(k: usize) -> (r: u64)
    requires
        k <= 19,
    ensures
        r == pow10(k as nat),
        r >= 1,
{
    proof {
        assert(pow10(19) == 10_000_000_000_000_000_000) by {
            reveal_with_fuel(pow10, 20);
        }
    }
    let mut acc: u64 = 1;
    let mut i: usize = 0;
    while i < k
        invariant
            i <= k <= 19,
            acc == pow10(i as nat),
            pow10(19) == 10_000_000_000_000_000_000,
        decreases k - i,
    {
        proof {
            lemma_pow10_mono((i + 1) as nat, 19);
        }
        acc = acc * 10;
        i += 1;
    }
    proof {
        lemma_pow10_pos(k as nat);
    }
    acc
}

fn parse_decimal_chars(v: &Vec<char>) -> (r: Option<Frac>)
    ensures
        r == dec_sem(v@),
        r matches Some(f) ==> f.wf(),
{
    let n = v.len();
    let neg = n > 0 && v[0] == '-';
    let b0: usize = if n > 0 && (v[0] == '+' || v[0] == '-') {
        1
    } else {
        0
    };
    assert(neg == neg_of(v@));
    let body = copy_range(v, b0, n);
    let ghost t = body_of(v@);
    proof {
        if has_sign(v@) {
            assert(v@.skip(1) =~= v@.subrange(1, n as int));
        } else {
            assert(v@ =~= v@.subrange(0, n as int));
        }
        assert(body@ =~= t);
    }
    let nb = body.len();
    match find_only(&body, '.') {
        Found::Absent => {
            if nb == 0 {
                return None;
            }
            if !all_digits_range(&body, 0, nb) {
                assert(body@.subrange(0, nb as int) =~= t);
                return None;
            }
            assert(body@.subrange(0, nb as int) =~= t);
            match digits_value(&body, 0, nb) {
                Some(m) => {
                    assert(body_mant(t) == m);
                    assert(pow10(0) == 1);
                    Some(Frac { neg, num: m, den: 1 })
                },
                None => None,
            }
        },
        Found::At(dot) => {
            proof {
                // choose picks the unique witness
                let i2 = dot_pos(t);
                assert(only_at(t, '.', dot as int));
                assert(only_at(t, '.', i2));
                if i2 != dot as int {
                    assert(t[i2] != '.');
                }
                assert(dot_pos(t) == dot as int);
            }
            if nb <= 1 {
                return None;
            }
            let int_ok = all_digits_range(&body, 0, dot);
            assert(body@.subrange(0, dot as int) =~= t.take(dot as int));
            if !int_ok {
                return None;
            }
            let frac_ok = all_digits_range(&body, dot + 1, nb);
            assert(body@.subrange(dot + 1, nb as int) =~= t.skip(dot + 1));
            if !frac_ok {
                return None;
            }
            let k = nb - dot - 1;
            assert(body_scale(t) == k);
            if k > 19 {
                return None;
            }
            let ghost ipart = t.take(dot as int);
            let ghost fpart = t.skip(dot + 1);
            proof {
                lemma_digits_concat(ipart, fpart);
                lemma_pow10_pos(k as nat);
                lemma_mul_ge_left(digits_val(ipart) as int, pow10(k as nat) as int);
            }
            assert(body_mant(t) == digits_val(ipart) * pow10(k as nat) + digits_val(fpart));
            let iv = match digits_value(&body, 0, dot) {
                Some(m) => m,
                None => {
                    return None;
                },
            };
            let fv = match digits_value(&body, dot + 1, nb) {
                Some(m) => m,
                None => {
                    return None;
                },
            };
            let pw = pow10_val(k);
            let m = match iv.checked_mul(pw) {
                Some(m) => m,
                None => {
                    return None;
                },
            };
            let m2 = match m.checked_add(fv) {
                Some(m2) => m2,
                None => {
                    return None;
                },
            };
            assert(body_mant(t) == m2);
            Some(Frac { neg, num: m2, den: pw })
        },
        Found::Several => {
            assert(!body_ok(t));
            None
        },
    }
}

/// Parse a plain decimal numeral, such as a probed duration field.
pub fn parse_decimal(s: &str) -> (r: Option<Frac>)
    ensures
        r == dec_sem(s@),
        r matches Some(f) ==> f.wf(),
{
    let v = chars_of(s);
    parse_decimal_chars(&v)
}

/// Parse a frame-rate string: `"num/den"`, or a plain decimal.
///
/// Returns nothing when either component is malformed, when the string has
/// more than two `/`-separated parts, when the denominator is zero, or when
/// the exact value does not fit the 64-bit rational representation.
pub fn parse_fraction(s: &str) -> (r: Option<Frac>)
    ensures
        r == frac_sem(s@),
        r matches Some(f) ==> f.wf(),
{
    let v = chars_of(s);
    let n = v.len();
    match find_only(&v, '/') {
        Found::Absent => parse_decimal_chars(&v),
        Found::At(slash) => {
            proof {
                let i2 = slash_pos(v@);
                assert(only_at(v@, '/', slash as int));
                assert(only_at(v@, '/', i2));
                if i2 != slash as int {
                    assert(v@[i2] != '/');
                }
                assert(slash_pos(v@) == slash as int);
            }
            let a = copy_range(&v, 0, slash);
            let b = copy_range(&v, slash + 1, n);
            assert(a@ =~= v@.take(slash as int));
            assert(b@ =~= v@.skip(slash + 1));
            let fa = match parse_decimal_chars(&a) {
                Some(f) => f,
                None => {
                    return None;
                },
            };
            let fb = match parse_decimal_chars(&b) {
                Some(f) => f,
                None => {
                    return None;
                },
            };
            if fb.num == 0 {
                return None;
            }
            let nn = match fa.num.checked_mul(fb.den) {
                Some(m) => m,
                None => {
                    return None;
                },
            };
            let dd = match fa.den.checked_mul(fb.num) {
                Some(m) => m,
                None => {
                    return None;
                },
            };
            proof {
                lemma_mul_pos(fa.den as int, fb.num as int);
            }
            Some(Frac { neg: fa.neg != fb.neg, num: nn, den: dd })
        },
        Found::Several => None,
    }
}

proof fn lemma_slash_split(a: Seq<char>, b: Seq<char>)
    requires
        all_digits(a),
        all_digits(b),
    ensures
        slash_pos(a + seq!['/'] + b) == a.len(),
        only_at(a + seq!['/'] + b, '/', a.len() as int),
        (a + seq!['/'] + b).take(a.len() as int) == a,
        (a + seq!['/'] + b).skip(a.len() as int + 1) == b,
{
    let s = a + seq!['/'] + b;
    assert forall|j: int| 0 <= j < s.len() && j != a.len() implies s[j] != '/' by {
        if j < a.len() {
            assert(s[j] == a[j]);
            assert(is_digit(a[j]));
        } else {
            assert(s[j] == b[j - a.len() - 1]);
            assert(is_digit(b[j - a.len() - 1]));
        }
    }
    assert(s[a.len() as int] == '/');
    assert(only_at(s, '/', a.len() as int));
    let i2 = slash_pos(s);
    assert(only_at(s, '/', i2));
    if i2 != a.len() as int {
        assert(s[i2] != '/');
    }
    assert(s.take(a.len() as int) =~= a);
    assert(s.skip(a.len() as int + 1) =~= b);
}

/// Law: a `"num/den"` digit string with a zero denominator is
/// unparseable.
pub proof fn lemma_fraction_parser_zero_den(a: Seq<char>, b: Seq<char>)
    requires
        a.len() > 0,
        b.len() > 0,
        all_digits(a),
        all_digits(b),
        digits_val(b) == 0,
        digits_val(a) <= u64::MAX,
    ensures
        frac_sem(a + seq!['/'] + b) is None,
{
    let s = a + seq!['/'] + b;
    lemma_slash_split(a, b);
    assert(!no_char(s, '/'));
    lemma_dec_sem_digits(a);
    lemma_dec_sem_digits(b);
}

/// Law: a well-formed `"num/den"` digit string with a nonzero denominator
/// parses to exactly `num / den`.
pub proof fn lemma_fraction_parser_exact(a: Seq<char>, b: Seq<char>)
    requires
        a.len() > 0,
        b.len() > 0,
        all_digits(a),
        all_digits(b),
        digits_val(b) != 0,
        digits_val(a) <= u64::MAX,
        digits_val(b) <= u64::MAX,
    ensures
        frac_sem(a + seq!['/'] + b) == Some(
            Frac { neg: false, num: digits_val(a) as u64, den: digits_val(b) as u64 },
        ),
{
    let s = a + seq!['/'] + b;
    lemma_slash_split(a, b);
    assert(!no_char(s, '/'));
    lemma_dec_sem_digits(a);
    lemma_dec_sem_digits(b);
    let fa = dec_sem(a)->Some_0;
    let fb = dec_sem(b)->Some_0;
    assert(fa.num == digits_val(a) as u64 && fa.den == 1u64);
    assert(fb.num == digits_val(b) as u64 && fb.den == 1u64);
    assert(fa.num * fb.den == fa.num) by (nonlinear_arith)
        requires
            fb.den == 1u64,
    ;
    assert(fa.den * fb.num == fb.num) by (nonlinear_arith)
        requires
            fa.den == 1u64,
    ;
}

/// A nonempty all-digit string parses as the value of its digits over one.
pub proof fn lemma_dec_sem_digits(a: Seq<char>)
    requires
        a.len() > 0,
        all_digits(a),
        digits_val(a) <= u64::MAX,
    ensures
        dec_sem(a) == Some(Frac { neg: false, num: digits_val(a) as u64, den: 1u64 }),
{
    assert(is_digit(a[0]));
    assert(!has_sign(a));
    assert(body_of(a) == a);
    assert(no_char(a, '.'));
    assert(pow10(0) == 1);
}

} // verus!
