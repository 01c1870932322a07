use vstd::prelude::*;

verus! {

/// What `str::to_lowercase` returns for a text; it depends on the text alone.
pub uninterp spec fn lower_of(s: Seq<char>) -> Seq<char>;

/// Relies on `str::to_lowercase`: the lowercase form of a text depends on the text
/// alone, and the empty text stays empty.
#[verifier::external_body]
pub(crate) fn lowercase(s: &str) -> (r: String)
    ensures
        r@ == lower_of(s@),
        s@.len() == 0 ==> r@.len() == 0,
{
    s.to_lowercase()
}

/// `needle` stands in `hay` starting at index `i`.
pub open spec fn occurs_at(hay: Seq<char>, needle: Seq<char>, i: int) -> bool {
    &&& 0 <= i
    &&& i + needle.len() <= hay.len()
    &&& hay.subrange(i, i + needle.len()) == needle
}

/// `needle` is a contiguous part of `hay`.
pub open spec fn contains(hay: Seq<char>, needle: Seq<char>) -> bool {
    exists|i: int| occurs_at(hay, needle, i)
}

/// Whether `needle` stands in `hay` at index `start`.
fn matches_at(hay: &str, needle: &str, start: usize) -> (r: bool)
    requires
        start + needle@.len() <= hay@.len() <= usize::MAX,
    ensures
        r == occurs_at(hay@, needle@, start as int),
{
    let n = needle.unicode_len();
    let mut j: usize = 0;
    while j < n
        invariant
            n == needle@.len(),
            start + n <= hay@.len() <= usize::MAX,
            0 <= j <= n,
            forall|k: int| 0 <= k < j ==> hay@[start + k] == needle@[k],
        decreases n - j,
    {
        if hay.get_char(start + j) != needle.get_char(j) {
            assert(hay@.subrange(start as int, start + n)[j as int] != needle@[j as int]);
            return false;
        }
        j = j + 1;
    }
    assert(hay@.subrange(start as int, start + n) =~= needle@);
    true
}

/// Whether `needle` is a contiguous part of `hay`.
pub fn contains_text(hay: &str, needle: &str) -> (r: bool)
    ensures
        r == contains(hay@, needle@),
{
    let h = hay.unicode_len();
    let n = needle.unicode_len();
    if n > h {
        return false;
    }
    let mut i: usize = 0;
    while i <= h - n
        invariant
            h == hay@.len(),
            n == needle@.len(),
            n <= h,
            0 <= i <= h - n,
            forall|k: int| 0 <= k < i ==> !occurs_at(hay@, needle@, k),
        decreases h - n - i,
    {
        if matches_at(hay, needle, i) {
            return true;
        }
        if i == h - n {
            return false;
        }
        i = i + 1;
    }
    false
}

/// Whether two texts hold the same characters.
pub fn same_text(a: &str, b: &str) -> (r: bool)
    ensures
        r == (a@ == b@),
{
    let n = a.unicode_len();
    if n != b.unicode_len() {
        return false;
    }
    let r = matches_at(a, b, 0);
    assert(a@.subrange(0, n as int) =~= a@);
    r
}

pub open spec fn is_digit(c: char) -> bool {
    '0' <= c <= '9'
}

pub open spec fn digit_value(c: char) -> int {
    c as int - '0' as int
}

/// The number that a string of decimal digits spells.
pub open spec fn digits_value(s: Seq<char>) -> int
    decreases s.len(),
{
    if s.len() == 0 {
        0
    } else {
        digits_value(s.drop_last()) * 10 + digit_value(s.last())
    }
}

pub open spec fn pow10(n: nat) -> int
    decreases n,
{
    if n == 0 {
        1
    } else {
        10 * pow10((n - 1) as nat)
    }
}

/// The end of the run of digits that starts at `i`.
pub open spec fn digits_end(s: Seq<char>, i: int) -> int
    decreases s.len() - i,
{
    if 0 <= i < s.len() && is_digit(s[i]) {
        digits_end(s, i + 1)
    } else {
        i
    }
}

/// Length of the leading sign, `+` or `-`.
pub open spec fn sign_len(s: Seq<char>) -> int {
    if s.len() > 0 && (s[0] == '+' || s[0] == '-') {
        1
    } else {
        0
    }
}

/// Where the integer digits end: at the decimal point, if there is one.
pub open spec fn int_end(s: Seq<char>) -> int {
    digits_end(s, sign_len(s))
}

pub open spec fn has_point(s: Seq<char>) -> bool {
    int_end(s) < s.len() && s[int_end(s)] == '.'
}

pub open spec fn frac_start(s: Seq<char>) -> int {
    if has_point(s) {
        int_end(s) + 1
    } else {
        int_end(s)
    }
}

pub open spec fn frac_end(s: Seq<char>) -> int {
    if has_point(s) {
        digits_end(s, frac_start(s))
    } else {
        int_end(s)
    }
}

/// All digits of a decimal text, integer part then fractional part.
pub open spec fn decimal_digits(s: Seq<char>) -> Seq<char> {
    s.subrange(sign_len(s), int_end(s)) + s.subrange(frac_start(s), frac_end(s))
}

/// The fractional digits are followed by an exponent marker.
pub open spec fn has_exp(s: Seq<char>) -> bool {
    frac_end(s) < s.len() && (s[frac_end(s)] == 'e' || s[frac_end(s)] == 'E')
}

/// Length of the exponent's sign, `+` or `-`.
pub open spec fn exp_sign_len(s: Seq<char>) -> int {
    let k = frac_end(s) + 1;
    if has_exp(s) && k < s.len() && (s[k] == '+' || s[k] == '-') {
        1
    } else {
        0
    }
}

pub open spec fn exp_start(s: Seq<char>) -> int {
    frac_end(s) + 1 + exp_sign_len(s)
}

/// Where the number ends: after the exponent's digits, if there is an exponent.
pub open spec fn number_end(s: Seq<char>) -> int {
    if has_exp(s) {
        digits_end(s, exp_start(s))
    } else {
        frac_end(s)
    }
}

/// The power of ten that the exponent gives, zero without one.
pub open spec fn exp_value(s: Seq<char>) -> int {
    if has_exp(s) {
        let v = digits_value(s.subrange(exp_start(s), number_end(s)));
        if exp_sign_len(s) == 1 && s[frac_end(s) + 1] == '-' {
            -v
        } else {
            v
        }
    } else {
        0
    }
}

/// The text has the shape `[+|-] digits [. digits] [(e|E) [+|-] digits]`, with at
/// least one digit before the exponent.
pub open spec fn is_decimal(s: Seq<char>) -> bool {
    &&& number_end(s) == s.len()
    &&& decimal_digits(s).len() > 0
    &&& has_exp(s) ==> number_end(s) > exp_start(s)
}

/// The numerator: the digits, times the power of ten of a positive exponent.
pub open spec fn scaled_num(s: Seq<char>) -> int {
    let v = digits_value(decimal_digits(s));
    if exp_value(s) > 0 {
        v * pow10(exp_value(s) as nat)
    } else {
        v
    }
}

/// The denominator: ten to the number of fractional digits, times the power of
/// ten of a negative exponent.
pub open spec fn scaled_den(s: Seq<char>) -> int {
    let d = pow10((frac_end(s) - frac_start(s)) as nat);
    if exp_value(s) < 0 {
        d * pow10((-exp_value(s)) as nat)
    } else {
        d
    }
}

/// A signed decimal fraction `(-1)^negative * num / den`, `den` a power of ten.
#[derive(Debug, Clone, Copy, PartialEq, Eq, Structural)]
pub struct Decimal {
    pub negative: bool,
    pub num: u64,
    pub den: u64,
}

/// The decimal that a text spells, where its digits and scale fit in `u64`.
pub open spec fn decimal_of(s: Seq<char>) -> Option<Decimal> {
    let v = scaled_num(s);
    let d = scaled_den(s);
    if is_decimal(s) && v <= u64::MAX && d <= u64::MAX {
        Some(Decimal { negative: sign_len(s) == 1 && s[0] == '-', num: v as u64, den: d as u64 })
    } else {
        None
    }
}

proof fn lemma_pow10_positive(n: nat)
    ensures
        pow10(n) >= 1,
    decreases n,
{
    if n > 0 {
        lemma_pow10_positive((n - 1) as nat);
    }
}

/// A parsed decimal has a positive denominator.
pub proof fn lemma_decimal_den_positive(s: Seq<char>)
    ensures
        decimal_of(s) matches Some(d) ==> d.den > 0,
{
    lemma_pow10_positive((frac_end(s) - frac_start(s)) as nat);
    if exp_value(s) < 0 {
        lemma_pow10_positive((-exp_value(s)) as nat);
        lemma_mul_positive(pow10((frac_end(s) - frac_start(s)) as nat), pow10((-exp_value(s)) as nat));
    }
}

proof fn lemma_mul_positive(a: int, b: int)
    requires
        a >= 1,
        b >= 1,
    ensures
        a * b >= 1,
        a * b >= a,
{
    assert(a * b >= a) by (nonlinear_arith)
        requires
            a >= 1,
            b >= 1,
    ;
}

proof fn lemma_pow10_large(k: nat)
    requires
        k >= 20,
    ensures
        pow10(k) > u64::MAX,
    decreases k,
{
    if k == 20 {
        reveal_with_fuel(pow10, 21);
        assert(pow10(20) == 100000000000000000000);
    } else {
        lemma_pow10_large((k - 1) as nat);
    }
}

/// Multiplies `x` by ten `k` times; `None` once the product no longer fits.
fn scale_by_pow10(x: u64, k: u64) -> (r: Option<u64>)
    requires
        x >= 1,
    ensures
        r is Some <==> x * pow10(k as nat) <= u64::MAX,
        r matches Some(v) ==> v == x * pow10(k as nat),
{
    if k >= 20 {
        proof {
            lemma_pow10_large(k as nat);
            lemma_pow10_positive(k as nat);
            lemma_mul_positive(pow10(k as nat), x as int);
            assert(x * pow10(k as nat) == pow10(k as nat) * x) by (nonlinear_arith);
        }
        return None;
    }
    let mut acc: u64 = x;
    let mut j: u64 = 0;
    while j < k
        invariant
            0 <= j <= k < 20,
            x >= 1,
            acc == x * pow10(j as nat),
        decreases k - j,
    {
        proof {
            assert(pow10((j + 1) as nat) == 10 * pow10(j as nat));
            assert(x * (10 * pow10(j as nat)) == 10 * (x * pow10(j as nat))) by (nonlinear_arith);
        }
        match acc.checked_mul(10) {
            Some(v) => {
                acc = v;
            },
            None => {
                proof {
                    lemma_grows_beyond(x as int, (j + 1) as nat, k as nat);
                }
                return None;
            },
        }
        j = j + 1;
    }
    Some(acc)
}

/// Once `x * 10^a` exceeds `u64`, so does `x * 10^b` for every `b >= a`.
proof fn lemma_grows_beyond(x: int, a: nat, b: nat)
    requires
        x >= 1,
        a <= b,
        x * pow10(a) > u64::MAX,
    ensures
        x * pow10(b) > u64::MAX,
    decreases b - a,
{
    if a < b {
        assert(pow10(b) == 10 * pow10((b - 1) as nat));
        lemma_grows_beyond(x, a, (b - 1) as nat);
        lemma_pow10_positive((b - 1) as nat);
        assert(x * (10 * pow10((b - 1) as nat)) >= x * pow10((b - 1) as nat)) by (nonlinear_arith)
            requires
                x >= 1,
                pow10((b - 1) as nat) >= 1,
        ;
    }
}

fn char_is_digit(c: char) -> (r: bool)
    ensures
        r == is_digit(c),
{
    '0' <= c && c <= '9'
}

/// Appends one digit to a running value; `None` once it no longer fits in `u64`.
fn push_digit(acc: Option<u64>, c: char) -> (r: Option<u64>)
    requires
        is_digit(c),
    ensures
        acc is Some ==> (r is Some <==> acc->0 * 10 + digit_value(c) <= u64::MAX),
        r is Some ==> acc is Some && r->0 == acc->0 * 10 + digit_value(c),
{
    match acc {
        Some(v) => {
            let d = ((c as u32) - ('0' as u32)) as u64;
            match v.checked_mul(10) {
                Some(m) => m.checked_add(d),
                None => None,
            }
        },
        None => None,
    }
}

/// Parses a decimal text of the shape `[+|-] digits [. digits] [(e|E) [+|-] digits]`.
pub fn parse_decimal(s: &str) -> (r: Option<Decimal>)
    ensures
        r == decimal_of(s@),
{
    let n = s.unicode_len();
    let ghost t = s@;
    let mut i: usize = 0;
    let mut negative = false;
    if n > 0 {
        let c = s.get_char(0);
        if c == '+' {
            i = 1;
        } else if c == '-' {
            i = 1;
            negative = true;
        }
    }
    let q = i;
    assert(q == sign_len(t));
    let mut num: Option<u64> = Some(0);
    while i < n && char_is_digit(s.get_char(i))
        invariant
            n == t.len(),
            t == s@,
            q <= i <= n,
            digits_end(t, q as int) == digits_end(t, i as int),
            num is Some ==> num->0 == digits_value(t.subrange(q as int, i as int)),
            num is None ==> digits_value(t.subrange(q as int, i as int)) > u64::MAX,
        decreases n - i,
    {
        let c = s.get_char(i);
        assert(t.subrange(q as int, i + 1).drop_last() =~= t.subrange(q as int, i as int));
        num = push_digit(num, c);
        i = i + 1;
    }
    let p = i;
    assert(p == int_end(t));
    let mut den: Option<u64> = Some(1);
    let mut f: usize = p;
    if i < n && s.get_char(i) == '.' {
        i = i + 1;
        f = i;
        while i < n && char_is_digit(s.get_char(i))
            invariant
                n == t.len(),
                t == s@,
                has_point(t),
                q <= p < f <= i <= n,
                q == sign_len(t),
                p == int_end(t),
                f == frac_start(t),
                digits_end(t, f as int) == digits_end(t, i as int),
                num is Some ==> num->0 == digits_value(
                    t.subrange(q as int, p as int) + t.subrange(f as int, i as int),
                ),
                num is None ==> digits_value(
                    t.subrange(q as int, p as int) + t.subrange(f as int, i as int),
                ) > u64::MAX,
                den is Some ==> den->0 == pow10((i - f) as nat),
                den is None ==> pow10((i - f) as nat) > u64::MAX,
            decreases n - i,
        {
            let c = s.get_char(i);
            assert((t.subrange(q as int, p as int) + t.subrange(f as int, i + 1)).drop_last()
                =~= t.subrange(q as int, p as int) + t.subrange(f as int, i as int));
            assert((t.subrange(q as int, p as int) + t.subrange(f as int, i + 1)).last() == c);
            num = push_digit(num, c);
            den = match den {
                Some(d) => d.checked_mul(10),
                None => None,
            };
            i = i + 1;
        }
    } else {
        assert(t.subrange(q as int, p as int) + t.subrange(p as int, p as int) =~= t.subrange(
            q as int,
            p as int,
        ));
    }
    assert(i == frac_end(t));
    assert(decimal_digits(t).len() == (p - q) + (i - f));
    let fe = i;
    let mut exp_negative = false;
    let mut exp: Option<u64> = Some(0);
    let mut es: usize = i;
    if i < n && (s.get_char(i) == 'e' || s.get_char(i) == 'E') {
        i = i + 1;
        if i < n && (s.get_char(i) == '+' || s.get_char(i) == '-') {
            exp_negative = s.get_char(i) == '-';
            i = i + 1;
        }
        es = i;
        assert(es == exp_start(t));
        while i < n && char_is_digit(s.get_char(i))
            invariant
                n == t.len(),
                t == s@,
                es <= i <= n,
                digits_end(t, es as int) == digits_end(t, i as int),
                exp is Some ==> exp->0 == digits_value(t.subrange(es as int, i as int)),
                exp is None ==> digits_value(t.subrange(es as int, i as int)) > u64::MAX,
            decreases n - i,
        {
            let c = s.get_char(i);
            assert(t.subrange(es as int, i + 1).drop_last() =~= t.subrange(es as int, i as int));
            exp = push_digit(exp, c);
            i = i + 1;
        }
        assert(i == number_end(t));
        if i == es {
            return None;
        }
    }
    assert(i == number_end(t));
    if i != n || (p - q) + (fe - f) == 0 {
        return None;
    }
    assert(is_decimal(t));
    let ghost e = exp_value(t);
    proof {
        lemma_pow10_positive((fe - f) as nat);
        if !has_exp(t) {
            assert(e == 0);
        } else {
            assert(exp_negative == (exp_sign_len(t) == 1 && t[frac_end(t) + 1] == '-'));
        }
    }
    let v = match num {
        Some(v) => v,
        None => {
            proof {
                if e > 0 {
                    lemma_pow10_positive(e as nat);
                    lemma_mul_positive(digits_value(decimal_digits(t)), pow10(e as nat));
                }
            }
            return None;
        },
    };
    let d = match den {
        Some(d) => d,
        None => {
            proof {
                if e < 0 {
                    lemma_pow10_positive((-e) as nat);
                    lemma_mul_positive(pow10((fe - f) as nat), pow10((-e) as nat));
                }
            }
            return None;
        },
    };
    proof {
        if has_exp(t) && exp is None {
            assert(digits_value(t.subrange(exp_start(t), number_end(t))) > u64::MAX);
        }
    }
    if !exp_negative {
        match exp {
            Some(k) => {
                if v == 0 {
                    assert(0 * pow10(k as nat) == 0);
                    Some(Decimal { negative, num: 0, den: d })
                } else {
                    match scale_by_pow10(v, k) {
                        Some(sv) => Some(Decimal { negative, num: sv, den: d }),
                        None => None,
                    }
                }
            },
            None => {
                if v == 0 {
                    proof {
                        assert(0 * pow10(e as nat) == 0);
                    }
                    Some(Decimal { negative, num: 0, den: d })
                } else {
                    proof {
                        lemma_pow10_large(e as nat);
                        lemma_mul_positive(pow10(e as nat), v as int);
                        assert(v * pow10(e as nat) == pow10(e as nat) * v) by (nonlinear_arith);
                    }
                    None
                }
            },
        }
    } else {
        match exp {
            Some(k) => {
                if k == 0 {
                    Some(Decimal { negative, num: v, den: d })
                } else {
                    match scale_by_pow10(d, k) {
                        Some(sd) => Some(Decimal { negative, num: v, den: sd }),
                        None => None,
                    }
                }
            },
            None => {
                proof {
                    lemma_pow10_large((-e) as nat);
                    lemma_mul_positive(pow10((-e) as nat), d as int);
                    assert(d * pow10((-e) as nat) == pow10((-e) as nat) * d) by (nonlinear_arith);
                }
                None
            },
        }
    }
}

} // verus!
