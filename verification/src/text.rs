//! Text building blocks shared by the rest of the crate: decimal rendering,
//! string comparison and trailing-character trimming.

use vstd::prelude::*;

verus! {

/// The character for a decimal digit `d` (`0 <= d < 10`).
pub open spec fn digit_char(d: int) -> char {
    (48 + d) as char
}

/// The decimal digits of a natural number, most significant first, with no
/// leading zeros (zero itself is `"0"`).
pub open spec fn nat_digits(n: nat) -> Seq<char>
    decreases n,
{
    if n < 10 {
        seq![digit_char(n as int)]
    } else {
        nat_digits(n / 10).push(digit_char((n % 10) as int))
    }
}

/// The decimal rendering of an integer: a `-` before the digits of its
/// magnitude when it is negative.
pub open spec fn int_text(n: int) -> Seq<char> {
    if n < 0 {
        seq!['-'] + nat_digits((-n) as nat)
    } else {
        nat_digits(n as nat)
    }
}

/// Whether `c` is one of the characters `'0'..='9'`.
pub open spec fn is_digit(c: char) -> bool {
    '0' <= c && c <= '9'
}

/// `s` with every trailing `c` removed.
pub open spec fn trim_end_char(s: Seq<char>, c: char) -> Seq<char>
    decreases s.len(),
{
    if s.len() > 0 && s.last() == c {
        trim_end_char(s.drop_last(), c)
    } else {
        s
    }
}

/// Appends one character to a string.
/// Calls `String::push`, which std documents as appending the character to
/// the end of the string; the contract says exactly that.
#[verifier::external_body]
pub(crate) fn push_char(s: &mut String, c: char)
    ensures
        final(s)@ == old(s)@.push(c),
{
    s.push(c);
}

/// A string holding a copy of `s`.
pub fn owned(s: &str) -> (r: String)
    ensures
        r@ == s@,
{
    String::from_str(s)
}

/// Appends the decimal digits of `n` to `s`.
pub fn push_nat_digits(s: &mut String, n: u64)
    ensures
        final(s)@ == old(s)@ + nat_digits(n as nat),
    decreases n,
{
    if n >= 10 {
        push_nat_digits(s, n / 10);
    }
    let d: u8 = (n % 10) as u8;
    push_char(s, (48u8 + d) as char);
    proof {
        if n >= 10 {
            assert(nat_digits(n as nat) == nat_digits((n / 10) as nat).push(
                digit_char((n % 10) as int),
            ));
        }
    }
    assert(final(s)@ =~= old(s)@ + nat_digits(n as nat));
}

/// Appends the decimal rendering of `n` to `s`.
pub fn push_int_text(s: &mut String, n: i64)
    ensures
        final(s)@ == old(s)@ + int_text(n as int),
{
    if n < 0 {
        push_char(s, '-');
        let wide: i128 = n as i128;
        let magnitude: u64 = (-wide) as u64;
        push_nat_digits(s, magnitude);
        assert(final(s)@ =~= old(s)@ + int_text(n as int));
    } else {
        push_nat_digits(s, n as u64);
    }
}

/// Whether two strings hold the same characters.
pub fn str_equal(a: &str, b: &str) -> (r: bool)
    ensures
        r == (a@ == b@),
{
    let n = a.unicode_len();
    if n != b.unicode_len() {
        return false;
    }
    let mut i: usize = 0;
    while i < n
        invariant
            n == a@.len(),
            n == b@.len(),
            i <= n,
            forall|j: int| 0 <= j < i ==> a@[j] == b@[j],
        decreases n - i,
    {
        if a.get_char(i) != b.get_char(i) {
            return false;
        }
        i = i + 1;
    }
    assert(a@ =~= b@);
    true
}

/// Lemma: trimming leaves no trailing `c`, and what was trimmed is a run of
/// `c` characters.
pub proof fn lemma_trim_end_char(s: Seq<char>, c: char)
    ensures
        trim_end_char(s, c).len() <= s.len(),
        trim_end_char(s, c) == s.take(trim_end_char(s, c).len() as int),
        trim_end_char(s, c).len() > 0 ==> trim_end_char(s, c).last() != c,
        forall|i: int| trim_end_char(s, c).len() <= i < s.len() ==> s[i] == c,
    decreases s.len(),
{
    if s.len() > 0 && s.last() == c {
        lemma_trim_end_char(s.drop_last(), c);
        let t = trim_end_char(s.drop_last(), c);
        assert(t == s.take(t.len() as int)) by {
            assert(s.drop_last().take(t.len() as int) =~= s.take(t.len() as int));
        }
        assert forall|i: int| t.len() <= i < s.len() implies s[i] == c by {
            if i < s.len() - 1 {
                assert(s.drop_last()[i] == s[i]);
            }
        }
    } else {
        assert(s.take(s.len() as int) =~= s);
    }
}

/// Trimming is idempotent.
pub proof fn lemma_trim_end_char_idempotent(s: Seq<char>, c: char)
    ensures
        trim_end_char(trim_end_char(s, c), c) == trim_end_char(s, c),
{
    lemma_trim_end_char(s, c);
}

/// `s` with every trailing `c` removed.
pub fn trim_end(s: &str, c: char) -> (r: String)
    ensures
        r@ == trim_end_char(s@, c),
{
    let n = s.unicode_len();
    let mut k: usize = n;
    proof {
        assert(s@.take(n as int) =~= s@);
    }
    while k > 0 && s.get_char(k - 1) == c
        invariant
            n == s@.len(),
            k <= n,
            trim_end_char(s@.take(k as int), c) == trim_end_char(s@, c),
        decreases k,
    {
        assert(s@.take(k as int).drop_last() =~= s@.take(k - 1));
        k = k - 1;
    }
    proof {
        assert(s@.take(n as int) =~= s@);
    }
    let r = owned(s.substring_char(0, k));
    proof {
        if k > 0 {
            assert(s@.take(k as int).last() == s@[k - 1]);
        }
        assert(s@.subrange(0, k as int) =~= s@.take(k as int));
    }
    r
}

/// The decimal digits of a number are digits, at least one of them, and at
/// least two when the number is ten or more.
pub proof fn lemma_nat_digits_shape(n: nat)
    ensures
        nat_digits(n).len() >= 1,
        n >= 10 ==> nat_digits(n).len() >= 2,
        forall|i: int| 0 <= i < nat_digits(n).len() ==> is_digit(#[trigger] nat_digits(n)[i]),
    decreases n,
{
    if n >= 10 {
        lemma_nat_digits_shape(n / 10);
        let d = nat_digits(n / 10);
        assert forall|i: int| 0 <= i < nat_digits(n).len() implies is_digit(#[trigger] nat_digits(n)[i]) by {
            if i < d.len() {
                assert(nat_digits(n)[i] == d[i]);
            }
        }
    }
}

/// The number a string of decimal digits denotes, most significant first.
pub open spec fn digits_value(s: Seq<char>) -> int
    decreases s.len(),
{
    if s.len() == 0 {
        0
    } else {
        digits_value(s.drop_last()) * 10 + (s.last() as int - 48)
    }
}

/// The integer a decimal text denotes: a leading `-` negates the digits.
pub open spec fn int_value(s: Seq<char>) -> int {
    if s.len() > 0 && s[0] == '-' {
        -digits_value(s.drop_first())
    } else {
        digits_value(s)
    }
}

/// The decimal digits of a number read back as that number.
pub proof fn lemma_nat_digits_value(n: nat)
    ensures
        digits_value(nat_digits(n)) == n,
    decreases n,
{
    if n < 10 {
        let s = nat_digits(n);
        assert(s.drop_last() =~= Seq::<char>::empty());
        assert(s.last() as int == 48 + n);
        assert(digits_value(s) == digits_value(s.drop_last()) * 10 + (s.last() as int - 48));
    } else {
        lemma_nat_digits_value(n / 10);
        let s = nat_digits(n);
        assert(s.drop_last() =~= nat_digits(n / 10));
        assert(s.last() as int == 48 + n % 10);
        assert(digits_value(s) == digits_value(s.drop_last()) * 10 + (s.last() as int - 48));
        assert((n / 10) as int * 10 + n % 10 == n) by (nonlinear_arith);
    }
}

/// The decimal rendering of an integer reads back as that integer.
pub proof fn lemma_int_text_value(n: int)
    ensures
        int_value(int_text(n)) == n,
{
    if n < 0 {
        lemma_nat_digits_value((-n) as nat);
        assert(int_text(n).drop_first() =~= nat_digits((-n) as nat));
    } else {
        lemma_nat_digits_value(n as nat);
        lemma_nat_digits_shape(n as nat);
        assert(nat_digits(n as nat)[0] != '-');
    }
}

/// Distinct numbers have distinct decimal digits.
pub proof fn lemma_nat_digits_injective(a: nat, b: nat)
    ensures
        nat_digits(a) == nat_digits(b) ==> a == b,
    decreases a,
{
    lemma_nat_digits_shape(a);
    lemma_nat_digits_shape(b);
    if nat_digits(a) == nat_digits(b) {
        if a < 10 && b < 10 {
            assert(nat_digits(a)[0] == digit_char(a as int));
            assert(nat_digits(b)[0] == digit_char(b as int));
            assert(digit_char(a as int) as int == 48 + a);
            assert(digit_char(b as int) as int == 48 + b);
        } else if a >= 10 && b >= 10 {
            let da = nat_digits(a / 10);
            let db = nat_digits(b / 10);
            assert(nat_digits(a).drop_last() =~= da);
            assert(nat_digits(b).drop_last() =~= db);
            lemma_nat_digits_injective(a / 10, b / 10);
            assert(nat_digits(a).last() == digit_char((a % 10) as int));
            assert(nat_digits(b).last() == digit_char((b % 10) as int));
            assert(digit_char((a % 10) as int) as int == 48 + a % 10);
            assert(digit_char((b % 10) as int) as int == 48 + b % 10);
        }
    }
}

/// The decimal rendering of an integer: digits, or a `-` then digits; no
/// other character.
pub proof fn lemma_int_text_shape(n: int)
    ensures
        int_text(n).len() >= 1,
        forall|i: int| 0 <= i < int_text(n).len() ==> is_digit(#[trigger] int_text(n)[i]) || int_text(n)[i] == '-',
        int_text(n)[0] == '-' <==> n < 0,
{
    if n < 0 {
        lemma_nat_digits_shape((-n) as nat);
        let d = nat_digits((-n) as nat);
        assert forall|i: int| 0 <= i < int_text(n).len() implies is_digit(#[trigger] int_text(n)[i]) || int_text(n)[i] == '-' by {
            if i > 0 {
                assert(int_text(n)[i] == d[i - 1]);
            }
        }
    } else {
        lemma_nat_digits_shape(n as nat);
    }
}

/// Distinct integers have distinct decimal renderings.
pub proof fn lemma_int_text_injective(a: int, b: int)
    ensures
        int_text(a) == int_text(b) ==> a == b,
{
    lemma_int_text_shape(a);
    lemma_int_text_shape(b);
    if int_text(a) == int_text(b) {
        if a < 0 && b < 0 {
            assert(int_text(a).drop_first() =~= nat_digits((-a) as nat));
            assert(int_text(b).drop_first() =~= nat_digits((-b) as nat));
            lemma_nat_digits_injective((-a) as nat, (-b) as nat);
        } else if a >= 0 && b >= 0 {
            lemma_nat_digits_injective(a as nat, b as nat);
        }
    }
}

/// If `x + [c] + y == u + [c] + v` and neither `y` nor `v` holds `c`, the
/// split is the same on both sides.
pub proof fn lemma_split_at_last(x: Seq<char>, y: Seq<char>, u: Seq<char>, v: Seq<char>, c: char)
    requires
        x + seq![c] + y == u + seq![c] + v,
        !y.contains(c),
        !v.contains(c),
    ensures
        x == u,
        y == v,
{
    let s = x + seq![c] + y;
    let t = u + seq![c] + v;
    let xc = x + seq![c];
    let uc = u + seq![c];
    assert(s.len() == t.len());
    if x.len() < u.len() {
        let j = u.len() as int;
        assert(t[j] == uc[j]);
        assert(uc[j] == c);
        let k = j - xc.len();
        assert(0 <= k < y.len());
        assert(s[j] == y[k]);
        assert(y[k] == c);
        assert(y.contains(c));
    } else if u.len() < x.len() {
        let j = x.len() as int;
        assert(s[j] == xc[j]);
        assert(xc[j] == c);
        let k = j - uc.len();
        assert(0 <= k < v.len());
        assert(t[j] == v[k]);
        assert(v[k] == c);
        assert(v.contains(c));
    } else {
        assert(x =~= s.take(x.len() as int));
        assert(u =~= t.take(u.len() as int));
        assert(y =~= s.skip(x.len() as int + 1));
        assert(v =~= t.skip(u.len() as int + 1));
    }
}

/// The character view of an optional string.
pub open spec fn opt_view(o: Option<String>) -> Option<Seq<char>> {
    match o {
        Some(s) => Some(s@),
        None => None,
    }
}

/// A copy of an optional string.
pub fn clone_opt(o: &Option<String>) -> (r: Option<String>)
    ensures
        r == *o,
{
    match o {
        Some(s) => Some(s.clone()),
        None => None,
    }
}

} // verus!
