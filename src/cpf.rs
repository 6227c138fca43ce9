//! Validation of CPF numbers, the eleven-digit Brazilian taxpayer id.

use vstd::prelude::*;

verus! {

/// `c` is one of the ASCII digits `0` to `9`.
pub open spec fn is_ascii_digit(c: char) -> bool {
    '0' <= c && c <= '9'
}

/// Numeric value of an ASCII digit.
pub open spec fn digit_value(c: char) -> u8 {
    (c as int - '0' as int) as u8
}

/// The values of the ASCII digits of `s`, in order; every other character is dropped.
pub open spec fn digits_of(s: Seq<char>) -> Seq<u8>
    decreases s.len(),
{
    if s.len() == 0 {
        Seq::empty()
    } else {
        let rest = digits_of(s.drop_last());
        if is_ascii_digit(s.last()) {
            rest.push(digit_value(s.last()))
        } else {
            rest
        }
    }
}

/// `d[0] * top + d[1] * (top - 1) + ...` over the first `n` digits.
pub open spec fn weighted_sum(d: Seq<u8>, n: int, top: int) -> int
    decreases n,
{
    if n <= 0 {
        0
    } else {
        weighted_sum(d, n - 1, top) + d[n - 1] * (top - (n - 1))
    }
}

/// The check digit that a weighted sum calls for.
pub open spec fn check_digit(sum: int) -> int {
    if sum % 11 < 2 {
        0
    } else {
        11 - sum % 11
    }
}

/// Every digit equals the first.
pub open spec fn all_same(d: Seq<u8>) -> bool {
    forall|i: int| 0 <= i < d.len() ==> #[trigger] d[i] == d[0]
}

/// Eleven digits, not all equal, whose last two are the check digits of the ones before.
pub open spec fn valid_cpf_digits(d: Seq<u8>) -> bool {
    &&& d.len() == 11
    &&& !all_same(d)
    &&& check_digit(weighted_sum(d, 9, 10)) == d[9]
    &&& check_digit(weighted_sum(d, 10, 11)) == d[10]
}

/// A text is a valid CPF when its digits, with punctuation ignored, form a valid CPF.
pub open spec fn is_valid_cpf(s: Seq<char>) -> bool {
    valid_cpf_digits(digits_of(s))
}

proof fn lemma_weighted_sum_bounds(d: Seq<u8>, n: int, top: int)
    requires
        0 <= n <= d.len(),
        n <= top,
        forall|i: int| 0 <= i < d.len() ==> d[i] <= 9,
    ensures
        0 <= weighted_sum(d, n, top) <= 9 * top * n,
    decreases n,
{
    if n > 0 {
        lemma_weighted_sum_bounds(d, n - 1, top);
        assert(d[n - 1] * (top - (n - 1)) <= 9 * top) by (nonlinear_arith)
            requires
                0 <= d[n - 1] <= 9,
                0 <= top - (n - 1) <= top,
        ;
        assert(9 * top * (n - 1) + 9 * top == 9 * top * n) by (nonlinear_arith);
        assert(0 <= d[n - 1] * (top - (n - 1))) by (nonlinear_arith)
            requires
                0 <= d[n - 1],
                0 <= top - (n - 1),
        ;
    }
}

proof fn lemma_weighted_sum_update(d: Seq<u8>, k: int, v: u8, n: int, top: int)
    requires
        0 <= k < d.len(),
        0 <= n <= d.len(),
    ensures
        weighted_sum(d.update(k, v), n, top) == weighted_sum(d, n, top) + if k < n {
            (v - d[k]) * (top - k)
        } else {
            0
        },
    decreases n,
{
    if n > 0 {
        lemma_weighted_sum_update(d, k, v, n - 1, top);
        if k == n - 1 {
            assert(v * (top - k) - d[k] * (top - k) == (v - d[k]) * (top - k)) by (nonlinear_arith);
        }
    }
}

proof fn lemma_no_multiple_of_eleven(delta: int, w: int)
    requires
        1 <= delta <= 9 || -9 <= delta <= -1,
        2 <= w <= 10,
    ensures
        (delta * w) % 11 != 0,
{
    if w == 2 {
        assert(delta * w == delta * 2);
    } else if w == 3 {
        assert(delta * w == delta * 3);
    } else if w == 4 {
        assert(delta * w == delta * 4);
    } else if w == 5 {
        assert(delta * w == delta * 5);
    } else if w == 6 {
        assert(delta * w == delta * 6);
    } else if w == 7 {
        assert(delta * w == delta * 7);
    } else if w == 8 {
        assert(delta * w == delta * 8);
    } else if w == 9 {
        assert(delta * w == delta * 9);
    } else {
        assert(delta * w == delta * 10);
    }
}

/// Two sums that differ by `delta * w` and call for the same check digit both
/// leave a remainder below 2 modulo 11.
proof fn lemma_equal_check_digits(s: int, delta: int, w: int)
    requires
        1 <= delta <= 9 || -9 <= delta <= -1,
        2 <= w <= 10,
        check_digit(s) == check_digit(s + delta * w),
    ensures
        s % 11 < 2,
        (s + delta * w) % 11 < 2,
{
    lemma_no_multiple_of_eleven(delta, w);
    let x = delta * w;
    if s % 11 == (s + x) % 11 {
        assert(x == 11 * ((s + x) / 11 - s / 11));
        assert(x % 11 == 0);
    }
}

/// Changing a single digit of a valid CPF makes it invalid, except for the
/// coincidences that the mapping of the remainders 0 and 1 to the same check
/// digit allows: the change falls on one of the first nine digits and moves
/// the first weighted sum from one of those two remainders to the other, and,
/// unless the changed digit is the first (whose weight in the second sum is
/// 11), the second weighted sum does the same.
pub proof fn lemma_single_digit_change(d: Seq<u8>, k: int, v: u8)
    requires
        valid_cpf_digits(d),
        forall|i: int| 0 <= i < d.len() ==> d[i] <= 9,
        0 <= k < 11,
        v <= 9,
        v != d[k],
    ensures
        valid_cpf_digits(d.update(k, v)) ==> {
            &&& k < 9
            &&& weighted_sum(d, 9, 10) % 11 < 2
            &&& weighted_sum(d.update(k, v), 9, 10) % 11 < 2
            &&& k > 0 ==> weighted_sum(d, 10, 11) % 11 < 2
            &&& k > 0 ==> weighted_sum(d.update(k, v), 10, 11) % 11 < 2
        },
{
    let e = d.update(k, v);
    lemma_weighted_sum_update(d, k, v, 9, 10);
    lemma_weighted_sum_update(d, k, v, 10, 11);
    if valid_cpf_digits(e) {
        assert(k < 9) by {
            if k >= 9 {
                assert(e[k] == v);
            }
        }
        let delta = v - d[k];
        assert(e[9] == d[9]);
        assert(e[10] == d[10]);
        lemma_equal_check_digits(weighted_sum(d, 9, 10), delta, 10 - k);
        if k > 0 {
            lemma_equal_check_digits(weighted_sum(d, 10, 11), delta, 11 - k);
        }
    }
}

proof fn lemma_digits_of_digit_text(s: Seq<char>)
    requires
        forall|i: int| 0 <= i < s.len() ==> is_ascii_digit(#[trigger] s[i]),
    ensures
        digits_of(s) =~= s.map_values(|c: char| digit_value(c)),
    decreases s.len(),
{
    if s.len() > 0 {
        let rest = s.drop_last();
        assert forall|i: int| 0 <= i < rest.len() implies is_ascii_digit(#[trigger] rest[i]) by {
            assert(rest[i] == s[i]);
        }
        lemma_digits_of_digit_text(rest);
        assert(is_ascii_digit(s[s.len() - 1]));
    }
}

/// Eleven ASCII digits, not all equal, whose last two are the check digits of
/// the ones before, form a valid CPF.
pub proof fn lemma_checksum_digits_valid(s: Seq<char>)
    requires
        s.len() == 11,
        forall|i: int| 0 <= i < s.len() ==> is_ascii_digit(#[trigger] s[i]),
        !all_same(s.map_values(|c: char| digit_value(c))),
        check_digit(weighted_sum(s.map_values(|c: char| digit_value(c)), 9, 10)) == digit_value(
            s[9],
        ),
        check_digit(weighted_sum(s.map_values(|c: char| digit_value(c)), 10, 11)) == digit_value(
            s[10],
        ),
    ensures
        is_valid_cpf(s),
{
    lemma_digits_of_digit_text(s);
}

/// Keeps the ASCII digits of `s`, as values.
fn digit_values(s: &str) -> (d: Vec<u8>)
    ensures
        d@ == digits_of(s@),
        forall|i: int| 0 <= i < d@.len() ==> d@[i] <= 9,
{
    let mut d: Vec<u8> = Vec::new();
    let n = s.unicode_len();
    let mut i: usize = 0;
    while i < n
        invariant
            n == s@.len(),
            i <= n,
            d@ == digits_of(s@.subrange(0, i as int)),
            forall|k: int| 0 <= k < d@.len() ==> d@[k] <= 9,
        decreases n - i,
    {
        let c = s.get_char(i);
        proof {
            let pre = s@.subrange(0, i as int);
            let next = s@.subrange(0, i + 1);
            assert(next.drop_last() =~= pre);
            assert(next.last() == c);
        }
        if '0' <= c && c <= '9' {
            d.push(((c as u32) - ('0' as u32)) as u8);
        }
        i = i + 1;
    }
    proof {
        assert(s@.subrange(0, n as int) =~= s@);
    }
    d
}

/// The weighted sum of the first `n` digits, weights falling from `top`.
fn checksum(d: &Vec<u8>, n: usize, top: usize) -> (r: usize)
    requires
        n <= d@.len(),
        n <= top <= 11,
        forall|i: int| 0 <= i < d@.len() ==> d@[i] <= 9,
    ensures
        r == weighted_sum(d@, n as int, top as int),
{
    let mut sum: usize = 0;
    let mut i: usize = 0;
    while i < n
        invariant
            i <= n <= d@.len(),
            n <= top <= 11,
            forall|k: int| 0 <= k < d@.len() ==> d@[k] <= 9,
            sum == weighted_sum(d@, i as int, top as int),
        decreases n - i,
    {
        let digit = d[i] as usize;
        let weight = top - i;
        proof {
            lemma_weighted_sum_bounds(d@, i as int, top as int);
            assert(9 * top * i <= 9 * 11 * 11) by (nonlinear_arith)
                requires
                    top <= 11,
                    i <= 11,
            ;
            assert(digit * weight <= 9 * 11) by (nonlinear_arith)
                requires
                    digit <= 9,
                    weight <= 11,
            ;
        }
        sum = sum + digit * weight;
        i = i + 1;
    }
    sum
}

/// The check digit that `sum` calls for.
fn check_digit_of(sum: usize) -> (r: u8)
    ensures
        r == check_digit(sum as int),
{
    let rem = sum % 11;
    if rem < 2 {
        0
    } else {
        (11 - rem) as u8
    }
}

/// Whether `cpf` is a valid CPF. Every character but the ASCII digits is
/// ignored, so `"529.982.247-25"` and `"52998224725"` are read alike. Malformed
/// input is simply invalid.
pub fn validate_cpf(cpf: &str) -> (r: bool)
    ensures
        r == is_valid_cpf(cpf@),
{
    let d = digit_values(cpf);
    if d.len() != 11 {
        return false;
    }
    let mut same = true;
    let mut i: usize = 1;
    while i < 11
        invariant
            d@.len() == 11,
            1 <= i <= 11,
            same <==> forall|k: int| 0 <= k < i ==> #[trigger] d@[k] == d@[0],
        decreases 11 - i,
    {
        if d[i] != d[0] {
            same = false;
        }
        i = i + 1;
    }
    if same {
        return false;
    }
    let first = check_digit_of(checksum(&d, 9, 10));
    if first != d[9] {
        return false;
    }
    let second = check_digit_of(checksum(&d, 10, 11));
    second == d[10]
}

} // verus!
