//! Exact decimal parsing of a stat value into fixed-point micro units
//! (millionths). A percent-denominated value stores the displayed number
//! divided by one hundred, so `"10"` with the percent flag is 100000 micro.

use vstd::prelude::*;

verus! {

pub open spec fn is_digit(c: char) -> bool {
    48 <= (c as u32) && (c as u32) <= 57
}

pub open spec fn digit_val(c: char) -> int {
    (c as u32) - 48
}

/// Value of a digit string read most-significant first.
pub open spec fn digits_val(s: Seq<char>) -> int
    decreases s.len(),
{
    if s.len() == 0 {
        0
    } else {
        digits_val(s.drop_last()) * 10 + digit_val(s.last())
    }
}

pub open spec fn pow10(k: nat) -> int
    decreases k,
{
    if k == 0 {
        1
    } else {
        10 * pow10((k - 1) as nat)
    }
}

/// Index of the first occurrence of `c` in `s`, or `s.len()` if absent.
pub open spec fn first_occurrence(s: Seq<char>, c: char) -> int
    decreases s.len(),
{
    if s.len() == 0 {
        0
    } else if s[0] == c {
        0
    } else {
        1 + first_occurrence(s.drop_first(), c)
    }
}

pub open spec fn count_char(s: Seq<char>, c: char) -> int
    decreases s.len(),
{
    if s.len() == 0 {
        0
    } else {
        count_char(s.drop_last(), c) + if s.last() == c {
            1int
        } else {
            0int
        }
    }
}

/// The digits before the decimal point.
pub open spec fn int_part(t: Seq<char>) -> Seq<char> {
    t.take(first_occurrence(t, '.'))
}

/// The digits after the decimal point (empty when there is none).
pub open spec fn frac_part(t: Seq<char>) -> Seq<char> {
    let d = first_occurrence(t, '.');
    if d < t.len() {
        t.skip(d + 1)
    } else {
        Seq::empty()
    }
}

/// A nonempty string of digits with at most one decimal point and at
/// least one digit: the shape accepted as a stat value.
pub open spec fn valid_number(t: Seq<char>) -> bool {
    let d = first_occurrence(t, '.');
    &&& t.len() > 0
    &&& forall|i: int| 0 <= i < t.len() && i != d ==> is_digit(#[trigger] t[i])
    &&& (t.len() > 1 || d == t.len())
}

/// The first `k` fractional digits as an integer, padded with zeros on
/// the right when fewer are written; digits beyond `k` are dropped.
pub open spec fn frac_scaled(f: Seq<char>, k: nat) -> int {
    if f.len() >= k {
        digits_val(f.take(k as int))
    } else {
        digits_val(f) * pow10((k - f.len()) as nat)
    }
}

/// The written value in micro units, truncated toward zero: millionths
/// of the stored value, which is the displayed number itself, or the
/// displayed number over one hundred when percent-denominated.
pub open spec fn micro_of(t: Seq<char>, percent: bool) -> int {
    if percent {
        digits_val(int_part(t)) * pow10(4) + frac_scaled(frac_part(t), 4)
    } else {
        digits_val(int_part(t)) * pow10(6) + frac_scaled(frac_part(t), 6)
    }
}

/// Integer digits allowed before the decimal point; more is rejected so
/// that the micro value always fits the machine word.
pub open spec fn int_digits_ok(t: Seq<char>) -> bool {
    first_occurrence(t, '.') <= 12
}

pub proof fn lemma_digits_val_bound(s: Seq<char>)
    requires
        forall|i: int| 0 <= i < s.len() ==> is_digit(#[trigger] s[i]),
    ensures
        0 <= digits_val(s) < pow10(s.len()),
    decreases s.len(),
{
    if s.len() > 0 {
        lemma_digits_val_bound(s.drop_last());
    }
}

proof fn lemma_digits_val_step(s: Seq<char>, j: int)
    requires
        0 <= j < s.len(),
    ensures
        digits_val(s.take(j + 1)) == digits_val(s.take(j)) * 10 + digit_val(s[j]),
{
    assert(s.take(j + 1).drop_last() =~= s.take(j));
    assert(s.take(j + 1).last() == s[j]);
}

proof fn lemma_pow10_values()
    ensures
        pow10(0) == 1,
        pow10(1) == 10,
        pow10(2) == 100,
        pow10(3) == 1000,
        pow10(4) == 10000,
        pow10(5) == 100000,
        pow10(6) == 1000000,
        pow10(12) == 1000000000000,
        pow10(18) == 1000000000000000000,
        pow10(19) == 10000000000000000000,
    decreases 0nat,
{
    reveal_with_fuel(pow10, 20);
}

proof fn lemma_pow10_increases(a: nat, b: nat)
    requires
        a <= b,
    ensures
        1 <= pow10(a) <= pow10(b),
    decreases b,
{
    if b > 0 && a < b {
        lemma_pow10_increases(a, (b - 1) as nat);
    } else if b > 0 && a == b {
        lemma_pow10_increases((a - 1) as nat, (b - 1) as nat);
    }
}

proof fn lemma_pow10_mul(a: nat, b: nat)
    ensures
        pow10(a) * pow10(b) == pow10((a + b) as nat),
    decreases b,
{
    if b == 0 {
    } else {
        lemma_pow10_mul(a, (b - 1) as nat);
        assert(pow10(a) * (10 * pow10((b - 1) as nat)) == 10 * (pow10(a) * pow10((b - 1) as nat)))
            by (nonlinear_arith);
    }
}

/// `first_occurrence` is the least index holding `c`, and `s.len()` when
/// `c` is absent.
pub proof fn lemma_first_occurrence(s: Seq<char>, c: char)
    ensures
        0 <= first_occurrence(s, c) <= s.len(),
        first_occurrence(s, c) < s.len() ==> s[first_occurrence(s, c)] == c,
        forall|i: int| 0 <= i < first_occurrence(s, c) ==> s[i] != c,
    decreases s.len(),
{
    if s.len() > 0 && s[0] != c {
        lemma_first_occurrence(s.drop_first(), c);
        assert forall|i: int| 0 <= i < first_occurrence(s, c) implies s[i] != c by {
            if i > 0 {
                assert(s[i] == s.drop_first()[i - 1]);
            }
        }
    }
}

/// A character is counted at least once exactly when it occurs.
pub proof fn lemma_count_char_contains(s: Seq<char>, c: char)
    ensures
        count_char(s, c) > 0 <==> s.contains(c),
        count_char(s, c) >= 0,
    decreases s.len(),
{
    if s.len() > 0 {
        lemma_count_char_contains(s.drop_last(), c);
        if s.last() == c {
            assert(s[s.len() - 1] == c);
            assert(s.contains(c));
        } else {
            if s.drop_last().contains(c) {
                let w = choose|w: int| 0 <= w < s.len() - 1 && s.drop_last()[w] == c;
                assert(s[w] == c);
                assert(s.contains(c));
            }
            if s.contains(c) {
                let w = choose|w: int| 0 <= w < s.len() && s[w] == c;
                assert(w < s.len() - 1);
                assert(s.drop_last()[w] == c);
                assert(s.drop_last().contains(c));
            }
        }
    }
}

/// Scans `v` once: records the position of the first `.`, refusing a
/// second one or any character that is not a digit.
#[verifier::loop_isolation(false)]
fn scan_shape(v: &Vec<char>) -> (r: Option<usize>)
    ensures
        r is Some <==> valid_number(v@),
        r is Some ==> r->0 == first_occurrence(v@, '.'),
{
    proof {
        lemma_first_occurrence(v@, '.');
    }
    let ghost d = first_occurrence(v@, '.');
    let n = v.len();
    let mut dot: usize = n;
    let mut i: usize = 0;
    while i < n
        invariant
            0 <= i <= n,
            if d < i {
                dot == d
            } else {
                dot == n
            },
            forall|j: int| 0 <= j < i && j != d ==> is_digit(#[trigger] v@[j]),
        decreases n - i,
    {
        let c = v[i];
        if c == '.' {
            if dot != n {
                assert(d < i && i != d && v@[i as int] == '.' && !is_digit('.'));
                return None;
            }
            assert(i == d);
            dot = i;
        } else {
            let cu = c as u32;
            if cu < 48 || cu > 57 {
                assert(i != d && !is_digit(v@[i as int]));
                return None;
            }
        }
        i = i + 1;
    }
    if n == 0 {
        return None;
    }
    if dot == 0 && n == 1 {
        assert(d == 0 && v@.len() == 1);
        return None;
    }
    if dot == n {
        assert(d == n);
        assert(valid_number(v@));
        Some(n)
    } else {
        assert(valid_number(v@));
        Some(dot)
    }
}

/// Parses a stripped value string into micro units. Returns `None`
/// exactly when the string is not a valid decimal number or carries
/// more than twelve integer digits.
#[verifier::loop_isolation(false)]
pub fn parse_value_micro(v: &Vec<char>, percent: bool) -> (r: Option<u64>)
    ensures
        r is Some <==> valid_number(v@) && int_digits_ok(v@),
        r is Some ==> r->0 == micro_of(v@, percent),
{
    proof {
        lemma_pow10_values();
        lemma_first_occurrence(v@, '.');
    }
    let d = match scan_shape(v) {
        Some(d) => d,
        None => {
            return None;
        },
    };
    if d > 12 {
        return None;
    }
    let n = v.len();
    let ghost ip = int_part(v@);
    let ghost fp = frac_part(v@);
    let ghost ipv = digits_val(ip);
    // Integer part: at most twelve digits, so the fold cannot overflow.
    let mut acc: u64 = 0;
    let mut i: usize = 0;
    proof {
        assert(v@.take(0) =~= Seq::<char>::empty());
    }
    while i < d
        invariant
            0 <= i <= d,
            acc == digits_val(v@.take(i as int)),
            acc < pow10(i as nat),
        decreases d - i,
    {
        let c = v[i];
        proof {
            assert(is_digit(v@[i as int]));
            lemma_digits_val_step(v@, i as int);
            lemma_pow10_increases((i + 1) as nat, 12);
        }
        acc = acc * 10 + (c as u32 as u64 - 48);
        i = i + 1;
    }
    proof {
        assert(v@.take(d as int) =~= ip);
        lemma_pow10_increases(d as nat, 12);
        assert(acc == ipv && 0 <= ipv < pow10(12));
        if d < n {
            assert(fp =~= v@.skip(d + 1));
            assert(forall|j: int| 0 <= j < fp.len() ==> is_digit(#[trigger] fp[j]));
        }
        assert(v@.take(0) =~= Seq::<char>::empty());
    }
    // Fractional digits: fold in at most `k`, then pad to exactly `k`.
    let k: usize = if percent {
        4
    } else {
        6
    };
    let mut taken: usize = 0;
    while taken < k && d + 1 + taken < n
        invariant
            0 <= taken <= k,
            k == 4 || k == 6,
            taken <= fp.len(),
            d + 1 + taken < n ==> taken < fp.len(),
            taken < fp.len() ==> d + 1 + taken < n,
            acc == ipv * pow10(taken as nat) + digits_val(fp.take(taken as int)),
            0 <= digits_val(fp.take(taken as int)) < pow10(taken as nat),
            acc < pow10((12 + taken) as nat),
        decreases k - taken,
    {
        let c = v[d + 1 + taken];
        proof {
            assert(fp[taken as int] == v@[d + 1 + taken]);
            assert(is_digit(fp[taken as int]));
            lemma_digits_val_step(fp, taken as int);
            lemma_digits_val_bound(fp.take(taken + 1));
            lemma_pow10_mul((12 + taken) as nat, 1);
            lemma_pow10_increases((12 + taken + 1) as nat, 19);
            assert(acc * 10 + digit_val(fp[taken as int]) < pow10((12 + taken) as nat) * 10)
                by (nonlinear_arith)
                requires
                    acc < pow10((12 + taken) as nat),
                    digit_val(fp[taken as int]) <= 9,
            ;
            assert(ipv * pow10(taken as nat) * 10 == ipv * pow10((taken + 1) as nat)) by {
                lemma_pow10_mul(taken as nat, 1);
                assert((ipv * pow10(taken as nat)) * 10 == ipv * (pow10(taken as nat) * 10))
                    by (nonlinear_arith);
            }
            lemma_pow10_mul(taken as nat, 1);
        }
        acc = acc * 10 + (c as u32 as u64 - 48);
        taken = taken + 1;
    }
    let ghost taken0 = taken as int;
    proof {
        if taken < k {
            assert(taken == fp.len());
            assert(fp.take(taken as int) =~= fp);
        } else {
            assert(fp.len() >= k);
        }
    }
    if taken < k {
        let mut pad: usize = taken;
        while pad < k
            invariant
                taken0 <= pad <= k,
                taken == taken0,
                taken0 == fp.len(),
                acc == (ipv * pow10(taken as nat) + digits_val(fp)) * pow10((pad - taken0) as nat),
                acc < pow10((12 + pad) as nat),
            decreases k - pad,
        {
            proof {
                lemma_pow10_mul((12 + pad) as nat, 1);
                lemma_pow10_increases((12 + pad + 1) as nat, 19);
                assert(acc * 10 < pow10((12 + pad) as nat) * 10) by (nonlinear_arith)
                    requires
                        acc < pow10((12 + pad) as nat),
                ;
                let x = ipv * pow10(taken as nat) + digits_val(fp);
                lemma_pow10_mul((pad - taken0) as nat, 1);
                assert(x * pow10((pad - taken0) as nat) * 10 == x * pow10(
                    (pad + 1 - taken0) as nat)) by (nonlinear_arith)
                    requires
                        pow10((pad - taken0) as nat) * 10 == pow10((pad + 1 - taken0) as nat),
                ;
            }
            acc = acc * 10;
            pad = pad + 1;
        }
    }
    proof {
        let kk = k as nat;
        if taken0 == k {
            assert(acc == ipv * pow10(kk) + digits_val(fp.take(k as int)));
            assert(fp.len() >= kk);
            assert(acc == micro_of(v@, percent));
        } else {
            let rest = (kk - taken0) as nat;
            assert(acc == (ipv * pow10(taken as nat) + digits_val(fp)) * pow10(rest));
            lemma_pow10_mul(taken as nat, rest);
            assert((ipv * pow10(taken as nat) + digits_val(fp)) * pow10(rest) == ipv * (pow10(
                taken as nat) * pow10(rest)) + digits_val(fp) * pow10(rest)) by (nonlinear_arith);
            assert(acc == ipv * pow10(kk) + digits_val(fp) * pow10(rest));
            assert(frac_scaled(fp, kk) == digits_val(fp) * pow10(rest));
            assert(acc == micro_of(v@, percent));
        }
    }
    Some(acc)
}

} // verus!
