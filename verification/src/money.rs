//! Money as integer cents.
//!
//! The gateway and the conversation exchange amounts as decimal strings
//! ("100.00"). Internally every amount is a `u64` count of cents, so the
//! auto-invest arithmetic is exact. The accepted written form is one to
//! seventeen integer digits, optionally followed by `.` and one or two
//! fraction digits; anything else does not parse.

use vstd::prelude::*;

use crate::text::push_char;

verus! {

pub open spec fn is_digit(c: char) -> bool {
    '0' <= c && c <= '9'
}

pub open spec fn digit_val(c: char) -> nat {
    (c as nat - '0' as nat) as nat
}

pub open spec fn digit_char(d: nat) -> char {
    (d + '0' as nat) as char
}

pub open spec fn all_digits(s: Seq<char>) -> bool {
    forall|i: int| 0 <= i < s.len() ==> is_digit(#[trigger] s[i])
}

/// The number a run of decimal digits denotes.
pub open spec fn dec_val(s: Seq<char>) -> nat
    decreases s.len(),
{
    if s.len() == 0 {
        0
    } else {
        dec_val(s.drop_last()) * 10 + digit_val(s.last())
    }
}

pub open spec fn pow10(n: nat) -> nat
    decreases n,
{
    if n == 0 {
        1nat
    } else {
        10 * pow10((n - 1) as nat)
    }
}

pub proof fn lemma_dec_val_bound(s: Seq<char>)
    requires
        all_digits(s),
    ensures
        dec_val(s) < pow10(s.len()),
    decreases s.len(),
{
    if s.len() > 0 {
        assert(all_digits(s.drop_last()));
        lemma_dec_val_bound(s.drop_last());
        assert(digit_val(s.last()) <= 9);
    }
}

/// Index of the first `.` in `s`, if any.
pub open spec fn first_dot(s: Seq<char>) -> Option<int>
    decreases s.len(),
{
    if s.len() == 0 {
        None
    } else if s.first() == '.' {
        Some(0)
    } else {
        match first_dot(s.drop_first()) {
            Some(i) => Some(i + 1),
            None => None,
        }
    }
}

proof fn lemma_first_dot_at(s: Seq<char>, i: int)
    requires
        0 <= i < s.len(),
        s[i] == '.',
        forall|j: int| 0 <= j < i ==> s[j] != '.',
    ensures
        first_dot(s) == Some(i),
    decreases s.len(),
{
    if i > 0 {
        lemma_first_dot_at(s.drop_first(), i - 1);
    }
}

proof fn lemma_first_dot_none(s: Seq<char>)
    requires
        forall|j: int| 0 <= j < s.len() ==> s[j] != '.',
    ensures
        first_dot(s) is None,
    decreases s.len(),
{
    if s.len() > 0 {
        lemma_first_dot_none(s.drop_first());
    }
}

/// Largest number of integer digits accepted in a written amount.
pub const MAX_AMOUNT_DIGITS: usize = 17;

/// The integer-digit part of `s`: everything before the first dot.
pub open spec fn int_part(s: Seq<char>) -> Seq<char> {
    match first_dot(s) {
        Some(i) => s.subrange(0, i),
        None => s,
    }
}

/// The fraction-digit part of `s`: everything after the first dot.
pub open spec fn frac_part(s: Seq<char>) -> Seq<char> {
    match first_dot(s) {
        Some(i) => s.subrange(i + 1, s.len() as int),
        None => Seq::empty(),
    }
}

/// Whether `s` is an acceptable written amount: 1–17 integer digits and,
/// when a dot is present, one or two fraction digits.
pub open spec fn amount_well_formed(s: Seq<char>) -> bool {
    &&& 1 <= int_part(s).len() <= MAX_AMOUNT_DIGITS
    &&& all_digits(int_part(s))
    &&& (first_dot(s) is Some ==> 1 <= frac_part(s).len() <= 2 && all_digits(frac_part(s)))
}

/// The value in cents of a fraction part already known to hold one or two
/// digits: a lone digit counts tens of cents.
pub open spec fn frac_cents(s: Seq<char>) -> nat {
    if s.len() == 1 {
        digit_val(s[0]) * 10
    } else {
        dec_val(s)
    }
}

/// What parsing a written amount yields: its value in cents, or nothing
/// when the text is not an acceptable amount.
pub open spec fn spec_parse_cents(s: Seq<char>) -> Option<u64> {
    if amount_well_formed(s) {
        Some((dec_val(int_part(s)) * 100 + frac_cents(frac_part(s))) as u64)
    } else {
        None
    }
}

pub proof fn lemma_pow10_small()
    ensures
        pow10(2) == 100,
        pow10(3) == 1000,
{
    reveal_with_fuel(pow10, 4);
}

proof fn lemma_pow10_values()
    ensures
        pow10(16) == 10000000000000000,
        pow10(17) == 100000000000000000,
{
    reveal_with_fuel(pow10, 18);
}

proof fn lemma_amount_fits(s: Seq<char>)
    requires
        amount_well_formed(s),
    ensures
        dec_val(int_part(s)) * 100 + frac_cents(frac_part(s)) < u64::MAX,
        dec_val(int_part(s)) < pow10(17),
        frac_cents(frac_part(s)) <= 99,
{
    lemma_dec_val_bound(int_part(s));
    lemma_pow10_mono(int_part(s).len(), 17);
    lemma_pow10_values();
    let f = frac_part(s);
    if first_dot(s) is Some {
        if f.len() == 1 {
            assert(digit_val(f[0]) <= 9);
        } else {
            assert(dec_val(f) == dec_val(f.drop_last()) * 10 + digit_val(f.last()));
            let g = f.drop_last();
            assert(g.len() == 1);
            assert(dec_val(g.drop_last()) == 0);
            assert(dec_val(g) == digit_val(g.last()));
            assert(digit_val(g.last()) <= 9);
            assert(digit_val(f.last()) <= 9);
        }
    }
}

pub proof fn lemma_pow10_mono(a: nat, b: nat)
    requires
        a <= b,
    ensures
        pow10(a) <= pow10(b),
    decreases b,
{
    if a < b {
        lemma_pow10_mono(a, (b - 1) as nat);
        assert(pow10(b) == 10 * pow10((b - 1) as nat));
    }
}

/// Read a decimal digit character.
fn digit_of_char(c: char) -> (r: u64)
    requires
        is_digit(c),
    ensures
        r == digit_val(c),
{
    (c as u32 - '0' as u32) as u64
}

fn find_dot(s: &str) -> (r: Option<usize>)
    ensures
        match r {
            Some(d) => d < s@.len() && s@[d as int] == '.' && forall|j: int|
                0 <= j < d ==> s@[j] != '.',
            None => forall|j: int| 0 <= j < s@.len() ==> s@[j] != '.',
        },
{
    let n = s.unicode_len();
    let mut i: usize = 0;
    while i < n
        invariant
            n == s@.len(),
            i <= n,
            forall|j: int| 0 <= j < i ==> s@[j] != '.',
        decreases n - i,
    {
        if s.get_char(i) == '.' {
            return Some(i);
        }
        i = i + 1;
    }
    None
}

/// Parse a written amount into cents. Yields the exact cent value for an
/// acceptable amount and nothing for any other text.
pub fn parse_cents(s: &str) -> (r: Option<u64>)
    ensures
        r == spec_parse_cents(s@),
{
    let n = s.unicode_len();
    let dot = find_dot(s);
    proof {
        match dot {
            Some(d) => {
                lemma_first_dot_at(s@, d as int);
            },
            None => {
                lemma_first_dot_none(s@);
            },
        }
    }
    let int_end = match dot {
        Some(d) => d,
        None => n,
    };
    proof {
        if dot is None {
            assert(s@.subrange(0, n as int) =~= s@);
        }
        assert(int_part(s@) =~= s@.subrange(0, int_end as int));
    }
    if int_end < 1 || int_end > MAX_AMOUNT_DIGITS {
        return None;
    }
    // integer digits
    let mut acc: u64 = 0;
    let mut i: usize = 0;
    while i < int_end
        invariant
            n == s@.len(),
            int_end <= n,
            int_end <= MAX_AMOUNT_DIGITS,
            i <= int_end,
            int_part(s@) == s@.subrange(0, int_end as int),
            all_digits(s@.subrange(0, i as int)),
            acc == dec_val(s@.subrange(0, i as int)),
            acc < pow10(i as nat),
        decreases int_end - i,
    {
        let c = s.get_char(i);
        if !('0' <= c && c <= '9') {
            assert(!is_digit(s@.subrange(0, int_end as int)[i as int]));
            return None;
        }
        proof {
            assert(s@.subrange(0, i + 1).drop_last() =~= s@.subrange(0, i as int));
            assert(s@.subrange(0, i + 1).last() == s@[i as int]);
            lemma_pow10_mono(i as nat, 16);
            lemma_pow10_values();
        }
        acc = acc * 10 + digit_of_char(c);
        i = i + 1;
        proof {
            assert(all_digits(s@.subrange(0, i as int)));
        }
    }
    let int_val = acc;
    proof {
        lemma_pow10_mono(int_end as nat, 17);
        lemma_pow10_values();
    }
    // fraction digits
    let frac_val: u64;
    match dot {
        Some(d) => {
            let flen = n - d - 1;
            if flen < 1 || flen > 2 {
                return None;
            }
            let c1 = s.get_char(d + 1);
            if !('0' <= c1 && c1 <= '9') {
                assert(!is_digit(frac_part(s@)[0]));
                return None;
            }
            if flen == 1 {
                frac_val = digit_of_char(c1) * 10;
                proof {
                    assert(frac_part(s@).len() == 1);
                    assert(frac_part(s@)[0] == s@[d + 1]);
                    assert(all_digits(frac_part(s@)));
                }
            } else {
                let c2 = s.get_char(d + 2);
                if !('0' <= c2 && c2 <= '9') {
                    assert(!is_digit(frac_part(s@)[1]));
                    return None;
                }
                frac_val = digit_of_char(c1) * 10 + digit_of_char(c2);
                proof {
                    let f = frac_part(s@);
                    assert(f.len() == 2);
                    assert(f[0] == s@[d + 1]);
                    assert(f[1] == s@[d + 2]);
                    assert(all_digits(f));
                    let g = f.drop_last();
                    assert(g =~= seq![s@[d + 1]]);
                    assert(dec_val(g.drop_last()) == 0);
                    assert(dec_val(g) == digit_val(s@[d + 1]));
                    assert(dec_val(f) == digit_val(s@[d + 1]) * 10 + digit_val(s@[d + 2]));
                }
            }
        },
        None => {
            frac_val = 0;
            proof {
                assert(frac_part(s@) =~= Seq::<char>::empty());
            }
        },
    }
    proof {
        assert(amount_well_formed(s@));
        lemma_amount_fits(s@);
    }
    Some(int_val * 100 + frac_val)
}

/// The canonical written form of an amount of cents: the integer dollars,
/// a dot, and exactly two fraction digits.
pub open spec fn dec_digits(n: nat) -> Seq<char>
    decreases n,
{
    if n < 10 {
        seq![digit_char(n)]
    } else {
        dec_digits(n / 10).push(digit_char(n % 10))
    }
}

pub open spec fn spec_format_cents(c: u64) -> Seq<char> {
    dec_digits((c / 100) as nat).push('.').push(digit_char(((c / 10) % 10) as nat)).push(
        digit_char((c % 10) as nat),
    )
}

fn char_of_digit(d: u64) -> (r: char)
    requires
        d < 10,
    ensures
        r == digit_char(d as nat),
{
    ((d as u32) + ('0' as u32)) as u8 as char
}

/// Decimal rendering of an unsigned number.
pub fn u64_to_dec(n: u64) -> (r: String)
    ensures
        r@ == dec_digits(n as nat),
    decreases n,
{
    if n < 10 {
        let mut s = String::new();
        push_char(&mut s, char_of_digit(n));
        proof {
            assert(Seq::<char>::empty().push(digit_char(n as nat)) =~= dec_digits(n as nat));
        }
        s
    } else {
        let mut s = u64_to_dec(n / 10);
        push_char(&mut s, char_of_digit(n % 10));
        s
    }
}

/// Render cents as the written amount the gateway expects ("12.05").
pub fn format_cents(c: u64) -> (r: String)
    ensures
        r@ == spec_format_cents(c),
{
    let mut s = u64_to_dec(c / 100);
    push_char(&mut s, '.');
    push_char(&mut s, char_of_digit((c / 10) % 10));
    push_char(&mut s, char_of_digit(c % 10));
    s
}

/// The auto-invest amount: `percent` percent of `amount` in cents, rounded
/// to the nearest cent with halves rounded up.
pub open spec fn spec_invest_cents(amount: u64, percent: u8) -> u64 {
    ((amount * percent + 50) / 100) as u64
}

pub fn invest_cents(amount: u64, percent: u8) -> (r: u64)
    requires
        percent <= 100,
    ensures
        r == spec_invest_cents(amount, percent),
        r <= amount,
{
    proof {
        assert(amount * percent <= u64::MAX * 100) by (nonlinear_arith)
            requires
                percent <= 100,
                amount <= u64::MAX,
        ;
    }
    let wide: u128 = (amount as u128) * (percent as u128) + 50;
    let q: u128 = wide / 100;
    proof {
        assert(amount * percent <= amount * 100) by (nonlinear_arith)
            requires
                percent <= 100,
                0 <= amount,
        ;
        assert((amount * percent + 50) / 100 <= (amount * 100 + 50) / 100) by (nonlinear_arith)
            requires
                amount * percent <= amount * 100,
        ;
        assert((amount * 100 + 50) / 100 == amount) by (nonlinear_arith);
    }
    q as u64
}

} // verus!
