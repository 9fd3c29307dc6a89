//! Decimal numbers as the user writes them for generation parameters
//! (`0.7`, `1`, `.25`), held exactly as an integer and a power of ten.

use vstd::prelude::*;
use crate::text::{decimal_digits, decimal_text, digit_value, is_digit};

verus! {

/// The number `(-1 if negative) * mantissa / 10^scale`.
#[derive(Debug, Clone, Copy, PartialEq, Eq, Structural)]
pub struct Decimal {
    pub negative: bool,
    pub mantissa: u64,
    pub scale: u32,
}

/// The most digits a written decimal may have.
pub const MAX_DIGITS: u64 = 18;

pub open spec fn pow10(k: nat) -> nat
    decreases k,
{
    if k == 0 {
        1
    } else {
        10 * pow10((k - 1) as nat)
    }
}

/// Whether the number lies in the closed interval from 0 to 1.
pub open spec fn in_unit_interval(d: Decimal) -> bool {
    (!d.negative || d.mantissa == 0) && d.mantissa <= pow10(d.scale as nat)
}

/// The state after reading the unsigned part of a decimal left to right:
/// the digits' value, how many digits follow the point, whether the point
/// was seen, and how many digits were read; `None` once a character is out
/// of place.
pub open spec fn scan_decimal(s: Seq<char>) -> Option<(nat, nat, bool, nat)>
    decreases s.len(),
{
    if s.len() == 0 {
        Some((0, 0, false, 0))
    } else {
        match scan_decimal(s.drop_last()) {
            None => None,
            Some((m, k, dot, n)) => {
                let c = s.last();
                if is_digit(c) {
                    Some((m * 10 + digit_value(c), if dot { k + 1 } else { k }, dot, n + 1))
                } else if c == '.' && !dot {
                    Some((m, k, true, n))
                } else {
                    None
                }
            },
        }
    }
}

/// The decimal that `s` writes: an optional sign, digits with at most one
/// decimal point among them, at least one and at most `MAX_DIGITS` digits.
pub open spec fn decimal_of(s: Seq<char>) -> Option<Decimal> {
    let signed = s.len() > 0 && (s[0] == '+' || s[0] == '-');
    let body = if signed {
        s.drop_first()
    } else {
        s
    };
    match scan_decimal(body) {
        Some((m, k, dot, n)) => if 1 <= n <= MAX_DIGITS {
            Some(Decimal { negative: signed && s[0] == '-', mantissa: m as u64, scale: k as u32 })
        } else {
            None
        },
        None => None,
    }
}

proof fn lemma_scan_bounds(s: Seq<char>)
    ensures
        scan_decimal(s) matches Some((m, k, dot, n)) ==> m < pow10(n) && k <= n,
    decreases s.len(),
{
    if s.len() > 0 {
        lemma_scan_bounds(s.drop_last());
        if let Some((m, k, dot, n)) = scan_decimal(s.drop_last()) {
            let c = s.last();
            if is_digit(c) {
                assert(m * 10 + digit_value(c) < pow10(n + 1)) by (nonlinear_arith)
                    requires m < pow10(n), digit_value(c) < 10, pow10(n + 1) == 10 * pow10(n);
            }
        }
    }
}

pub proof fn lemma_scan_prefix(s: Seq<char>, j: int)
    requires
        0 <= j <= s.len(),
    ensures
        scan_decimal(s.take(j)) is None ==> scan_decimal(s) is None,
        scan_decimal(s.take(j)) matches Some((m1, k1, d1, n1)) ==> (scan_decimal(s) matches Some(
            (m2, k2, d2, n2),
        ) ==> n1 <= n2),
    decreases s.len(),
{
    if j < s.len() {
        assert(s.drop_last().take(j) =~= s.take(j));
        lemma_scan_prefix(s.drop_last(), j);
    } else {
        assert(s.take(j) =~= s);
    }
}

proof fn lemma_pow10_mono(a: nat, b: nat)
    requires
        a <= b,
    ensures
        pow10(a) <= pow10(b),
    decreases b,
{
    if a < b {
        lemma_pow10_mono(a, (b - 1) as nat);
    }
}

proof fn lemma_pow10_bound(n: nat)
    requires
        n <= 18,
    ensures
        pow10(n) <= 1_000_000_000_000_000_000,
{
    lemma_pow10_mono(n, 18);
    reveal_with_fuel(pow10, 19);
}

pub fn parse_decimal(s: &str) -> (r: Option<Decimal>)
    ensures
        r == decimal_of(s@),
{
    let len = s.unicode_len();
    let signed = len > 0 && (s.get_char(0) == '+' || s.get_char(0) == '-');
    let negative = signed && s.get_char(0) == '-';
    let first: usize = if signed {
        1
    } else {
        0
    };
    let ghost body = if signed {
        s@.drop_first()
    } else {
        s@
    };
    assert(body =~= s@.subrange(first as int, len as int));
    let mut m: u64 = 0;
    let mut k: u32 = 0;
    let mut dot = false;
    let mut n: u64 = 0;
    let mut i: usize = first;
    assert(s@.subrange(first as int, first as int) =~= Seq::<char>::empty());
    while i < len
        invariant
            first <= i <= len,
            len == s@.len(),
            body == s@.subrange(first as int, len as int),
            body == (if s@.len() > 0 && (s@[0] == '+' || s@[0] == '-') {
                s@.drop_first()
            } else {
                s@
            }),
            negative == (s@.len() > 0 && (s@[0] == '+' || s@[0] == '-') && s@[0] == '-'),
            n <= MAX_DIGITS,
            scan_decimal(s@.subrange(first as int, i as int)) == Some(
                (m as nat, k as nat, dot, n as nat),
            ),
        decreases len - i,
    {
        let c = s.get_char(i);
        let ghost pre = s@.subrange(first as int, i as int);
        assert(s@.subrange(first as int, i + 1).drop_last() =~= pre);
        assert(s@.subrange(first as int, i + 1).last() == c);
        proof {
            lemma_scan_bounds(pre);
            lemma_pow10_bound(n as nat);
        }
        if '0' <= c && c <= '9' {
            if n == MAX_DIGITS {
                assert(scan_decimal(s@.subrange(first as int, i + 1)) matches Some((_, _, _, nn))
                    && nn == n + 1);
                assert(body.take(i - first + 1) =~= s@.subrange(first as int, i + 1));
                proof {
                    lemma_scan_prefix(body, i - first + 1);
                }
                return None;
            }
            let dv = (c as u32 - '0' as u32) as u64;
            assert(m * 10 + dv < 10_000_000_000_000_000_000) by (nonlinear_arith)
                requires m < 1_000_000_000_000_000_000u64, dv < 10;
            m = m * 10 + dv;
            if dot {
                k = k + 1;
            }
            n = n + 1;
        } else if c == '.' && !dot {
            dot = true;
        } else {
            assert(scan_decimal(s@.subrange(first as int, i + 1)) is None);
            assert(body.take(i - first + 1) =~= s@.subrange(first as int, i + 1));
            proof {
                lemma_scan_prefix(body, i - first + 1);
            }
            return None;
        }
        i = i + 1;
    }
    assert(s@.subrange(first as int, len as int) =~= body);
    if n == 0 {
        None
    } else {
        Some(Decimal { negative, mantissa: m, scale: k })
    }
}

pub open spec fn zeros(n: nat) -> Seq<char> {
    Seq::new(n, |i: int| '0')
}

/// The mantissa's digits, with zeros in front so that at least one digit
/// stands before the point.
pub open spec fn padded_digits(d: Decimal) -> Seq<char> {
    let t = decimal_digits(d.mantissa as nat);
    if t.len() < d.scale + 1 {
        zeros((d.scale + 1 - t.len()) as nat) + t
    } else {
        t
    }
}

/// The decimal written out: a `-` if negative, the digits before the point,
/// then, for a positive scale, the point and exactly `scale` digits.
pub open spec fn decimal_text_of(d: Decimal) -> Seq<char> {
    let t = padded_digits(d);
    let cut = t.len() - d.scale;
    (if d.negative {
        seq!['-']
    } else {
        Seq::empty()
    }) + t.take(cut) + (if d.scale == 0 {
        Seq::empty()
    } else {
        seq!['.'] + t.skip(cut)
    })
}

impl Decimal {
    pub fn parse(s: &str) -> (r: Option<Decimal>)
        ensures
            r == decimal_of(s@),
    {
        parse_decimal(s)
    }

    pub fn is_unit_interval(&self) -> (r: bool)
        ensures
            r == in_unit_interval(*self),
    {
        if self.negative && self.mantissa != 0 {
            return false;
        }
        if self.scale >= 20 {
            proof {
                lemma_pow10_mono(20, self.scale as nat);
                reveal_with_fuel(pow10, 21);
            }
            return true;
        }
        let mut p: u64 = 1;
        let mut i: u32 = 0;
        while i < self.scale
            invariant
                i <= self.scale < 20,
                p == pow10(i as nat),
            decreases self.scale - i,
        {
            proof {
                lemma_pow10_mono((i + 1) as nat, 19);
                reveal_with_fuel(pow10, 20);
            }
            p = p * 10;
            i = i + 1;
        }
        self.mantissa <= p
    }

    pub fn to_text(&self) -> (r: String)
        ensures
            r@ == decimal_text_of(*self),
    {
        let t0 = decimal_text(self.mantissa);
        let tl = t0.unicode_len();
        let mut t = String::new();
        let mut z: u64 = 0;
        while (z as u64) + (tl as u64) < (self.scale as u64) + 1
            invariant
                t@ == zeros(z as nat),
                tl == t0@.len(),
                t0@ == decimal_digits(self.mantissa as nat),
                z + tl <= self.scale + 1 || z == 0,
            decreases (self.scale as u64) + 1 - z,
        {
            proof {
                reveal_strlit("0");
            }
            t.append("0");
            assert(t@ =~= zeros((z + 1) as nat));
            z = z + 1;
        }
        t.append(t0.as_str());
        assert(t@ =~= padded_digits(*self));
        let len = t.unicode_len();
        let cut = len - self.scale as usize;
        let mut r = String::new();
        proof {
            reveal_strlit("-");
            reveal_strlit(".");
        }
        if self.negative {
            r.append("-");
        }
        r.append(t.as_str().substring_char(0, cut));
        if self.scale > 0 {
            r.append(".");
            r.append(t.as_str().substring_char(cut, len));
        }
        assert(t@.take(cut as int) =~= t@.subrange(0, cut as int));
        assert(t@.skip(cut as int) =~= t@.subrange(cut as int, len as int));
        assert(r@ =~= decimal_text_of(*self));
        r
    }
}

} // verus!
