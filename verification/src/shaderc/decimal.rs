//! Floating-point literals written as digits around a point (`2.5`, `3.`,
//! `.25`), read as exact decimal numbers, and the shortest literal that
//! spells a decimal number, for the exact arithmetic of the folding pass.
use vstd::prelude::*;
use crate::shaderc::text::decimal_digits;
use crate::shaderc::text::decimal_of;
use crate::shaderc::text::decimal_value;
use crate::shaderc::text::decimal_value_u32;
use crate::shaderc::text::digit_char;
use crate::shaderc::text::digit_exec;
use crate::shaderc::text::digit_value;
use crate::shaderc::text::digit_to_char;
use crate::shaderc::text::is_digit;

verus! {

/// `10` to the power `n`.
pub open spec fn pow10(n: nat) -> nat
    decreases n,
{
    if n == 0 { 1 } else { 10 * pow10((n - 1) as nat) }
}

/// Whether `text` has its point at `p` and digits everywhere else.
pub open spec fn point_at(text: Seq<char>, p: int) -> bool {
    &&& 0 <= p < text.len()
    &&& text[p] == '.'
    &&& forall|i: int| 0 <= i < text.len() && i != p ==> is_digit(#[trigger] text[i])
}

/// The decimal number a literal such as `2.50` spells, as the integer of its
/// digits and the number of digits after the point (`(250, 2)`): a literal
/// of digits with one point and at least one digit; none for any other
/// form (an exponent, a suffix).
pub open spec fn plain_decimal(text: Seq<char>) -> Option<(nat, nat)> {
    if text.len() >= 2 && exists|p: int| point_at(text, p) {
        let p = choose|p: int| point_at(text, p);
        Some((decimal_value(text.take(p) + text.skip(p + 1)), (text.len() - p - 1) as nat))
    } else {
        None
    }
}

/// The shortest digits after the point: the `s` digits of `f`, with zeros
/// at the end dropped down to one digit.
pub open spec fn padded(f: nat, s: nat) -> Seq<char>
    decreases s,
{
    if s == 0 { Seq::empty() } else { padded(f / 10, (s - 1) as nat).push(digit_char(f % 10)) }
}

pub open spec fn trim_zeros(d: Seq<char>) -> Seq<char>
    decreases d.len(),
{
    if d.len() > 1 && d.last() == '0' { trim_zeros(d.drop_last()) } else { d }
}

/// The literal that spells `m / 10^s`: its whole part, a point, and the
/// shortest fractional digits (at least one: `6.0`, `2.75`).
pub open spec fn float_text(m: nat, s: nat) -> Seq<char> {
    let frac = if s == 0 { seq!['0'] } else { trim_zeros(padded(m % pow10(s), s)) };
    decimal_digits(m / pow10(s)) + seq!['.'] + frac
}

proof fn lemma_pow10_mono(a: nat, b: nat)
    requires
        a <= b,
    ensures
        1 <= pow10(a) <= pow10(b),
    decreases b,
{
    if a < b {
        lemma_pow10_mono(a, (b - 1) as nat);
    } else if b > 0 {
        lemma_pow10_mono(0, (b - 1) as nat);
    }
}

pub proof fn lemma_pow10_bounds(n: nat)
    ensures
        pow10(n) >= 1,
        n <= 9 ==> pow10(n) <= 1_000_000_000,
        n <= 18 ==> pow10(n) <= 1_000_000_000_000_000_000,
{
    assert(pow10(9) == 1_000_000_000) by {
        reveal_with_fuel(pow10, 10);
    }
    assert(pow10(18) == 1_000_000_000_000_000_000) by {
        reveal_with_fuel(pow10, 19);
    }
    lemma_pow10_mono(0, n);
    if n <= 9 {
        lemma_pow10_mono(n, 9);
    }
    if n <= 18 {
        lemma_pow10_mono(n, 18);
    }
}

/// `10^n` for `n` up to 18.
pub fn pow10_exec(n: u32) -> (r: u64)
    requires
        n <= 18,
    ensures
        r as nat == pow10(n as nat),
{
    let mut r: u64 = 1;
    let mut i: u32 = 0;
    while i < n
        invariant
            i <= n <= 18,
            r as nat == pow10(i as nat),
        decreases n - i,
    {
        proof {
            lemma_pow10_bounds(i as nat);
        }
        r = r * 10;
        i = i + 1;
    }
    r
}

/// The point of a literal of digits and one point, if it is one.
fn find_point(text: &Vec<char>) -> (r: Option<usize>)
    ensures
        match r {
            Some(p) => point_at(text@, p as int),
            None => !exists|p: int| point_at(text@, p),
        },
{
    let mut found: Option<usize> = None;
    let mut i: usize = 0;
    while i < text.len()
        invariant
            i <= text@.len(),
            match found {
                Some(p) => p < i && text@[p as int] == '.'
                    && forall|j: int| 0 <= j < i && j != p ==> is_digit(#[trigger] text@[j]),
                None => forall|j: int| 0 <= j < i ==> is_digit(#[trigger] text@[j]),
            },
        decreases text@.len() - i,
    {
        let c = text[i];
        if c == '.' {
            if found.is_some() {
                proof {
                    assert forall|p: int| !point_at(text@, p) by {
                        if point_at(text@, p) {
                            let q = found->0 as int;
                            if p == i as int {
                                assert(is_digit(text@[q]));
                            } else {
                                assert(is_digit(text@[i as int]));
                            }
                        }
                    }
                }
                return None;
            }
            found = Some(i);
        } else if !digit_exec(c) {
            proof {
                assert forall|p: int| !point_at(text@, p) by {
                    if point_at(text@, p) {
                        assert(p != i as int);
                        assert(is_digit(text@[i as int]));
                    }
                }
            }
            return None;
        }
        i = i + 1;
    }
    match found {
        Some(p) => Some(p),
        None => {
            proof {
                assert forall|p: int| !point_at(text@, p) by {
                    if point_at(text@, p) {
                        assert(is_digit(text@[p]));
                    }
                }
            }
            None
        },
    }
}

/// The operand of the decimal arithmetic that a literal's text gives: its
/// digits and scale, when they are at most `u32::MAX` and 9.
pub open spec fn decimal_operand(text: Seq<char>) -> Option<(nat, nat)> {
    match plain_decimal(text) {
        Some((m, s)) => if m <= u32::MAX && s <= 9 { Some((m, s)) } else { None },
        None => None,
    }
}

/// Reads a literal's text as a decimal operand.
pub fn decimal_operand_exec(text: &Vec<char>) -> (r: Option<(u32, u32)>)
    ensures
        match r {
            Some((m, s)) => decimal_operand(text@) == Some((m as nat, s as nat)),
            None => decimal_operand(text@) is None,
        },
{
    if text.len() < 2 {
        return None;
    }
    let p = match find_point(text) {
        Some(p) => p,
        None => { return None; },
    };
    proof {
        let q = choose|q: int| point_at(text@, q);
        assert(point_at(text@, q));
        if q != p as int {
            assert(is_digit(text@[q]));
        }
    }
    let mut digits: Vec<char> = Vec::new();
    let mut i: usize = 0;
    while i < text.len()
        invariant
            p < text@.len(),
            point_at(text@, p as int),
            i <= text@.len(),
            digits@ == (if i <= p { text@.take(i as int) } else { text@.take(p as int) + text@.subrange(p + 1, i as int) }),
        decreases text@.len() - i,
    {
        if i != p {
            digits.push(text[i]);
        }
        i = i + 1;
        proof {
            if i <= p {
                assert(text@.take(i as int) =~= text@.take(i - 1).push(text@[i - 1]));
            } else if i == p + 1 {
                assert(text@.subrange(p + 1, i as int) =~= Seq::<char>::empty());
                assert(text@.take(p as int) + text@.subrange(p + 1, i as int) =~= text@.take(p as int));
            } else {
                assert(text@.subrange(p + 1, i as int) =~= text@.subrange(p + 1, i - 1).push(text@[i - 1]));
            }
        }
    }
    assert(text@.subrange(p + 1, text@.len() as int) =~= text@.skip(p + 1));
    assert forall|j: int| 0 <= j < digits@.len() implies is_digit(#[trigger] digits@[j]) by {
        if j < p {
            assert(digits@[j] == text@[j]);
        } else {
            assert(digits@[j] == text@[j + 1]);
        }
    }
    let s = text.len() - p - 1;
    match decimal_value_u32(digits.as_slice()) {
        Some(m) => if s <= 9 { Some((m, s as u32)) } else { None },
        None => None,
    }
}

fn padded_exec(f: u64, s: u32) -> (v: Vec<char>)
    ensures
        v@ == padded(f as nat, s as nat),
    decreases s,
{
    if s == 0 {
        Vec::new()
    } else {
        let mut v = padded_exec(f / 10, s - 1);
        v.push(digit_to_char(f % 10));
        v
    }
}

fn trim_zeros_exec(d: Vec<char>) -> (v: Vec<char>)
    ensures
        v@ == trim_zeros(d@),
{
    let mut v = d;
    while v.len() > 1 && v[v.len() - 1] == '0'
        invariant
            trim_zeros(v@) == trim_zeros(d@),
        decreases v@.len(),
    {
        let ghost before = v@;
        v.pop();
        assert(v@ =~= before.drop_last());
    }
    v
}

/// The literal text of `m / 10^s`: exactly `float_text`.
pub fn float_text_exec(m: u64, s: u32) -> (v: Vec<char>)
    requires
        s <= 18,
    ensures
        v@ == float_text(m as nat, s as nat),
{
    let p = pow10_exec(s);
    proof {
        lemma_pow10_bounds(s as nat);
    }
    let mut v = decimal_of(m / p);
    v.push('.');
    let frac = if s == 0 {
        let mut z: Vec<char> = Vec::new();
        z.push('0');
        z
    } else {
        trim_zeros_exec(padded_exec(m % p, s))
    };
    let ghost whole = v@;
    let mut i: usize = 0;
    while i < frac.len()
        invariant
            i <= frac@.len(),
            v@ == whole + frac@.take(i as int),
        decreases frac@.len() - i,
    {
        v.push(frac[i]);
        i = i + 1;
        assert(frac@.take(i as int) =~= frac@.take(i - 1).push(frac@[i - 1]));
    }
    assert(frac@.take(i as int) =~= frac@);
    assert(frac@ == (if s == 0 { seq!['0'] } else { trim_zeros(padded((m % p) as nat, s as nat)) }));
    v
}

/// `10^(a + b) == 10^a * 10^b`.
pub proof fn lemma_pow10_add(a: nat, b: nat)
    ensures
        pow10(a + b) == pow10(a) * pow10(b),
    decreases b,
{
    if b > 0 {
        let b1 = (b - 1) as nat;
        lemma_pow10_add(a, b1);
        assert((a + b - 1) as nat == a + b1);
        assert(pow10(a + b) == 10 * pow10(a + b1));
        assert(pow10(b) == 10 * pow10(b1));
        let pa = pow10(a);
        let pb1 = pow10(b1);
        assert(pa * (10 * pb1) == 10 * (pa * pb1)) by (nonlinear_arith);
        assert(pow10(a + b) == 10 * (pa * pb1));
        assert(pow10(a) * pow10(b) == pa * (10 * pb1));
    } else {
        assert(a + b == a);
        assert(pow10(b) == 1);
    }
}

proof fn lemma_digit_char(d: nat)
    requires
        d < 10,
    ensures
        is_digit(digit_char(d)),
        digit_value(digit_char(d)) == d,
{
}

/// The value of digits written after other digits.
proof fn lemma_decimal_value_concat(a: Seq<char>, b: Seq<char>)
    ensures
        decimal_value(a + b) == decimal_value(a) * pow10(b.len()) + decimal_value(b),
    decreases b.len(),
{
    if b.len() == 0 {
        assert(a + b =~= a);
        assert(pow10(0) == 1);
        assert(decimal_value(b) == 0);
    } else {
        let b1 = b.drop_last();
        lemma_decimal_value_concat(a, b1);
        assert((a + b).drop_last() =~= a + b1);
        assert((a + b).last() == b.last());
        let va = decimal_value(a);
        let vb1 = decimal_value(b1);
        let p1 = pow10(b1.len());
        let d = digit_value(b.last());
        assert(b1.len() == (b.len() - 1) as nat);
        assert(pow10(b.len()) == 10 * p1);
        assert(decimal_value(b) == vb1 * 10 + d);
        assert(decimal_value(a + b) == decimal_value(a + b1) * 10 + d);
        assert((va * p1 + vb1) * 10 + d == va * (10 * p1) + (vb1 * 10 + d)) by (nonlinear_arith);
        assert(decimal_value(a + b1) == va * p1 + vb1);
        assert(decimal_value(a + b) == (va * p1 + vb1) * 10 + d);
        assert(decimal_value(a) * pow10(b.len()) == va * (10 * p1));
    }
}

proof fn lemma_padded(f: nat, s: nat)
    requires
        f < pow10(s),
    ensures
        padded(f, s).len() == s,
        decimal_value(padded(f, s)) == f,
        forall|i: int| 0 <= i < s ==> is_digit(#[trigger] padded(f, s)[i]),
    decreases s,
{
    if s > 0 {
        let q = f / 10;
        let r = f % 10;
        assert(f == q * 10 + r && r < 10) by (nonlinear_arith)
            requires
                q == f / 10,
                r == f % 10,
        ;
        assert(pow10(s) == 10 * pow10((s - 1) as nat));
        assert(q < pow10((s - 1) as nat)) by (nonlinear_arith)
            requires
                f == q * 10 + r,
                r >= 0,
                f < 10 * pow10((s - 1) as nat),
        ;
        lemma_padded(q, (s - 1) as nat);
        lemma_digit_char(r);
        let p = padded(q, (s - 1) as nat);
        assert(padded(f, s) == p.push(digit_char(r)));
        assert(padded(f, s).drop_last() =~= p);
        assert forall|i: int| 0 <= i < s implies is_digit(#[trigger] padded(f, s)[i]) by {
            if i < s - 1 {
                assert(padded(f, s)[i] == p[i]);
            }
        }
    }
}

proof fn lemma_trim_zeros(d: Seq<char>)
    requires
        d.len() >= 1,
        forall|i: int| 0 <= i < d.len() ==> is_digit(#[trigger] d[i]),
    ensures
        1 <= trim_zeros(d).len() <= d.len(),
        forall|i: int| 0 <= i < trim_zeros(d).len() ==> is_digit(#[trigger] trim_zeros(d)[i]),
        decimal_value(trim_zeros(d)) * pow10((d.len() - trim_zeros(d).len()) as nat) == decimal_value(d),
    decreases d.len(),
{
    if d.len() > 1 && d.last() == '0' {
        let d1 = d.drop_last();
        lemma_trim_zeros(d1);
        let t = trim_zeros(d1);
        assert(trim_zeros(d) == t);
        let z1 = (d1.len() - t.len()) as nat;
        assert((d.len() - t.len()) as nat == z1 + 1);
        assert(pow10(z1 + 1) == 10 * pow10(z1));
        assert(digit_value(d.last()) == 0);
        assert(decimal_value(d) == decimal_value(d1) * 10);
        let vt = decimal_value(t);
        let p1 = pow10(z1);
        assert(vt * (10 * p1) == (vt * p1) * 10) by (nonlinear_arith);
        assert(vt * p1 == decimal_value(d1));
        assert(pow10((d.len() - trim_zeros(d).len()) as nat) == 10 * p1);
    } else {
        assert(trim_zeros(d) == d);
        assert((d.len() - trim_zeros(d).len()) as nat == 0);
        assert(pow10(0) == 1);
    }
}

/// The float literal that `float_text` writes for `m / 10^s` reads back as
/// the same number: its digits and scale `(m2, s2)` give
/// `m2 / 10^s2 == m / 10^s`.
pub proof fn lemma_float_text_reads_back(m: nat, s: nat)
    ensures
        plain_decimal(float_text(m, s)) matches Some((m2, s2)) && m2 * pow10(s) == m * pow10(s2),
{
    lemma_pow10_bounds(s);
    let w = m / pow10(s);
    let f = m % pow10(s);
    assert(m == w * pow10(s) + f && f < pow10(s)) by (nonlinear_arith)
        requires
            pow10(s) >= 1,
            w == m / pow10(s),
            f == m % pow10(s),
    ;
    let dd = decimal_digits(w);
    crate::shaderc::text::lemma_decimal_roundtrip(w);
    let frac = if s == 0 { seq!['0'] } else { trim_zeros(padded(f, s)) };
    if s == 0 {
        assert(is_digit(frac[0]));
        assert(frac.drop_last() =~= Seq::<char>::empty());
        assert(decimal_value(Seq::<char>::empty()) == 0);
        assert(frac.last() == '0');
        assert(digit_value('0') == 0);
        assert(decimal_value(frac) == decimal_value(frac.drop_last()) * 10 + digit_value(frac.last()));
        assert(decimal_value(frac) == 0);
    } else {
        lemma_padded(f, s);
        lemma_trim_zeros(padded(f, s));
    }
    let text = float_text(m, s);
    assert(text == dd + seq!['.'] + frac);
    let p = dd.len() as int;
    assert forall|i: int| 0 <= i < text.len() && i != p implies is_digit(#[trigger] text[i]) by {
        if i < p {
            assert(text[i] == dd[i]);
        } else {
            assert(text[i] == frac[i - p - 1]);
        }
    }
    assert(point_at(text, p));
    let q = choose|q: int| point_at(text, q);
    assert(q == p) by {
        if q != p {
            assert(is_digit(text[q]));
        }
    }
    assert(text.take(p) + text.skip(p + 1) =~= dd + frac);
    lemma_decimal_value_concat(dd, frac);
    let m2 = decimal_value(dd + frac);
    let s2 = frac.len();
    assert(s2 == text.len() - p - 1);
    let vf = decimal_value(frac);
    let pf = pow10(s2);
    assert(m2 == w * pf + vf);
    if s == 0 {
        assert(pow10(0) == 1);
        assert(pf == 10) by {
            reveal_with_fuel(pow10, 2);
        }
        assert(m / 1 == m);
        assert(w == m);
        assert(m2 * pow10(s) == m * pow10(s2));
    } else {
        let z = (s - s2) as nat;
        lemma_pow10_add(z, s2);
        assert(z + s2 == s);
        let pz = pow10(z);
        assert(vf * pz == f);
        assert(pow10(s) == pz * pf);
        assert((w * pf + vf) * (pz * pf) == (w * (pz * pf) + vf * pz) * pf) by (nonlinear_arith);
    }
}

} // verus!
