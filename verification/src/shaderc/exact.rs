//! The exact values of floating-point expressions: rational numbers, from
//! the decimals that float literals spell and the values of variables. The
//! folding pass keeps these values: what it writes in place of an
//! expression denotes the same real number.
use vstd::prelude::*;
use crate::shaderc::ast::BinOp;
use crate::shaderc::ast::ExprV;
use crate::shaderc::ast::TokV;
use crate::shaderc::ast::Ty;
use crate::shaderc::ast::UnOp;
use crate::shaderc::ast::Value;
use crate::shaderc::decimal::decimal_operand;
use crate::shaderc::decimal::float_text;
use crate::shaderc::decimal::lemma_float_text_reads_back;
use crate::shaderc::decimal::lemma_pow10_add;
use crate::shaderc::decimal::lemma_pow10_bounds;
use crate::shaderc::decimal::plain_decimal;
use crate::shaderc::decimal::pow10;
use crate::shaderc::fold::fold;
use crate::shaderc::fold::fold_decimals;
use crate::shaderc::fold::float_literal;
use crate::shaderc::fold::float_operand;
use crate::shaderc::fold::lemma_literal_of_value;
use crate::shaderc::fold::lit_value;
use crate::shaderc::fold::literal_of;
use crate::shaderc::fold::quotient_digits;
use crate::shaderc::fold::quotient_scale;
use crate::shaderc::fold::fold_literals;
use crate::shaderc::fold::identity;
use crate::shaderc::fold::negated_operand;
use crate::shaderc::fold::simplify_binary;
use crate::shaderc::fold::simplify_unary;
use crate::shaderc::lexer::TokKind;
use crate::shaderc::text::decimal_digits;

verus! {

/// A rational number: numerator and denominator.
pub type Ratio = (int, int);

/// Two rationals with positive denominators are the same number.
pub open spec fn ratio_eq(x: Ratio, y: Ratio) -> bool {
    x.0 * y.1 == y.0 * x.1
}

pub open spec fn ratio_add(x: Ratio, y: Ratio) -> Ratio {
    (x.0 * y.1 + y.0 * x.1, x.1 * y.1)
}

pub open spec fn ratio_sub(x: Ratio, y: Ratio) -> Ratio {
    (x.0 * y.1 - y.0 * x.1, x.1 * y.1)
}

pub open spec fn ratio_mul(x: Ratio, y: Ratio) -> Ratio {
    (x.0 * y.0, x.1 * y.1)
}

/// The quotient, kept with a positive denominator; none by zero.
pub open spec fn ratio_div(x: Ratio, y: Ratio) -> Option<Ratio> {
    if y.0 > 0 {
        Some((x.0 * y.1, x.1 * y.0))
    } else if y.0 < 0 {
        Some((-(x.0 * y.1), -(x.1 * y.0)))
    } else {
        None
    }
}

pub open spec fn ratio_neg(x: Ratio) -> Ratio {
    (-x.0, x.1)
}

/// The real result of an arithmetic operator.
pub open spec fn real_arith(op: BinOp, x: Ratio, y: Ratio) -> Option<Ratio> {
    match op {
        BinOp::Add => Some(ratio_add(x, y)),
        BinOp::Sub => Some(ratio_sub(x, y)),
        BinOp::Mul => Some(ratio_mul(x, y)),
        BinOp::Div => ratio_div(x, y),
        _ => None,
    }
}

/// The result of a comparison of two reals with positive denominators.
pub open spec fn real_compare(op: BinOp, x: Ratio, y: Ratio) -> Option<bool> {
    let a = x.0 * y.1;
    let b = y.0 * x.1;
    match op {
        BinOp::Lt => Some(a < b),
        BinOp::Gt => Some(a > b),
        BinOp::Le => Some(a <= b),
        BinOp::Ge => Some(a >= b),
        BinOp::Eq => Some(a == b),
        BinOp::Ne => Some(a != b),
        _ => None,
    }
}

/// The number `m / 10^s`.
pub open spec fn decimal_ratio(d: (nat, nat)) -> Ratio {
    (d.0 as int, pow10(d.1) as int)
}

/// The number a float literal spells, for a literal of digits around a
/// point.
pub open spec fn float_value(t: TokV) -> Option<Ratio> {
    if t.0 is FloatLiteral {
        match plain_decimal(t.1) {
            Some(d) => Some(decimal_ratio(d)),
            None => None,
        }
    } else {
        None
    }
}

/// The number a float literal expression spells.
pub open spec fn float_literal_value(e: ExprV) -> Option<Ratio> {
    match e {
        ExprV::Leaf(t) => float_value(t),
        _ => None,
    }
}

/// The exact value of an expression of floating-point arithmetic, in an
/// environment that gives the values of variables: float literals, `+`,
/// `-`, `*`, `/`, negation and parentheses. Anything else has no value here.
pub open spec fn real_eval(e: ExprV, env: spec_fn(Seq<char>) -> Option<Ratio>) -> Option<Ratio>
    decreases e,
{
    match e {
        ExprV::Leaf(t) => if t.0 is Identifier { env(t.1) } else { float_value(t) },
        ExprV::Paren(_, x, _) => real_eval(*x, env),
        ExprV::Unary(op, _, x) => if op == UnOp::Neg {
            match real_eval(*x, env) {
                Some(v) => Some(ratio_neg(v)),
                None => None,
            }
        } else {
            None
        },
        ExprV::Binary(op, l, _, r) => match (real_eval(*l, env), real_eval(*r, env)) {
            (Some(a), Some(b)) => real_arith(op, a, b),
            _ => None,
        },
        _ => None,
    }
}

/// Every variable's value has a positive denominator.
pub open spec fn env_ok(env: spec_fn(Seq<char>) -> Option<Ratio>) -> bool {
    forall|n: Seq<char>| #[trigger] env(n) matches Some(v) ==> v.1 > 0
}

proof fn lemma_eq_trans(x: Ratio, y: Ratio, z: Ratio)
    requires
        x.1 > 0,
        y.1 > 0,
        z.1 > 0,
        ratio_eq(x, y),
        ratio_eq(y, z),
    ensures
        ratio_eq(x, z),
{
    assert(x.0 * z.1 * y.1 == z.0 * x.1 * y.1) by (nonlinear_arith)
        requires
            x.0 * y.1 == y.0 * x.1,
            y.0 * z.1 == z.0 * y.1,
    ;
    assert(x.0 * z.1 == z.0 * x.1) by (nonlinear_arith)
        requires
            x.0 * z.1 * y.1 == z.0 * x.1 * y.1,
            y.1 > 0,
    ;
}

proof fn lemma_arith_congruent(op: BinOp, x: Ratio, x2: Ratio, y: Ratio, y2: Ratio)
    requires
        x.1 > 0,
        x2.1 > 0,
        y.1 > 0,
        y2.1 > 0,
        ratio_eq(x, x2),
        ratio_eq(y, y2),
        real_arith(op, x, y) is Some,
    ensures
        real_arith(op, x2, y2) matches Some(w) && real_arith(op, x, y) matches Some(v)
            && ratio_eq(v, w) && w.1 > 0 && v.1 > 0,
{
    assert(x.1 * y.1 > 0 && x2.1 * y2.1 > 0) by (nonlinear_arith)
        requires
            x.1 > 0,
            x2.1 > 0,
            y.1 > 0,
            y2.1 > 0,
    ;
    let (a0, a1, c0, c1) = (x.0, x.1, x2.0, x2.1);
    let (e0, e1, g0, g1) = (y.0, y.1, y2.0, y2.1);
    match op {
        BinOp::Add | BinOp::Sub => {
            lemma_cross_sum(a0, a1, c0, c1, e0, e1, g0, g1);
        },
        BinOp::Mul => {
            assert((a0 * e0) * (c1 * g1) == (a0 * c1) * (e0 * g1)) by (nonlinear_arith);
            assert((c0 * g0) * (a1 * e1) == (c0 * a1) * (g0 * e1)) by (nonlinear_arith);
        },
        BinOp::Div => {
            assert(e0 > 0 <==> g0 > 0) by (nonlinear_arith)
                requires
                    e0 * g1 == g0 * e1,
                    e1 > 0,
                    g1 > 0,
            ;
            assert(e0 < 0 <==> g0 < 0) by (nonlinear_arith)
                requires
                    e0 * g1 == g0 * e1,
                    e1 > 0,
                    g1 > 0,
            ;
            assert((a0 * e1) * (c1 * g0) == (a0 * c1) * (e1 * g0)) by (nonlinear_arith);
            assert((c0 * g1) * (a1 * e0) == (c0 * a1) * (g1 * e0)) by (nonlinear_arith);
            assert(e1 * g0 == g1 * e0) by (nonlinear_arith)
                requires
                    e0 * g1 == g0 * e1,
            ;
            assert((-(a0 * e1)) * (-(c1 * g0)) == (a0 * e1) * (c1 * g0)) by (nonlinear_arith);
            assert((-(c0 * g1)) * (-(a1 * e0)) == (c0 * g1) * (a1 * e0)) by (nonlinear_arith);
            assert(e0 > 0 ==> a1 * e0 > 0) by (nonlinear_arith)
                requires
                    a1 > 0,
            ;
            assert(g0 > 0 ==> c1 * g0 > 0) by (nonlinear_arith)
                requires
                    c1 > 0,
            ;
            assert(e0 < 0 ==> -(a1 * e0) > 0) by (nonlinear_arith)
                requires
                    a1 > 0,
            ;
            assert(g0 < 0 ==> -(c1 * g0) > 0) by (nonlinear_arith)
                requires
                    c1 > 0,
            ;
        },
        _ => {},
    }
}

proof fn lemma_four(p: int, q: int, r: int, t: int)
    ensures
        (p * q) * (r * t) == (p * r) * (q * t),
        (p * q) * (r * t) == (p * t) * (q * r),
        (p * q) * (r * t) == (q * t) * (p * r),
        (p * q) * (r * t) == (q * r) * (p * t),
{
    assert((p * q) * (r * t) == (p * r) * (q * t)) by (nonlinear_arith);
    assert((p * q) * (r * t) == (p * t) * (q * r)) by (nonlinear_arith);
    assert((p * r) * (q * t) == (q * t) * (p * r)) by (nonlinear_arith);
    assert((p * t) * (q * r) == (q * r) * (p * t)) by (nonlinear_arith);
}

proof fn lemma_distrib(p: int, q: int, r: int)
    ensures
        (p + q) * r == p * r + q * r,
        (p - q) * r == p * r - q * r,
{
    assert((p + q) * r == p * r + q * r) by (nonlinear_arith);
    assert((p - q) * r == p * r - q * r) by (nonlinear_arith);
}

/// Sums and differences of equal rationals are equal.
proof fn lemma_cross_sum(a0: int, a1: int, c0: int, c1: int, e0: int, e1: int, g0: int, g1: int)
    requires
        a0 * c1 == c0 * a1,
        e0 * g1 == g0 * e1,
    ensures
        (a0 * e1 + e0 * a1) * (c1 * g1) == (c0 * g1 + g0 * c1) * (a1 * e1),
        (a0 * e1 - e0 * a1) * (c1 * g1) == (c0 * g1 - g0 * c1) * (a1 * e1),
{
    lemma_distrib(a0 * e1, e0 * a1, c1 * g1);
    lemma_distrib(c0 * g1, g0 * c1, a1 * e1);
    lemma_four(a0, e1, c1, g1);
    lemma_four(e0, a1, c1, g1);
    lemma_four(c0, g1, a1, e1);
    lemma_four(g0, c1, a1, e1);
    // (a0 e1)(c1 g1) = (a0 c1)(e1 g1) = (c0 a1)(e1 g1) = (c0 g1)(a1 e1)
    assert((a0 * c1) * (e1 * g1) == (c0 * a1) * (e1 * g1));
    lemma_four(c0, a1, e1, g1);
    // (e0 a1)(c1 g1) = (e0 g1)(a1 c1) = (g0 e1)(a1 c1) = (g0 c1)(a1 e1)
    assert((e0 * g1) * (a1 * c1) == (g0 * e1) * (a1 * c1));
    lemma_four(g0, e1, a1, c1);
    lemma_four(e0, g1, a1, c1);
    assert((e0 * a1) * (c1 * g1) == (e0 * g1) * (a1 * c1)) by (nonlinear_arith);
    assert((g0 * e1) * (a1 * c1) == (g0 * c1) * (a1 * e1)) by (nonlinear_arith);
}

/// A value that `real_eval` gives has a positive denominator.
proof fn lemma_real_eval_den(e: ExprV, env: spec_fn(Seq<char>) -> Option<Ratio>)
    requires
        env_ok(env),
    ensures
        real_eval(e, env) matches Some(v) ==> v.1 > 0,
    decreases e,
{
    match e {
        ExprV::Leaf(t) => {
            if t.0 is Identifier {
                assert(env(t.1) matches Some(v) ==> v.1 > 0);
            } else if let Some(d) = plain_decimal(t.1) {
                lemma_pow10_bounds(d.1);
            }
        },
        ExprV::Paren(_, x, _) => {
            lemma_real_eval_den(*x, env);
        },
        ExprV::Unary(_, _, x) => {
            lemma_real_eval_den(*x, env);
        },
        ExprV::Binary(op, l, _, r) => {
            lemma_real_eval_den(*l, env);
            lemma_real_eval_den(*r, env);
            if let (Some(a), Some(b)) = (real_eval(*l, env), real_eval(*r, env)) {
                if real_arith(op, a, b) is Some {
                    lemma_arith_congruent(op, a, a, b, b);
                }
            }
        },
        _ => {},
    }
}

proof fn lemma_quotient_scale(x: nat, y: nat, k: nat)
    ensures
        quotient_scale(x, y, k) matches Some(j) ==> y > 0 && (x * pow10(j)) % y == 0,
    decreases 19 - k,
{
    if k <= 18 && y != 0 && (x * pow10(k)) % y != 0 {
        lemma_quotient_scale(x, y, k + 1);
    }
}

/// What the folding pass writes for an operation on two float literals
/// denotes the exact real result of that operation on the numbers the
/// literals spell: a float literal for `+`, `-`, `*` and `/` (so that, for a
/// quotient, the result times the divisor is the dividend), and the truth
/// of the comparison for `<`, `>`, `<=`, `>=`, `==` and `!=`.
pub proof fn lemma_fold_decimals_exact(op: BinOp, a: (nat, nat), b: (nat, nat))
    ensures
        fold_decimals(op, a, b) is Some && real_arith(op, decimal_ratio(a), decimal_ratio(b)) is Some ==> {
            let e = fold_decimals(op, a, b)->0;
            let v = real_arith(op, decimal_ratio(a), decimal_ratio(b))->0;
            float_literal_value(e) is Some && ratio_eq(float_literal_value(e)->0, v)
        },
        fold_decimals(op, a, b) is Some && real_compare(op, decimal_ratio(a), decimal_ratio(b)) is Some ==>
            lit_value(fold_decimals(op, a, b)->0) == Some(Value::Bool(real_compare(op, decimal_ratio(a), decimal_ratio(b))->0)),
{
    let pa = pow10(a.1);
    let pb = pow10(b.1);
    lemma_pow10_bounds(a.1);
    lemma_pow10_bounds(b.1);
    lemma_pow10_add(a.1, b.1);
    let x: nat = a.0 * pb;
    let y: nat = b.0 * pa;
    let s: nat = a.1 + b.1;
    assert(pow10(s) == pa * pb);
    let ra = decimal_ratio(a);
    let rb = decimal_ratio(b);
    assert(ra.0 * rb.1 == x && rb.0 * ra.1 == y);
    if real_compare(op, ra, rb) is Some {
        let c = real_compare(op, ra, rb)->0;
        assert(crate::shaderc::fold::exact_compare(op, x as int, y as int) == Some(c));
        assert(fold_decimals(op, a, b) == literal_of(Value::Bool(c)));
        lemma_literal_of_value(Value::Bool(c));
    } else if fold_decimals(op, a, b) is Some {
        match op {
            BinOp::Add => {
                let m: nat = x + y;
                lemma_float_text_reads_back(m, s);
                let (m2, s2) = plain_decimal(float_text(m, s))->0;
                let v = ratio_add(ra, rb);
                assert(v == ((x + y) as int, (pa * pb) as int));
                assert(m2 * pow10(s) == m * pow10(s2));
                assert(ratio_eq((m2 as int, pow10(s2) as int), v));
                assert(fold_decimals(op, a, b) == Some(float_literal(m, s)));
                assert(float_value((TokKind::FloatLiteral, float_text(m, s))) == Some((m2 as int, pow10(s2) as int)));
                assert(real_arith(op, ra, rb) == Some(v));
            },
            BinOp::Sub => {
                let m: nat = (x - y) as nat;
                lemma_float_text_reads_back(m, s);
                let (m2, s2) = plain_decimal(float_text(m, s))->0;
                let v = ratio_sub(ra, rb);
                assert(v == ((x - y) as int, (pa * pb) as int));
                assert(m2 * pow10(s) == m * pow10(s2));
                assert(ratio_eq((m2 as int, pow10(s2) as int), v));
            },
            BinOp::Mul => {
                let m: nat = a.0 * b.0;
                lemma_float_text_reads_back(m, s);
                let (m2, s2) = plain_decimal(float_text(m, s))->0;
                let v = ratio_mul(ra, rb);
                assert(v == ((a.0 * b.0) as int, (pa * pb) as int));
                assert(m2 * pow10(s) == m * pow10(s2));
                assert(ratio_eq((m2 as int, pow10(s2) as int), v));
            },
            BinOp::Div => {
                let k = quotient_scale(x, y, 0)->0;
                lemma_quotient_scale(x, y, 0);
                let q = quotient_digits(x, y, k);
                let pk = pow10(k);
                lemma_pow10_bounds(k);
                assert(q * y == x * pk) by (nonlinear_arith)
                    requires
                        y > 0,
                        (x * pk) % y == 0,
                        q == x * pk / y,
                ;
                lemma_float_text_reads_back(q, k);
                let (m2, s2) = plain_decimal(float_text(q, k))->0;
                let p2 = pow10(s2);
                assert(m2 * pk == q * p2);
                assert(b.0 > 0) by (nonlinear_arith)
                    requires
                        y == b.0 * pa,
                        y > 0,
                ;
                assert(m2 * y * pk == x * p2 * pk) by (nonlinear_arith)
                    requires
                        m2 * pk == q * p2,
                        q * y == x * pk,
                ;
                assert(m2 * y == x * p2) by (nonlinear_arith)
                    requires
                        m2 * y * pk == x * p2 * pk,
                        pk > 0,
                ;
                let v = ratio_div(ra, rb)->0;
                assert(v == (x as int, y as int));
                assert(ratio_eq((m2 as int, p2 as int), v));
            },
            _ => {},
        }
    }
}

pub open spec fn is_zero(v: Option<Ratio>) -> bool {
    match v {
        Some(z) => z.0 == 0 && z.1 > 0,
        None => false,
    }
}

pub open spec fn is_one(v: Option<Ratio>) -> bool {
    match v {
        Some(u) => u.0 == u.1 && u.1 > 0,
        None => false,
    }
}

/// `0.0` spells zero and `1.0` spells one.
proof fn lemma_unit_literals()
    ensures
        is_zero(float_value((TokKind::FloatLiteral, "0.0"@))),
        is_one(float_value((TokKind::FloatLiteral, "1.0"@))),
{
    reveal_strlit("0.0");
    reveal_strlit("1.0");
    assert(pow10(0) == 1);
    assert(decimal_digits(0) == seq!['0']);
    assert(decimal_digits(1) == seq!['1']);
    assert(float_text(0, 0) =~= "0.0"@);
    assert(float_text(1, 0) =~= "1.0"@);
    lemma_float_text_reads_back(0, 0);
    lemma_float_text_reads_back(1, 0);
    let (m0, s0) = plain_decimal("0.0"@)->0;
    let (m1, s1) = plain_decimal("1.0"@)->0;
    lemma_pow10_bounds(s0);
    lemma_pow10_bounds(s1);
}

proof fn lemma_neg_congruent(x: Ratio, y: Ratio)
    requires
        ratio_eq(x, y),
    ensures
        ratio_eq(ratio_neg(x), ratio_neg(y)),
{
    assert((-x.0) * y.1 == -(x.0 * y.1) && (-y.0) * x.1 == -(y.0 * x.1)) by (nonlinear_arith);
}

/// Subtracting zero, and multiplying or dividing by one, keep a number.
proof fn lemma_neutral_operands(x: Ratio, z: Ratio, u: Ratio)
    requires
        x.1 > 0,
        z.0 == 0,
        z.1 > 0,
        u.0 == u.1,
        u.1 > 0,
    ensures
        ratio_eq(ratio_sub(x, z), x),
        ratio_eq(ratio_mul(x, u), x),
        ratio_eq(ratio_mul(u, x), x),
        ratio_div(x, u) is Some && ratio_eq(ratio_div(x, u)->0, x),
{
    assert((x.0 * z.1 - z.0 * x.1) * x.1 == x.0 * (x.1 * z.1)) by (nonlinear_arith)
        requires
            z.0 == 0,
    ;
    assert((x.0 * u.0) * x.1 == x.0 * (x.1 * u.1)) by (nonlinear_arith)
        requires
            u.0 == u.1,
    ;
    assert((u.0 * x.0) * x.1 == x.0 * (u.1 * x.1)) by (nonlinear_arith)
        requires
            u.0 == u.1,
    ;
    assert((x.0 * u.1) * x.1 == x.0 * (x.1 * u.0)) by (nonlinear_arith)
        requires
            u.0 == u.1,
    ;
}

/// Folding keeps the exact value of every floating-point expression that
/// has one: what the pass writes in place of an expression denotes the same
/// real number, whatever the values of the variables.
pub proof fn lemma_fold_keeps_real_value(
    decls: Seq<(Seq<char>, Ty)>,
    e: ExprV,
    env: spec_fn(Seq<char>) -> Option<Ratio>,
)
    requires
        env_ok(env),
        real_eval(e, env) is Some,
    ensures
        real_eval(fold(decls, e), env) is Some,
        ratio_eq(real_eval(fold(decls, e), env)->0, real_eval(e, env)->0),
    decreases e,
{
    lemma_real_eval_den(e, env);
    match e {
        ExprV::Leaf(t) => {
            let v = real_eval(e, env)->0;
            assert(ratio_eq(v, v)) by (nonlinear_arith);
        },
        ExprV::Paren(_, x, _) => {
            lemma_fold_keeps_real_value(decls, *x, env);
        },
        ExprV::Unary(op, t, x) => {
            lemma_fold_keeps_real_value(decls, *x, env);
            let y = fold(decls, *x);
            lemma_real_eval_den(*x, env);
            lemma_real_eval_den(y, env);
            let vx = real_eval(*x, env)->0;
            let vy = real_eval(y, env)->0;
            lemma_neg_congruent(vy, vx);
            match negated_operand(op, y) {
                Some(z) => {
                    if let ExprV::Paren(_, inner, _) = y {
                        assert(real_eval(y, env) == real_eval(*inner, env));
                    }
                    assert(real_eval(z, env) == Some(ratio_neg(vy)));
                },
                None => {},
            }
        },
        ExprV::Binary(op, l, t, r) => {
            lemma_fold_keeps_real_value(decls, *l, env);
            lemma_fold_keeps_real_value(decls, *r, env);
            let l2 = fold(decls, *l);
            let r2 = fold(decls, *r);
            lemma_real_eval_den(*l, env);
            lemma_real_eval_den(*r, env);
            lemma_real_eval_den(l2, env);
            lemma_real_eval_den(r2, env);
            let vl = real_eval(*l, env)->0;
            let vr = real_eval(*r, env)->0;
            let vl2 = real_eval(l2, env)->0;
            let vr2 = real_eval(r2, env)->0;
            let v = real_arith(op, vl, vr)->0;
            lemma_arith_congruent(op, vl, vl2, vr, vr2);
            let v2 = real_arith(op, vl2, vr2)->0;
            assert(ratio_eq(v2, v)) by {
                assert(ratio_eq(v, v2));
                assert(v2.0 * v.1 == v.0 * v2.1) by (nonlinear_arith)
                    requires
                        v.0 * v2.1 == v2.0 * v.1,
                ;
            }
            assert(lit_value(l2) is None && lit_value(r2) is None);
            match fold_literals(op, l2, r2) {
                Some(c) => {
                    let a = float_operand(l2)->0;
                    let b = float_operand(r2)->0;
                    assert(vl2 == decimal_ratio(a) && vr2 == decimal_ratio(b));
                    lemma_fold_decimals_exact(op, a, b);
                    let w = float_literal_value(c)->0;
                    assert(real_eval(c, env) == Some(w));
                    lemma_pow10_bounds(a.1);
                    lemma_pow10_bounds(b.1);
                    lemma_real_eval_den(c, env);
                    lemma_eq_trans(w, v2, v);
                },
                None => {
                    lemma_unit_literals();
                    let zero = float_value((TokKind::FloatLiteral, "0.0"@))->0;
                    let one = float_value((TokKind::FloatLiteral, "1.0"@))->0;
                    match identity(decls, op, l2, r2) {
                        Some(x) => {
                            lemma_neutral_operands(vl2, zero, one);
                            lemma_neutral_operands(vr2, zero, one);
                            let vx = real_eval(x, env)->0;
                            assert(x == l2 || x == r2);
                            assert(ratio_eq(v2, vx));
                            assert(ratio_eq(vx, v2)) by (nonlinear_arith)
                                requires
                                    v2.0 * vx.1 == vx.0 * v2.1,
                            ;
                            lemma_eq_trans(vx, v2, v);
                        },
                        None => {},
                    }
                },
            }
        },
        _ => {},
    }
}

} // verus!
