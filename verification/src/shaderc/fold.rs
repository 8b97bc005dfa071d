//! Constant folding and algebraic simplification of GLSL expressions.
//!
//! Integer and boolean constants are folded when the exact result is a
//! literal of the same type (no overflow, no negative `int`); float literals
//! written as digits around a point are added, subtracted, multiplied,
//! divided and compared exactly as decimals (`2.0 * 3.0` becomes `6.0`,
//! `1.0 / 4.0` becomes `0.25`; `1.0 / 3.0`, which no decimal spells, stays
//! as written); and operations
//! with a neutral or absorbing operand are simplified where the operand's
//! declared type makes that exact (`x + 0` only for integers, `x * 1.0` only
//! for floats, `x * 0` only for integer variables).
use vstd::prelude::*;
use crate::shaderc::ast::apply_binary;
use crate::shaderc::ast::apply_unary;
use crate::shaderc::ast::as_uint;
use crate::shaderc::ast::eval;
use crate::shaderc::ast::int_literal_value;
use crate::shaderc::ast::literal_value;
use crate::shaderc::ast::prec;
use crate::shaderc::ast::trunc_div;
use crate::shaderc::ast::wf;
use crate::shaderc::ast::wrap_i32;
use crate::shaderc::ast::wrap_u32;
use crate::shaderc::ast::BinOp;
use crate::shaderc::ast::ExprV;
use crate::shaderc::ast::TokV;
use crate::shaderc::ast::Ty;
use crate::shaderc::ast::UnOp;
use crate::shaderc::ast::Value;
use crate::shaderc::ast::Expr;
use crate::shaderc::ast::bin_prec;
use crate::shaderc::lexer::TokKind;
use crate::shaderc::lexer::Token;
use crate::shaderc::text::chars_of;
use crate::shaderc::text::decimal_digits;
use crate::shaderc::text::decimal_of;
use crate::shaderc::text::decimal_value_u32;
use crate::shaderc::text::is_canonical_decimal;
use crate::shaderc::text::digit_exec;
use crate::shaderc::text::spells;
use crate::shaderc::text::decimal_value;
use crate::shaderc::text::lemma_decimal_roundtrip;
use crate::shaderc::decimal::decimal_operand;
use crate::shaderc::decimal::decimal_operand_exec;
use crate::shaderc::decimal::float_text;
use crate::shaderc::decimal::float_text_exec;
use crate::shaderc::decimal::lemma_pow10_bounds;
use crate::shaderc::decimal::pow10;
use crate::shaderc::decimal::pow10_exec;

verus! {

/// What the declarations say of a name: nothing, one type, or several.
#[derive(PartialEq, Eq, Structural, Clone, Copy)]
pub enum DeclState {
    Absent,
    One(Ty),
    Conflict,
}

/// The declarations of `name` among `decls`, in order.
pub open spec fn decl_state(decls: Seq<(Seq<char>, Ty)>, name: Seq<char>) -> DeclState
    decreases decls.len(),
{
    if decls.len() == 0 {
        DeclState::Absent
    } else {
        let before = decl_state(decls.drop_last(), name);
        let (n, t) = decls.last();
        if n != name {
            before
        } else {
            match before {
                DeclState::Absent => DeclState::One(t),
                DeclState::One(u) => if u == t { DeclState::One(t) } else { DeclState::Conflict },
                DeclState::Conflict => DeclState::Conflict,
            }
        }
    }
}

/// The type of a variable, where every declaration of its name agrees.
pub open spec fn declared_type(decls: Seq<(Seq<char>, Ty)>, name: Seq<char>) -> Option<Ty> {
    match decl_state(decls, name) {
        DeclState::One(t) => Some(t),
        _ => None,
    }
}

/// An environment that gives each variable of a known type a value of that
/// type, or none (floating-point values are not modelled).
pub open spec fn env_respects(decls: Seq<(Seq<char>, Ty)>, env: spec_fn(Seq<char>) -> Option<Value>) -> bool {
    forall|name: Seq<char>| #![trigger declared_type(decls, name)] {
        &&& declared_type(decls, name) == Some(Ty::Int) ==> (env(name) is None || env(name) matches Some(Value::Int(_)))
        &&& declared_type(decls, name) == Some(Ty::Uint) ==> (env(name) is None || env(name) matches Some(Value::Uint(_)))
        &&& declared_type(decls, name) == Some(Ty::Bool) ==> (env(name) is None || env(name) matches Some(Value::Bool(_)))
        &&& declared_type(decls, name) == Some(Ty::Float) ==> env(name) is None
    }
}

/// The declared type of an expression that is a variable.
pub open spec fn var_type(decls: Seq<(Seq<char>, Ty)>, e: ExprV) -> Option<Ty> {
    match e {
        ExprV::Leaf(t) => if t.0 is Identifier { declared_type(decls, t.1) } else { None },
        _ => None,
    }
}

pub open spec fn is_var_of(decls: Seq<(Seq<char>, Ty)>, e: ExprV, ty: Ty) -> bool {
    var_type(decls, e) == Some(ty)
}

/// The value of an expression that is a literal.
pub open spec fn lit_value(e: ExprV) -> Option<Value> {
    match e {
        ExprV::Leaf(t) => literal_value(t),
        _ => None,
    }
}

pub open spec fn is_int_lit(e: ExprV, v: int) -> bool {
    lit_value(e) matches Some(Value::Int(x)) && x == v
}

pub open spec fn is_uint_lit(e: ExprV, v: int) -> bool {
    lit_value(e) matches Some(Value::Uint(x)) && x == v
}

pub open spec fn is_float_lit(e: ExprV, text: Seq<char>) -> bool {
    e matches ExprV::Leaf(t) && t.0 is FloatLiteral && t.1 == text
}

/// The literal that spells a value, where there is one (a negative `int`
/// has none: it would be a negation).
pub open spec fn literal_of(v: Value) -> Option<ExprV> {
    match v {
        Value::Int(x) => if x >= 0 {
            Some(ExprV::Leaf((TokKind::IntLiteral, decimal_digits(x as nat))))
        } else {
            None
        },
        Value::Uint(x) => Some(ExprV::Leaf((TokKind::IntLiteral, decimal_digits(x as nat).push('u')))),
        Value::Bool(b) => Some(ExprV::Leaf((TokKind::BoolLiteral, if b { "true"@ } else { "false"@ }))),
    }
}

/// Exact integer arithmetic on non-negative operands.
pub open spec fn exact_arith(op: BinOp, x: int, y: int) -> Option<int> {
    match op {
        BinOp::Add => Some(x + y),
        BinOp::Sub => Some(x - y),
        BinOp::Mul => Some(x * y),
        BinOp::Div => if y > 0 { Some(x / y) } else { None },
        BinOp::Mod => if y > 0 { Some(x % y) } else { None },
        _ => None,
    }
}

pub open spec fn exact_compare(op: BinOp, x: int, y: int) -> Option<bool> {
    match op {
        BinOp::Lt => Some(x < y),
        BinOp::Gt => Some(x > y),
        BinOp::Le => Some(x <= y),
        BinOp::Ge => Some(x >= y),
        BinOp::Eq => Some(x == y),
        BinOp::Ne => Some(x != y),
        _ => None,
    }
}

/// The folded value of an operation on two literal values: the exact
/// result, where it is a value of the operation's type that a literal can
/// spell.
pub open spec fn fold_const(op: BinOp, a: Value, b: Value) -> Option<Value> {
    match (a, b) {
        (Value::Bool(x), Value::Bool(y)) => match op {
            BinOp::And => Some(Value::Bool(x && y)),
            BinOp::Or => Some(Value::Bool(x || y)),
            BinOp::Xor => Some(Value::Bool(x != y)),
            BinOp::Eq => Some(Value::Bool(x == y)),
            BinOp::Ne => Some(Value::Bool(x != y)),
            _ => None,
        },
        (Value::Bool(_), _) | (_, Value::Bool(_)) => None,
        _ => {
            let x = match a { Value::Int(i) => i as int, Value::Uint(u) => u as int, _ => 0 };
            let y = match b { Value::Int(i) => i as int, Value::Uint(u) => u as int, _ => 0 };
            let signed = a is Int && b is Int;
            if x < 0 || y < 0 {
                None
            } else {
                match exact_compare(op, x, y) {
                    Some(c) => Some(Value::Bool(c)),
                    None => match exact_arith(op, x, y) {
                        Some(r) => if signed && 0 <= r <= i32::MAX {
                            Some(Value::Int(r as i32))
                        } else if !signed && 0 <= r <= u32::MAX {
                            Some(Value::Uint(r as u32))
                        } else {
                            None
                        },
                        None => None,
                    },
                }
            }
        },
    }
}

/// The decimal number a float literal spells, as digits and scale (see
/// `decimal::decimal_operand`).
pub open spec fn float_operand(e: ExprV) -> Option<(nat, nat)> {
    match e {
        ExprV::Leaf(t) => if t.0 is FloatLiteral { decimal_operand(t.1) } else { None },
        _ => None,
    }
}

/// The float literal that spells `m / 10^s`.
pub open spec fn float_literal(m: nat, s: nat) -> ExprV {
    ExprV::Leaf((TokKind::FloatLiteral, float_text(m, s)))
}

/// The fewest digits, from `k` up to 18, after the point that the exact
/// quotient `x / y` needs, if it needs at most 18.
pub open spec fn quotient_scale(x: nat, y: nat, k: nat) -> Option<nat>
    decreases 19 - k,
{
    if k > 18 || y == 0 {
        None
    } else if (x * pow10(k)) % y == 0 {
        Some(k)
    } else {
        quotient_scale(x, y, k + 1)
    }
}

/// The digits of `x / y` written with `k` digits after the point.
pub open spec fn quotient_digits(x: nat, y: nat, k: nat) -> nat {
    x * pow10(k) / y
}

/// The folding of an operation on two float literals `a` and `b`, each a
/// pair of digits and scale: the exact sum, the exact difference where it
/// is not negative, the exact product, the exact quotient where it is a
/// decimal of at most 18 digits after the point (and at most `u64::MAX`
/// digits in all), or the comparison. Both operands are brought to the
/// scale of `a.1 + b.1` first.
pub open spec fn fold_decimals(op: BinOp, a: (nat, nat), b: (nat, nat)) -> Option<ExprV> {
    let x = a.0 * pow10(b.1);
    let y = b.0 * pow10(a.1);
    let s = a.1 + b.1;
    match exact_compare(op, x as int, y as int) {
        Some(c) => literal_of(Value::Bool(c)),
        None => match op {
            BinOp::Add => Some(float_literal(x + y, s)),
            BinOp::Sub => if x >= y { Some(float_literal((x - y) as nat, s)) } else { None },
            BinOp::Mul => Some(float_literal(a.0 * b.0, s)),
            BinOp::Div => match quotient_scale(x, y, 0) {
                Some(k) => if quotient_digits(x, y, k) <= u64::MAX {
                    Some(float_literal(quotient_digits(x, y, k), k))
                } else {
                    None
                },
                None => None,
            },
            _ => None,
        },
    }
}

/// The constant folding of a binary operation on two literals, if it applies.
pub open spec fn fold_literals(op: BinOp, l: ExprV, r: ExprV) -> Option<ExprV> {
    match (lit_value(l), lit_value(r)) {
        (Some(a), Some(b)) => match fold_const(op, a, b) {
            Some(v) => literal_of(v),
            None => None,
        },
        _ => match (float_operand(l), float_operand(r)) {
            (Some(a), Some(b)) => fold_decimals(op, a, b),
            _ => None,
        },
    }
}

/// The operand that an operation with a neutral or absorbing operand
/// reduces to, if one does.
pub open spec fn identity(decls: Seq<(Seq<char>, Ty)>, op: BinOp, l: ExprV, r: ExprV) -> Option<ExprV> {
    match op {
        BinOp::Add => if is_int_lit(r, 0) && (is_var_of(decls, l, Ty::Int) || is_var_of(decls, l, Ty::Uint)) {
            Some(l)
        } else if is_uint_lit(r, 0) && is_var_of(decls, l, Ty::Uint) {
            Some(l)
        } else if is_int_lit(l, 0) && (is_var_of(decls, r, Ty::Int) || is_var_of(decls, r, Ty::Uint)) {
            Some(r)
        } else if is_uint_lit(l, 0) && is_var_of(decls, r, Ty::Uint) {
            Some(r)
        } else {
            None
        },
        BinOp::Sub => if is_int_lit(r, 0) {
            Some(l)
        } else if is_uint_lit(r, 0) && is_var_of(decls, l, Ty::Uint) {
            Some(l)
        } else if is_float_lit(r, "0.0"@) && is_var_of(decls, l, Ty::Float) {
            Some(l)
        } else {
            None
        },
        BinOp::Mul => if is_int_lit(r, 1) {
            Some(l)
        } else if is_int_lit(l, 1) {
            Some(r)
        } else if is_uint_lit(r, 1) && is_var_of(decls, l, Ty::Uint) {
            Some(l)
        } else if is_uint_lit(l, 1) && is_var_of(decls, r, Ty::Uint) {
            Some(r)
        } else if is_float_lit(r, "1.0"@) && is_var_of(decls, l, Ty::Float) {
            Some(l)
        } else if is_float_lit(l, "1.0"@) && is_var_of(decls, r, Ty::Float) {
            Some(r)
        } else if is_int_lit(r, 0) && is_var_of(decls, l, Ty::Int) {
            Some(r)
        } else if is_int_lit(l, 0) && is_var_of(decls, r, Ty::Int) {
            Some(l)
        } else if is_uint_lit(r, 0) && is_var_of(decls, l, Ty::Uint) {
            Some(r)
        } else if is_uint_lit(l, 0) && is_var_of(decls, r, Ty::Uint) {
            Some(l)
        } else {
            None
        },
        BinOp::Div => if is_int_lit(r, 1) {
            Some(l)
        } else if is_uint_lit(r, 1) && is_var_of(decls, l, Ty::Uint) {
            Some(l)
        } else if is_float_lit(r, "1.0"@) && is_var_of(decls, l, Ty::Float) {
            Some(l)
        } else {
            None
        },
        _ => None,
    }
}

/// A binary operation on folded operands, simplified.
pub open spec fn simplify_binary(decls: Seq<(Seq<char>, Ty)>, op: BinOp, l: ExprV, t: TokV, r: ExprV) -> ExprV {
    match fold_literals(op, l, r) {
        Some(c) => c,
        None => match identity(decls, op, l, r) {
            Some(x) => x,
            None => ExprV::Binary(op, Box::new(l), t, Box::new(r)),
        },
    }
}

/// The operand of a negation or logical not, seen through parentheses.
pub open spec fn negated_operand(op: UnOp, y: ExprV) -> Option<ExprV> {
    match y {
        ExprV::Unary(op2, _, z) => if op2 == op { Some(*z) } else { None },
        ExprV::Paren(_, inner, _) => match *inner {
            ExprV::Unary(op2, _, z) => if op2 == op { Some(*z) } else { None },
            _ => None,
        },
        _ => None,
    }
}

/// A prefix operation on a folded operand, simplified: `!` of a boolean
/// literal is folded, and a double negation or double `!` cancels.
pub open spec fn simplify_unary(op: UnOp, t: TokV, y: ExprV) -> ExprV {
    let same = ExprV::Unary(op, t, Box::new(y));
    match op {
        UnOp::Not => match lit_value(y) {
            Some(Value::Bool(b)) => literal_of(Value::Bool(!b))->0,
            _ => match negated_operand(op, y) {
                Some(z) => z,
                None => same,
            },
        },
        UnOp::Neg => match negated_operand(op, y) {
            Some(z) => z,
            None => same,
        },
        _ => same,
    }
}

/// The folded form of an expression, rewritten bottom-up. Parentheses are
/// dropped around an operand that no longer needs them.
pub open spec fn fold(decls: Seq<(Seq<char>, Ty)>, e: ExprV) -> ExprV
    decreases e,
{
    match e {
        ExprV::Leaf(t) => ExprV::Leaf(t),
        ExprV::Paren(o, x, c) => {
            let y = fold(decls, *x);
            if prec(y) >= 15 { y } else { ExprV::Paren(o, Box::new(y), c) }
        },
        ExprV::Unary(op, t, x) => simplify_unary(op, t, fold(decls, *x)),
        ExprV::Binary(op, l, t, r) => simplify_binary(decls, op, fold(decls, *l), t, fold(decls, *r)),
        ExprV::Cond(c, q, a, k, b) => ExprV::Cond(
            Box::new(fold(decls, *c)),
            q,
            Box::new(fold(decls, *a)),
            k,
            Box::new(fold(decls, *b)),
        ),
        ExprV::Postfix(x, t) => ExprV::Postfix(Box::new(fold(decls, *x)), t),
        ExprV::Member(x, d, f) => ExprV::Member(Box::new(fold(decls, *x)), d, f),
        ExprV::Index(x, o, i, c) => ExprV::Index(Box::new(fold(decls, *x)), o, Box::new(fold(decls, *i)), c),
        ExprV::Call(f, o, a, c) => ExprV::Call(
            Box::new(fold(decls, *f)),
            o,
            match a {
                Some(a) => Some(Box::new(fold(decls, *a))),
                None => None,
            },
            c,
        ),
        ExprV::Comma(a, t, b) => ExprV::Comma(Box::new(fold(decls, *a)), t, Box::new(fold(decls, *b))),
    }
}

/// An expression with nothing left to fold: no rule applies anywhere in it.
pub open spec fn is_folded(decls: Seq<(Seq<char>, Ty)>, e: ExprV) -> bool
    decreases e,
{
    match e {
        ExprV::Leaf(_) => true,
        ExprV::Paren(_, x, _) => is_folded(decls, *x) && prec(*x) < 15,
        ExprV::Unary(op, t, x) => is_folded(decls, *x) && simplify_unary(op, t, *x) == e,
        ExprV::Binary(op, l, t, r) => is_folded(decls, *l) && is_folded(decls, *r)
            && simplify_binary(decls, op, *l, t, *r) == e,
        ExprV::Cond(c, _, a, _, b) => is_folded(decls, *c) && is_folded(decls, *a) && is_folded(decls, *b),
        ExprV::Postfix(x, _) => is_folded(decls, *x),
        ExprV::Member(x, _, _) => is_folded(decls, *x),
        ExprV::Index(x, _, i, _) => is_folded(decls, *x) && is_folded(decls, *i),
        ExprV::Call(f, _, a, _) => is_folded(decls, *f) && match a {
            Some(a) => is_folded(decls, *a),
            None => true,
        },
        ExprV::Comma(a, _, b) => is_folded(decls, *a) && is_folded(decls, *b),
    }
}

proof fn lemma_literal_of_is_folded(decls: Seq<(Seq<char>, Ty)>, v: Value)
    requires
        literal_of(v) is Some,
    ensures
        is_folded(decls, literal_of(v)->0),
        wf(literal_of(v)->0),
        prec(literal_of(v)->0) == 16,
{
}

/// Folding leaves a folded expression unchanged.
pub proof fn lemma_folded_is_fixed(decls: Seq<(Seq<char>, Ty)>, e: ExprV)
    requires
        is_folded(decls, e),
    ensures
        fold(decls, e) == e,
    decreases e,
{
    match e {
        ExprV::Leaf(_) => {},
        ExprV::Paren(_, x, _) => {
            lemma_folded_is_fixed(decls, *x);
        },
        ExprV::Unary(_, _, x) => {
            lemma_folded_is_fixed(decls, *x);
        },
        ExprV::Binary(_, l, _, r) => {
            lemma_folded_is_fixed(decls, *l);
            lemma_folded_is_fixed(decls, *r);
        },
        ExprV::Cond(c, _, a, _, b) => {
            lemma_folded_is_fixed(decls, *c);
            lemma_folded_is_fixed(decls, *a);
            lemma_folded_is_fixed(decls, *b);
        },
        ExprV::Postfix(x, _) => {
            lemma_folded_is_fixed(decls, *x);
        },
        ExprV::Member(x, _, _) => {
            lemma_folded_is_fixed(decls, *x);
        },
        ExprV::Index(x, _, i, _) => {
            lemma_folded_is_fixed(decls, *x);
            lemma_folded_is_fixed(decls, *i);
        },
        ExprV::Call(f, _, a, _) => {
            lemma_folded_is_fixed(decls, *f);
            if let Some(a) = a {
                lemma_folded_is_fixed(decls, *a);
            }
        },
        ExprV::Comma(a, _, b) => {
            lemma_folded_is_fixed(decls, *a);
            lemma_folded_is_fixed(decls, *b);
        },
    }
}

/// The result of folding is folded.
pub proof fn lemma_fold_is_folded(decls: Seq<(Seq<char>, Ty)>, e: ExprV)
    ensures
        is_folded(decls, fold(decls, e)),
    decreases e,
{
    match e {
        ExprV::Leaf(t) => {
            assert(fold(decls, e) == ExprV::Leaf(t));
        },
        ExprV::Paren(_, x, _) => {
            lemma_fold_is_folded(decls, *x);
        },
        ExprV::Unary(op, t, x) => {
            lemma_fold_is_folded(decls, *x);
            let y = fold(decls, *x);
            if let Some(Value::Bool(b)) = lit_value(y) {
                lemma_literal_of_is_folded(decls, Value::Bool(!b));
            }
            if let ExprV::Paren(_, inner, _) = y {
                assert(is_folded(decls, *inner));
            }
        },
        ExprV::Binary(op, l, t, r) => {
            lemma_fold_is_folded(decls, *l);
            lemma_fold_is_folded(decls, *r);
            let l2 = fold(decls, *l);
            let r2 = fold(decls, *r);
            if let (Some(a), Some(b)) = (lit_value(l2), lit_value(r2)) {
                if let Some(v) = fold_const(op, a, b) {
                    if literal_of(v) is Some {
                        lemma_literal_of_is_folded(decls, v);
                    }
                }
            }
        },
        ExprV::Cond(c, _, a, _, b) => {
            lemma_fold_is_folded(decls, *c);
            lemma_fold_is_folded(decls, *a);
            lemma_fold_is_folded(decls, *b);
        },
        ExprV::Postfix(x, _) => {
            lemma_fold_is_folded(decls, *x);
        },
        ExprV::Member(x, _, _) => {
            lemma_fold_is_folded(decls, *x);
        },
        ExprV::Index(x, _, i, _) => {
            lemma_fold_is_folded(decls, *x);
            lemma_fold_is_folded(decls, *i);
        },
        ExprV::Call(f, _, a, _) => {
            lemma_fold_is_folded(decls, *f);
            if let Some(a) = a {
                lemma_fold_is_folded(decls, *a);
            }
        },
        ExprV::Comma(a, _, b) => {
            lemma_fold_is_folded(decls, *a);
            lemma_fold_is_folded(decls, *b);
        },
    }
}

/// Folding is idempotent: a second pass changes nothing.
pub proof fn lemma_fold_idempotent(decls: Seq<(Seq<char>, Ty)>, e: ExprV)
    ensures
        fold(decls, fold(decls, e)) == fold(decls, e),
{
    lemma_fold_is_folded(decls, e);
    lemma_folded_is_fixed(decls, fold(decls, e));
}

/// Folding keeps an expression well formed, and its operands bind as
/// tightly as before (a parenthesized operand may become a postfix one).
pub proof fn lemma_fold_wf(decls: Seq<(Seq<char>, Ty)>, e: ExprV)
    requires
        wf(e),
    ensures
        wf(fold(decls, e)),
        prec(fold(decls, e)) >= (if prec(e) < 15 { prec(e) } else { 15 }),
    decreases e,
{
    match e {
        ExprV::Leaf(t) => {
            assert(fold(decls, e) == ExprV::Leaf(t));
        },
        ExprV::Paren(_, x, _) => {
            lemma_fold_wf(decls, *x);
        },
        ExprV::Unary(op, t, x) => {
            lemma_fold_wf(decls, *x);
            let y = fold(decls, *x);
            if let Some(Value::Bool(b)) = lit_value(y) {
                lemma_literal_of_is_folded(decls, Value::Bool(!b));
            }
            if let ExprV::Paren(_, inner, _) = y {
                assert(wf(*inner));
            }
        },
        ExprV::Binary(op, l, t, r) => {
            lemma_fold_wf(decls, *l);
            lemma_fold_wf(decls, *r);
            let l2 = fold(decls, *l);
            let r2 = fold(decls, *r);
            if let (Some(a), Some(b)) = (lit_value(l2), lit_value(r2)) {
                if let Some(v) = fold_const(op, a, b) {
                    if literal_of(v) is Some {
                        lemma_literal_of_is_folded(decls, v);
                    }
                }
            }
        },
        ExprV::Cond(c, _, a, _, b) => {
            lemma_fold_wf(decls, *c);
            lemma_fold_wf(decls, *a);
            lemma_fold_wf(decls, *b);
        },
        ExprV::Postfix(x, _) => {
            lemma_fold_wf(decls, *x);
        },
        ExprV::Member(x, _, _) => {
            lemma_fold_wf(decls, *x);
        },
        ExprV::Index(x, _, i, _) => {
            lemma_fold_wf(decls, *x);
            lemma_fold_wf(decls, *i);
        },
        ExprV::Call(f, _, a, _) => {
            lemma_fold_wf(decls, *f);
            if let Some(a) = a {
                lemma_fold_wf(decls, *a);
            }
        },
        ExprV::Comma(a, _, b) => {
            lemma_fold_wf(decls, *a);
            lemma_fold_wf(decls, *b);
        },
    }
}

proof fn lemma_wrap_i32_id(x: int)
    requires
        i32::MIN <= x <= i32::MAX,
    ensures
        wrap_i32(x) == x,
{
    if x >= 0 {
        assert(x % 0x1_0000_0000 == x);
    } else {
        assert(x % 0x1_0000_0000 == x + 0x1_0000_0000);
    }
}

proof fn lemma_wrap_u32_id(x: int)
    requires
        0 <= x <= u32::MAX,
    ensures
        wrap_u32(x) == x,
{
    assert(x % 0x1_0000_0000 == x);
}

proof fn lemma_wrap_facts()
    ensures
        forall|x: int| i32::MIN <= x <= i32::MAX ==> #[trigger] wrap_i32(x) == x,
        forall|x: int| 0 <= x <= u32::MAX ==> #[trigger] wrap_u32(x) == x,
{
    assert forall|x: int| i32::MIN <= x <= i32::MAX implies #[trigger] wrap_i32(x) == x by {
        lemma_wrap_i32_id(x);
    }
    assert forall|x: int| 0 <= x <= u32::MAX implies #[trigger] wrap_u32(x) == x by {
        lemma_wrap_u32_id(x);
    }
}

/// Negating twice gives the value back, for `int` (wrapping at the
/// minimum) and `uint` alike.
proof fn lemma_neg_neg(v: Value)
    ensures
        apply_unary(UnOp::Neg, v) matches Some(w) ==> apply_unary(UnOp::Neg, w) == Some(v),
{
    lemma_wrap_facts();
    match v {
        Value::Int(x) => {
            if x == i32::MIN {
                assert(0x8000_0000int % 0x1_0000_0000 == 0x8000_0000);
                assert(wrap_i32(-x) == i32::MIN);
            } else {
                assert(wrap_i32(-x) == -x);
            }
        },
        Value::Uint(x) => {
            if x == 0 {
                assert(0int % 0x1_0000_0000 == 0);
                assert(wrap_u32(-x) == 0);
            } else {
                assert((-x) % 0x1_0000_0000 == 0x1_0000_0000 - x);
                assert(wrap_u32(-x) == 0x1_0000_0000 - x);
                assert((x - 0x1_0000_0000) % 0x1_0000_0000 == x);
            }
        },
        Value::Bool(_) => {},
    }
}

proof fn lemma_not_not(v: Value)
    ensures
        apply_unary(UnOp::Not, v) matches Some(w) ==> apply_unary(UnOp::Not, w) == Some(v),
{
}

/// A folded constant is the value of the operation.
proof fn lemma_fold_const_sound(op: BinOp, a: Value, b: Value)
    requires
        fold_const(op, a, b) is Some,
    ensures
        apply_binary(op, a, b) == fold_const(op, a, b),
{
    lemma_wrap_facts();
    match (a, b) {
        (Value::Int(x), Value::Int(y)) => {
            if exact_compare(op, x as int, y as int) is None {
                if op == BinOp::Div {
                    assert(trunc_div(x as int, y as int) == x / y);
                }
            }
        },
        _ => {},
    }
}

/// A literal built for a value evaluates to that value.
pub proof fn lemma_literal_of_value(v: Value)
    requires
        literal_of(v) is Some,
    ensures
        lit_value(literal_of(v)->0) == Some(v),
{
    match v {
        Value::Int(x) => {
            lemma_decimal_roundtrip(x as nat);
            let d = decimal_digits(x as nat);
            assert(d.last() == d[d.len() - 1]);
        },
        Value::Uint(x) => {
            lemma_decimal_roundtrip(x as nat);
            let d = decimal_digits(x as nat);
            assert(d.push('u').drop_last() =~= d);
        },
        Value::Bool(b) => {
            reveal_strlit("true");
            reveal_strlit("false");
        },
    }
}

/// Simplifying a prefix operation keeps its value.
proof fn lemma_simplify_unary_eval(op: UnOp, t: TokV, y: ExprV, env: spec_fn(Seq<char>) -> Option<Value>)
    requires
        eval(ExprV::Unary(op, t, Box::new(y)), env) is Some,
    ensures
        eval(simplify_unary(op, t, y), env) == eval(ExprV::Unary(op, t, Box::new(y)), env),
{
    let v = eval(y, env)->0;
    if op == UnOp::Not {
        if let Some(Value::Bool(b)) = lit_value(y) {
            lemma_literal_of_value(Value::Bool(!b));
        }
    }
    if let Some(z) = negated_operand(op, y) {
        if let ExprV::Paren(_, inner, _) = y {
            assert(eval(y, env) == eval(*inner, env));
        }
        lemma_neg_neg(eval(z, env)->0);
        lemma_not_not(eval(z, env)->0);
    }
}

/// Simplifying a binary operation keeps its value, in an environment that
/// respects the declared types.
proof fn lemma_simplify_binary_eval(
    decls: Seq<(Seq<char>, Ty)>,
    op: BinOp,
    l: ExprV,
    t: TokV,
    r: ExprV,
    env: spec_fn(Seq<char>) -> Option<Value>,
)
    requires
        env_respects(decls, env),
        eval(ExprV::Binary(op, Box::new(l), t, Box::new(r)), env) is Some,
    ensures
        eval(simplify_binary(decls, op, l, t, r), env) == eval(ExprV::Binary(op, Box::new(l), t, Box::new(r)), env),
{
    lemma_wrap_facts();
    let a = eval(l, env)->0;
    let b = eval(r, env)->0;
    if let (Some(la), Some(lb)) = (lit_value(l), lit_value(r)) {
        if let Some(v) = fold_const(op, la, lb) {
            lemma_fold_const_sound(op, la, lb);
            if literal_of(v) is Some {
                lemma_literal_of_value(v);
            }
        }
    }
    if let ExprV::Leaf(lt) = l {
        if lt.0 is Identifier {
            assert(declared_type(decls, lt.1) == declared_type(decls, lt.1));
        }
    }
    if let ExprV::Leaf(rt) = r {
        if rt.0 is Identifier {
            assert(declared_type(decls, rt.1) == declared_type(decls, rt.1));
        }
    }
    if op == BinOp::Div {
        match a {
            Value::Int(x) => {
                assert(trunc_div(x as int, 1) == x);
            },
            Value::Uint(x) => {
                assert(trunc_div(x as int, 1) == x);
            },
            _ => {},
        }
    }
}

/// Folding keeps the value of every expression that has one, in an
/// environment that respects the declared types.
pub proof fn lemma_fold_preserves_eval(
    decls: Seq<(Seq<char>, Ty)>,
    e: ExprV,
    env: spec_fn(Seq<char>) -> Option<Value>,
)
    requires
        env_respects(decls, env),
        eval(e, env) is Some,
    ensures
        eval(fold(decls, e), env) == eval(e, env),
    decreases e,
{
    match e {
        ExprV::Leaf(t) => {
            assert(fold(decls, e) == ExprV::Leaf(t));
        },
        ExprV::Paren(_, x, _) => {
            lemma_fold_preserves_eval(decls, *x, env);
        },
        ExprV::Unary(op, t, x) => {
            lemma_fold_preserves_eval(decls, *x, env);
            lemma_simplify_unary_eval(op, t, fold(decls, *x), env);
        },
        ExprV::Binary(op, l, t, r) => {
            lemma_fold_preserves_eval(decls, *l, env);
            lemma_fold_preserves_eval(decls, *r, env);
            lemma_simplify_binary_eval(decls, op, fold(decls, *l), t, fold(decls, *r), env);
        },
        ExprV::Cond(c, _, a, _, b) => {
            lemma_fold_preserves_eval(decls, *c, env);
            if eval(*c, env) == Some(Value::Bool(true)) {
                lemma_fold_preserves_eval(decls, *a, env);
            } else {
                lemma_fold_preserves_eval(decls, *b, env);
            }
        },
        _ => {},
    }
}

/// A declaration of a variable: its name and type.
pub struct Decl {
    pub name: Vec<char>,
    pub ty: Ty,
}

impl View for Decl {
    type V = (Seq<char>, Ty);

    open spec fn view(&self) -> (Seq<char>, Ty) {
        (self.name@, self.ty)
    }
}

pub open spec fn decls_view(ds: Seq<Decl>) -> Seq<(Seq<char>, Ty)> {
    ds.map_values(|d: Decl| d@)
}

/// Whether two character sequences are equal.
pub fn chars_eq(a: &[char], b: &[char]) -> (r: bool)
    ensures
        r == (a@ == b@),
{
    if a.len() != b.len() {
        return false;
    }
    let mut i: usize = 0;
    while i < a.len()
        invariant
            a@.len() == b@.len(),
            i <= a@.len(),
            forall|j: int| 0 <= j < i ==> a@[j] == b@[j],
        decreases a@.len() - i,
    {
        if a[i] != b[i] {
            return false;
        }
        i = i + 1;
    }
    assert(a@ =~= b@);
    true
}

/// The declared type of `name`, where every declaration of it agrees.
pub fn declared_type_exec(decls: &Vec<Decl>, name: &[char]) -> (r: Option<Ty>)
    ensures
        r == declared_type(decls_view(decls@), name@),
{
    let ghost dv = decls_view(decls@);
    let mut state = DeclState::Absent;
    let mut i: usize = 0;
    while i < decls.len()
        invariant
            i <= decls@.len(),
            dv == decls_view(decls@),
            state == decl_state(dv.take(i as int), name@),
        decreases decls@.len() - i,
    {
        assert(dv.take(i + 1).drop_last() =~= dv.take(i as int));
        if chars_eq(decls[i].name.as_slice(), name) {
            let t = decls[i].ty;
            state = match state {
                DeclState::Absent => DeclState::One(t),
                DeclState::One(u) => if u == t { DeclState::One(t) } else { DeclState::Conflict },
                DeclState::Conflict => DeclState::Conflict,
            };
        }
        i = i + 1;
    }
    assert(dv.take(i as int) =~= dv);
    match state {
        DeclState::One(t) => Some(t),
        _ => None,
    }
}

fn var_type_exec(decls: &Vec<Decl>, e: &Expr) -> (r: Option<Ty>)
    ensures
        r == var_type(decls_view(decls@), e@),
{
    match e {
        Expr::Leaf(t) => if t.kind == TokKind::Identifier {
            declared_type_exec(decls, t.text.as_slice())
        } else {
            None
        },
        _ => None,
    }
}

fn canonical_exec(s: &[char]) -> (r: bool)
    ensures
        r == is_canonical_decimal(s@),
{
    if s.len() == 0 {
        return false;
    }
    let mut i: usize = 0;
    while i < s.len()
        invariant
            i <= s@.len(),
            forall|j: int| 0 <= j < i ==> crate::shaderc::text::is_digit(#[trigger] s@[j]),
        decreases s@.len() - i,
    {
        if !digit_exec(s[i]) {
            return false;
        }
        i = i + 1;
    }
    !(s.len() > 1 && s[0] == '0')
}

/// The value of an integer literal's text.
pub fn int_literal_value_exec(text: &Vec<char>) -> (r: Option<Value>)
    ensures
        r == int_literal_value(text@),
{
    let n = text.len();
    if n > 0 && (text[n - 1] == 'u' || text[n - 1] == 'U') {
        let digits = vstd::slice::slice_subrange(text.as_slice(), 0, n - 1);
        assert(digits@ =~= text@.drop_last());
        if canonical_exec(digits) {
            match decimal_value_u32(digits) {
                Some(v) => Some(Value::Uint(v)),
                None => None,
            }
        } else {
            None
        }
    } else if canonical_exec(text.as_slice()) {
        match decimal_value_u32(text.as_slice()) {
            Some(v) => if v <= 2147483647 { Some(Value::Int(v as i32)) } else { None },
            None => None,
        }
    } else {
        None
    }
}

/// The value of a literal token.
pub fn literal_value_exec(t: &Token) -> (r: Option<Value>)
    ensures
        r == literal_value(t@),
{
    match t.kind {
        TokKind::IntLiteral => int_literal_value_exec(&t.text),
        TokKind::BoolLiteral => if spells(t.text.as_slice(), "true") {
            Some(Value::Bool(true))
        } else if spells(t.text.as_slice(), "false") {
            Some(Value::Bool(false))
        } else {
            None
        },
        _ => None,
    }
}

fn lit_value_exec(e: &Expr) -> (r: Option<Value>)
    ensures
        r == lit_value(e@),
{
    match e {
        Expr::Leaf(t) => literal_value_exec(t),
        _ => None,
    }
}

fn is_int_lit_exec(v: Option<Value>, n: i32) -> (b: bool)
    ensures
        b == (v matches Some(Value::Int(x)) && x == n),
{
    match v {
        Some(Value::Int(x)) => x == n,
        _ => false,
    }
}

fn is_uint_lit_exec(v: Option<Value>, n: u32) -> (b: bool)
    ensures
        b == (v matches Some(Value::Uint(x)) && x == n),
{
    match v {
        Some(Value::Uint(x)) => x == n,
        _ => false,
    }
}

fn is_float_lit_exec(e: &Expr, lit: &str) -> (b: bool)
    ensures
        b == is_float_lit(e@, lit@),
{
    match e {
        Expr::Leaf(t) => t.kind == TokKind::FloatLiteral && spells(t.text.as_slice(), lit),
        _ => false,
    }
}

fn exact_compare_exec(op: BinOp, x: u64, y: u64) -> (r: Option<bool>)
    ensures
        r == exact_compare(op, x as int, y as int),
{
    match op {
        BinOp::Lt => Some(x < y),
        BinOp::Gt => Some(x > y),
        BinOp::Le => Some(x <= y),
        BinOp::Ge => Some(x >= y),
        BinOp::Eq => Some(x == y),
        BinOp::Ne => Some(x != y),
        _ => None,
    }
}

/// The folded value of an operation on two literal values.
pub fn fold_const_exec(op: BinOp, a: Value, b: Value) -> (r: Option<Value>)
    ensures
        r == fold_const(op, a, b),
{
    match (a, b) {
        (Value::Bool(x), Value::Bool(y)) => match op {
            BinOp::And => Some(Value::Bool(x && y)),
            BinOp::Or => Some(Value::Bool(x || y)),
            BinOp::Xor => Some(Value::Bool(x != y)),
            BinOp::Eq => Some(Value::Bool(x == y)),
            BinOp::Ne => Some(Value::Bool(x != y)),
            _ => None,
        },
        (Value::Bool(_), _) => None,
        (_, Value::Bool(_)) => None,
        _ => {
            let signed = match (a, b) {
                (Value::Int(_), Value::Int(_)) => true,
                _ => false,
            };
            let x: u64 = match a {
                Value::Int(i) => if i < 0 { return None; } else { i as u64 },
                Value::Uint(u) => u as u64,
                Value::Bool(_) => 0,
            };
            let y: u64 = match b {
                Value::Int(i) => if i < 0 { return None; } else { i as u64 },
                Value::Uint(u) => u as u64,
                Value::Bool(_) => 0,
            };
            match exact_compare_exec(op, x, y) {
                Some(c) => Some(Value::Bool(c)),
                None => {
                    let r: u64 = match op {
                        BinOp::Add => x + y,
                        BinOp::Sub => if x >= y { x - y } else { return None; },
                        BinOp::Mul => {
                            assert(x * y <= 0xffff_ffff * 0xffff_ffff) by (nonlinear_arith)
                                requires
                                    x <= 0xffff_ffff,
                                    y <= 0xffff_ffff,
                            ;
                            x * y
                        },
                        BinOp::Div => if y > 0 { x / y } else { return None; },
                        BinOp::Mod => if y > 0 { x % y } else { return None; },
                        _ => { return None; },
                    };
                    if signed {
                        if r <= 2147483647 { Some(Value::Int(r as i32)) } else { None }
                    } else {
                        if r <= 4294967295 { Some(Value::Uint(r as u32)) } else { None }
                    }
                },
            }
        },
    }
}

/// The literal that spells a value, where there is one.
pub fn literal_of_exec(v: Value) -> (r: Option<Box<Expr>>)
    ensures
        match r {
            Some(e) => literal_of(v) == Some(e@),
            None => literal_of(v) is None,
        },
{
    match v {
        Value::Int(x) => if x >= 0 {
            let text = decimal_of(x as u64);
            Some(Box::new(Expr::Leaf(Token { kind: TokKind::IntLiteral, text })))
        } else {
            None
        },
        Value::Uint(x) => {
            let mut text = decimal_of(x as u64);
            text.push('u');
            Some(Box::new(Expr::Leaf(Token { kind: TokKind::IntLiteral, text })))
        },
        Value::Bool(b) => {
            let text = if b { chars_of("true") } else { chars_of("false") };
            Some(Box::new(Expr::Leaf(Token { kind: TokKind::BoolLiteral, text })))
        },
    }
}

fn float_operand_exec(e: &Expr) -> (r: Option<(u32, u32)>)
    ensures
        match r {
            Some((m, s)) => float_operand(e@) == Some((m as nat, s as nat)),
            None => float_operand(e@) is None,
        },
{
    match e {
        Expr::Leaf(t) => if t.kind == TokKind::FloatLiteral { decimal_operand_exec(&t.text) } else { None },
        _ => None,
    }
}

/// The exact quotient of `x` by `y` as a float literal, where it is a
/// decimal with at most 18 digits after the point.
fn divide_decimals(x: u64, y: u64) -> (r: Option<Box<Expr>>)
    requires
        x <= 0xffff_ffff * 1_000_000_000,
    ensures
        match r {
            Some(e) => match quotient_scale(x as nat, y as nat, 0) {
                Some(k) => quotient_digits(x as nat, y as nat, k) <= u64::MAX
                    && e@ == float_literal(quotient_digits(x as nat, y as nat, k), k),
                None => false,
            },
            None => match quotient_scale(x as nat, y as nat, 0) {
                Some(k) => quotient_digits(x as nat, y as nat, k) > u64::MAX,
                None => true,
            },
        },
{
    if y == 0 {
        return None;
    }
    let mut k: u32 = 0;
    while k <= 18
        invariant
            k <= 19,
            y > 0,
            x <= 0xffff_ffff * 1_000_000_000,
            quotient_scale(x as nat, y as nat, 0) == quotient_scale(x as nat, y as nat, k as nat),
        decreases 19 - k,
    {
        let p = pow10_exec(k);
        proof {
            lemma_pow10_bounds(k as nat);
        }
        assert(x as u128 * p as u128 <= 0xffff_ffff * 1_000_000_000 * 1_000_000_000_000_000_000) by (nonlinear_arith)
            requires
                x <= 0xffff_ffff * 1_000_000_000,
                p <= 1_000_000_000_000_000_000,
        ;
        let num: u128 = x as u128 * p as u128;
        if num % (y as u128) == 0 {
            let q: u128 = num / (y as u128);
            if q <= 0xffff_ffff_ffff_ffff {
                return Some(Box::new(Expr::Leaf(Token { kind: TokKind::FloatLiteral, text: float_text_exec(q as u64, k) })));
            } else {
                return None;
            }
        }
        k = k + 1;
    }
    None
}

/// The folding of an operation on two float literals: exactly
/// `fold_decimals`.
fn fold_decimals_exec(op: BinOp, a: (u32, u32), b: (u32, u32)) -> (r: Option<Box<Expr>>)
    requires
        a.1 <= 9,
        b.1 <= 9,
    ensures
        match r {
            Some(e) => fold_decimals(op, (a.0 as nat, a.1 as nat), (b.0 as nat, b.1 as nat)) == Some(e@),
            None => fold_decimals(op, (a.0 as nat, a.1 as nat), (b.0 as nat, b.1 as nat)) is None,
        },
{
    let pa = pow10_exec(a.1);
    let pb = pow10_exec(b.1);
    proof {
        lemma_pow10_bounds(a.1 as nat);
        lemma_pow10_bounds(b.1 as nat);
    }
    assert(a.0 as u64 * pb <= 0xffff_ffff * 1_000_000_000) by (nonlinear_arith)
        requires
            a.0 <= 0xffff_ffff,
            pb <= 1_000_000_000,
    ;
    assert(b.0 as u64 * pa <= 0xffff_ffff * 1_000_000_000) by (nonlinear_arith)
        requires
            b.0 <= 0xffff_ffff,
            pa <= 1_000_000_000,
    ;
    let x: u64 = a.0 as u64 * pb;
    let y: u64 = b.0 as u64 * pa;
    let s: u32 = a.1 + b.1;
    match exact_compare_exec(op, x, y) {
        Some(c) => literal_of_exec(Value::Bool(c)),
        None => match op {
            BinOp::Add => Some(Box::new(Expr::Leaf(Token { kind: TokKind::FloatLiteral, text: float_text_exec(x + y, s) }))),
            BinOp::Sub => if x >= y {
                Some(Box::new(Expr::Leaf(Token { kind: TokKind::FloatLiteral, text: float_text_exec(x - y, s) })))
            } else {
                None
            },
            BinOp::Mul => {
                assert(a.0 as u64 * b.0 as u64 <= 0xffff_ffff * 0xffff_ffff) by (nonlinear_arith)
                    requires
                        a.0 <= 0xffff_ffff,
                        b.0 <= 0xffff_ffff,
                ;
                Some(Box::new(Expr::Leaf(Token { kind: TokKind::FloatLiteral, text: float_text_exec(a.0 as u64 * b.0 as u64, s) })))
            },
            BinOp::Div => divide_decimals(x, y),
            _ => None,
        },
    }
}

/// Which operand an identity reduces a binary operation to.
enum Side {
    Neither,
    Left,
    Right,
}

fn identity_exec(decls: &Vec<Decl>, op: BinOp, l: &Expr, r: &Expr) -> (s: Side)
    ensures
        match s {
            Side::Left => identity(decls_view(decls@), op, l@, r@) == Some(l@),
            Side::Right => identity(decls_view(decls@), op, l@, r@) == Some(r@),
            Side::Neither => identity(decls_view(decls@), op, l@, r@) is None,
        },
{
    let lv = lit_value_exec(l);
    let rv = lit_value_exec(r);
    let lt = var_type_exec(decls, l);
    let rt = var_type_exec(decls, r);
    let l_int = lt == Some(Ty::Int);
    let l_uint = lt == Some(Ty::Uint);
    let l_float = lt == Some(Ty::Float);
    let r_int = rt == Some(Ty::Int);
    let r_uint = rt == Some(Ty::Uint);
    let r_float = rt == Some(Ty::Float);
    match op {
        BinOp::Add => if is_int_lit_exec(rv, 0) && (l_int || l_uint) {
            Side::Left
        } else if is_uint_lit_exec(rv, 0) && l_uint {
            Side::Left
        } else if is_int_lit_exec(lv, 0) && (r_int || r_uint) {
            Side::Right
        } else if is_uint_lit_exec(lv, 0) && r_uint {
            Side::Right
        } else {
            Side::Neither
        },
        BinOp::Sub => if is_int_lit_exec(rv, 0) {
            Side::Left
        } else if is_uint_lit_exec(rv, 0) && l_uint {
            Side::Left
        } else if is_float_lit_exec(r, "0.0") && l_float {
            Side::Left
        } else {
            Side::Neither
        },
        BinOp::Mul => if is_int_lit_exec(rv, 1) {
            Side::Left
        } else if is_int_lit_exec(lv, 1) {
            Side::Right
        } else if is_uint_lit_exec(rv, 1) && l_uint {
            Side::Left
        } else if is_uint_lit_exec(lv, 1) && r_uint {
            Side::Right
        } else if is_float_lit_exec(r, "1.0") && l_float {
            Side::Left
        } else if is_float_lit_exec(l, "1.0") && r_float {
            Side::Right
        } else if is_int_lit_exec(rv, 0) && l_int {
            Side::Right
        } else if is_int_lit_exec(lv, 0) && r_int {
            Side::Left
        } else if is_uint_lit_exec(rv, 0) && l_uint {
            Side::Right
        } else if is_uint_lit_exec(lv, 0) && r_uint {
            Side::Left
        } else {
            Side::Neither
        },
        BinOp::Div => if is_int_lit_exec(rv, 1) {
            Side::Left
        } else if is_uint_lit_exec(rv, 1) && l_uint {
            Side::Left
        } else if is_float_lit_exec(r, "1.0") && l_float {
            Side::Left
        } else {
            Side::Neither
        },
        _ => Side::Neither,
    }
}

fn simplify_binary_exec(decls: &Vec<Decl>, op: BinOp, l: Box<Expr>, t: Token, r: Box<Expr>) -> (e: Box<Expr>)
    ensures
        e@ == simplify_binary(decls_view(decls@), op, l@, t@, r@),
{
    let folded = match (lit_value_exec(&l), lit_value_exec(&r)) {
        (Some(a), Some(b)) => match fold_const_exec(op, a, b) {
            Some(v) => literal_of_exec(v),
            None => None,
        },
        _ => match (float_operand_exec(&l), float_operand_exec(&r)) {
            (Some(a), Some(b)) => fold_decimals_exec(op, a, b),
            _ => None,
        },
    };
    match folded {
        Some(c) => c,
        None => match identity_exec(decls, op, &l, &r) {
            Side::Left => l,
            Side::Right => r,
            Side::Neither => Box::new(Expr::Binary(op, l, t, r)),
        },
    }
}

/// Takes the operand of a negation (or `!`) of the same operator, seen
/// through parentheses; gives the expression back where there is none.
fn take_negated(op: UnOp, y: Box<Expr>) -> (r: Result<Box<Expr>, Box<Expr>>)
    ensures
        r matches Ok(z) ==> negated_operand(op, y@) == Some(z@),
        r matches Err(y2) ==> negated_operand(op, y@) is None && y2@ == y@,
{
    let ghost yv = y@;
    match *y {
        Expr::Unary(op2, t2, z) => {
            assert(yv == ExprV::Unary(op2, t2@, Box::new(z@)));
            if op2 == op {
                let r: Result<Box<Expr>, Box<Expr>> = Ok(z);
                assert(negated_operand(op, yv) == Some(z@));
                r
            } else {
                let y2 = Box::new(Expr::Unary(op2, t2, z));
                assert(y2@ == yv);
                Err(y2)
            }
        },
        Expr::Paren(o, inner, c) => {
            assert(yv == ExprV::Paren(o@, Box::new(inner@), c@));
            match *inner {
                Expr::Unary(op2, t2, z) => {
                    if op2 == op {
                        Ok(z)
                    } else {
                        Err(Box::new(Expr::Paren(o, Box::new(Expr::Unary(op2, t2, z)), c)))
                    }
                },
                other => Err(Box::new(Expr::Paren(o, Box::new(other), c))),
            }
        },
        other => {
            assert(yv == other@);
            Err(Box::new(other))
        },
    }
}

fn simplify_unary_exec(op: UnOp, t: Token, y: Box<Expr>) -> (e: Box<Expr>)
    ensures
        e@ == simplify_unary(op, t@, y@),
{
    match op {
        UnOp::Not => {
            match lit_value_exec(&y) {
                Some(Value::Bool(b)) => {
                    return match literal_of_exec(Value::Bool(!b)) {
                        Some(c) => c,
                        None => Box::new(Expr::Unary(op, t, y)),
                    };
                },
                _ => {},
            }
            match take_negated(op, y) {
                Ok(z) => z,
                Err(y2) => Box::new(Expr::Unary(op, t, y2)),
            }
        },
        UnOp::Neg => match take_negated(op, y) {
            Ok(z) => z,
            Err(y2) => Box::new(Expr::Unary(op, t, y2)),
        },
        _ => Box::new(Expr::Unary(op, t, y)),
    }
}

fn prec_exec(e: &Expr) -> (p: u8)
    ensures
        p as int == prec(e@),
{
    match e {
        Expr::Leaf(_) | Expr::Paren(..) => 16,
        Expr::Postfix(..) | Expr::Member(..) | Expr::Index(..) | Expr::Call(..) => 15,
        Expr::Unary(..) => 14,
        Expr::Binary(op, ..) => match op {
            BinOp::Or => 3,
            BinOp::Xor => 4,
            BinOp::And => 5,
            BinOp::BitOr => 6,
            BinOp::BitXor => 7,
            BinOp::BitAnd => 8,
            BinOp::Eq | BinOp::Ne => 9,
            BinOp::Lt | BinOp::Gt | BinOp::Le | BinOp::Ge => 10,
            BinOp::Shl | BinOp::Shr => 11,
            BinOp::Add | BinOp::Sub => 12,
            BinOp::Mul | BinOp::Div | BinOp::Mod => 13,
        },
        Expr::Cond(..) => 2,
        Expr::Comma(..) => 1,
    }
}

/// Folds an expression: exactly the model's `fold`.
pub fn fold_expr(decls: &Vec<Decl>, e: Box<Expr>) -> (r: Box<Expr>)
    ensures
        r@ == fold(decls_view(decls@), e@),
    decreases e,
{
    match *e {
        Expr::Leaf(t) => Box::new(Expr::Leaf(t)),
        Expr::Paren(o, x, c) => {
            let y = fold_expr(decls, x);
            if prec_exec(&y) >= 15 {
                y
            } else {
                Box::new(Expr::Paren(o, y, c))
            }
        },
        Expr::Unary(op, t, x) => {
            let y = fold_expr(decls, x);
            simplify_unary_exec(op, t, y)
        },
        Expr::Binary(op, l, t, r) => {
            let l2 = fold_expr(decls, l);
            let r2 = fold_expr(decls, r);
            simplify_binary_exec(decls, op, l2, t, r2)
        },
        Expr::Cond(c, q, a, k, b) => {
            let c2 = fold_expr(decls, c);
            let a2 = fold_expr(decls, a);
            let b2 = fold_expr(decls, b);
            Box::new(Expr::Cond(c2, q, a2, k, b2))
        },
        Expr::Postfix(x, t) => Box::new(Expr::Postfix(fold_expr(decls, x), t)),
        Expr::Member(x, d, f) => Box::new(Expr::Member(fold_expr(decls, x), d, f)),
        Expr::Index(x, o, i, c) => {
            let x2 = fold_expr(decls, x);
            let i2 = fold_expr(decls, i);
            Box::new(Expr::Index(x2, o, i2, c))
        },
        Expr::Call(f, o, a, c) => {
            let f2 = fold_expr(decls, f);
            let a2 = match a {
                Some(a) => Some(fold_expr(decls, a)),
                None => None,
            };
            Box::new(Expr::Call(f2, o, a2, c))
        },
        Expr::Comma(a, t, b) => {
            let a2 = fold_expr(decls, a);
            let b2 = fold_expr(decls, b);
            Box::new(Expr::Comma(a2, t, b2))
        },
    }
}

} // verus!
