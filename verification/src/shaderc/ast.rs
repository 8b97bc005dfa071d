//! Expressions of GLSL, as the parser builds them and the folding pass
//! rewrites them, with their mathematical model.
use vstd::prelude::*;
use crate::shaderc::lexer::Kw;
use crate::shaderc::lexer::Punct;
use crate::shaderc::lexer::TokKind;
use crate::shaderc::lexer::Token;
use crate::shaderc::text::decimal_value;
use crate::shaderc::text::is_canonical_decimal;

verus! {

/// A token as the model sees it: its kind and its text.
pub type TokV = (TokKind, Seq<char>);

/// Prefix operators.
#[derive(PartialEq, Eq, Structural, Clone, Copy, Debug)]
pub enum UnOp {
    Neg,
    Plus,
    Not,
    BitNot,
    PreInc,
    PreDec,
}

/// Binary operators.
#[derive(PartialEq, Eq, Structural, Clone, Copy, Debug)]
pub enum BinOp {
    Mul, Div, Mod,
    Add, Sub,
    Shl, Shr,
    Lt, Gt, Le, Ge,
    Eq, Ne,
    BitAnd, BitXor, BitOr,
    And, Xor, Or,
}

/// An expression. Every node keeps the tokens it was parsed from, so that
/// an expression spells its source back.
pub enum Expr {
    /// An identifier, a literal, or the type name of a constructor call.
    Leaf(Token),
    Paren(Token, Box<Expr>, Token),
    Unary(UnOp, Token, Box<Expr>),
    Binary(BinOp, Box<Expr>, Token, Box<Expr>),
    Cond(Box<Expr>, Token, Box<Expr>, Token, Box<Expr>),
    /// `e++` or `e--`.
    Postfix(Box<Expr>, Token),
    Member(Box<Expr>, Token, Token),
    Index(Box<Expr>, Token, Box<Expr>, Token),
    Call(Box<Expr>, Token, Option<Box<Expr>>, Token),
    /// Two arguments of a call and the comma between them.
    Comma(Box<Expr>, Token, Box<Expr>),
}

/// The model of an expression.
pub enum ExprV {
    Leaf(TokV),
    Paren(TokV, Box<ExprV>, TokV),
    Unary(UnOp, TokV, Box<ExprV>),
    Binary(BinOp, Box<ExprV>, TokV, Box<ExprV>),
    Cond(Box<ExprV>, TokV, Box<ExprV>, TokV, Box<ExprV>),
    Postfix(Box<ExprV>, TokV),
    Member(Box<ExprV>, TokV, TokV),
    Index(Box<ExprV>, TokV, Box<ExprV>, TokV),
    Call(Box<ExprV>, TokV, Option<Box<ExprV>>, TokV),
    Comma(Box<ExprV>, TokV, Box<ExprV>),
}

pub open spec fn expr_view(e: Expr) -> ExprV
    decreases e,
{
    match e {
        Expr::Leaf(t) => ExprV::Leaf(t@),
        Expr::Paren(o, x, c) => ExprV::Paren(o@, Box::new(expr_view(*x)), c@),
        Expr::Unary(op, t, x) => ExprV::Unary(op, t@, Box::new(expr_view(*x))),
        Expr::Binary(op, l, t, r) => ExprV::Binary(op, Box::new(expr_view(*l)), t@, Box::new(expr_view(*r))),
        Expr::Cond(c, q, a, k, b) => ExprV::Cond(
            Box::new(expr_view(*c)),
            q@,
            Box::new(expr_view(*a)),
            k@,
            Box::new(expr_view(*b)),
        ),
        Expr::Postfix(x, t) => ExprV::Postfix(Box::new(expr_view(*x)), t@),
        Expr::Member(x, d, f) => ExprV::Member(Box::new(expr_view(*x)), d@, f@),
        Expr::Index(x, o, i, c) => ExprV::Index(Box::new(expr_view(*x)), o@, Box::new(expr_view(*i)), c@),
        Expr::Call(f, o, a, c) => ExprV::Call(
            Box::new(expr_view(*f)),
            o@,
            match a {
                Some(a) => Some(Box::new(expr_view(*a))),
                None => None,
            },
            c@,
        ),
        Expr::Comma(a, t, b) => ExprV::Comma(Box::new(expr_view(*a)), t@, Box::new(expr_view(*b))),
    }
}

impl View for Expr {
    type V = ExprV;

    open spec fn view(&self) -> ExprV {
        expr_view(*self)
    }
}

/// How tightly a binary operator binds; higher binds tighter.
pub open spec fn bin_prec(op: BinOp) -> int {
    match op {
        BinOp::Or => 3,
        BinOp::Xor => 4,
        BinOp::And => 5,
        BinOp::BitOr => 6,
        BinOp::BitXor => 7,
        BinOp::BitAnd => 8,
        BinOp::Eq | BinOp::Ne => 9,
        BinOp::Lt | BinOp::Gt | BinOp::Le | BinOp::Ge => 10,
        BinOp::Shl | BinOp::Shr => 11,
        BinOp::Add | BinOp::Sub => 12,
        BinOp::Mul | BinOp::Div | BinOp::Mod => 13,
    }
}

/// The precedence level of an expression: where it may stand without
/// parentheses.
pub open spec fn prec(e: ExprV) -> int {
    match e {
        ExprV::Leaf(_) | ExprV::Paren(..) => 16,
        ExprV::Postfix(..) | ExprV::Member(..) | ExprV::Index(..) | ExprV::Call(..) => 15,
        ExprV::Unary(..) => 14,
        ExprV::Binary(op, ..) => bin_prec(op),
        ExprV::Cond(..) => 2,
        ExprV::Comma(..) => 1,
    }
}

/// The punctuator of a binary operator.
pub open spec fn bin_punct(op: BinOp) -> Punct {
    match op {
        BinOp::Mul => Punct::Star,
        BinOp::Div => Punct::Slash,
        BinOp::Mod => Punct::Percent,
        BinOp::Add => Punct::Plus,
        BinOp::Sub => Punct::Minus,
        BinOp::Shl => Punct::ShiftLeft,
        BinOp::Shr => Punct::ShiftRight,
        BinOp::Lt => Punct::Less,
        BinOp::Gt => Punct::Greater,
        BinOp::Le => Punct::LessEquals,
        BinOp::Ge => Punct::GreaterEquals,
        BinOp::Eq => Punct::EqualsEquals,
        BinOp::Ne => Punct::NotEquals,
        BinOp::BitAnd => Punct::Ampersand,
        BinOp::BitXor => Punct::Caret,
        BinOp::BitOr => Punct::Pipe,
        BinOp::And => Punct::AndAnd,
        BinOp::Xor => Punct::XorXor,
        BinOp::Or => Punct::OrOr,
    }
}

/// The punctuator of a prefix operator.
pub open spec fn un_punct(op: UnOp) -> Punct {
    match op {
        UnOp::Neg => Punct::Minus,
        UnOp::Plus => Punct::Plus,
        UnOp::Not => Punct::Bang,
        UnOp::BitNot => Punct::Tilde,
        UnOp::PreInc => Punct::PlusPlus,
        UnOp::PreDec => Punct::MinusMinus,
    }
}

/// Kinds of token that stand alone as an operand: identifiers, literals,
/// and type names (of constructor calls).
pub open spec fn is_leaf_kind(k: TokKind) -> bool {
    k is Identifier || k is IntLiteral || k is FloatLiteral || k is BoolLiteral || k is Keyword
}

pub open spec fn is_punct(t: TokV, p: Punct) -> bool {
    t.0 == TokKind::Punct(p)
}

/// A well-formed expression: each token is of the kind its place asks for,
/// and each operand binds at least as tightly as GLSL's precedence and
/// associativity require (left-associative binary operators, right-nested
/// conditionals and argument lists).
pub open spec fn wf(e: ExprV) -> bool
    decreases e,
{
    match e {
        ExprV::Leaf(t) => is_leaf_kind(t.0),
        ExprV::Paren(o, x, c) => is_punct(o, Punct::OpenParen) && is_punct(c, Punct::CloseParen)
            && wf(*x) && prec(*x) >= 2,
        ExprV::Unary(op, t, x) => is_punct(t, un_punct(op)) && wf(*x) && prec(*x) >= 14,
        ExprV::Binary(op, l, t, r) => is_punct(t, bin_punct(op)) && wf(*l) && wf(*r)
            && prec(*l) >= bin_prec(op) && prec(*r) > bin_prec(op),
        ExprV::Cond(c, q, a, k, b) => is_punct(q, Punct::Question) && is_punct(k, Punct::Colon)
            && wf(*c) && wf(*a) && wf(*b) && prec(*c) >= 3 && prec(*a) >= 2 && prec(*b) >= 2,
        ExprV::Postfix(x, t) => (is_punct(t, Punct::PlusPlus) || is_punct(t, Punct::MinusMinus))
            && wf(*x) && prec(*x) >= 15,
        ExprV::Member(x, d, f) => is_punct(d, Punct::Dot) && f.0 is Identifier && wf(*x) && prec(*x) >= 15,
        ExprV::Index(x, o, i, c) => is_punct(o, Punct::OpenBracket) && is_punct(c, Punct::CloseBracket)
            && wf(*x) && wf(*i) && prec(*x) >= 15 && prec(*i) >= 2,
        ExprV::Call(f, o, a, c) => is_punct(o, Punct::OpenParen) && is_punct(c, Punct::CloseParen)
            && wf(*f) && prec(*f) >= 15 && match a {
                Some(a) => wf(*a) && prec(*a) >= 1,
                None => true,
            },
        ExprV::Comma(a, t, b) => is_punct(t, Punct::Comma) && wf(*a) && wf(*b) && prec(*a) >= 2
            && prec(*b) >= 1,
    }
}

/// The tokens an expression spells, in order.
pub open spec fn spelling(e: ExprV) -> Seq<TokV>
    decreases e,
{
    match e {
        ExprV::Leaf(t) => seq![t],
        ExprV::Paren(o, x, c) => seq![o] + spelling(*x) + seq![c],
        ExprV::Unary(_, t, x) => seq![t] + spelling(*x),
        ExprV::Binary(_, l, t, r) => spelling(*l) + seq![t] + spelling(*r),
        ExprV::Cond(c, q, a, k, b) => spelling(*c) + seq![q] + spelling(*a) + seq![k] + spelling(*b),
        ExprV::Postfix(x, t) => spelling(*x) + seq![t],
        ExprV::Member(x, d, f) => spelling(*x) + seq![d, f],
        ExprV::Index(x, o, i, c) => spelling(*x) + seq![o] + spelling(*i) + seq![c],
        ExprV::Call(f, o, a, c) => spelling(*f) + seq![o] + match a {
            Some(a) => spelling(*a),
            None => Seq::empty(),
        } + seq![c],
        ExprV::Comma(a, t, b) => spelling(*a) + seq![t] + spelling(*b),
    }
}

/// The values of integer and boolean expressions. Floating-point values are
/// not modelled: an expression that computes one has no value here.
#[derive(PartialEq, Eq, Structural, Clone, Copy, Debug)]
pub enum Value {
    Int(i32),
    Uint(u32),
    Bool(bool),
}

/// The value of an integer literal: canonical decimal digits, with a `u`
/// suffix for an unsigned one, that fit the literal's type.
pub open spec fn int_literal_value(text: Seq<char>) -> Option<Value> {
    if text.len() > 0 && (text.last() == 'u' || text.last() == 'U') {
        let digits = text.drop_last();
        if is_canonical_decimal(digits) && decimal_value(digits) <= u32::MAX {
            Some(Value::Uint(decimal_value(digits) as u32))
        } else {
            None
        }
    } else if is_canonical_decimal(text) && decimal_value(text) <= i32::MAX {
        Some(Value::Int(decimal_value(text) as i32))
    } else {
        None
    }
}

/// The value of a literal token.
pub open spec fn literal_value(t: TokV) -> Option<Value> {
    match t.0 {
        TokKind::IntLiteral => int_literal_value(t.1),
        TokKind::BoolLiteral => if t.1 == "true"@ {
            Some(Value::Bool(true))
        } else if t.1 == "false"@ {
            Some(Value::Bool(false))
        } else {
            None
        },
        _ => None,
    }
}

/// `x` wrapped to 32 bits, signed.
pub open spec fn wrap_i32(x: int) -> i32 {
    let m = x % 0x1_0000_0000;
    (if m >= 0x8000_0000 { m - 0x1_0000_0000 } else { m }) as i32
}

/// `x` wrapped to 32 bits, unsigned.
pub open spec fn wrap_u32(x: int) -> u32 {
    (x % 0x1_0000_0000) as u32
}

/// Truncating integer division, as GLSL and Rust divide.
pub open spec fn trunc_div(a: int, b: int) -> int {
    let q = (if a >= 0 { a } else { -a }) / (if b >= 0 { b } else { -b });
    if (a >= 0) == (b > 0) { q } else { -q }
}

/// Arithmetic of two integers of one signedness, wrapping to 32 bits.
/// Division by zero, the quotient that overflows and the remainder of
/// negative operands (which GLSL leaves undefined) have no value.
pub open spec fn int_arith(op: BinOp, a: int, b: int, signed: bool) -> Option<int> {
    match op {
        BinOp::Add => Some(a + b),
        BinOp::Sub => Some(a - b),
        BinOp::Mul => Some(a * b),
        BinOp::Div => if b == 0 || (signed && a == i32::MIN && b == -1) {
            None
        } else {
            Some(trunc_div(a, b))
        },
        BinOp::Mod => if b <= 0 || a < 0 {
            None
        } else {
            Some(a % b)
        },
        _ => None,
    }
}

pub open spec fn int_compare(op: BinOp, a: int, b: int) -> Option<bool> {
    match op {
        BinOp::Lt => Some(a < b),
        BinOp::Gt => Some(a > b),
        BinOp::Le => Some(a <= b),
        BinOp::Ge => Some(a >= b),
        BinOp::Eq => Some(a == b),
        BinOp::Ne => Some(a != b),
        _ => None,
    }
}

/// A binary operator applied to two values. An `int` operand next to a
/// `uint` one is converted to `uint`, as GLSL converts it implicitly.
pub open spec fn apply_binary(op: BinOp, a: Value, b: Value) -> Option<Value> {
    match (a, b) {
        (Value::Bool(x), Value::Bool(y)) => match op {
            BinOp::And => Some(Value::Bool(x && y)),
            BinOp::Or => Some(Value::Bool(x || y)),
            BinOp::Xor => Some(Value::Bool(x != y)),
            BinOp::Eq => Some(Value::Bool(x == y)),
            BinOp::Ne => Some(Value::Bool(x != y)),
            _ => None,
        },
        (Value::Int(x), Value::Int(y)) => match int_compare(op, x as int, y as int) {
            Some(c) => Some(Value::Bool(c)),
            None => match int_arith(op, x as int, y as int, true) {
                Some(v) => Some(Value::Int(wrap_i32(v))),
                None => None,
            },
        },
        (Value::Bool(_), _) | (_, Value::Bool(_)) => None,
        _ => {
            let x = as_uint(a) as int;
            let y = as_uint(b) as int;
            match int_compare(op, x, y) {
                Some(c) => Some(Value::Bool(c)),
                None => match int_arith(op, x, y, false) {
                    Some(v) => Some(Value::Uint(wrap_u32(v))),
                    None => None,
                },
            }
        },
    }
}

/// An integer value as `uint`: its bits reinterpreted.
pub open spec fn as_uint(v: Value) -> u32 {
    match v {
        Value::Int(x) => wrap_u32(x as int),
        Value::Uint(x) => x,
        Value::Bool(b) => if b { 1 } else { 0 },
    }
}

pub open spec fn apply_unary(op: UnOp, a: Value) -> Option<Value> {
    match (op, a) {
        (UnOp::Neg, Value::Int(x)) => Some(Value::Int(wrap_i32(-x))),
        (UnOp::Neg, Value::Uint(x)) => Some(Value::Uint(wrap_u32(-x))),
        (UnOp::Plus, Value::Int(x)) => Some(Value::Int(x)),
        (UnOp::Plus, Value::Uint(x)) => Some(Value::Uint(x)),
        (UnOp::Not, Value::Bool(b)) => Some(Value::Bool(!b)),
        _ => None,
    }
}

/// The value of an expression in an environment that gives the values of
/// variables. Only integer and boolean arithmetic, comparisons, logic and
/// conditionals are modelled; anything else (floating point, calls, member
/// and array accesses, side effects) has no value.
pub open spec fn eval(e: ExprV, env: spec_fn(Seq<char>) -> Option<Value>) -> Option<Value>
    decreases e,
{
    match e {
        ExprV::Leaf(t) => if t.0 is Identifier {
            env(t.1)
        } else {
            literal_value(t)
        },
        ExprV::Paren(_, x, _) => eval(*x, env),
        ExprV::Unary(op, _, x) => match eval(*x, env) {
            Some(v) => apply_unary(op, v),
            None => None,
        },
        ExprV::Binary(op, l, _, r) => match (eval(*l, env), eval(*r, env)) {
            (Some(a), Some(b)) => apply_binary(op, a, b),
            _ => None,
        },
        ExprV::Cond(c, _, a, _, b) => match eval(*c, env) {
            Some(Value::Bool(true)) => eval(*a, env),
            Some(Value::Bool(false)) => eval(*b, env),
            _ => None,
        },
        _ => None,
    }
}

/// Types of variables that the folding pass tracks.
#[derive(PartialEq, Eq, Structural, Clone, Copy, Debug)]
pub enum Ty {
    Int,
    Uint,
    Float,
    Bool,
    /// Any other type: vectors, matrices, structures.
    Other,
}

/// The type a keyword names, for the keywords that can start a variable
/// declaration.
pub open spec fn kw_type(k: Kw) -> Option<Ty> {
    match k {
        Kw::Int => Some(Ty::Int),
        Kw::Uint => Some(Ty::Uint),
        Kw::Float => Some(Ty::Float),
        Kw::Bool => Some(Ty::Bool),
        Kw::Double | Kw::Vec2 | Kw::Vec3 | Kw::Vec4 | Kw::Ivec2 | Kw::Ivec3 | Kw::Ivec4 | Kw::Uvec2
        | Kw::Uvec3 | Kw::Uvec4 | Kw::Bvec2 | Kw::Bvec3 | Kw::Bvec4 | Kw::Mat2 | Kw::Mat3
        | Kw::Mat4 => Some(Ty::Other),
        _ => None,
    }
}

pub fn kw_type_exec(k: Kw) -> (r: Option<Ty>)
    ensures
        r == kw_type(k),
{
    match k {
        Kw::Int => Some(Ty::Int),
        Kw::Uint => Some(Ty::Uint),
        Kw::Float => Some(Ty::Float),
        Kw::Bool => Some(Ty::Bool),
        Kw::Double | Kw::Vec2 | Kw::Vec3 | Kw::Vec4 | Kw::Ivec2 | Kw::Ivec3 | Kw::Ivec4 | Kw::Uvec2
        | Kw::Uvec3 | Kw::Uvec4 | Kw::Bvec2 | Kw::Bvec3 | Kw::Bvec4 | Kw::Mat2 | Kw::Mat3
        | Kw::Mat4 => Some(Ty::Other),
        _ => None,
    }
}

} // verus!
