//! A recursive-descent parser for GLSL expressions.
//!
//! Every parse is checked against the model: the tree spells exactly the
//! tokens it was parsed from, and it respects GLSL's precedence and
//! associativity (`wf`).
use vstd::prelude::*;
use crate::shaderc::ast::bin_prec;
use crate::shaderc::ast::prec;
use crate::shaderc::ast::spelling;
use crate::shaderc::ast::wf;
use crate::shaderc::ast::BinOp;
use crate::shaderc::ast::Expr;
use crate::shaderc::ast::ExprV;
use crate::shaderc::ast::TokV;
use crate::shaderc::ast::UnOp;
use crate::shaderc::lexer::views;
use crate::shaderc::lexer::Punct;
use crate::shaderc::lexer::TokKind;
use crate::shaderc::lexer::Token;

verus! {

/// The binary operator a punctuator denotes, if any.
pub open spec fn binop_of(p: Punct) -> Option<BinOp> {
    match p {
        Punct::Star => Some(BinOp::Mul),
        Punct::Slash => Some(BinOp::Div),
        Punct::Percent => Some(BinOp::Mod),
        Punct::Plus => Some(BinOp::Add),
        Punct::Minus => Some(BinOp::Sub),
        Punct::ShiftLeft => Some(BinOp::Shl),
        Punct::ShiftRight => Some(BinOp::Shr),
        Punct::Less => Some(BinOp::Lt),
        Punct::Greater => Some(BinOp::Gt),
        Punct::LessEquals => Some(BinOp::Le),
        Punct::GreaterEquals => Some(BinOp::Ge),
        Punct::EqualsEquals => Some(BinOp::Eq),
        Punct::NotEquals => Some(BinOp::Ne),
        Punct::Ampersand => Some(BinOp::BitAnd),
        Punct::Caret => Some(BinOp::BitXor),
        Punct::Pipe => Some(BinOp::BitOr),
        Punct::AndAnd => Some(BinOp::And),
        Punct::XorXor => Some(BinOp::Xor),
        Punct::OrOr => Some(BinOp::Or),
        _ => None,
    }
}

fn binop_exec(p: Punct) -> (r: Option<BinOp>)
    ensures
        r == binop_of(p),
{
    match p {
        Punct::Star => Some(BinOp::Mul),
        Punct::Slash => Some(BinOp::Div),
        Punct::Percent => Some(BinOp::Mod),
        Punct::Plus => Some(BinOp::Add),
        Punct::Minus => Some(BinOp::Sub),
        Punct::ShiftLeft => Some(BinOp::Shl),
        Punct::ShiftRight => Some(BinOp::Shr),
        Punct::Less => Some(BinOp::Lt),
        Punct::Greater => Some(BinOp::Gt),
        Punct::LessEquals => Some(BinOp::Le),
        Punct::GreaterEquals => Some(BinOp::Ge),
        Punct::EqualsEquals => Some(BinOp::Eq),
        Punct::NotEquals => Some(BinOp::Ne),
        Punct::Ampersand => Some(BinOp::BitAnd),
        Punct::Caret => Some(BinOp::BitXor),
        Punct::Pipe => Some(BinOp::BitOr),
        Punct::AndAnd => Some(BinOp::And),
        Punct::XorXor => Some(BinOp::Xor),
        Punct::OrOr => Some(BinOp::Or),
        _ => None,
    }
}

fn bin_prec_exec(op: BinOp) -> (p: u8)
    ensures
        p as int == bin_prec(op),
{
    match op {
        BinOp::Or => 3,
        BinOp::Xor => 4,
        BinOp::And => 5,
        BinOp::BitOr => 6,
        BinOp::BitXor => 7,
        BinOp::BitAnd => 8,
        BinOp::Eq | BinOp::Ne => 9,
        BinOp::Lt | BinOp::Gt | BinOp::Le | BinOp::Ge => 10,
        BinOp::Shl | BinOp::Shr => 11,
        BinOp::Add | BinOp::Sub => 12,
        BinOp::Mul | BinOp::Div | BinOp::Mod => 13,
    }
}

/// The prefix operator a punctuator denotes, if any.
pub open spec fn unop_of(p: Punct) -> Option<UnOp> {
    match p {
        Punct::Minus => Some(UnOp::Neg),
        Punct::Plus => Some(UnOp::Plus),
        Punct::Bang => Some(UnOp::Not),
        Punct::Tilde => Some(UnOp::BitNot),
        Punct::PlusPlus => Some(UnOp::PreInc),
        Punct::MinusMinus => Some(UnOp::PreDec),
        _ => None,
    }
}

fn unop_exec(p: Punct) -> (r: Option<UnOp>)
    ensures
        r == unop_of(p),
{
    match p {
        Punct::Minus => Some(UnOp::Neg),
        Punct::Plus => Some(UnOp::Plus),
        Punct::Bang => Some(UnOp::Not),
        Punct::Tilde => Some(UnOp::BitNot),
        Punct::PlusPlus => Some(UnOp::PreInc),
        Punct::MinusMinus => Some(UnOp::PreDec),
        _ => None,
    }
}

/// The precedence of the binary operator at `pos`; 0 where there is none.
pub open spec fn next_bin_prec(ts: Seq<TokV>, pos: int) -> int {
    if 0 <= pos < ts.len() {
        match ts[pos].0 {
            TokKind::Punct(p) => match binop_of(p) {
                Some(op) => bin_prec(op),
                None => 0,
            },
            _ => 0,
        }
    } else {
        0
    }
}

/// A successful parse of the tokens from `pos` to `end`.
pub open spec fn parsed(ts: Seq<TokV>, pos: int, e: Expr, end: int, min_prec: int) -> bool {
    &&& pos < end <= ts.len()
    &&& spelling(e@) == ts.subrange(pos, end)
    &&& wf(e@)
    &&& prec(e@) >= min_prec
}

/// The view of a parser's result.
pub open spec fn result_view(r: Option<(Box<Expr>, usize)>) -> Option<(ExprV, int)> {
    match r {
        Some((e, end)) => Some((e@, end as int)),
        None => None,
    }
}

pub open spec fn at(ts: Seq<TokV>, i: int, p: Punct) -> bool {
    0 <= i < ts.len() && ts[i].0 == TokKind::Punct(p)
}

/// The grammar of GLSL expressions, as a recursive-descent parser: a
/// primary expression.
pub open spec fn spec_primary(ts: Seq<TokV>, pos: int) -> Option<(ExprV, int)>
    decreases ts.len() - pos, 0nat,
{
    if pos < 0 || pos >= ts.len() {
        None
    } else {
        match ts[pos].0 {
            TokKind::Identifier | TokKind::IntLiteral | TokKind::FloatLiteral | TokKind::BoolLiteral => Some(
                (ExprV::Leaf(ts[pos]), pos + 1),
            ),
            TokKind::Keyword(_) => if at(ts, pos + 1, Punct::OpenParen) {
                Some((ExprV::Leaf(ts[pos]), pos + 1))
            } else {
                None
            },
            TokKind::Punct(Punct::OpenParen) => match spec_cond(ts, pos + 1) {
                Some((x, end)) => if at(ts, end, Punct::CloseParen) {
                    Some((ExprV::Paren(ts[pos], Box::new(x), ts[end]), end + 1))
                } else {
                    None
                },
                None => None,
            },
            _ => None,
        }
    }
}

/// Postfix operations applied, left to right, to `base`, which ends at `cur`.
pub open spec fn spec_postfix_rest(ts: Seq<TokV>, base: ExprV, cur: int) -> Option<(ExprV, int)>
    decreases ts.len() - cur, 1nat,
{
    if cur < 0 || cur >= ts.len() {
        Some((base, cur))
    } else {
        match ts[cur].0 {
            TokKind::Punct(Punct::Dot) => if cur + 1 < ts.len() && ts[cur + 1].0 is Identifier {
                spec_postfix_rest(ts, ExprV::Member(Box::new(base), ts[cur], ts[cur + 1]), cur + 2)
            } else {
                None
            },
            TokKind::Punct(Punct::OpenBracket) => match spec_cond(ts, cur + 1) {
                Some((i, end)) => if end > cur && at(ts, end, Punct::CloseBracket) {
                    spec_postfix_rest(ts, ExprV::Index(Box::new(base), ts[cur], Box::new(i), ts[end]), end + 1)
                } else {
                    None
                },
                None => None,
            },
            TokKind::Punct(Punct::OpenParen) => if at(ts, cur + 1, Punct::CloseParen) {
                spec_postfix_rest(ts, ExprV::Call(Box::new(base), ts[cur], None, ts[cur + 1]), cur + 2)
            } else {
                match spec_args(ts, cur + 1) {
                    Some((a, end)) => if end > cur && at(ts, end, Punct::CloseParen) {
                        spec_postfix_rest(
                            ts,
                            ExprV::Call(Box::new(base), ts[cur], Some(Box::new(a)), ts[end]),
                            end + 1,
                        )
                    } else {
                        None
                    },
                    None => None,
                }
            },
            TokKind::Punct(Punct::PlusPlus) | TokKind::Punct(Punct::MinusMinus) => spec_postfix_rest(
                ts,
                ExprV::Postfix(Box::new(base), ts[cur]),
                cur + 1,
            ),
            _ => Some((base, cur)),
        }
    }
}

pub open spec fn spec_postfix(ts: Seq<TokV>, pos: int) -> Option<(ExprV, int)>
    decreases ts.len() - pos, 1nat,
{
    match spec_primary(ts, pos) {
        Some((base, cur)) => if pos < cur <= ts.len() {
            spec_postfix_rest(ts, base, cur)
        } else {
            None
        },
        None => None,
    }
}

pub open spec fn spec_unary(ts: Seq<TokV>, pos: int) -> Option<(ExprV, int)>
    decreases ts.len() - pos, 2nat,
{
    if 0 <= pos < ts.len() && ts[pos].0 is Punct && unop_of(ts[pos].0->Punct_0) is Some {
        match spec_unary(ts, pos + 1) {
            Some((x, end)) => Some((ExprV::Unary(unop_of(ts[pos].0->Punct_0)->0, ts[pos], Box::new(x)), end)),
            None => None,
        }
    } else {
        spec_postfix(ts, pos)
    }
}

/// The operator at `cur`, if it is a binary operator of precedence at least
/// `min_prec`.
pub open spec fn binop_at(ts: Seq<TokV>, cur: int, min_prec: int) -> Option<BinOp> {
    if 0 <= cur < ts.len() && ts[cur].0 is Punct {
        match binop_of(ts[cur].0->Punct_0) {
            Some(op) => if bin_prec(op) >= min_prec { Some(op) } else { None },
            None => None,
        }
    } else {
        None
    }
}

/// Binary operators of precedence at least `min_prec` applied, left to
/// right, to `lhs`, which ends at `cur`.
pub open spec fn spec_binary_rest(ts: Seq<TokV>, lhs: ExprV, cur: int, min_prec: int) -> Option<(ExprV, int)>
    decreases ts.len() - cur, 3nat,
{
    match binop_at(ts, cur, min_prec) {
        Some(op) => match spec_binary(ts, cur + 1, bin_prec(op) + 1) {
            Some((rhs, end)) => if cur < end <= ts.len() {
                spec_binary_rest(ts, ExprV::Binary(op, Box::new(lhs), ts[cur], Box::new(rhs)), end, min_prec)
            } else {
                None
            },
            None => None,
        },
        None => Some((lhs, cur)),
    }
}

pub open spec fn spec_binary(ts: Seq<TokV>, pos: int, min_prec: int) -> Option<(ExprV, int)>
    decreases ts.len() - pos, 3nat,
{
    if pos < 0 {
        None
    } else {
        match spec_unary(ts, pos) {
            Some((lhs, cur)) => if pos < cur <= ts.len() {
                spec_binary_rest(ts, lhs, cur, min_prec)
            } else {
                None
            },
            None => None,
        }
    }
}

/// The expression that starts at `pos`, as the grammar reads it: a binary
/// expression by precedence climbing (each operator taken while one
/// follows), then, after a `?`, the two branches of a conditional. The
/// reading is greedy and does not back off: where an operator is followed
/// by no operand, or a `(` or `[` is not closed, there is no expression at
/// all (`a + ;` gives none, though `a` alone would be one). What comes back
/// is well formed, spells exactly its tokens (`parse_cond`), and is followed
/// by no token that could carry it on (`lemma_cond_stops`).
pub open spec fn spec_cond(ts: Seq<TokV>, pos: int) -> Option<(ExprV, int)>
    decreases ts.len() - pos, 4nat,
{
    if pos < 0 {
        None
    } else {
        match spec_binary(ts, pos, 3) {
            Some((c, q)) => if pos <= q && at(ts, q, Punct::Question) {
                match spec_cond(ts, q + 1) {
                    Some((a, k)) => if q < k && at(ts, k, Punct::Colon) {
                        match spec_cond(ts, k + 1) {
                            Some((b, end)) => Some(
                                (ExprV::Cond(Box::new(c), ts[q], Box::new(a), ts[k], Box::new(b)), end),
                            ),
                            None => None,
                        }
                    } else {
                        None
                    },
                    None => None,
                }
            } else {
                Some((c, q))
            },
            None => None,
        }
    }
}

pub open spec fn spec_args(ts: Seq<TokV>, pos: int) -> Option<(ExprV, int)>
    decreases ts.len() - pos, 5nat,
{
    if pos < 0 {
        None
    } else {
        match spec_cond(ts, pos) {
            Some((a, end)) => if pos <= end && at(ts, end, Punct::Comma) {
                match spec_args(ts, end + 1) {
                    Some((rest, end2)) => Some((ExprV::Comma(Box::new(a), ts[end], Box::new(rest)), end2)),
                    None => None,
                }
            } else {
                Some((a, end))
            },
            None => None,
        }
    }
}

/// Whether the token at `i` is a postfix operation: `.`, `[`, `(`, `++`
/// or `--`.
pub open spec fn continues_postfix(ts: Seq<TokV>, i: int) -> bool {
    at(ts, i, Punct::Dot) || at(ts, i, Punct::OpenBracket) || at(ts, i, Punct::OpenParen)
        || at(ts, i, Punct::PlusPlus) || at(ts, i, Punct::MinusMinus)
}

/// Whether the token at `i` could carry an expression on: a postfix
/// operation, a binary operator, or `?`.
pub open spec fn continues(ts: Seq<TokV>, i: int) -> bool {
    ||| continues_postfix(ts, i)
    ||| at(ts, i, Punct::Question)
    ||| (0 <= i < ts.len() && ts[i].0 is Punct && binop_of(ts[i].0->Punct_0) is Some)
}

proof fn lemma_postfix_rest_ends(ts: Seq<TokV>, base: ExprV, cur: int)
    ensures
        spec_postfix_rest(ts, base, cur) matches Some((_, end)) ==> !continues_postfix(ts, end),
    decreases ts.len() - cur,
{
    if 0 <= cur < ts.len() {
        match ts[cur].0 {
            TokKind::Punct(Punct::Dot) => if cur + 1 < ts.len() && ts[cur + 1].0 is Identifier {
                lemma_postfix_rest_ends(ts, ExprV::Member(Box::new(base), ts[cur], ts[cur + 1]), cur + 2);
            },
            TokKind::Punct(Punct::OpenBracket) => match spec_cond(ts, cur + 1) {
                Some((i, end)) => if end > cur && at(ts, end, Punct::CloseBracket) {
                    lemma_postfix_rest_ends(ts, ExprV::Index(Box::new(base), ts[cur], Box::new(i), ts[end]), end + 1);
                },
                None => {},
            },
            TokKind::Punct(Punct::OpenParen) => if at(ts, cur + 1, Punct::CloseParen) {
                lemma_postfix_rest_ends(ts, ExprV::Call(Box::new(base), ts[cur], None, ts[cur + 1]), cur + 2);
            } else {
                match spec_args(ts, cur + 1) {
                    Some((a, end)) => if end > cur && at(ts, end, Punct::CloseParen) {
                        lemma_postfix_rest_ends(
                            ts,
                            ExprV::Call(Box::new(base), ts[cur], Some(Box::new(a)), ts[end]),
                            end + 1,
                        );
                    },
                    None => {},
                }
            },
            TokKind::Punct(Punct::PlusPlus) | TokKind::Punct(Punct::MinusMinus) => {
                lemma_postfix_rest_ends(ts, ExprV::Postfix(Box::new(base), ts[cur]), cur + 1);
            },
            _ => {},
        }
    }
}

proof fn lemma_unary_stops(ts: Seq<TokV>, pos: int)
    ensures
        spec_unary(ts, pos) matches Some((_, end)) ==> !continues_postfix(ts, end),
    decreases ts.len() - pos,
{
    if 0 <= pos < ts.len() && ts[pos].0 is Punct && unop_of(ts[pos].0->Punct_0) is Some {
        lemma_unary_stops(ts, pos + 1);
    } else {
        assert(spec_unary(ts, pos) == spec_postfix(ts, pos));
        match spec_primary(ts, pos) {
            Some((base, cur)) => {
                lemma_postfix_rest_ends(ts, base, cur);
            },
            None => {},
        }
    }
}

proof fn lemma_binary_rest_stops(ts: Seq<TokV>, lhs: ExprV, cur: int, min_prec: int)
    requires
        !continues_postfix(ts, cur),
    ensures
        spec_binary_rest(ts, lhs, cur, min_prec) matches Some((_, end))
            ==> !continues_postfix(ts, end) && binop_at(ts, end, min_prec) is None && end >= cur,
    decreases ts.len() - cur, 0nat,
{
    match binop_at(ts, cur, min_prec) {
        Some(op) => {
            lemma_binary_stops(ts, cur + 1, bin_prec(op) + 1);
            match spec_binary(ts, cur + 1, bin_prec(op) + 1) {
                Some((rhs, end)) => if cur < end <= ts.len() {
                    lemma_binary_rest_stops(ts, ExprV::Binary(op, Box::new(lhs), ts[cur], Box::new(rhs)), end, min_prec);
                },
                None => {},
            }
        },
        None => {},
    }
}

proof fn lemma_binary_stops(ts: Seq<TokV>, pos: int, min_prec: int)
    ensures
        spec_binary(ts, pos, min_prec) matches Some((_, end))
            ==> !continues_postfix(ts, end) && binop_at(ts, end, min_prec) is None && end > pos,
    decreases ts.len() - pos, 1nat,
{
    if pos >= 0 {
        lemma_unary_stops(ts, pos);
        match spec_unary(ts, pos) {
            Some((lhs, cur)) => if pos < cur <= ts.len() {
                lemma_binary_rest_stops(ts, lhs, cur, min_prec);
            },
            None => {},
        }
    }
}

/// An expression is read as far as it goes: the token after it carries no
/// expression on (it is no binary operator, no `?` and no postfix
/// operation).
pub proof fn lemma_cond_stops(ts: Seq<TokV>, pos: int)
    ensures
        spec_cond(ts, pos) matches Some((_, end)) ==> !continues(ts, end),
    decreases ts.len() - pos,
{
    if pos >= 0 {
        lemma_binary_stops(ts, pos, 3);
        match spec_binary(ts, pos, 3) {
            Some((c, q)) => if pos <= q && at(ts, q, Punct::Question) {
                match spec_cond(ts, q + 1) {
                    Some((a, k)) => if q < k && at(ts, k, Punct::Colon) {
                        lemma_cond_stops(ts, k + 1);
                    },
                    None => {},
                }
            } else {
                if 0 <= q < ts.len() && ts[q].0 is Punct {
                    if let Some(op) = binop_of(ts[q].0->Punct_0) {
                        assert(bin_prec(op) >= 3);
                        assert(binop_at(ts, q, 3) is Some);
                    }
                }
            },
            None => {},
        }
    }
}

fn punct_at(toks: &Vec<Token>, pos: usize) -> (r: Option<Punct>)
    ensures
        toks@.len() <= usize::MAX,
        match r {
            Some(p) => pos < toks@.len() && views(toks@)[pos as int].0 == TokKind::Punct(p),
            None => pos >= toks@.len() || views(toks@)[pos as int].0 !is Punct,
        },
{
    let n = toks.len();
    if pos < n {
        match toks[pos].kind {
            TokKind::Punct(p) => Some(p),
            _ => None,
        }
    } else {
        None
    }
}

fn is_punct_at(toks: &Vec<Token>, pos: usize, p: Punct) -> (b: bool)
    ensures
        toks@.len() <= usize::MAX,
        b == (pos < toks@.len() && views(toks@)[pos as int].0 == TokKind::Punct(p)),
{
    let n = toks.len();
    pos < n && toks[pos].kind == TokKind::Punct(p)
}

fn token(toks: &Vec<Token>, pos: usize) -> (t: Token)
    requires
        pos < toks@.len(),
    ensures
        t@ == views(toks@)[pos as int],
{
    toks[pos].clone_token()
}

/// Parses a primary expression: an identifier, a literal, a type name
/// followed by `(`, or a parenthesized expression.
fn parse_primary(toks: &Vec<Token>, pos: usize) -> (r: Option<(Box<Expr>, usize)>)
    requires
        pos <= toks@.len(),
    ensures
        r matches Some((e, end)) ==> parsed(views(toks@), pos as int, *e, end as int, 16),
        result_view(r) == spec_primary(views(toks@), pos as int),
    decreases toks@.len() - pos, 0nat,
{
    let ghost ts = views(toks@);
    if pos >= toks.len() {
        return None;
    }
    let k = toks[pos].kind;
    match k {
        TokKind::Identifier | TokKind::IntLiteral | TokKind::FloatLiteral | TokKind::BoolLiteral => {
            let e = Box::new(Expr::Leaf(token(toks, pos)));
            assert(ts.subrange(pos as int, pos + 1) =~= seq![ts[pos as int]]);
            Some((e, pos + 1))
        },
        TokKind::Keyword(_) => {
            if is_punct_at(toks, pos + 1, Punct::OpenParen) {
                let e = Box::new(Expr::Leaf(token(toks, pos)));
                assert(ts.subrange(pos as int, pos + 1) =~= seq![ts[pos as int]]);
                Some((e, pos + 1))
            } else {
                None
            }
        },
        TokKind::Punct(Punct::OpenParen) => {
            match parse_cond(toks, pos + 1) {
                Some((x, end)) => {
                    if is_punct_at(toks, end, Punct::CloseParen) {
                        let o = token(toks, pos);
                        let c = token(toks, end);
                        let e = Box::new(Expr::Paren(o, x, c));
                        assert(ts.subrange(pos as int, end + 1) =~= seq![ts[pos as int]]
                            + ts.subrange(pos + 1, end as int) + seq![ts[end as int]]);
                        Some((e, end + 1))
                    } else {
                        None
                    }
                },
                None => None,
            }
        },
        _ => None,
    }
}

/// One postfix operation applied to `base`: the next base and where it ends,
/// or nothing where the operation is malformed.
fn postfix_member(toks: &Vec<Token>, pos: usize, base: Box<Expr>, cur: usize) -> (r: Option<(Box<Expr>, usize)>)
    requires
        parsed(views(toks@), pos as int, *base, cur as int, 15),
        at(views(toks@), cur as int, Punct::Dot),
    ensures
        r matches Some((b, c)) ==> parsed(views(toks@), pos as int, *b, c as int, 15) && c > cur
            && spec_postfix_rest(views(toks@), base@, cur as int) == spec_postfix_rest(views(toks@), b@, c as int),
        r is None ==> spec_postfix_rest(views(toks@), base@, cur as int) is None,
{
    let ghost ts = views(toks@);
    let n = toks.len();
    if n - cur > 1 && toks[cur + 1].kind == TokKind::Identifier {
        let d = token(toks, cur);
        let f = token(toks, cur + 1);
        let b = Box::new(Expr::Member(base, d, f));
        assert(ts.subrange(pos as int, cur + 2) =~= ts.subrange(pos as int, cur as int)
            + seq![ts[cur as int], ts[cur + 1]]);
        Some((b, cur + 2))
    } else {
        None
    }
}

fn postfix_index(toks: &Vec<Token>, pos: usize, base: Box<Expr>, cur: usize) -> (r: Option<(Box<Expr>, usize)>)
    requires
        parsed(views(toks@), pos as int, *base, cur as int, 15),
        at(views(toks@), cur as int, Punct::OpenBracket),
    ensures
        r matches Some((b, c)) ==> parsed(views(toks@), pos as int, *b, c as int, 15) && c > cur
            && spec_postfix_rest(views(toks@), base@, cur as int) == spec_postfix_rest(views(toks@), b@, c as int),
        r is None ==> spec_postfix_rest(views(toks@), base@, cur as int) is None,
    decreases toks@.len() - cur, 1nat,
{
    let ghost ts = views(toks@);
    let n = toks.len();
    match parse_cond(toks, cur + 1) {
        Some((i, end)) => {
            if is_punct_at(toks, end, Punct::CloseBracket) {
                let o = token(toks, cur);
                let c = token(toks, end);
                let b = Box::new(Expr::Index(base, o, i, c));
                assert(ts.subrange(pos as int, end + 1) =~= ts.subrange(pos as int, cur as int)
                    + seq![ts[cur as int]] + ts.subrange(cur + 1, end as int) + seq![ts[end as int]]);
                Some((b, end + 1))
            } else {
                None
            }
        },
        None => None,
    }
}

fn postfix_call(toks: &Vec<Token>, pos: usize, base: Box<Expr>, cur: usize) -> (r: Option<(Box<Expr>, usize)>)
    requires
        parsed(views(toks@), pos as int, *base, cur as int, 15),
        at(views(toks@), cur as int, Punct::OpenParen),
    ensures
        r matches Some((b, c)) ==> parsed(views(toks@), pos as int, *b, c as int, 15) && c > cur
            && spec_postfix_rest(views(toks@), base@, cur as int) == spec_postfix_rest(views(toks@), b@, c as int),
        r is None ==> spec_postfix_rest(views(toks@), base@, cur as int) is None,
    decreases toks@.len() - cur, 1nat,
{
    let ghost ts = views(toks@);
    let n = toks.len();
    if is_punct_at(toks, cur + 1, Punct::CloseParen) {
        let o = token(toks, cur);
        let c = token(toks, cur + 1);
        let b = Box::new(Expr::Call(base, o, None, c));
        assert(ts.subrange(pos as int, cur + 2) =~= ts.subrange(pos as int, cur as int)
            + seq![ts[cur as int]] + Seq::<TokV>::empty() + seq![ts[cur + 1]]);
        Some((b, cur + 2))
    } else {
        match parse_args(toks, cur + 1) {
            Some((a, end)) => {
                if is_punct_at(toks, end, Punct::CloseParen) {
                    let o = token(toks, cur);
                    let c = token(toks, end);
                    let b = Box::new(Expr::Call(base, o, Some(a), c));
                    assert(ts.subrange(pos as int, end + 1) =~= ts.subrange(pos as int, cur as int)
                        + seq![ts[cur as int]] + ts.subrange(cur + 1, end as int) + seq![ts[end as int]]);
                    Some((b, end + 1))
                } else {
                    None
                }
            },
            None => None,
        }
    }
}

proof fn lemma_postfix_rest_stops(ts: Seq<TokV>, base: ExprV, cur: int)
    requires
        !at(ts, cur, Punct::Dot),
        !at(ts, cur, Punct::OpenBracket),
        !at(ts, cur, Punct::OpenParen),
        !at(ts, cur, Punct::PlusPlus),
        !at(ts, cur, Punct::MinusMinus),
    ensures
        spec_postfix_rest(ts, base, cur) == Some((base, cur)),
{
}

proof fn lemma_postfix_rest_incdec(ts: Seq<TokV>, base: ExprV, cur: int)
    requires
        at(ts, cur, Punct::PlusPlus) || at(ts, cur, Punct::MinusMinus),
    ensures
        spec_postfix_rest(ts, base, cur) == spec_postfix_rest(ts, ExprV::Postfix(Box::new(base), ts[cur]), cur + 1),
{
}

/// Parses a postfix expression: a primary one followed by member accesses,
/// indexing, calls and postfix increments.
#[verifier::rlimit(40)]
fn parse_postfix(toks: &Vec<Token>, pos: usize) -> (r: Option<(Box<Expr>, usize)>)
    requires
        pos <= toks@.len(),
    ensures
        r matches Some((e, end)) ==> parsed(views(toks@), pos as int, *e, end as int, 15),
        result_view(r) == spec_postfix(views(toks@), pos as int),
    decreases toks@.len() - pos, 1nat,
{
    let ghost ts = views(toks@);
    let r0 = parse_primary(toks, pos);
    let (mut base, mut cur) = match r0 {
        Some(p) => p,
        None => return None,
    };
    assert(spec_primary(ts, pos as int) == Some((base@, cur as int)));
    assert(pos < cur && cur <= ts.len());
    assert(spec_postfix(ts, pos as int) == spec_postfix_rest(ts, base@, cur as int));
    loop
        invariant
            ts == views(toks@),
            parsed(ts, pos as int, *base, cur as int, 15),
            spec_postfix(ts, pos as int) == spec_postfix_rest(ts, base@, cur as int),
        decreases toks@.len() - cur,
    {
        let step = match punct_at(toks, cur) {
            Some(Punct::Dot) => postfix_member(toks, pos, base, cur),
            Some(Punct::OpenBracket) => postfix_index(toks, pos, base, cur),
            Some(Punct::OpenParen) => postfix_call(toks, pos, base, cur),
            Some(Punct::PlusPlus) | Some(Punct::MinusMinus) => {
                proof {
                    lemma_postfix_rest_incdec(ts, base@, cur as int);
                }
                let t = token(toks, cur);
                assert(ts.subrange(pos as int, cur + 1) =~= ts.subrange(pos as int, cur as int) + seq![ts[cur as int]]);
                Some((Box::new(Expr::Postfix(base, t)), cur + 1))
            },
            _ => {
                proof {
                    lemma_postfix_rest_stops(ts, base@, cur as int);
                }
                return Some((base, cur));
            },
        };
        match step {
            Some((b, c)) => {
                base = b;
                cur = c;
            },
            None => {
                return None;
            },
        }
    }
}

/// Parses a unary expression: prefix operators applied to a postfix one.
fn parse_unary(toks: &Vec<Token>, pos: usize) -> (r: Option<(Box<Expr>, usize)>)
    requires
        pos <= toks@.len(),
    ensures
        r matches Some((e, end)) ==> parsed(views(toks@), pos as int, *e, end as int, 14),
        result_view(r) == spec_unary(views(toks@), pos as int),
    decreases toks@.len() - pos, 2nat,
{
    let ghost ts = views(toks@);
    let op = match punct_at(toks, pos) {
        Some(p) => unop_exec(p),
        None => None,
    };
    match op {
        Some(op) => {
            match parse_unary(toks, pos + 1) {
                Some((x, end)) => {
                    let t = token(toks, pos);
                    assert(ts.subrange(pos as int, end as int) =~= seq![ts[pos as int]] + ts.subrange(pos + 1, end as int));
                    Some((Box::new(Expr::Unary(op, t, x)), end))
                },
                None => None,
            }
        },
        None => parse_postfix(toks, pos),
    }
}

/// Parses binary operators of precedence `min_prec` and above, left to
/// right. The parse stops at the first token that is not such an operator.
fn parse_binary(toks: &Vec<Token>, pos: usize, min_prec: u8) -> (r: Option<(Box<Expr>, usize)>)
    requires
        pos <= toks@.len(),
        3 <= min_prec <= 14,
    ensures
        r matches Some((e, end)) ==> parsed(views(toks@), pos as int, *e, end as int, min_prec as int)
            && next_bin_prec(views(toks@), end as int) < min_prec,
        result_view(r) == spec_binary(views(toks@), pos as int, min_prec as int),
    decreases toks@.len() - pos, 3nat,
{
    let ghost ts = views(toks@);
    let (mut lhs, mut cur) = match parse_unary(toks, pos) {
        Some(p) => p,
        None => return None,
    };
    loop
        invariant
            ts == views(toks@),
            3 <= min_prec <= 14,
            parsed(ts, pos as int, *lhs, cur as int, min_prec as int),
            next_bin_prec(ts, cur as int) <= prec(lhs@),
            spec_binary(ts, pos as int, min_prec as int) == spec_binary_rest(ts, lhs@, cur as int, min_prec as int),
        decreases toks@.len() - cur,
    {
        let op = match punct_at(toks, cur) {
            Some(p) => binop_exec(p),
            None => None,
        };
        match op {
            Some(op) => {
                let p = bin_prec_exec(op);
                if p < min_prec {
                    return Some((lhs, cur));
                }
                match parse_binary(toks, cur + 1, p + 1) {
                    Some((rhs, end)) => {
                        let t = token(toks, cur);
                        assert(ts.subrange(pos as int, end as int) =~= ts.subrange(pos as int, cur as int)
                            + seq![ts[cur as int]] + ts.subrange(cur + 1, end as int));
                        lhs = Box::new(Expr::Binary(op, lhs, t, rhs));
                        cur = end;
                    },
                    None => return None,
                }
            },
            None => {
                return Some((lhs, cur));
            },
        }
    }
}

/// Parses a conditional expression `c ? a : b`, or a binary one.
pub fn parse_cond(toks: &Vec<Token>, pos: usize) -> (r: Option<(Box<Expr>, usize)>)
    requires
        pos <= toks@.len(),
    ensures
        r matches Some((e, end)) ==> parsed(views(toks@), pos as int, *e, end as int, 2),
        r matches Some((_, end)) ==> !continues(views(toks@), end as int),
        result_view(r) == spec_cond(views(toks@), pos as int),
    decreases toks@.len() - pos, 4nat,
{
    let ghost ts = views(toks@);
    proof {
        lemma_cond_stops(ts, pos as int);
    }
    match parse_binary(toks, pos, 3) {
        Some((c, q)) => {
            if is_punct_at(toks, q, Punct::Question) {
                match parse_cond(toks, q + 1) {
                    Some((a, k)) => {
                        if is_punct_at(toks, k, Punct::Colon) {
                            match parse_cond(toks, k + 1) {
                                Some((b, end)) => {
                                    let qt = token(toks, q);
                                    let kt = token(toks, k);
                                    assert(ts.subrange(pos as int, end as int) =~= ts.subrange(pos as int, q as int)
                                        + seq![ts[q as int]] + ts.subrange(q + 1, k as int) + seq![ts[k as int]]
                                        + ts.subrange(k + 1, end as int));
                                    Some((Box::new(Expr::Cond(c, qt, a, kt, b)), end))
                                },
                                None => None,
                            }
                        } else {
                            None
                        }
                    },
                    None => None,
                }
            } else {
                Some((c, q))
            }
        },
        None => None,
    }
}

/// Parses the arguments of a call: expressions separated by commas.
fn parse_args(toks: &Vec<Token>, pos: usize) -> (r: Option<(Box<Expr>, usize)>)
    requires
        pos <= toks@.len(),
    ensures
        r matches Some((e, end)) ==> parsed(views(toks@), pos as int, *e, end as int, 1),
        result_view(r) == spec_args(views(toks@), pos as int),
    decreases toks@.len() - pos, 5nat,
{
    let ghost ts = views(toks@);
    match parse_cond(toks, pos) {
        Some((a, end)) => {
            if is_punct_at(toks, end, Punct::Comma) {
                match parse_args(toks, end + 1) {
                    Some((rest, end2)) => {
                        let t = token(toks, end);
                        assert(ts.subrange(pos as int, end2 as int) =~= ts.subrange(pos as int, end as int)
                            + seq![ts[end as int]] + ts.subrange(end + 1, end2 as int));
                        Some((Box::new(Expr::Comma(a, t, rest)), end2))
                    },
                    None => None,
                }
            } else {
                Some((a, end))
            }
        },
        None => None,
    }
}

} // verus!
