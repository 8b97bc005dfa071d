//! The constant-propagation pass over a whole shader: every expression that
//! is assigned, or returned, is folded; all other tokens pass through.
use vstd::prelude::*;
use crate::shaderc::ast::kw_type;
use crate::shaderc::ast::kw_type_exec;
use crate::shaderc::ast::spelling;
use crate::shaderc::ast::wf;
use crate::shaderc::ast::Expr;
use crate::shaderc::ast::ExprV;
use crate::shaderc::ast::TokV;
use crate::shaderc::ast::Ty;
use crate::shaderc::ast::Value;
use crate::shaderc::fold::decls_view;
use crate::shaderc::fold::fold;
use crate::shaderc::fold::fold_expr;
use crate::shaderc::fold::lemma_fold_idempotent;
use crate::shaderc::fold::lit_value;
use crate::shaderc::fold::literal_of;
use crate::shaderc::fold::literal_of_exec;
use crate::shaderc::fold::literal_value_exec;
use crate::shaderc::fold::Decl;
use crate::shaderc::lexer::views;
use crate::shaderc::lexer::Kw;
use crate::shaderc::lexer::Punct;
use crate::shaderc::lexer::TokKind;
use crate::shaderc::lexer::Token;
use crate::shaderc::parser::parse_cond;
use crate::shaderc::parser::spec_cond;

verus! {

/// Tokens that the compiler reads: all but whitespace and comments
/// (preprocessor lines are kept, and printed back).
pub open spec fn is_code(k: TokKind) -> bool {
    !(k is Whitespace || k is LineComment || k is BlockComment)
}

pub open spec fn code_tokens(ts: Seq<TokV>) -> Seq<TokV>
    decreases ts.len(),
{
    if ts.len() == 0 {
        Seq::empty()
    } else {
        let before = code_tokens(ts.drop_last());
        if is_code(ts.last().0) { before.push(ts.last()) } else { before }
    }
}

/// Keeps the tokens that the compiler reads.
pub fn code_tokens_exec(ts: &Vec<Token>) -> (out: Vec<Token>)
    ensures
        views(out@) == code_tokens(views(ts@)),
{
    let ghost tv = views(ts@);
    let mut out: Vec<Token> = Vec::new();
    let mut i: usize = 0;
    while i < ts.len()
        invariant
            i <= ts@.len(),
            tv == views(ts@),
            views(out@) == code_tokens(tv.take(i as int)),
        decreases ts@.len() - i,
    {
        assert(tv.take(i + 1).drop_last() =~= tv.take(i as int));
        let k = ts[i].kind;
        match k {
            TokKind::Whitespace | TokKind::LineComment | TokKind::BlockComment => {},
            _ => {
                let ghost before = views(out@);
                out.push(ts[i].clone_token());
                assert(views(out@) =~= before.push(tv[i as int]));
            },
        }
        i = i + 1;
    }
    assert(tv.take(i as int) =~= tv);
    out
}

/// The variable that the tokens at `i` declare, if they do: a type keyword
/// or a structure's name followed by a name, or a comma followed by a name
/// and what may follow a declarator. A name declared with a type the pass
/// does not track, or with several types, is left alone by the pass.
pub open spec fn decl_at(ts: Seq<TokV>, i: int) -> Option<(Seq<char>, Ty)> {
    if 0 <= i && i + 1 < ts.len() && ts[i + 1].0 is Identifier {
        match ts[i].0 {
            TokKind::Keyword(k) => match kw_type(k) {
                Some(t) => Some((ts[i + 1].1, t)),
                None => None,
            },
            TokKind::Identifier => Some((ts[i + 1].1, Ty::Other)),
            TokKind::Punct(Punct::Comma) => if i + 2 < ts.len() && (ts[i + 2].0 == TokKind::Punct(Punct::Assign)
                || ts[i + 2].0 == TokKind::Punct(Punct::Semicolon) || ts[i + 2].0 == TokKind::Punct(Punct::Comma)
                || ts[i + 2].0 == TokKind::Punct(Punct::OpenBracket)) {
                Some((ts[i + 1].1, Ty::Other))
            } else {
                None
            },
            _ => None,
        }
    } else {
        None
    }
}

/// The declarations among the first `n` tokens, in order.
pub open spec fn decls_upto(ts: Seq<TokV>, n: int) -> Seq<(Seq<char>, Ty)>
    decreases n,
{
    if n <= 0 {
        Seq::empty()
    } else {
        let before = decls_upto(ts, n - 1);
        match decl_at(ts, n - 1) {
            Some(d) => before.push(d),
            None => before,
        }
    }
}

/// The declarations of a token stream.
pub open spec fn declarations(ts: Seq<TokV>) -> Seq<(Seq<char>, Ty)> {
    decls_upto(ts, ts.len() as int)
}

fn decl_at_exec(ts: &Vec<Token>, i: usize) -> (r: Option<Decl>)
    requires
        i < ts@.len(),
    ensures
        match r {
            Some(d) => decl_at(views(ts@), i as int) == Some(d@),
            None => decl_at(views(ts@), i as int) is None,
        },
{
    let n = ts.len();
    if n - i > 1 && ts[i + 1].kind == TokKind::Identifier {
        let ty = match ts[i].kind {
            TokKind::Keyword(k) => kw_type_exec(k),
            TokKind::Identifier => Some(Ty::Other),
            TokKind::Punct(Punct::Comma) => if n - i > 2 && (ts[i + 2].kind == TokKind::Punct(Punct::Assign)
                || ts[i + 2].kind == TokKind::Punct(Punct::Semicolon)
                || ts[i + 2].kind == TokKind::Punct(Punct::Comma)
                || ts[i + 2].kind == TokKind::Punct(Punct::OpenBracket)) {
                Some(Ty::Other)
            } else {
                None
            },
            _ => None,
        };
        match ty {
            Some(t) => Some(Decl { name: ts[i + 1].text.clone(), ty: t }),
            None => None,
        }
    } else {
        None
    }
}

/// The declarations of a token stream.
pub fn declarations_exec(ts: &Vec<Token>) -> (ds: Vec<Decl>)
    ensures
        decls_view(ds@) == declarations(views(ts@)),
{
    let mut ds: Vec<Decl> = Vec::new();
    let mut i: usize = 0;
    while i < ts.len()
        invariant
            i <= ts@.len(),
            decls_view(ds@) == decls_upto(views(ts@), i as int),
        decreases ts@.len() - i,
    {
        match decl_at_exec(ts, i) {
            Some(d) => {
                let ghost before = decls_view(ds@);
                let ghost dv = d@;
                ds.push(d);
                assert(decls_view(ds@) =~= before.push(dv));
            },
            None => {},
        }
        i = i + 1;
    }
    ds
}

/// A token after which an expression is folded: an assignment operator or
/// `return`.
pub open spec fn opens_region(k: TokKind) -> bool {
    match k {
        TokKind::Punct(p) => match p {
            Punct::Assign | Punct::PlusAssign | Punct::MinusAssign | Punct::StarAssign | Punct::SlashAssign
            | Punct::PercentAssign | Punct::AndAssign | Punct::OrAssign | Punct::XorAssign
            | Punct::ShiftLeftAssign | Punct::ShiftRightAssign => true,
            _ => false,
        },
        TokKind::Keyword(Kw::Return) => true,
        _ => false,
    }
}

fn opens_region_exec(k: TokKind) -> (b: bool)
    ensures
        b == opens_region(k),
{
    match k {
        TokKind::Punct(p) => match p {
            Punct::Assign | Punct::PlusAssign | Punct::MinusAssign | Punct::StarAssign | Punct::SlashAssign
            | Punct::PercentAssign | Punct::AndAssign | Punct::OrAssign | Punct::XorAssign
            | Punct::ShiftLeftAssign | Punct::ShiftRightAssign => true,
            _ => false,
        },
        TokKind::Keyword(Kw::Return) => true,
        _ => false,
    }
}

/// The integer type of the variable that the `=` at `i` initializes, where
/// the declaration reads `int name =` or `uint name =`.
pub open spec fn init_type(ts: Seq<TokV>, i: int) -> Option<Ty> {
    if 2 <= i < ts.len() && ts[i].0 == TokKind::Punct(Punct::Assign) && ts[i - 1].0 is Identifier {
        match ts[i - 2].0 {
            TokKind::Keyword(Kw::Int) => Some(Ty::Int),
            TokKind::Keyword(Kw::Uint) => Some(Ty::Uint),
            _ => None,
        }
    } else {
        None
    }
}

fn init_type_exec(ts: &Vec<Token>, i: usize) -> (r: Option<Ty>)
    requires
        i < ts@.len(),
    ensures
        r == init_type(views(ts@), i as int),
{
    if i >= 2 && ts[i].kind == TokKind::Punct(Punct::Assign) && ts[i - 1].kind == TokKind::Identifier {
        match ts[i - 2].kind {
            TokKind::Keyword(Kw::Int) => Some(Ty::Int),
            TokKind::Keyword(Kw::Uint) => Some(Ty::Uint),
            _ => None,
        }
    } else {
        None
    }
}

/// A boolean constant that initializes an integer variable becomes `1` or
/// `0` of the variable's type; any other expression stays as it is.
pub open spec fn coerce(target: Option<Ty>, e: ExprV) -> ExprV {
    match (target, lit_value(e)) {
        (Some(Ty::Int), Some(Value::Bool(b))) => literal_of(Value::Int(if b { 1 } else { 0 }))->0,
        (Some(Ty::Uint), Some(Value::Bool(b))) => literal_of(Value::Uint(if b { 1 } else { 0 }))->0,
        _ => e,
    }
}

fn coerce_exec(target: Option<Ty>, e: Box<Expr>) -> (r: Box<Expr>)
    ensures
        r@ == coerce(target, e@),
{
    let v = match &*e {
        Expr::Leaf(t) => literal_value_exec(t),
        _ => None,
    };
    match (target, v) {
        (Some(Ty::Int), Some(Value::Bool(b))) => match literal_of_exec(Value::Int(if b { 1 } else { 0 })) {
            Some(c) => c,
            None => e,
        },
        (Some(Ty::Uint), Some(Value::Bool(b))) => match literal_of_exec(Value::Uint(if b { 1 } else { 0 })) {
            Some(c) => c,
            None => e,
        },
        _ => e,
    }
}

/// A span of the token stream and what replaces it: itself (one token), or
/// the folded form of the expression it spells.
pub struct Piece {
    pub start: usize,
    pub end: usize,
    pub folded: Option<Box<Expr>>,
}

pub struct PieceV {
    pub start: int,
    pub end: int,
    pub folded: Option<ExprV>,
}

impl View for Piece {
    type V = PieceV;

    open spec fn view(&self) -> PieceV {
        PieceV {
            start: self.start as int,
            end: self.end as int,
            folded: match self.folded {
                Some(e) => Some(e@),
                None => None,
            },
        }
    }
}

pub open spec fn pieces_view(ps: Seq<Piece>) -> Seq<PieceV> {
    ps.map_values(|p: Piece| p@)
}

/// A piece is one token kept as it is, or an expression that follows an
/// assignment operator or `return`, replaced by its folded form (a boolean
/// constant that initializes an integer becoming `1` or `0`).
pub open spec fn valid_piece(ts: Seq<TokV>, p: PieceV) -> bool {
    &&& 0 <= p.start < p.end <= ts.len()
    &&& match p.folded {
        None => p.end == p.start + 1,
        Some(f) => p.start >= 1 && opens_region(ts[p.start - 1].0) && exists|e: ExprV|
            #![trigger spelling(e)]
            wf(e) && spelling(e) == ts.subrange(p.start, p.end)
                && f == coerce(init_type(ts, p.start - 1), fold(declarations(ts), e)),
    }
}

/// Pieces that cover the stream in order, each valid.
pub open spec fn rewrites(ts: Seq<TokV>, ps: Seq<PieceV>) -> bool {
    &&& (ps.len() == 0 <==> ts.len() == 0)
    &&& ps.len() > 0 ==> ps[0].start == 0 && ps.last().end == ts.len()
    &&& forall|k: int| 0 <= k < ps.len() - 1 ==> (#[trigger] ps[k]).end == ps[k + 1].start
    &&& forall|k: int| 0 <= k < ps.len() ==> valid_piece(ts, #[trigger] ps[k])
}

/// The tokens that a piece stands for in the output.
pub open spec fn piece_tokens(ts: Seq<TokV>, p: PieceV) -> Seq<TokV> {
    match p.folded {
        None => seq![ts[p.start]],
        Some(f) => spelling(f),
    }
}

/// The output tokens of a sequence of pieces.
pub open spec fn output(ts: Seq<TokV>, ps: Seq<PieceV>) -> Seq<TokV>
    decreases ps.len(),
{
    if ps.len() == 0 {
        Seq::empty()
    } else {
        output(ts, ps.drop_last()) + piece_tokens(ts, ps.last())
    }
}

fn push_token(out: &mut Vec<Token>, t: &Token)
    ensures
        views(final(out)@) == views(old(out)@).push(t@),
{
    let ghost before = views(out@);
    out.push(t.clone_token());
    assert(views(out@) =~= before.push(t@));
}

/// Appends the tokens an expression spells.
pub fn spell_expr(e: &Expr, out: &mut Vec<Token>)
    ensures
        views(final(out)@) == views(old(out)@) + spelling(e@),
    decreases e,
{
    let ghost s0 = views(out@);
    match e {
        Expr::Leaf(t) => {
            push_token(out, t);
            assert(views(out@) =~= s0 + seq![t@]);
        },
        Expr::Paren(o, x, c) => {
            push_token(out, o);
            spell_expr(x, out);
            push_token(out, c);
            assert(views(out@) =~= s0 + (seq![o@] + spelling(x@) + seq![c@]));
        },
        Expr::Unary(_, t, x) => {
            push_token(out, t);
            spell_expr(x, out);
            assert(views(out@) =~= s0 + (seq![t@] + spelling(x@)));
        },
        Expr::Binary(_, l, t, r) => {
            spell_expr(l, out);
            push_token(out, t);
            spell_expr(r, out);
            assert(views(out@) =~= s0 + (spelling(l@) + seq![t@] + spelling(r@)));
        },
        Expr::Cond(c, q, a, k, b) => {
            spell_expr(c, out);
            push_token(out, q);
            spell_expr(a, out);
            push_token(out, k);
            spell_expr(b, out);
            assert(views(out@) =~= s0 + (spelling(c@) + seq![q@] + spelling(a@) + seq![k@] + spelling(b@)));
        },
        Expr::Postfix(x, t) => {
            spell_expr(x, out);
            push_token(out, t);
            assert(views(out@) =~= s0 + (spelling(x@) + seq![t@]));
        },
        Expr::Member(x, d, f) => {
            spell_expr(x, out);
            push_token(out, d);
            push_token(out, f);
            assert(views(out@) =~= s0 + (spelling(x@) + seq![d@, f@]));
        },
        Expr::Index(x, o, i, c) => {
            spell_expr(x, out);
            push_token(out, o);
            spell_expr(i, out);
            push_token(out, c);
            assert(views(out@) =~= s0 + (spelling(x@) + seq![o@] + spelling(i@) + seq![c@]));
        },
        Expr::Call(f, o, a, c) => {
            spell_expr(f, out);
            push_token(out, o);
            let ghost s1 = views(out@);
            match a {
                Some(a) => {
                    spell_expr(a, out);
                },
                None => {},
            }
            let ghost inner = match a {
                Some(a) => spelling(a@),
                None => Seq::<TokV>::empty(),
            };
            assert(views(out@) =~= s1 + inner);
            push_token(out, c);
            assert(views(out@) =~= s0 + (spelling(f@) + seq![o@] + inner + seq![c@]));
        },
        Expr::Comma(a, t, b) => {
            spell_expr(a, out);
            push_token(out, t);
            spell_expr(b, out);
            assert(views(out@) =~= s0 + (spelling(a@) + seq![t@] + spelling(b@)));
        },
    }
}

/// The piece that starts at `i`: the longest expression after an
/// assignment operator or `return`, folded, where one parses there; else the
/// token at `i`.
pub open spec fn next_piece(ts: Seq<TokV>, i: int) -> PieceV {
    if 1 <= i <= ts.len() && opens_region(ts[i - 1].0) && spec_cond(ts, i) is Some {
        let (e, end) = spec_cond(ts, i)->0;
        PieceV { start: i, end, folded: Some(coerce(init_type(ts, i - 1), fold(declarations(ts), e))) }
    } else {
        PieceV { start: i, end: i + 1, folded: None }
    }
}

/// The pieces of a token stream from position `i` on.
pub open spec fn pieces_from(ts: Seq<TokV>, i: int) -> Seq<PieceV>
    decreases ts.len() - i,
{
    if i < 0 || i >= ts.len() {
        Seq::empty()
    } else {
        let p = next_piece(ts, i);
        if i < p.end <= ts.len() {
            seq![p] + pieces_from(ts, p.end)
        } else {
            Seq::empty()
        }
    }
}

/// The pieces of a token stream.
pub open spec fn pieces(ts: Seq<TokV>) -> Seq<PieceV> {
    pieces_from(ts, 0)
}

/// Finds the expressions that follow assignment operators and `return`,
/// and folds them; every other token is kept.
pub fn fold_regions(ts: &Vec<Token>) -> (ps: Vec<Piece>)
    ensures
        pieces_view(ps@) == pieces(views(ts@)),
        rewrites(views(ts@), pieces_view(ps@)),
{
    let decls = declarations_exec(ts);
    let ghost tv = views(ts@);
    let mut ps: Vec<Piece> = Vec::new();
    let mut i: usize = 0;
    let n = ts.len();
    while i < n
        invariant
            n == ts@.len(),
            i <= n,
            tv == views(ts@),
            decls_view(decls@) == declarations(tv),
            ps@.len() == 0 <==> i == 0,
            ps@.len() > 0 ==> pieces_view(ps@)[0].start == 0 && pieces_view(ps@).last().end == i,
            forall|k: int| 0 <= k < ps@.len() - 1 ==> (#[trigger] pieces_view(ps@)[k]).end
                == pieces_view(ps@)[k + 1].start,
            forall|k: int| 0 <= k < ps@.len() ==> valid_piece(tv, #[trigger] pieces_view(ps@)[k]),
            pieces_view(ps@) + pieces_from(tv, i as int) == pieces(tv),
        decreases n - i,
    {
        let ghost before = pieces_view(ps@);
        let mut piece: Option<Piece> = None;
        if i >= 1 && opens_region_exec(ts[i - 1].kind) {
            match parse_cond(ts, i) {
                Some((e, end)) => {
                    let ghost ev = e@;
                    let target = init_type_exec(ts, i - 1);
                    let f = coerce_exec(target, fold_expr(&decls, e));
                    assert(wf(ev) && spelling(ev) == tv.subrange(i as int, end as int));
                    piece = Some(Piece { start: i, end, folded: Some(f) });
                },
                None => {},
            }
        }
        let p = match piece {
            Some(p) => p,
            None => Piece { start: i, end: i + 1, folded: None },
        };
        let next = p.end;
        let ghost pv = p@;
        assert(valid_piece(tv, pv));
        assert(pv == next_piece(tv, i as int));
        assert(pieces_from(tv, i as int) == seq![pv] + pieces_from(tv, next as int));
        ps.push(p);
        assert(pieces_view(ps@) =~= before.push(pv));
        assert(pieces_view(ps@) + pieces_from(tv, next as int) =~= before + pieces_from(tv, i as int));
        i = next;
    }
    assert(pieces_from(tv, i as int) =~= Seq::<PieceV>::empty());
    assert(pieces_view(ps@) =~= pieces(tv));
    ps
}

/// The output tokens of the pieces of a stream.
pub fn output_tokens(ts: &Vec<Token>, ps: &Vec<Piece>) -> (out: Vec<Token>)
    requires
        rewrites(views(ts@), pieces_view(ps@)),
    ensures
        views(out@) == output(views(ts@), pieces_view(ps@)),
{
    let ghost tv = views(ts@);
    let ghost pv = pieces_view(ps@);
    let mut out: Vec<Token> = Vec::new();
    let mut k: usize = 0;
    while k < ps.len()
        invariant
            k <= ps@.len(),
            tv == views(ts@),
            pv == pieces_view(ps@),
            rewrites(tv, pv),
            views(out@) == output(tv, pv.take(k as int)),
        decreases ps@.len() - k,
    {
        assert(pv.take(k + 1).drop_last() =~= pv.take(k as int));
        assert(valid_piece(tv, pv[k as int]));
        match &ps[k].folded {
            Some(f) => {
                spell_expr(f, &mut out);
            },
            None => {
                push_token(&mut out, &ts[ps[k].start]);
            },
        }
        k = k + 1;
    }
    assert(pv.take(k as int) =~= pv);
    out
}

/// What the pass puts in place of an expression is already folded: folding
/// it again changes nothing.
pub open spec fn piece_is_folded(ts: Seq<TokV>, p: PieceV) -> bool {
    p.folded matches Some(f) ==> fold(declarations(ts), f) == f
}

proof fn lemma_next_piece_folded(ts: Seq<TokV>, i: int)
    ensures
        piece_is_folded(ts, next_piece(ts, i)),
{
    if 1 <= i <= ts.len() && opens_region(ts[i - 1].0) && spec_cond(ts, i) is Some {
        let (e, end) = spec_cond(ts, i)->0;
        lemma_fold_idempotent(declarations(ts), e);
    }
}

proof fn lemma_pieces_from_folded(ts: Seq<TokV>, i: int)
    ensures
        forall|k: int| 0 <= k < pieces_from(ts, i).len() ==> piece_is_folded(ts, #[trigger] pieces_from(ts, i)[k]),
    decreases ts.len() - i,
{
    if 0 <= i < ts.len() {
        let p = next_piece(ts, i);
        if i < p.end <= ts.len() {
            lemma_next_piece_folded(ts, i);
            lemma_pieces_from_folded(ts, p.end);
            let rest = pieces_from(ts, p.end);
            assert forall|k: int| 0 <= k < pieces_from(ts, i).len() implies piece_is_folded(ts, #[trigger] pieces_from(ts, i)[k]) by {
                if k > 0 {
                    assert(pieces_from(ts, i)[k] == rest[k - 1]);
                }
            }
        }
    }
}

/// Every expression that the pass writes is in folded form: a second
/// folding of it, with the same declarations, gives it back.
pub proof fn lemma_pieces_are_folded(ts: Seq<TokV>, k: int)
    requires
        0 <= k < pieces(ts).len(),
    ensures
        piece_is_folded(ts, pieces(ts)[k]),
{
    lemma_pieces_from_folded(ts, 0);
}

} // verus!
