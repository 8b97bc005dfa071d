//! Prints a token stream back as GLSL text: one statement per line,
//! blocks indented by four spaces, single spaces around operators.
use vstd::prelude::*;
use crate::shaderc::ast::TokV;
use crate::shaderc::lexer::views;
use crate::shaderc::lexer::Kw;
use crate::shaderc::lexer::Punct;
use crate::shaderc::lexer::TokKind;
use crate::shaderc::lexer::Token;

verus! {

/// Where the printer stands after a token.
#[derive(PartialEq, Eq, Structural, Clone, Copy)]
pub struct Layout {
    /// Open parentheses.
    pub parens: u64,
    /// Open braces.
    pub braces: u64,
    pub at_line_start: bool,
    /// The last token, if any, was a prefix operator.
    pub after_prefix: bool,
    /// The kind of the last token, if any.
    pub prev: Option<TokKind>,
}

pub open spec fn initial_layout() -> Layout {
    Layout { parens: 0, braces: 0, at_line_start: true, after_prefix: false, prev: None }
}

pub open spec fn is_p(k: TokKind, p: Punct) -> bool {
    k == TokKind::Punct(p)
}

/// Whether `k`, after a token of kind `prev`, is a prefix operator.
pub open spec fn is_prefix_op(prev: Option<TokKind>, k: TokKind) -> bool {
    let operator = is_p(k, Punct::Minus) || is_p(k, Punct::Plus) || is_p(k, Punct::Bang)
        || is_p(k, Punct::Tilde) || is_p(k, Punct::PlusPlus) || is_p(k, Punct::MinusMinus);
    operator && match prev {
        None => true,
        Some(p) => (p is Punct && !is_p(p, Punct::CloseParen) && !is_p(p, Punct::CloseBracket))
            || p == TokKind::Keyword(Kw::Return),
    }
}

/// Whether a token ends its line: a statement's `;` outside parentheses,
/// a brace, or a preprocessor line.
pub open spec fn ends_line(st: Layout, k: TokKind) -> bool {
    (is_p(k, Punct::Semicolon) && st.parens == 0) || is_p(k, Punct::OpenBrace)
        || is_p(k, Punct::CloseBrace) || k is Directive
}

/// Whether a space separates the previous token from one of kind `k` on
/// the same line.
pub open spec fn space_before(st: Layout, k: TokKind) -> bool {
    match st.prev {
        None => false,
        Some(p) => if is_p(k, Punct::Semicolon) || is_p(k, Punct::Comma) || is_p(k, Punct::CloseParen)
            || is_p(k, Punct::CloseBracket) || is_p(k, Punct::Dot) || is_p(k, Punct::OpenBracket) {
            false
        } else if is_p(p, Punct::OpenParen) || is_p(p, Punct::OpenBracket) || is_p(p, Punct::Dot) {
            false
        } else if is_p(k, Punct::OpenParen) && (p is Identifier || p is Keyword) {
            false
        } else if (is_p(k, Punct::PlusPlus) || is_p(k, Punct::MinusMinus))
            && (p is Identifier || is_p(p, Punct::CloseParen) || is_p(p, Punct::CloseBracket)) {
            false
        } else if st.after_prefix {
            k is Punct && !is_p(k, Punct::OpenParen)
        } else {
            true
        },
    }
}

/// `n` spaces.
pub open spec fn spaces(n: nat) -> Seq<char>
    decreases n,
{
    if n == 0 { Seq::empty() } else { spaces((n - 1) as nat).push(' ') }
}

/// The indentation of a line at brace depth `depth`.
pub open spec fn indent(depth: nat) -> Seq<char> {
    spaces(4 * depth)
}

/// What comes before a token: a line break, an indentation, a space, or
/// nothing.
pub open spec fn lead(st: Layout, k: TokKind) -> Seq<char> {
    let depth: nat = if is_p(k, Punct::CloseBrace) && st.braces > 0 { (st.braces - 1) as nat } else { st.braces as nat };
    if k is Directive {
        if st.at_line_start { Seq::empty() } else { seq!['\n'] }
    } else if st.at_line_start {
        indent(depth)
    } else if is_p(k, Punct::CloseBrace) {
        seq!['\n'] + indent(depth)
    } else if space_before(st, k) {
        seq![' ']
    } else {
        Seq::empty()
    }
}

pub open spec fn next_layout(st: Layout, k: TokKind) -> Layout {
    Layout {
        parens: if is_p(k, Punct::OpenParen) {
            (st.parens + 1) as u64
        } else if is_p(k, Punct::CloseParen) && st.parens > 0 {
            (st.parens - 1) as u64
        } else {
            st.parens
        },
        braces: if is_p(k, Punct::OpenBrace) {
            (st.braces + 1) as u64
        } else if is_p(k, Punct::CloseBrace) && st.braces > 0 {
            (st.braces - 1) as u64
        } else {
            st.braces
        },
        at_line_start: ends_line(st, k),
        after_prefix: is_prefix_op(st.prev, k),
        prev: Some(k),
    }
}

/// The text of the first `n` tokens and the printer's state after them.
pub open spec fn render_prefix(ts: Seq<TokV>, n: int) -> (Seq<char>, Layout)
    decreases n,
{
    if n <= 0 {
        (Seq::empty(), initial_layout())
    } else {
        let (text, st) = render_prefix(ts, n - 1);
        let t = ts[n - 1];
        let piece = lead(st, t.0) + t.1 + (if ends_line(st, t.0) { seq!['\n'] } else { Seq::empty() });
        (text + piece, next_layout(st, t.0))
    }
}

/// The text of a token stream.
pub open spec fn render(ts: Seq<TokV>) -> Seq<char> {
    render_prefix(ts, ts.len() as int).0
}

fn is_p_exec(k: TokKind, p: Punct) -> (b: bool)
    ensures
        b == is_p(k, p),
{
    k == TokKind::Punct(p)
}

fn is_prefix_op_exec(prev: Option<TokKind>, k: TokKind) -> (b: bool)
    ensures
        b == is_prefix_op(prev, k),
{
    let operator = is_p_exec(k, Punct::Minus) || is_p_exec(k, Punct::Plus) || is_p_exec(k, Punct::Bang)
        || is_p_exec(k, Punct::Tilde) || is_p_exec(k, Punct::PlusPlus) || is_p_exec(k, Punct::MinusMinus);
    operator && match prev {
        None => true,
        Some(p) => ((match p { TokKind::Punct(_) => true, _ => false }) && !is_p_exec(p, Punct::CloseParen)
            && !is_p_exec(p, Punct::CloseBracket)) || p == TokKind::Keyword(Kw::Return),
    }
}

fn ends_line_exec(st: &Layout, k: TokKind) -> (b: bool)
    ensures
        b == ends_line(*st, k),
{
    (is_p_exec(k, Punct::Semicolon) && st.parens == 0) || is_p_exec(k, Punct::OpenBrace)
        || is_p_exec(k, Punct::CloseBrace) || k == TokKind::Directive
}

fn is_word_or_keyword(k: TokKind) -> (b: bool)
    ensures
        b == (k is Identifier || k is Keyword),
{
    match k {
        TokKind::Identifier | TokKind::Keyword(_) => true,
        _ => false,
    }
}

fn space_before_exec(st: &Layout, k: TokKind) -> (b: bool)
    ensures
        b == space_before(*st, k),
{
    match st.prev {
        None => false,
        Some(p) => if is_p_exec(k, Punct::Semicolon) || is_p_exec(k, Punct::Comma)
            || is_p_exec(k, Punct::CloseParen) || is_p_exec(k, Punct::CloseBracket) || is_p_exec(k, Punct::Dot)
            || is_p_exec(k, Punct::OpenBracket) {
            false
        } else if is_p_exec(p, Punct::OpenParen) || is_p_exec(p, Punct::OpenBracket) || is_p_exec(p, Punct::Dot) {
            false
        } else if is_p_exec(k, Punct::OpenParen) && is_word_or_keyword(p) {
            false
        } else if (is_p_exec(k, Punct::PlusPlus) || is_p_exec(k, Punct::MinusMinus))
            && (p == TokKind::Identifier || is_p_exec(p, Punct::CloseParen) || is_p_exec(p, Punct::CloseBracket)) {
            false
        } else if st.after_prefix {
            (match k { TokKind::Punct(_) => true, _ => false }) && !is_p_exec(k, Punct::OpenParen)
        } else {
            true
        },
    }
}

fn push_spaces(out: &mut Vec<char>, n: u64)
    ensures
        final(out)@ == old(out)@ + spaces(n as nat),
{
    let mut i: u64 = 0;
    while i < n
        invariant
            i <= n,
            out@ == old(out)@ + spaces(i as nat),
        decreases n - i,
    {
        out.push(' ');
        i = i + 1;
        assert(spaces(i as nat) == spaces((i - 1) as nat).push(' '));
    }
}

proof fn lemma_spaces_add(a: nat, b: nat)
    ensures
        spaces(a + b) == spaces(a) + spaces(b),
    decreases b,
{
    if b == 0 {
        assert(spaces(a) + spaces(0) =~= spaces(a));
    } else {
        lemma_spaces_add(a, (b - 1) as nat);
        assert(spaces(a + b) == spaces((a + b - 1) as nat).push(' '));
        assert(spaces(b) == spaces((b - 1) as nat).push(' '));
        assert(spaces(a) + spaces(b) =~= (spaces(a) + spaces((b - 1) as nat)).push(' '));
    }
}

fn push_indent(out: &mut Vec<char>, depth: u64)
    ensures
        final(out)@ == old(out)@ + indent(depth as nat),
{
    let mut i: u64 = 0;
    while i < depth
        invariant
            i <= depth,
            out@ == old(out)@ + indent(i as nat),
        decreases depth - i,
    {
        let ghost before = out@;
        push_spaces(out, 4);
        proof {
            lemma_spaces_add(4 * i as nat, 4);
            assert(4 * (i + 1) == 4 * i + 4);
        }
        assert(out@ =~= old(out)@ + indent((i + 1) as nat));
        i = i + 1;
    }
}

fn push_all(out: &mut Vec<char>, s: &Vec<char>)
    ensures
        final(out)@ == old(out)@ + s@,
{
    let mut i: usize = 0;
    while i < s.len()
        invariant
            i <= s@.len(),
            out@ == old(out)@ + s@.take(i as int),
        decreases s@.len() - i,
    {
        out.push(s[i]);
        i = i + 1;
        assert(s@.take(i as int) == s@.take(i - 1).push(s@[i - 1]));
    }
    assert(s@.take(i as int) =~= s@);
}

/// Prints a token stream: exactly `render` of its tokens.
pub fn render_tokens(ts: &Vec<Token>) -> (out: Vec<char>)
    ensures
        out@ == render(views(ts@)),
{
    let ghost tv = views(ts@);
    let mut out: Vec<char> = Vec::new();
    let mut st = Layout { parens: 0, braces: 0, at_line_start: true, after_prefix: false, prev: None };
    let mut i: usize = 0;
    let n = ts.len();
    while i < n
        invariant
            n == ts@.len(),
            tv == views(ts@),
            i <= ts@.len(),
            ts@.len() <= usize::MAX,
            (out@, st) == render_prefix(tv, i as int),
            st.braces <= i,
            st.parens <= i,
        decreases ts@.len() - i,
    {
        let k = ts[i].kind;
        let depth: u64 = if is_p_exec(k, Punct::CloseBrace) && st.braces > 0 { st.braces - 1 } else { st.braces };
        if k == TokKind::Directive {
            if !st.at_line_start {
                out.push('\n');
            }
        } else if st.at_line_start {
            push_indent(&mut out, depth);
        } else if is_p_exec(k, Punct::CloseBrace) {
            out.push('\n');
            push_indent(&mut out, depth);
        } else if space_before_exec(&st, k) {
            out.push(' ');
        }
        push_all(&mut out, &ts[i].text);
        let ends = ends_line_exec(&st, k);
        if ends {
            out.push('\n');
        }
        let ghost old_st = st;
        st = Layout {
            parens: if is_p_exec(k, Punct::OpenParen) {
                st.parens + 1
            } else if is_p_exec(k, Punct::CloseParen) && st.parens > 0 {
                st.parens - 1
            } else {
                st.parens
            },
            braces: if is_p_exec(k, Punct::OpenBrace) {
                st.braces + 1
            } else if is_p_exec(k, Punct::CloseBrace) && st.braces > 0 {
                st.braces - 1
            } else {
                st.braces
            },
            at_line_start: ends,
            after_prefix: is_prefix_op_exec(st.prev, k),
            prev: Some(k),
        };
        proof {
            let (text0, st0) = render_prefix(tv, i as int);
            assert(st0 == old_st);
            let t = tv[i as int];
            assert(t.0 == k);
            assert(st == next_layout(old_st, k));
        }
        i = i + 1;
    }
    out
}

} // verus!
