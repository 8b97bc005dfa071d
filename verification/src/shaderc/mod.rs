//! The shader front end: a GLSL lexer, an expression parser, a constant
//! folding pass and the emitter that prints the result back as GLSL.
pub mod ast;
pub mod decimal;
pub mod emit;
pub mod fold;
pub mod lexer;
pub mod parser;
pub mod propagate;
pub mod exact;
pub mod status;
pub mod text;

use vstd::prelude::*;
use vstd::string::StringExecFns;
use crate::error::GpuError;
use crate::shaderc::lexer::is_trivia;
use crate::shaderc::lexer::is_trivia_exec;
use crate::shaderc::lexer::kind_name;
use crate::shaderc::lexer::kind_name_str;
use crate::shaderc::lexer::lex;
use crate::shaderc::lexer::lex_chars;
use crate::shaderc::lexer::views;
use crate::shaderc::lexer::Kw;
use crate::shaderc::lexer::Punct;
use crate::shaderc::lexer::TokKind;
use crate::shaderc::lexer::Token;
use crate::shaderc::ast::TokV;
use crate::shaderc::emit::render;
use crate::shaderc::emit::render_tokens;
use crate::shaderc::propagate::code_tokens;
use crate::shaderc::propagate::code_tokens_exec;
use crate::shaderc::propagate::fold_regions;
use crate::shaderc::propagate::output;
use crate::shaderc::propagate::output_tokens;
use crate::shaderc::propagate::pieces;
use crate::shaderc::propagate::rewrites;
use crate::shaderc::text::chars_of;
use crate::shaderc::text::string_from_chars;

verus! {

/// The names of the kinds of the tokens that are not trivia, in order.
pub open spec fn token_names(ts: Seq<(TokKind, Seq<char>)>) -> Seq<Seq<char>>
    decreases ts.len(),
{
    if ts.len() == 0 {
        Seq::empty()
    } else {
        let before = token_names(ts.drop_last());
        if is_trivia(ts.last().0) {
            before
        } else {
            before.push(kind_name(ts.last().0))
        }
    }
}

/// Whether some token is a character that starts no GLSL token (or an
/// unterminated comment).
pub open spec fn has_unknown(ts: Seq<(TokKind, Seq<char>)>) -> bool {
    exists|i: int| 0 <= i < ts.len() && (#[trigger] ts[i]).0 is Unknown
}

/// The message of the error for a source that does not lex.
pub open spec fn unknown_token_message() -> Seq<char> {
    "unrecognized character in shader source"@
}

/// The names of the kinds of the tokens of `source`, trivia left out, and
/// `END_OF_FILE` last. A source with a character that starts no token is
/// refused.
pub fn tokenize(source: &str) -> (r: Result<Vec<String>, GpuError>)
    ensures
        r is Err <==> has_unknown(lex(source@)),
        r matches Err(e) ==> e matches GpuError::Shader(m) && m@ == unknown_token_message(),
        r matches Ok(names) ==> names@.map_values(|n: String| n@)
            == token_names(lex(source@)).push("END_OF_FILE"@),
{
    let chars = chars_of(source);
    let toks = lex_chars(&chars);
    let mut names: Vec<String> = Vec::new();
    let mut i: usize = 0;
    while i < toks.len()
        invariant
            i <= toks@.len(),
            views(toks@) == lex(source@),
            names@.map_values(|n: String| n@) == token_names(views(toks@).take(i as int)),
            !has_unknown(views(toks@).take(i as int)),
        decreases toks@.len() - i,
    {
        let ghost ts = views(toks@);
        assert(ts.take(i + 1).drop_last() =~= ts.take(i as int));
        let k = toks[i].kind;
        if k == TokKind::Unknown {
            assert(ts[i as int].0 is Unknown);
            return Err(GpuError::Shader(String::from_str("unrecognized character in shader source")));
        }
        if !is_trivia_exec(k) {
            let ghost before = names@.map_values(|n: String| n@);
            names.push(String::from_str(kind_name_str(k)));
            assert(names@.map_values(|n: String| n@) =~= before.push(kind_name(k)));
        }
        assert forall|j: int| 0 <= j < ts.take(i + 1).len() implies (#[trigger] ts.take(i + 1)[j]).0 !is Unknown by {
            if j < i {
                assert(ts.take(i + 1)[j] == ts.take(i as int)[j]);
            }
        }
        i = i + 1;
    }
    assert(views(toks@).take(i as int) =~= lex(source@));
    let ghost before = names@.map_values(|n: String| n@);
    names.push(String::from_str("END_OF_FILE"));
    assert(names@.map_values(|n: String| n@) =~= before.push("END_OF_FILE"@));
    Ok(names)
}

fn find_unknown(toks: &Vec<Token>) -> (b: bool)
    ensures
        b == has_unknown(views(toks@)),
{
    let ghost ts = views(toks@);
    let mut i: usize = 0;
    while i < toks.len()
        invariant
            i <= toks@.len(),
            ts == views(toks@),
            forall|j: int| 0 <= j < i ==> (#[trigger] ts[j]).0 !is Unknown,
        decreases toks@.len() - i,
    {
        if toks[i].kind == TokKind::Unknown {
            assert(ts[i as int].0 is Unknown);
            return true;
        }
        i = i + 1;
    }
    false
}

/// The text of a shader after constant propagation: its code tokens, with
/// each expression that follows an assignment operator or `return` folded,
/// printed by the printer.
pub open spec fn propagated(source: Seq<char>) -> Seq<char> {
    let code = code_tokens(lex(source));
    render(output(code, pieces(code)))
}

/// Folds the constant expressions of a shader and prints it back.
///
/// The expressions folded are those that follow an assignment operator or
/// `return`; each is replaced by its folded form (`fold::fold`), and every
/// other token is printed as it was. Comments are dropped; the layout is
/// the printer's (`emit::render`). A source with a character that starts no
/// token is refused.
pub fn propagate_and_emit(source: &str) -> (r: Result<String, GpuError>)
    ensures
        r is Err <==> has_unknown(lex(source@)),
        r matches Err(e) ==> e matches GpuError::Shader(m) && m@ == unknown_token_message(),
        r matches Ok(s) ==> s@ == propagated(source@)
            && rewrites(code_tokens(lex(source@)), pieces(code_tokens(lex(source@)))),
{
    let chars = chars_of(source);
    let toks = lex_chars(&chars);
    if find_unknown(&toks) {
        return Err(GpuError::Shader(String::from_str("unrecognized character in shader source")));
    }
    let code = code_tokens_exec(&toks);
    let ps = fold_regions(&code);
    let out = output_tokens(&code, &ps);
    let text = render_tokens(&out);
    let s = string_from_chars(&text);
    Ok(s)
}

/// The tokens of the declaration `float x = 3.14;`.
pub open spec fn sample_declaration() -> Seq<TokV> {
    seq![
        (TokKind::Keyword(Kw::Float), "float"@),
        (TokKind::Identifier, "x"@),
        (TokKind::Punct(Punct::Assign), "="@),
        (TokKind::FloatLiteral, "3.14"@),
        (TokKind::Punct(Punct::Semicolon), ";"@),
    ]
}

/// Prints the declaration `float x = 3.14;`, built token by token: a check
/// of the printer on one statement.
pub fn emit_test() -> (r: Result<String, GpuError>)
    ensures
        r matches Ok(s) && s@ == render(sample_declaration()),
{
    let mut toks: Vec<Token> = Vec::new();
    toks.push(Token { kind: TokKind::Keyword(Kw::Float), text: chars_of("float") });
    toks.push(Token { kind: TokKind::Identifier, text: chars_of("x") });
    toks.push(Token { kind: TokKind::Punct(Punct::Assign), text: chars_of("=") });
    toks.push(Token { kind: TokKind::FloatLiteral, text: chars_of("3.14") });
    toks.push(Token { kind: TokKind::Punct(Punct::Semicolon), text: chars_of(";") });
    assert(views(toks@) =~= sample_declaration());
    let text = render_tokens(&toks);
    Ok(string_from_chars(&text))
}

} // verus!
