use runtime::shaderc::lexer::lex_chars;
use runtime::shaderc::lexer::TokKind;
use runtime::shaderc::parser::parse_cond;
use runtime::shaderc::propagate::code_tokens_exec;
use runtime::shaderc::propagate::spell_expr;
use runtime::shaderc::propagate_and_emit;

fn chars(s: &str) -> Vec<char> {
    s.chars().collect()
}

#[test]
fn lexing_spells_the_source_back() {
    let src = "#version 460\nvoid main() { x += 0x1F * (y /* c */ - 2.5e3f); } // end\n@";
    let toks = lex_chars(&chars(src));
    let spelled: String = toks.iter().flat_map(|t| t.text.iter()).collect();
    assert_eq!(spelled, src);
    assert_eq!(toks.last().unwrap().kind, TokKind::Unknown);
}

#[test]
fn parse_spells_its_tokens() {
    let toks = code_tokens_exec(&lex_chars(&chars("a + b * -c[i].x ? f(1, 2u) : !d++ ;")));
    let (e, end) = parse_cond(&toks, 0).expect("an expression");
    assert_eq!(end, toks.len() - 1);
    let mut out = Vec::new();
    spell_expr(&e, &mut out);
    let texts: Vec<String> = out.iter().map(|t| t.text.iter().collect()).collect();
    let expected: Vec<String> = toks[..end].iter().map(|t| t.text.iter().collect()).collect();
    assert_eq!(texts, expected);
}

#[test]
fn parse_refuses_unclosed_parenthesis() {
    let toks = code_tokens_exec(&lex_chars(&chars("(a + b")));
    assert!(parse_cond(&toks, 0).is_none());
}

#[test]
fn folding_twice_changes_nothing() {
    let src = "int f(int k, uint u, bool b) { int a = (k * 1) + 0 * k; uint v = u / 1u + 0u; bool c = !(!(b)); return -(-(a)) - 0; }";
    let once = propagate_and_emit(src).unwrap();
    let twice = propagate_and_emit(&once).unwrap();
    assert_eq!(once, twice);
    assert!(once.contains("int a = k;"), "{}", once);
    assert!(once.contains("uint v = u;"), "{}", once);
    assert!(once.contains("bool c = b;"), "{}", once);
    assert!(once.contains("return a;"), "{}", once);
}

#[test]
fn folding_keeps_values_of_constants() {
    let out = propagate_and_emit("int a = (7 + 5) / 4 % 2; bool t = 3 >= 3 == (1 != 2); uint m = 65535u * 65537u;").unwrap();
    assert_eq!(out, "int a = 1;\nbool t = true;\nuint m = 4294967295u;\n");
}
