use runtime::error::GpuError;
use runtime::shaderc::emit_test;
use runtime::shaderc::propagate_and_emit;
use runtime::shaderc::tokenize;

#[test]
fn lexer_operators() {
    let tokens: Vec<String> = tokenize("a + b").unwrap();
    assert_eq!(tokens, vec!["IDENTIFIER", "PLUS", "IDENTIFIER", "END_OF_FILE"]);
}

#[test]
fn lexer_keywords() {
    let tokens: Vec<String> = tokenize("void main()").unwrap();
    assert_eq!(tokens, vec!["KW_VOID", "IDENTIFIER", "OPEN_PAREN", "CLOSE_PAREN", "END_OF_FILE"]);
}

#[test]
fn lexer_numbers() {
    let tokens: Vec<String> = tokenize("42 3.14f").unwrap();
    assert_eq!(tokens, vec!["INT_LITERAL", "FLOAT_LITERAL", "END_OF_FILE"]);
}

#[test]
fn lexer_comparison() {
    let tokens: Vec<String> = tokenize("i <= 8").unwrap();
    assert_eq!(tokens, vec!["IDENTIFIER", "LESS_EQUALS", "INT_LITERAL", "END_OF_FILE"]);
}

#[test]
fn emit_var_decl() {
    let result: String = emit_test().unwrap();
    assert_eq!(result, "float x = 3.14;\n");
}

fn run_propagate(source: &str) -> String {
    propagate_and_emit(source).expect("constant propagation should succeed")
}

#[test]
fn fold_int_arithmetic() {
    let result: String = run_propagate(
        r#"
#version 460
void main() { int a = 5 * 2 + 3; }
"#,
    );
    assert!(
        result.contains("int a = 13;") || result.contains("int a = 13;\n"),
        "5 * 2 + 3 should fold to 13:\n{}",
        result
    );
}

#[test]
fn fold_add_zero() {
    let result: String = run_propagate(
        r#"
#version 460
void main() { int a = 42; int b = a + 0; }
"#,
    );
    assert!(!result.contains("a + 0"), "a + 0 should fold to just a:\n{}", result);
    assert!(
        result.contains("int b = a;\n") || result.contains("int b = a;\n"),
        "b should be directly assigned from a:\n{}",
        result
    );
}

#[test]
fn fold_mul_by_one() {
    let result: String = run_propagate(
        r#"
#version 460
void main() { int a = 42; int b = a * 1; }
"#,
    );
    assert!(!result.contains("a * 1"), "a * 1 should fold to just a:\n{}", result);
    assert!(
        result.contains("int b = a;\n") || result.contains("int b = a;\n"),
        "b should be directly assigned from a:\n{}",
        result
    );
}

#[test]
fn fold_mul_by_zero() {
    let result: String = run_propagate(
        r#"
#version 460
void main() { int a = 42; int b = a * 0; }
"#,
    );
    assert!(
        result.contains("b = 0;") || result.contains("b = 0;\n"),
        "a * 0 should fold to 0:\n{}",
        result
    );
}

#[test]
fn fold_sub_zero() {
    let result: String = run_propagate(
        r#"
#version 460
void main() { int a = 42; int b = a - 0; }
"#,
    );
    assert!(!result.contains("a - 0"), "a - 0 should fold to a:\n{}", result);
    assert!(
        result.contains("int b = a;\n") || result.contains("int b = a;\n"),
        "b should be directly assigned from a:\n{}",
        result
    );
}

#[test]
fn fold_double_negate() {
    let result: String = run_propagate(
        r#"
#version 460
void main() { int a = 42; int b = -(-a); }
"#,
    );
    assert!(!result.contains("-(-a)"), "-(-a) should fold to a:\n{}", result);
    assert!(
        result.contains("b = a;\n") || result.contains("b = a;\n"),
        "b should be directly assigned from a:\n{}",
        result
    );
}

#[test]
fn fold_double_not() {
    let result: String = run_propagate(
        r#"
#version 460
void main() { bool a = true; bool b = !(!a); }
"#,
    );
    assert!(!result.contains("!(!a)"), "!(!a) should fold to a:\n{}", result);
    assert!(
        result.contains("b = a;\n") || result.contains("b = a;\n"),
        "b should be directly assigned from a:\n{}",
        result
    );
}

#[test]
fn fold_float_binary() {
    let result: String = run_propagate(
        r#"
#version 460
void main() { float a = 2.5; float b = a * 1.0; }
"#,
    );
    assert!(!result.contains("a * 1.0"), "a * 1.0 should fold to a:\n{}", result);
}

#[test]
fn fold_int_comparison() {
    let result: String = run_propagate(
        r#"
#version 460
void main() { int a = 1; int b = 3 < 5; }
"#,
    );
    assert!(
        result.contains("int b = 1;") || result.contains("b = 1;"),
        "3 < 5 should fold to 1 (true):\n{}",
        result
    );
}

#[test]
fn propagate_is_idempotent() {
    let source: &str = r#"
#version 460
layout(local_size_x = 1) in;
void main() {
    float x = 1.0;
    float y = x + 0.0;
}
"#;
    let first: String = run_propagate(source);
    let second: String = run_propagate(&first);
    assert_eq!(first, second, "second pass should not change anything");
}

#[test]
fn no_ast_opt_flag_is_present() {
    let source: &str = r#"
#version 460
layout(local_size_x = 1) in;
void main() {
    int a = 5 * 2;
}
"#;
    let with_opt: String = run_propagate(source);
    assert!(
        with_opt.contains("int a = 10;") || with_opt.contains("a = 10;"),
        "with AST opt, 5*2 should fold to 10:\n{}",
        with_opt
    );
}

#[test]
fn propagate_prints_whole_shader() {
    let source = "#version 460\nlayout(local_size_x = 1) in;\nvoid main() {\n    int a = 5 * 2;\n}\n";
    assert_eq!(
        run_propagate(source),
        "#version 460\nlayout(local_size_x = 1) in;\nvoid main() {\n    int a = 10;\n}\n"
    );
}

#[test]
fn propagate_keeps_for_header_and_calls() {
    let source = "void main(){for(int i=0;i<4;i++){sum+=float(i);}out_buf.d[idx]=sum*1.0+0.0;}";
    let out = run_propagate(source);
    assert!(out.contains("for(int i = 0; i < 4; i++) {\n"), "{}", out);
    assert!(out.contains("sum += float(i);\n"), "{}", out);
    assert!(out.contains("out_buf.d[idx] = sum * 1.0 + 0.0;\n"), "{}", out);
}

#[test]
fn propagate_drops_comments() {
    let out = run_propagate("int a = 1 + 1; // two\n/* block */ uint b = 2u * 3u;");
    assert_eq!(out, "int a = 2;\nuint b = 6u;\n");
}

#[test]
fn propagate_keeps_negative_results() {
    let out = run_propagate("int a = 2 - 5;");
    assert_eq!(out, "int a = 2 - 5;\n");
}

#[test]
fn propagate_keeps_overflow() {
    let out = run_propagate("int a = 2147483647 + 1;");
    assert_eq!(out, "int a = 2147483647 + 1;\n");
}

#[test]
fn propagate_folds_unsigned_and_bool_logic() {
    let out = run_propagate("uint u = 7u / 2u; bool t = true && !false; uint v = 1 < 2;");
    assert_eq!(out, "uint u = 3u;\nbool t = true;\nuint v = 1u;\n");
}

#[test]
fn propagate_keeps_unknown_type_additions() {
    let out = run_propagate("void f() { x = y + 0; }");
    assert!(out.contains("x = y + 0;"), "{}", out);
}

#[test]
fn propagate_folds_return_and_parens() {
    let out = run_propagate("int f(int k) { return (k * 1) + (2 * 3); }");
    assert!(out.contains("return k + 6;"), "{}", out);
}

#[test]
fn propagate_keeps_division_by_zero() {
    let out = run_propagate("int a = 1 / 0;");
    assert_eq!(out, "int a = 1 / 0;\n");
}

#[test]
fn propagate_refuses_unknown_character() {
    match propagate_and_emit("int a = 1 @ 2;") {
        Err(GpuError::Shader(m)) => assert_eq!(m, "unrecognized character in shader source"),
        _ => panic!("expected a shader error"),
    }
}

#[test]
fn tokenize_refuses_unterminated_comment() {
    assert!(matches!(tokenize("a /* b"), Err(GpuError::Shader(_))));
}

#[test]
fn tokenize_skips_trivia() {
    let tokens = tokenize("#version 460\n// c\nx /* y */ = 0x1Fu + 1.5e-3lf;").unwrap();
    assert_eq!(
        tokens,
        vec!["IDENTIFIER", "ASSIGN", "INT_LITERAL", "PLUS", "FLOAT_LITERAL", "SEMICOLON", "END_OF_FILE"]
    );
}

#[test]
fn tokenize_longest_operators() {
    let tokens = tokenize("a <<= b >> c && !d").unwrap();
    assert_eq!(
        tokens,
        vec![
            "IDENTIFIER",
            "SHIFT_LEFT_ASSIGN",
            "IDENTIFIER",
            "SHIFT_RIGHT",
            "IDENTIFIER",
            "AND_AND",
            "BANG",
            "IDENTIFIER",
            "END_OF_FILE"
        ]
    );
}

#[test]
fn tokenize_empty_source() {
    assert_eq!(tokenize("").unwrap(), vec!["END_OF_FILE"]);
}

#[test]
fn tokenize_bool_literals_and_keywords() {
    let tokens = tokenize("bool t = true; return false;").unwrap();
    assert_eq!(
        tokens,
        vec![
            "KW_BOOL",
            "IDENTIFIER",
            "ASSIGN",
            "BOOL_LITERAL",
            "SEMICOLON",
            "KW_RETURN",
            "BOOL_LITERAL",
            "SEMICOLON",
            "END_OF_FILE"
        ]
    );
}

#[test]
fn propagate_folds_float_product() {
    let out = run_propagate("void main() { float factor = 2.0 * 3.0; }");
    assert!(out.contains("float factor = 6.0;\n"), "{}", out);
}

#[test]
fn propagate_folds_float_sums_exactly() {
    let out = run_propagate("float a = 2.5 + 0.25; float b = 1.5 - 0.5; float c = 0.1 * 0.2; float d = 3. + .5;");
    assert_eq!(out, "float a = 2.75;\nfloat b = 1.0;\nfloat c = 0.02;\nfloat d = 3.5;\n");
}

#[test]
fn propagate_compares_floats() {
    let out = run_propagate("bool a = 2.0 < 3.5; bool b = 1.50 == 1.5; int c = 2.0 > 3.0;");
    assert_eq!(out, "bool a = true;\nbool b = true;\nint c = 0;\n");
}

#[test]
fn propagate_keeps_float_forms_it_does_not_fold() {
    let out = run_propagate("float a = 1.0 - 2.0; float b = 1.0 / 3.0; float c = 1.0f * 2.0; float d = 1e3 * 2.0; float e = 1.0 / 0.0;");
    assert_eq!(out, "float a = 1.0 - 2.0;\nfloat b = 1.0 / 3.0;\nfloat c = 1.0f * 2.0;\nfloat d = 1e3 * 2.0;\nfloat e = 1.0 / 0.0;\n");
}

#[test]
fn propagate_folds_full_pipeline_float_factor() {
    let source = "#version 460\nlayout(local_size_x = 64) in;\nvoid main() {\n    float factor = 2.0 * 3.0;\n    out_buf.d[idx] = sum * factor + 0.0;\n}\n";
    let out = run_propagate(source);
    assert!(out.contains("6.0"), "2.0 * 3.0 should fold to 6.0:\n{}", out);
}

#[test]
fn propagate_keeps_incomplete_expression() {
    let out = run_propagate("int x = 1 + 2 + ;");
    assert_eq!(out, "int x = 1 + 2 +;\n");
}

#[test]
fn propagate_divides_floats_exactly() {
    let out = run_propagate("float a = 1.0 / 4.0; float b = 6.0 / 2.0; float c = 1.0 / 8.0;");
    assert_eq!(out, "float a = 0.25;\nfloat b = 3.0;\nfloat c = 0.125;\n");
}

#[test]
fn propagate_second_pass_sees_declarations_the_first_removed() {
    // `a b` reads as a declaration of `b`, which makes `b`'s type unknown in
    // the first pass; folding `0 * a` to `0` removes it, so the second pass
    // knows `b` as an `int` and folds `b + 0`.
    let first = run_propagate("int a; int b; int y = 0 * a b; int z = b + 0;");
    assert_eq!(first, "int a;\nint b;\nint y = 0 b;\nint z = b + 0;\n");
    let second = run_propagate(&first);
    assert_eq!(second, "int a;\nint b;\nint y = 0 b;\nint z = b;\n");
}
