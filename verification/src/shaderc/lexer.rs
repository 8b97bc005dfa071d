//! A maximal-munch lexer for GLSL compute shaders.
//!
//! Lexing never fails: every character belongs to exactly one token, and a
//! character that starts no GLSL token becomes an `Unknown` token of its own.
//! Whitespace, comments and preprocessor lines are kept as trivia tokens, so
//! the tokens always spell the source back.
use vstd::prelude::*;
use vstd::slice::slice_subrange;
use vstd::slice::slice_to_vec;
use crate::shaderc::text::spells;
use crate::shaderc::text::is_digit;
use crate::shaderc::text::is_hex_digit;
use crate::shaderc::text::is_ident_char;
use crate::shaderc::text::is_ident_start;
use crate::shaderc::text::is_space;
use crate::shaderc::text::digit_exec;
use crate::shaderc::text::hex_digit_exec;
use crate::shaderc::text::ident_char_exec;
use crate::shaderc::text::ident_start_exec;
use crate::shaderc::text::space_exec;

verus! {

/// GLSL keywords recognised by the lexer.
#[derive(PartialEq, Eq, Structural, Clone, Copy, Debug)]
pub enum Kw {
    Void, Bool, Int, Uint, Float, Double,
    Vec2, Vec3, Vec4, Ivec2, Ivec3, Ivec4, Uvec2, Uvec3, Uvec4, Bvec2, Bvec3, Bvec4,
    Mat2, Mat3, Mat4,
    If, Else, For, While, Do, Switch, Case, Default, Return, Break, Continue, Discard,
    Const, In, Out, Inout, Uniform, Buffer, Shared, Layout, Struct,
    Precision, Highp, Mediump, Lowp,
}

/// GLSL operators and punctuation.
#[derive(PartialEq, Eq, Structural, Clone, Copy, Debug)]
pub enum Punct {
    Plus, Minus, Star, Slash, Percent,
    Less, Greater, LessEquals, GreaterEquals, EqualsEquals, NotEquals,
    Assign, PlusAssign, MinusAssign, StarAssign, SlashAssign, PercentAssign,
    AndAssign, OrAssign, XorAssign, ShiftLeftAssign, ShiftRightAssign,
    ShiftLeft, ShiftRight, AndAnd, OrOr, XorXor, Ampersand, Pipe, Caret, Bang, Tilde,
    PlusPlus, MinusMinus,
    OpenParen, CloseParen, OpenBrace, CloseBrace, OpenBracket, CloseBracket,
    Semicolon, Comma, Dot, Question, Colon,
}

/// What a token is.
#[derive(PartialEq, Eq, Structural, Clone, Copy, Debug)]
pub enum TokKind {
    Identifier,
    Keyword(Kw),
    IntLiteral,
    FloatLiteral,
    BoolLiteral,
    Punct(Punct),
    /// A preprocessor line, from `#` to the end of the line.
    Directive,
    Whitespace,
    LineComment,
    BlockComment,
    /// A character that starts no token, or an unterminated block comment.
    Unknown,
    EndOfFile,
}

/// A token and the characters it spans.
pub struct Token {
    pub kind: TokKind,
    pub text: Vec<char>,
}

impl View for Token {
    type V = (TokKind, Seq<char>);

    open spec fn view(&self) -> (TokKind, Seq<char>) {
        (self.kind, self.text@)
    }
}

impl Token {
    pub fn clone_token(&self) -> (t: Token)
        ensures
            t@ == self@,
    {
        Token { kind: self.kind, text: self.text.clone() }
    }
}

/// The views of a sequence of tokens.
pub open spec fn views(ts: Seq<Token>) -> Seq<(TokKind, Seq<char>)> {
    ts.map_values(|t: Token| t@)
}

/// Trivia carries no meaning for the compiler: whitespace, comments and
/// preprocessor lines.
pub open spec fn is_trivia(k: TokKind) -> bool {
    k is Whitespace || k is LineComment || k is BlockComment || k is Directive
}

pub fn is_trivia_exec(k: TokKind) -> (b: bool)
    ensures
        b == is_trivia(k),
{
    match k {
        TokKind::Whitespace | TokKind::LineComment | TokKind::BlockComment
        | TokKind::Directive => true,
        _ => false,
    }
}

pub open spec fn keyword_of(w: Seq<char>) -> Option<Kw> {
    if w == "void"@ { Some(Kw::Void) }
    else if w == "bool"@ { Some(Kw::Bool) }
    else if w == "int"@ { Some(Kw::Int) }
    else if w == "uint"@ { Some(Kw::Uint) }
    else if w == "float"@ { Some(Kw::Float) }
    else if w == "double"@ { Some(Kw::Double) }
    else if w == "vec2"@ { Some(Kw::Vec2) }
    else if w == "vec3"@ { Some(Kw::Vec3) }
    else if w == "vec4"@ { Some(Kw::Vec4) }
    else if w == "ivec2"@ { Some(Kw::Ivec2) }
    else if w == "ivec3"@ { Some(Kw::Ivec3) }
    else if w == "ivec4"@ { Some(Kw::Ivec4) }
    else if w == "uvec2"@ { Some(Kw::Uvec2) }
    else if w == "uvec3"@ { Some(Kw::Uvec3) }
    else if w == "uvec4"@ { Some(Kw::Uvec4) }
    else if w == "bvec2"@ { Some(Kw::Bvec2) }
    else if w == "bvec3"@ { Some(Kw::Bvec3) }
    else if w == "bvec4"@ { Some(Kw::Bvec4) }
    else if w == "mat2"@ { Some(Kw::Mat2) }
    else if w == "mat3"@ { Some(Kw::Mat3) }
    else if w == "mat4"@ { Some(Kw::Mat4) }
    else if w == "if"@ { Some(Kw::If) }
    else if w == "else"@ { Some(Kw::Else) }
    else if w == "for"@ { Some(Kw::For) }
    else if w == "while"@ { Some(Kw::While) }
    else if w == "do"@ { Some(Kw::Do) }
    else if w == "switch"@ { Some(Kw::Switch) }
    else if w == "case"@ { Some(Kw::Case) }
    else if w == "default"@ { Some(Kw::Default) }
    else if w == "return"@ { Some(Kw::Return) }
    else if w == "break"@ { Some(Kw::Break) }
    else if w == "continue"@ { Some(Kw::Continue) }
    else if w == "discard"@ { Some(Kw::Discard) }
    else if w == "const"@ { Some(Kw::Const) }
    else if w == "in"@ { Some(Kw::In) }
    else if w == "out"@ { Some(Kw::Out) }
    else if w == "inout"@ { Some(Kw::Inout) }
    else if w == "uniform"@ { Some(Kw::Uniform) }
    else if w == "buffer"@ { Some(Kw::Buffer) }
    else if w == "shared"@ { Some(Kw::Shared) }
    else if w == "layout"@ { Some(Kw::Layout) }
    else if w == "struct"@ { Some(Kw::Struct) }
    else if w == "precision"@ { Some(Kw::Precision) }
    else if w == "highp"@ { Some(Kw::Highp) }
    else if w == "mediump"@ { Some(Kw::Mediump) }
    else if w == "lowp"@ { Some(Kw::Lowp) }
    else { None }
}

fn keyword_exec(w: &[char]) -> (r: Option<Kw>)
    ensures
        r == keyword_of(w@),
{
    if spells(w, "void") { Some(Kw::Void) }
    else if spells(w, "bool") { Some(Kw::Bool) }
    else if spells(w, "int") { Some(Kw::Int) }
    else if spells(w, "uint") { Some(Kw::Uint) }
    else if spells(w, "float") { Some(Kw::Float) }
    else if spells(w, "double") { Some(Kw::Double) }
    else if spells(w, "vec2") { Some(Kw::Vec2) }
    else if spells(w, "vec3") { Some(Kw::Vec3) }
    else if spells(w, "vec4") { Some(Kw::Vec4) }
    else if spells(w, "ivec2") { Some(Kw::Ivec2) }
    else if spells(w, "ivec3") { Some(Kw::Ivec3) }
    else if spells(w, "ivec4") { Some(Kw::Ivec4) }
    else if spells(w, "uvec2") { Some(Kw::Uvec2) }
    else if spells(w, "uvec3") { Some(Kw::Uvec3) }
    else if spells(w, "uvec4") { Some(Kw::Uvec4) }
    else if spells(w, "bvec2") { Some(Kw::Bvec2) }
    else if spells(w, "bvec3") { Some(Kw::Bvec3) }
    else if spells(w, "bvec4") { Some(Kw::Bvec4) }
    else if spells(w, "mat2") { Some(Kw::Mat2) }
    else if spells(w, "mat3") { Some(Kw::Mat3) }
    else if spells(w, "mat4") { Some(Kw::Mat4) }
    else if spells(w, "if") { Some(Kw::If) }
    else if spells(w, "else") { Some(Kw::Else) }
    else if spells(w, "for") { Some(Kw::For) }
    else if spells(w, "while") { Some(Kw::While) }
    else if spells(w, "do") { Some(Kw::Do) }
    else if spells(w, "switch") { Some(Kw::Switch) }
    else if spells(w, "case") { Some(Kw::Case) }
    else if spells(w, "default") { Some(Kw::Default) }
    else if spells(w, "return") { Some(Kw::Return) }
    else if spells(w, "break") { Some(Kw::Break) }
    else if spells(w, "continue") { Some(Kw::Continue) }
    else if spells(w, "discard") { Some(Kw::Discard) }
    else if spells(w, "const") { Some(Kw::Const) }
    else if spells(w, "in") { Some(Kw::In) }
    else if spells(w, "out") { Some(Kw::Out) }
    else if spells(w, "inout") { Some(Kw::Inout) }
    else if spells(w, "uniform") { Some(Kw::Uniform) }
    else if spells(w, "buffer") { Some(Kw::Buffer) }
    else if spells(w, "shared") { Some(Kw::Shared) }
    else if spells(w, "layout") { Some(Kw::Layout) }
    else if spells(w, "struct") { Some(Kw::Struct) }
    else if spells(w, "precision") { Some(Kw::Precision) }
    else if spells(w, "highp") { Some(Kw::Highp) }
    else if spells(w, "mediump") { Some(Kw::Mediump) }
    else if spells(w, "lowp") { Some(Kw::Lowp) }
    else { None }
}

/// The kind of a word: a boolean literal, a keyword or an identifier.
pub open spec fn word_kind(w: Seq<char>) -> TokKind {
    if w == "true"@ || w == "false"@ {
        TokKind::BoolLiteral
    } else {
        match keyword_of(w) {
            Some(k) => TokKind::Keyword(k),
            None => TokKind::Identifier,
        }
    }
}

fn word_kind_exec(w: &[char]) -> (k: TokKind)
    ensures
        k == word_kind(w@),
{
    if spells(w, "true") || spells(w, "false") {
        TokKind::BoolLiteral
    } else {
        match keyword_exec(w) {
            Some(k) => TokKind::Keyword(k),
            None => TokKind::Identifier,
        }
    }
}

pub open spec fn punct1(c: char) -> Option<Punct> {
    if c == '+' { Some(Punct::Plus) }
    else if c == '-' { Some(Punct::Minus) }
    else if c == '*' { Some(Punct::Star) }
    else if c == '/' { Some(Punct::Slash) }
    else if c == '%' { Some(Punct::Percent) }
    else if c == '<' { Some(Punct::Less) }
    else if c == '>' { Some(Punct::Greater) }
    else if c == '=' { Some(Punct::Assign) }
    else if c == '&' { Some(Punct::Ampersand) }
    else if c == '|' { Some(Punct::Pipe) }
    else if c == '^' { Some(Punct::Caret) }
    else if c == '!' { Some(Punct::Bang) }
    else if c == '~' { Some(Punct::Tilde) }
    else if c == '(' { Some(Punct::OpenParen) }
    else if c == ')' { Some(Punct::CloseParen) }
    else if c == '{' { Some(Punct::OpenBrace) }
    else if c == '}' { Some(Punct::CloseBrace) }
    else if c == '[' { Some(Punct::OpenBracket) }
    else if c == ']' { Some(Punct::CloseBracket) }
    else if c == ';' { Some(Punct::Semicolon) }
    else if c == ',' { Some(Punct::Comma) }
    else if c == '.' { Some(Punct::Dot) }
    else if c == '?' { Some(Punct::Question) }
    else if c == ':' { Some(Punct::Colon) }
    else { None }
}

fn punct1_exec(c: char) -> (r: Option<Punct>)
    ensures
        r == punct1(c),
{
    if c == '+' { Some(Punct::Plus) }
    else if c == '-' { Some(Punct::Minus) }
    else if c == '*' { Some(Punct::Star) }
    else if c == '/' { Some(Punct::Slash) }
    else if c == '%' { Some(Punct::Percent) }
    else if c == '<' { Some(Punct::Less) }
    else if c == '>' { Some(Punct::Greater) }
    else if c == '=' { Some(Punct::Assign) }
    else if c == '&' { Some(Punct::Ampersand) }
    else if c == '|' { Some(Punct::Pipe) }
    else if c == '^' { Some(Punct::Caret) }
    else if c == '!' { Some(Punct::Bang) }
    else if c == '~' { Some(Punct::Tilde) }
    else if c == '(' { Some(Punct::OpenParen) }
    else if c == ')' { Some(Punct::CloseParen) }
    else if c == '{' { Some(Punct::OpenBrace) }
    else if c == '}' { Some(Punct::CloseBrace) }
    else if c == '[' { Some(Punct::OpenBracket) }
    else if c == ']' { Some(Punct::CloseBracket) }
    else if c == ';' { Some(Punct::Semicolon) }
    else if c == ',' { Some(Punct::Comma) }
    else if c == '.' { Some(Punct::Dot) }
    else if c == '?' { Some(Punct::Question) }
    else if c == ':' { Some(Punct::Colon) }
    else { None }
}

pub open spec fn punct2(a: char, b: char) -> Option<Punct> {
    if a == '<' && b == '=' { Some(Punct::LessEquals) }
    else if a == '>' && b == '=' { Some(Punct::GreaterEquals) }
    else if a == '=' && b == '=' { Some(Punct::EqualsEquals) }
    else if a == '!' && b == '=' { Some(Punct::NotEquals) }
    else if a == '+' && b == '=' { Some(Punct::PlusAssign) }
    else if a == '-' && b == '=' { Some(Punct::MinusAssign) }
    else if a == '*' && b == '=' { Some(Punct::StarAssign) }
    else if a == '/' && b == '=' { Some(Punct::SlashAssign) }
    else if a == '%' && b == '=' { Some(Punct::PercentAssign) }
    else if a == '&' && b == '=' { Some(Punct::AndAssign) }
    else if a == '|' && b == '=' { Some(Punct::OrAssign) }
    else if a == '^' && b == '=' { Some(Punct::XorAssign) }
    else if a == '<' && b == '<' { Some(Punct::ShiftLeft) }
    else if a == '>' && b == '>' { Some(Punct::ShiftRight) }
    else if a == '&' && b == '&' { Some(Punct::AndAnd) }
    else if a == '|' && b == '|' { Some(Punct::OrOr) }
    else if a == '^' && b == '^' { Some(Punct::XorXor) }
    else if a == '+' && b == '+' { Some(Punct::PlusPlus) }
    else if a == '-' && b == '-' { Some(Punct::MinusMinus) }
    else { None }
}

fn punct2_exec(a: char, b: char) -> (r: Option<Punct>)
    ensures
        r == punct2(a, b),
{
    if a == '<' && b == '=' { Some(Punct::LessEquals) }
    else if a == '>' && b == '=' { Some(Punct::GreaterEquals) }
    else if a == '=' && b == '=' { Some(Punct::EqualsEquals) }
    else if a == '!' && b == '=' { Some(Punct::NotEquals) }
    else if a == '+' && b == '=' { Some(Punct::PlusAssign) }
    else if a == '-' && b == '=' { Some(Punct::MinusAssign) }
    else if a == '*' && b == '=' { Some(Punct::StarAssign) }
    else if a == '/' && b == '=' { Some(Punct::SlashAssign) }
    else if a == '%' && b == '=' { Some(Punct::PercentAssign) }
    else if a == '&' && b == '=' { Some(Punct::AndAssign) }
    else if a == '|' && b == '=' { Some(Punct::OrAssign) }
    else if a == '^' && b == '=' { Some(Punct::XorAssign) }
    else if a == '<' && b == '<' { Some(Punct::ShiftLeft) }
    else if a == '>' && b == '>' { Some(Punct::ShiftRight) }
    else if a == '&' && b == '&' { Some(Punct::AndAnd) }
    else if a == '|' && b == '|' { Some(Punct::OrOr) }
    else if a == '^' && b == '^' { Some(Punct::XorXor) }
    else if a == '+' && b == '+' { Some(Punct::PlusPlus) }
    else if a == '-' && b == '-' { Some(Punct::MinusMinus) }
    else { None }
}

pub open spec fn punct3(a: char, b: char, c: char) -> Option<Punct> {
    if a == '<' && b == '<' && c == '=' { Some(Punct::ShiftLeftAssign) }
    else if a == '>' && b == '>' && c == '=' { Some(Punct::ShiftRightAssign) }
    else { None }
}

fn punct3_exec(a: char, b: char, c: char) -> (r: Option<Punct>)
    ensures
        r == punct3(a, b, c),
{
    if a == '<' && b == '<' && c == '=' { Some(Punct::ShiftLeftAssign) }
    else if a == '>' && b == '>' && c == '=' { Some(Punct::ShiftRightAssign) }
    else { None }
}

/// Classes of characters that form runs.
#[derive(PartialEq, Eq, Structural, Clone, Copy)]
pub enum Class {
    Digit,
    Hex,
    Ident,
    Space,
    /// Anything but a line feed.
    Line,
}

pub open spec fn in_class(c: char, k: Class) -> bool {
    match k {
        Class::Digit => is_digit(c),
        Class::Hex => is_hex_digit(c),
        Class::Ident => is_ident_char(c),
        Class::Space => is_space(c),
        Class::Line => c != '\n',
    }
}

fn in_class_exec(c: char, k: Class) -> (b: bool)
    ensures
        b == in_class(c, k),
{
    match k {
        Class::Digit => digit_exec(c),
        Class::Hex => hex_digit_exec(c),
        Class::Ident => ident_char_exec(c),
        Class::Space => space_exec(c),
        Class::Line => c != '\n',
    }
}

/// The length of the run of characters of class `k` that starts at `p`.
pub open spec fn run(s: Seq<char>, p: int, k: Class) -> int
    decreases s.len() - p,
{
    if 0 <= p < s.len() && in_class(s[p], k) {
        1 + run(s, p + 1, k)
    } else {
        0
    }
}

pub proof fn lemma_run_bounds(s: Seq<char>, p: int, k: Class)
    requires
        0 <= p <= s.len(),
    ensures
        0 <= run(s, p, k) <= s.len() - p,
        p < s.len() && in_class(s[p], k) ==> run(s, p, k) >= 1,
        forall|i: int| p <= i < p + run(s, p, k) ==> in_class(#[trigger] s[i], k),
        p + run(s, p, k) < s.len() ==> !in_class(s[p + run(s, p, k)], k),
    decreases s.len() - p,
{
    if p < s.len() && in_class(s[p], k) {
        lemma_run_bounds(s, p + 1, k);
    }
}

fn run_exec(s: &Vec<char>, p: usize, k: Class) -> (n: usize)
    requires
        p <= s@.len(),
    ensures
        n == run(s@, p as int, k),
        n <= s@.len() - p,
{
    let mut i: usize = p;
    proof {
        lemma_run_bounds(s@, p as int, k);
    }
    while i < s.len() && in_class_exec(s[i], k)
        invariant
            p <= i <= s@.len(),
            run(s@, p as int, k) == (i - p) + run(s@, i as int, k),
        decreases s@.len() - i,
    {
        i = i + 1;
    }
    i - p
}

/// Where the block comment whose body starts at `i` ends (just past `*/`),
/// if it is terminated.
pub open spec fn block_end(s: Seq<char>, i: int) -> Option<int>
    decreases s.len() - i,
{
    if i < 0 || i + 1 >= s.len() {
        None
    } else if s[i] == '*' && s[i + 1] == '/' {
        Some(i + 2)
    } else {
        block_end(s, i + 1)
    }
}

pub proof fn lemma_block_end_bounds(s: Seq<char>, i: int)
    requires
        0 <= i,
    ensures
        block_end(s, i) matches Some(e) ==> i + 2 <= e <= s.len(),
    decreases s.len() - i,
{
    if i + 1 < s.len() && !(s[i] == '*' && s[i + 1] == '/') {
        lemma_block_end_bounds(s, i + 1);
    }
}

fn block_end_exec(s: &Vec<char>, i: usize) -> (r: Option<usize>)
    requires
        i <= s@.len(),
    ensures
        match r {
            Some(e) => block_end(s@, i as int) == Some(e as int),
            None => block_end(s@, i as int) is None,
        },
{
    let mut j: usize = i;
    while j < s.len() && s.len() - j > 1
        invariant
            i <= j <= s@.len(),
            block_end(s@, i as int) == block_end(s@, j as int),
        decreases s@.len() - j,
    {
        if s[j] == '*' && s[j + 1] == '/' {
            return Some(j + 2);
        }
        j = j + 1;
    }
    None
}

/// Whether a hexadecimal literal (`0x` and a hex digit) starts at `p`.
pub open spec fn hex_start(s: Seq<char>, p: int) -> bool {
    s[p] == '0' && p + 2 < s.len() && (s[p + 1] == 'x' || s[p + 1] == 'X') && is_hex_digit(s[p + 2])
}

/// Where the digits, and the fraction if there is one, end.
pub open spec fn frac_end(s: Seq<char>, p: int) -> int {
    let d = run(s, p, Class::Digit);
    let q = p + d;
    if q < s.len() && s[q] == '.' && (d > 0 || run(s, q + 1, Class::Digit) > 0) {
        q + 1 + run(s, q + 1, Class::Digit)
    } else {
        q
    }
}

/// Where an exponent (`e`, an optional sign, digits) starting at `q` ends;
/// `q` itself where there is none.
pub open spec fn exp_end(s: Seq<char>, q: int) -> int {
    if q + 1 < s.len() && (s[q] == 'e' || s[q] == 'E') && is_digit(s[q + 1]) {
        q + 1 + run(s, q + 1, Class::Digit)
    } else if q + 2 < s.len() && (s[q] == 'e' || s[q] == 'E') && (s[q + 1] == '+' || s[q + 1] == '-')
        && is_digit(s[q + 2]) {
        q + 2 + run(s, q + 2, Class::Digit)
    } else {
        q
    }
}

/// Where the type suffix starting at `q` ends: `f`, `F`, `lf` or `LF`
/// after a floating literal, `u` or `U` after an integer one.
pub open spec fn suffix_end(s: Seq<char>, q: int, is_float: bool) -> int {
    if is_float {
        if q < s.len() && (s[q] == 'f' || s[q] == 'F') {
            q + 1
        } else if q + 1 < s.len() && ((s[q] == 'l' && s[q + 1] == 'f') || (s[q] == 'L' && s[q + 1] == 'F')) {
            q + 2
        } else {
            q
        }
    } else if q < s.len() && (s[q] == 'u' || s[q] == 'U') {
        q + 1
    } else {
        q
    }
}

/// The kind and length of a numeric literal starting at `p`: a hexadecimal
/// integer, or decimal digits with an optional fraction and exponent; then
/// the suffix of its type.
pub open spec fn number_at(s: Seq<char>, p: int) -> (TokKind, int) {
    if hex_start(s, p) {
        (TokKind::IntLiteral, suffix_end(s, p + 2 + run(s, p + 2, Class::Hex), false) - p)
    } else {
        let q1 = frac_end(s, p);
        let q2 = exp_end(s, q1);
        let is_float = q1 > p + run(s, p, Class::Digit) || q2 > q1;
        (if is_float { TokKind::FloatLiteral } else { TokKind::IntLiteral }, suffix_end(s, q2, is_float) - p)
    }
}

/// Whether a numeric literal starts at `p`.
pub open spec fn starts_number(s: Seq<char>, p: int) -> bool {
    is_digit(s[p]) || (s[p] == '.' && p + 1 < s.len() && is_digit(s[p + 1]))
}

/// The kind and length of the token that starts at `p`: the longest
/// lexeme that the first characters allow.
pub open spec fn token_at(s: Seq<char>, p: int) -> (TokKind, int) {
    let len = s.len();
    let c = s[p];
    if is_space(c) {
        (TokKind::Whitespace, run(s, p, Class::Space))
    } else if c == '/' && p + 1 < len && s[p + 1] == '/' {
        (TokKind::LineComment, 2 + run(s, p + 2, Class::Line))
    } else if c == '/' && p + 1 < len && s[p + 1] == '*' {
        match block_end(s, p + 2) {
            Some(e) => (TokKind::BlockComment, e - p),
            None => (TokKind::Unknown, len - p),
        }
    } else if c == '#' {
        (TokKind::Directive, 1 + run(s, p + 1, Class::Line))
    } else if is_ident_start(c) {
        let n = run(s, p, Class::Ident);
        (word_kind(s.subrange(p, p + n)), n)
    } else if starts_number(s, p) {
        number_at(s, p)
    } else if p + 2 < len && punct3(c, s[p + 1], s[p + 2]) is Some {
        (TokKind::Punct(punct3(c, s[p + 1], s[p + 2])->0), 3)
    } else if p + 1 < len && punct2(c, s[p + 1]) is Some {
        (TokKind::Punct(punct2(c, s[p + 1])->0), 2)
    } else if punct1(c) is Some {
        (TokKind::Punct(punct1(c)->0), 1)
    } else {
        (TokKind::Unknown, 1)
    }
}

pub proof fn lemma_number_bounds(s: Seq<char>, p: int)
    requires
        0 <= p < s.len(),
        starts_number(s, p),
    ensures
        1 <= number_at(s, p).1 <= s.len() - p,
{
    if hex_start(s, p) {
        lemma_run_bounds(s, p + 2, Class::Hex);
    } else {
        lemma_frac_end_bounds(s, p);
        lemma_exp_end_bounds(s, frac_end(s, p));
    }
}

proof fn lemma_frac_end_bounds(s: Seq<char>, p: int)
    requires
        0 <= p < s.len(),
        starts_number(s, p),
    ensures
        p + run(s, p, Class::Digit) <= frac_end(s, p) <= s.len(),
        frac_end(s, p) >= p + 1,
{
    lemma_run_bounds(s, p, Class::Digit);
    let q = p + run(s, p, Class::Digit);
    if q < s.len() {
        lemma_run_bounds(s, q + 1, Class::Digit);
    }
}

proof fn lemma_exp_end_bounds(s: Seq<char>, q: int)
    requires
        0 <= q <= s.len(),
    ensures
        q <= exp_end(s, q) <= s.len(),
{
    if q + 1 < s.len() {
        lemma_run_bounds(s, q + 1, Class::Digit);
    }
    if q + 2 < s.len() {
        lemma_run_bounds(s, q + 2, Class::Digit);
    }
}

pub proof fn lemma_token_bounds(s: Seq<char>, p: int)
    requires
        0 <= p < s.len(),
    ensures
        1 <= token_at(s, p).1 <= s.len() - p,
{
    let len = s.len();
    let c = s[p];
    lemma_run_bounds(s, p, Class::Space);
    lemma_run_bounds(s, p, Class::Ident);
    if p + 2 <= len {
        lemma_run_bounds(s, p + 2, Class::Line);
        lemma_block_end_bounds(s, p + 2);
    }
    lemma_run_bounds(s, p + 1, Class::Line);
    if !is_space(c) && !(c == '/' && p + 1 < len && (s[p + 1] == '/' || s[p + 1] == '*'))
        && c != '#' && !is_ident_start(c) && starts_number(s, p) {
        lemma_number_bounds(s, p);
    }
}

/// The tokens of `s` from position `p` on, as (kind, text) pairs.
pub open spec fn lex_from(s: Seq<char>, p: int) -> Seq<(TokKind, Seq<char>)>
    decreases s.len() - p,
{
    if p < 0 || p >= s.len() {
        Seq::empty()
    } else {
        let (k, n) = token_at(s, p);
        if n <= 0 || p + n > s.len() {
            Seq::empty()
        } else {
            seq![(k, s.subrange(p, p + n))] + lex_from(s, p + n)
        }
    }
}

/// The tokens of a whole source text.
pub open spec fn lex(s: Seq<char>) -> Seq<(TokKind, Seq<char>)> {
    lex_from(s, 0)
}

/// The characters that a sequence of tokens spells, in order.
pub open spec fn spelled(ts: Seq<(TokKind, Seq<char>)>) -> Seq<char>
    decreases ts.len(),
{
    if ts.len() == 0 {
        Seq::empty()
    } else {
        ts[0].1 + spelled(ts.drop_first())
    }
}

/// Lexing loses no character: the tokens spell the source back.
pub proof fn lemma_lex_spells_source(s: Seq<char>)
    ensures
        spelled(lex(s)) == s,
{
    lemma_lex_from_spells(s, 0);
    assert(s.subrange(0, s.len() as int) =~= s);
}

proof fn lemma_lex_from_spells(s: Seq<char>, p: int)
    requires
        0 <= p <= s.len(),
    ensures
        spelled(lex_from(s, p)) == s.subrange(p, s.len() as int),
    decreases s.len() - p,
{
    if p < s.len() {
        lemma_token_bounds(s, p);
        let (k, n) = token_at(s, p);
        lemma_lex_from_spells(s, p + n);
        let ts = lex_from(s, p);
        assert(ts.drop_first() =~= lex_from(s, p + n));
        assert(s.subrange(p, s.len() as int) =~= s.subrange(p, p + n) + s.subrange(p + n, s.len() as int));
    } else {
        assert(s.subrange(p, s.len() as int) =~= Seq::<char>::empty());
    }
}

fn frac_end_exec(s: &Vec<char>, p: usize) -> (r: usize)
    requires
        p < s@.len(),
        starts_number(s@, p as int),
    ensures
        r == frac_end(s@, p as int),
        r <= s@.len(),
{
    proof {
        lemma_frac_end_bounds(s@, p as int);
    }
    let len = s.len();
    let d = run_exec(s, p, Class::Digit);
    let q = p + d;
    if q < s.len() && s[q] == '.' {
        let f = run_exec(s, q + 1, Class::Digit);
        if d > 0 || f > 0 {
            return q + 1 + f;
        }
    }
    q
}

fn exp_end_exec(s: &Vec<char>, q: usize) -> (r: usize)
    requires
        q <= s@.len(),
    ensures
        r == exp_end(s@, q as int),
        q <= r <= s@.len(),
{
    proof {
        lemma_exp_end_bounds(s@, q as int);
    }
    let len = s.len();
    if len - q > 1 && (s[q] == 'e' || s[q] == 'E') && digit_exec(s[q + 1]) {
        q + 1 + run_exec(s, q + 1, Class::Digit)
    } else if len - q > 2 && (s[q] == 'e' || s[q] == 'E') && (s[q + 1] == '+' || s[q + 1] == '-')
        && digit_exec(s[q + 2]) {
        q + 2 + run_exec(s, q + 2, Class::Digit)
    } else {
        q
    }
}

fn suffix_end_exec(s: &Vec<char>, q: usize, is_float: bool) -> (r: usize)
    requires
        q <= s@.len(),
    ensures
        r == suffix_end(s@, q as int, is_float),
        q <= r <= s@.len(),
{
    let len = s.len();
    if is_float {
        if q < len && (s[q] == 'f' || s[q] == 'F') {
            q + 1
        } else if len - q > 1 && ((s[q] == 'l' && s[q + 1] == 'f') || (s[q] == 'L' && s[q + 1] == 'F')) {
            q + 2
        } else {
            q
        }
    } else if q < len && (s[q] == 'u' || s[q] == 'U') {
        q + 1
    } else {
        q
    }
}

fn number_at_exec(s: &Vec<char>, p: usize) -> (r: (TokKind, usize))
    requires
        p < s@.len(),
        starts_number(s@, p as int),
    ensures
        r.0 == number_at(s@, p as int).0,
        r.1 as int == number_at(s@, p as int).1,
{
    proof {
        lemma_number_bounds(s@, p as int);
    }
    let len = s.len();
    if s[p] == '0' && len - p > 2 && (s[p + 1] == 'x' || s[p + 1] == 'X') && hex_digit_exec(s[p + 2]) {
        let h = run_exec(s, p + 2, Class::Hex);
        let e = suffix_end_exec(s, p + 2 + h, false);
        (TokKind::IntLiteral, e - p)
    } else {
        let d = run_exec(s, p, Class::Digit);
        let q1 = frac_end_exec(s, p);
        let q2 = exp_end_exec(s, q1);
        let is_float = q1 > p + d || q2 > q1;
        let e = suffix_end_exec(s, q2, is_float);
        (if is_float { TokKind::FloatLiteral } else { TokKind::IntLiteral }, e - p)
    }
}

fn token_at_exec(s: &Vec<char>, p: usize) -> (r: (TokKind, usize))
    requires
        p < s@.len(),
    ensures
        r.0 == token_at(s@, p as int).0,
        r.1 as int == token_at(s@, p as int).1,
        1 <= r.1 <= s@.len() - p,
{
    proof {
        lemma_token_bounds(s@, p as int);
    }
    let len = s.len();
    let c = s[p];
    if space_exec(c) {
        (TokKind::Whitespace, run_exec(s, p, Class::Space))
    } else if c == '/' && p + 1 < len && s[p + 1] == '/' {
        (TokKind::LineComment, 2 + run_exec(s, p + 2, Class::Line))
    } else if c == '/' && p + 1 < len && s[p + 1] == '*' {
        proof {
            lemma_block_end_bounds(s@, p + 2);
        }
        match block_end_exec(s, p + 2) {
            Some(e) => (TokKind::BlockComment, e - p),
            None => (TokKind::Unknown, len - p),
        }
    } else if c == '#' {
        (TokKind::Directive, 1 + run_exec(s, p + 1, Class::Line))
    } else if ident_start_exec(c) {
        let n = run_exec(s, p, Class::Ident);
        let w = slice_subrange(s.as_slice(), p, p + n);
        (word_kind_exec(w), n)
    } else if digit_exec(c) || (c == '.' && p + 1 < len && digit_exec(s[p + 1])) {
        number_at_exec(s, p)
    } else {
        let p3 = if len - p > 2 { punct3_exec(c, s[p + 1], s[p + 2]) } else { None };
        match p3 {
            Some(q) => (TokKind::Punct(q), 3),
            None => {
                let p2 = if len - p > 1 { punct2_exec(c, s[p + 1]) } else { None };
                match p2 {
                    Some(q) => (TokKind::Punct(q), 2),
                    None => match punct1_exec(c) {
                        Some(q) => (TokKind::Punct(q), 1),
                        None => (TokKind::Unknown, 1),
                    },
                }
            },
        }
    }
}

/// Splits source characters into tokens: exactly the tokens of `lex`.
pub fn lex_chars(s: &Vec<char>) -> (ts: Vec<Token>)
    ensures
        views(ts@) == lex(s@),
{
    let mut ts: Vec<Token> = Vec::new();
    let mut p: usize = 0;
    while p < s.len()
        invariant
            p <= s@.len(),
            views(ts@) + lex_from(s@, p as int) == lex(s@),
        decreases s@.len() - p,
    {
        let (k, n) = token_at_exec(s, p);
        let text = slice_to_vec(slice_subrange(s.as_slice(), p, p + n));
        let ghost old_views = views(ts@);
        ts.push(Token { kind: k, text });
        proof {
            assert(views(ts@) =~= old_views.push((k, s@.subrange(p as int, p + n))));
            assert(lex_from(s@, p as int) == seq![(k, s@.subrange(p as int, p + n))] + lex_from(s@, p + n));
            assert(views(ts@) + lex_from(s@, p + n) =~= old_views + lex_from(s@, p as int));
        }
        p = p + n;
    }
    assert(lex_from(s@, p as int) =~= Seq::empty());
    assert(views(ts@) =~= lex(s@));
    ts
}

/// The name of a token kind, as the compiler's tools print it.
pub open spec fn kind_name(k: TokKind) -> Seq<char> {
    match k {
        TokKind::Identifier => "IDENTIFIER"@,
        TokKind::IntLiteral => "INT_LITERAL"@,
        TokKind::FloatLiteral => "FLOAT_LITERAL"@,
        TokKind::BoolLiteral => "BOOL_LITERAL"@,
        TokKind::Directive => "DIRECTIVE"@,
        TokKind::Whitespace => "WHITESPACE"@,
        TokKind::LineComment => "LINE_COMMENT"@,
        TokKind::BlockComment => "BLOCK_COMMENT"@,
        TokKind::Unknown => "UNKNOWN"@,
        TokKind::EndOfFile => "END_OF_FILE"@,
        TokKind::Keyword(w) => match w {
            Kw::Void => "KW_VOID"@,
            Kw::Bool => "KW_BOOL"@,
            Kw::Int => "KW_INT"@,
            Kw::Uint => "KW_UINT"@,
            Kw::Float => "KW_FLOAT"@,
            Kw::Double => "KW_DOUBLE"@,
            Kw::Vec2 => "KW_VEC2"@,
            Kw::Vec3 => "KW_VEC3"@,
            Kw::Vec4 => "KW_VEC4"@,
            Kw::Ivec2 => "KW_IVEC2"@,
            Kw::Ivec3 => "KW_IVEC3"@,
            Kw::Ivec4 => "KW_IVEC4"@,
            Kw::Uvec2 => "KW_UVEC2"@,
            Kw::Uvec3 => "KW_UVEC3"@,
            Kw::Uvec4 => "KW_UVEC4"@,
            Kw::Bvec2 => "KW_BVEC2"@,
            Kw::Bvec3 => "KW_BVEC3"@,
            Kw::Bvec4 => "KW_BVEC4"@,
            Kw::Mat2 => "KW_MAT2"@,
            Kw::Mat3 => "KW_MAT3"@,
            Kw::Mat4 => "KW_MAT4"@,
            Kw::If => "KW_IF"@,
            Kw::Else => "KW_ELSE"@,
            Kw::For => "KW_FOR"@,
            Kw::While => "KW_WHILE"@,
            Kw::Do => "KW_DO"@,
            Kw::Switch => "KW_SWITCH"@,
            Kw::Case => "KW_CASE"@,
            Kw::Default => "KW_DEFAULT"@,
            Kw::Return => "KW_RETURN"@,
            Kw::Break => "KW_BREAK"@,
            Kw::Continue => "KW_CONTINUE"@,
            Kw::Discard => "KW_DISCARD"@,
            Kw::Const => "KW_CONST"@,
            Kw::In => "KW_IN"@,
            Kw::Out => "KW_OUT"@,
            Kw::Inout => "KW_INOUT"@,
            Kw::Uniform => "KW_UNIFORM"@,
            Kw::Buffer => "KW_BUFFER"@,
            Kw::Shared => "KW_SHARED"@,
            Kw::Layout => "KW_LAYOUT"@,
            Kw::Struct => "KW_STRUCT"@,
            Kw::Precision => "KW_PRECISION"@,
            Kw::Highp => "KW_HIGHP"@,
            Kw::Mediump => "KW_MEDIUMP"@,
            Kw::Lowp => "KW_LOWP"@,
        },
        TokKind::Punct(q) => match q {
            Punct::Plus => "PLUS"@,
            Punct::Minus => "MINUS"@,
            Punct::Star => "STAR"@,
            Punct::Slash => "SLASH"@,
            Punct::Percent => "PERCENT"@,
            Punct::Less => "LESS"@,
            Punct::Greater => "GREATER"@,
            Punct::LessEquals => "LESS_EQUALS"@,
            Punct::GreaterEquals => "GREATER_EQUALS"@,
            Punct::EqualsEquals => "EQUALS_EQUALS"@,
            Punct::NotEquals => "NOT_EQUALS"@,
            Punct::Assign => "ASSIGN"@,
            Punct::PlusAssign => "PLUS_ASSIGN"@,
            Punct::MinusAssign => "MINUS_ASSIGN"@,
            Punct::StarAssign => "STAR_ASSIGN"@,
            Punct::SlashAssign => "SLASH_ASSIGN"@,
            Punct::PercentAssign => "PERCENT_ASSIGN"@,
            Punct::AndAssign => "AND_ASSIGN"@,
            Punct::OrAssign => "OR_ASSIGN"@,
            Punct::XorAssign => "XOR_ASSIGN"@,
            Punct::ShiftLeftAssign => "SHIFT_LEFT_ASSIGN"@,
            Punct::ShiftRightAssign => "SHIFT_RIGHT_ASSIGN"@,
            Punct::ShiftLeft => "SHIFT_LEFT"@,
            Punct::ShiftRight => "SHIFT_RIGHT"@,
            Punct::AndAnd => "AND_AND"@,
            Punct::OrOr => "OR_OR"@,
            Punct::XorXor => "XOR_XOR"@,
            Punct::Ampersand => "AMPERSAND"@,
            Punct::Pipe => "PIPE"@,
            Punct::Caret => "CARET"@,
            Punct::Bang => "BANG"@,
            Punct::Tilde => "TILDE"@,
            Punct::PlusPlus => "PLUS_PLUS"@,
            Punct::MinusMinus => "MINUS_MINUS"@,
            Punct::OpenParen => "OPEN_PAREN"@,
            Punct::CloseParen => "CLOSE_PAREN"@,
            Punct::OpenBrace => "OPEN_BRACE"@,
            Punct::CloseBrace => "CLOSE_BRACE"@,
            Punct::OpenBracket => "OPEN_BRACKET"@,
            Punct::CloseBracket => "CLOSE_BRACKET"@,
            Punct::Semicolon => "SEMICOLON"@,
            Punct::Comma => "COMMA"@,
            Punct::Dot => "DOT"@,
            Punct::Question => "QUESTION"@,
            Punct::Colon => "COLON"@,
        },
    }
}

/// The GLSL word of each keyword.
pub open spec fn kw_spelling(k: Kw) -> Seq<char> {
    match k {
        Kw::Void => "void"@,
        Kw::Bool => "bool"@,
        Kw::Int => "int"@,
        Kw::Uint => "uint"@,
        Kw::Float => "float"@,
        Kw::Double => "double"@,
        Kw::Vec2 => "vec2"@,
        Kw::Vec3 => "vec3"@,
        Kw::Vec4 => "vec4"@,
        Kw::Ivec2 => "ivec2"@,
        Kw::Ivec3 => "ivec3"@,
        Kw::Ivec4 => "ivec4"@,
        Kw::Uvec2 => "uvec2"@,
        Kw::Uvec3 => "uvec3"@,
        Kw::Uvec4 => "uvec4"@,
        Kw::Bvec2 => "bvec2"@,
        Kw::Bvec3 => "bvec3"@,
        Kw::Bvec4 => "bvec4"@,
        Kw::Mat2 => "mat2"@,
        Kw::Mat3 => "mat3"@,
        Kw::Mat4 => "mat4"@,
        Kw::If => "if"@,
        Kw::Else => "else"@,
        Kw::For => "for"@,
        Kw::While => "while"@,
        Kw::Do => "do"@,
        Kw::Switch => "switch"@,
        Kw::Case => "case"@,
        Kw::Default => "default"@,
        Kw::Return => "return"@,
        Kw::Break => "break"@,
        Kw::Continue => "continue"@,
        Kw::Discard => "discard"@,
        Kw::Const => "const"@,
        Kw::In => "in"@,
        Kw::Out => "out"@,
        Kw::Inout => "inout"@,
        Kw::Uniform => "uniform"@,
        Kw::Buffer => "buffer"@,
        Kw::Shared => "shared"@,
        Kw::Layout => "layout"@,
        Kw::Struct => "struct"@,
        Kw::Precision => "precision"@,
        Kw::Highp => "highp"@,
        Kw::Mediump => "mediump"@,
        Kw::Lowp => "lowp"@,
    }
}

/// Every GLSL keyword is read as that keyword: its word is no boolean
/// literal and no identifier, and names no other keyword.
pub proof fn lemma_keywords_are_recognised(k: Kw)
    ensures
        keyword_of(kw_spelling(k)) == Some(k),
        word_kind(kw_spelling(k)) == TokKind::Keyword(k),
{
        reveal_strlit("void");
        assert("void"@.len() == 4 && "void"@[0] == 'v' && "void"@[3] == 'd');
        reveal_strlit("bool");
        assert("bool"@.len() == 4 && "bool"@[0] == 'b' && "bool"@[3] == 'l');
        reveal_strlit("int");
        assert("int"@.len() == 3 && "int"@[0] == 'i' && "int"@[2] == 't');
        reveal_strlit("uint");
        assert("uint"@.len() == 4 && "uint"@[0] == 'u' && "uint"@[3] == 't');
        reveal_strlit("float");
        assert("float"@.len() == 5 && "float"@[0] == 'f' && "float"@[4] == 't');
        reveal_strlit("double");
        assert("double"@.len() == 6 && "double"@[0] == 'd' && "double"@[5] == 'e');
        reveal_strlit("vec2");
        assert("vec2"@.len() == 4 && "vec2"@[0] == 'v' && "vec2"@[3] == '2');
        reveal_strlit("vec3");
        assert("vec3"@.len() == 4 && "vec3"@[0] == 'v' && "vec3"@[3] == '3');
        reveal_strlit("vec4");
        assert("vec4"@.len() == 4 && "vec4"@[0] == 'v' && "vec4"@[3] == '4');
        reveal_strlit("ivec2");
        assert("ivec2"@.len() == 5 && "ivec2"@[0] == 'i' && "ivec2"@[4] == '2');
        reveal_strlit("ivec3");
        assert("ivec3"@.len() == 5 && "ivec3"@[0] == 'i' && "ivec3"@[4] == '3');
        reveal_strlit("ivec4");
        assert("ivec4"@.len() == 5 && "ivec4"@[0] == 'i' && "ivec4"@[4] == '4');
        reveal_strlit("uvec2");
        assert("uvec2"@.len() == 5 && "uvec2"@[0] == 'u' && "uvec2"@[4] == '2');
        reveal_strlit("uvec3");
        assert("uvec3"@.len() == 5 && "uvec3"@[0] == 'u' && "uvec3"@[4] == '3');
        reveal_strlit("uvec4");
        assert("uvec4"@.len() == 5 && "uvec4"@[0] == 'u' && "uvec4"@[4] == '4');
        reveal_strlit("bvec2");
        assert("bvec2"@.len() == 5 && "bvec2"@[0] == 'b' && "bvec2"@[4] == '2');
        reveal_strlit("bvec3");
        assert("bvec3"@.len() == 5 && "bvec3"@[0] == 'b' && "bvec3"@[4] == '3');
        reveal_strlit("bvec4");
        assert("bvec4"@.len() == 5 && "bvec4"@[0] == 'b' && "bvec4"@[4] == '4');
        reveal_strlit("mat2");
        assert("mat2"@.len() == 4 && "mat2"@[0] == 'm' && "mat2"@[3] == '2');
        reveal_strlit("mat3");
        assert("mat3"@.len() == 4 && "mat3"@[0] == 'm' && "mat3"@[3] == '3');
        reveal_strlit("mat4");
        assert("mat4"@.len() == 4 && "mat4"@[0] == 'm' && "mat4"@[3] == '4');
        reveal_strlit("if");
        assert("if"@.len() == 2 && "if"@[0] == 'i' && "if"@[1] == 'f');
        reveal_strlit("else");
        assert("else"@.len() == 4 && "else"@[0] == 'e' && "else"@[3] == 'e');
        reveal_strlit("for");
        assert("for"@.len() == 3 && "for"@[0] == 'f' && "for"@[2] == 'r');
        reveal_strlit("while");
        assert("while"@.len() == 5 && "while"@[0] == 'w' && "while"@[4] == 'e');
        reveal_strlit("do");
        assert("do"@.len() == 2 && "do"@[0] == 'd' && "do"@[1] == 'o');
        reveal_strlit("switch");
        assert("switch"@.len() == 6 && "switch"@[0] == 's' && "switch"@[5] == 'h');
        reveal_strlit("case");
        assert("case"@.len() == 4 && "case"@[0] == 'c' && "case"@[3] == 'e');
        reveal_strlit("default");
        assert("default"@.len() == 7 && "default"@[0] == 'd' && "default"@[6] == 't');
        reveal_strlit("return");
        assert("return"@.len() == 6 && "return"@[0] == 'r' && "return"@[5] == 'n');
        reveal_strlit("break");
        assert("break"@.len() == 5 && "break"@[0] == 'b' && "break"@[4] == 'k');
        reveal_strlit("continue");
        assert("continue"@.len() == 8 && "continue"@[0] == 'c' && "continue"@[7] == 'e');
        reveal_strlit("discard");
        assert("discard"@.len() == 7 && "discard"@[0] == 'd' && "discard"@[6] == 'd');
        reveal_strlit("const");
        assert("const"@.len() == 5 && "const"@[0] == 'c' && "const"@[4] == 't');
        reveal_strlit("in");
        assert("in"@.len() == 2 && "in"@[0] == 'i' && "in"@[1] == 'n');
        reveal_strlit("out");
        assert("out"@.len() == 3 && "out"@[0] == 'o' && "out"@[2] == 't');
        reveal_strlit("inout");
        assert("inout"@.len() == 5 && "inout"@[0] == 'i' && "inout"@[4] == 't');
        reveal_strlit("uniform");
        assert("uniform"@.len() == 7 && "uniform"@[0] == 'u' && "uniform"@[6] == 'm');
        reveal_strlit("buffer");
        assert("buffer"@.len() == 6 && "buffer"@[0] == 'b' && "buffer"@[5] == 'r');
        reveal_strlit("shared");
        assert("shared"@.len() == 6 && "shared"@[0] == 's' && "shared"@[5] == 'd');
        reveal_strlit("layout");
        assert("layout"@.len() == 6 && "layout"@[0] == 'l' && "layout"@[5] == 't');
        reveal_strlit("struct");
        assert("struct"@.len() == 6 && "struct"@[0] == 's' && "struct"@[5] == 't');
        reveal_strlit("precision");
        assert("precision"@.len() == 9 && "precision"@[0] == 'p' && "precision"@[8] == 'n');
        reveal_strlit("highp");
        assert("highp"@.len() == 5 && "highp"@[0] == 'h' && "highp"@[4] == 'p');
        reveal_strlit("mediump");
        assert("mediump"@.len() == 7 && "mediump"@[0] == 'm' && "mediump"@[6] == 'p');
        reveal_strlit("lowp");
        assert("lowp"@.len() == 4 && "lowp"@[0] == 'l' && "lowp"@[3] == 'p');
        reveal_strlit("true");
        assert("true"@.len() == 4 && "true"@[0] == 't' && "true"@[3] == 'e');
        reveal_strlit("false");
        assert("false"@.len() == 5 && "false"@[0] == 'f' && "false"@[4] == 'e');
}

/// The upper-case form of an ASCII letter; any other character as it is.
pub open spec fn upper_char(c: char) -> char {
    if 'a' <= c && c <= 'z' { ((c as int) - 32) as char } else { c }
}

/// A keyword's kind is printed as `KW_` and its word in upper case.
pub proof fn lemma_keyword_names_spell_keywords(k: Kw)
    ensures
        kind_name(TokKind::Keyword(k)) == "KW_"@ + kw_spelling(k).map_values(|c: char| upper_char(c)),
{
    reveal_strlit("KW_");
    match k {
        Kw::Void => {
            reveal_strlit("KW_VOID");
            reveal_strlit("void");
            assert(kind_name(TokKind::Keyword(k)) =~= "KW_"@ + kw_spelling(k).map_values(|c: char| upper_char(c)));
        },
        Kw::Bool => {
            reveal_strlit("KW_BOOL");
            reveal_strlit("bool");
            assert(kind_name(TokKind::Keyword(k)) =~= "KW_"@ + kw_spelling(k).map_values(|c: char| upper_char(c)));
        },
        Kw::Int => {
            reveal_strlit("KW_INT");
            reveal_strlit("int");
            assert(kind_name(TokKind::Keyword(k)) =~= "KW_"@ + kw_spelling(k).map_values(|c: char| upper_char(c)));
        },
        Kw::Uint => {
            reveal_strlit("KW_UINT");
            reveal_strlit("uint");
            assert(kind_name(TokKind::Keyword(k)) =~= "KW_"@ + kw_spelling(k).map_values(|c: char| upper_char(c)));
        },
        Kw::Float => {
            reveal_strlit("KW_FLOAT");
            reveal_strlit("float");
            assert(kind_name(TokKind::Keyword(k)) =~= "KW_"@ + kw_spelling(k).map_values(|c: char| upper_char(c)));
        },
        Kw::Double => {
            reveal_strlit("KW_DOUBLE");
            reveal_strlit("double");
            assert(kind_name(TokKind::Keyword(k)) =~= "KW_"@ + kw_spelling(k).map_values(|c: char| upper_char(c)));
        },
        Kw::Vec2 => {
            reveal_strlit("KW_VEC2");
            reveal_strlit("vec2");
            assert(kind_name(TokKind::Keyword(k)) =~= "KW_"@ + kw_spelling(k).map_values(|c: char| upper_char(c)));
        },
        Kw::Vec3 => {
            reveal_strlit("KW_VEC3");
            reveal_strlit("vec3");
            assert(kind_name(TokKind::Keyword(k)) =~= "KW_"@ + kw_spelling(k).map_values(|c: char| upper_char(c)));
        },
        Kw::Vec4 => {
            reveal_strlit("KW_VEC4");
            reveal_strlit("vec4");
            assert(kind_name(TokKind::Keyword(k)) =~= "KW_"@ + kw_spelling(k).map_values(|c: char| upper_char(c)));
        },
        Kw::Ivec2 => {
            reveal_strlit("KW_IVEC2");
            reveal_strlit("ivec2");
            assert(kind_name(TokKind::Keyword(k)) =~= "KW_"@ + kw_spelling(k).map_values(|c: char| upper_char(c)));
        },
        Kw::Ivec3 => {
            reveal_strlit("KW_IVEC3");
            reveal_strlit("ivec3");
            assert(kind_name(TokKind::Keyword(k)) =~= "KW_"@ + kw_spelling(k).map_values(|c: char| upper_char(c)));
        },
        Kw::Ivec4 => {
            reveal_strlit("KW_IVEC4");
            reveal_strlit("ivec4");
            assert(kind_name(TokKind::Keyword(k)) =~= "KW_"@ + kw_spelling(k).map_values(|c: char| upper_char(c)));
        },
        Kw::Uvec2 => {
            reveal_strlit("KW_UVEC2");
            reveal_strlit("uvec2");
            assert(kind_name(TokKind::Keyword(k)) =~= "KW_"@ + kw_spelling(k).map_values(|c: char| upper_char(c)));
        },
        Kw::Uvec3 => {
            reveal_strlit("KW_UVEC3");
            reveal_strlit("uvec3");
            assert(kind_name(TokKind::Keyword(k)) =~= "KW_"@ + kw_spelling(k).map_values(|c: char| upper_char(c)));
        },
        Kw::Uvec4 => {
            reveal_strlit("KW_UVEC4");
            reveal_strlit("uvec4");
            assert(kind_name(TokKind::Keyword(k)) =~= "KW_"@ + kw_spelling(k).map_values(|c: char| upper_char(c)));
        },
        Kw::Bvec2 => {
            reveal_strlit("KW_BVEC2");
            reveal_strlit("bvec2");
            assert(kind_name(TokKind::Keyword(k)) =~= "KW_"@ + kw_spelling(k).map_values(|c: char| upper_char(c)));
        },
        Kw::Bvec3 => {
            reveal_strlit("KW_BVEC3");
            reveal_strlit("bvec3");
            assert(kind_name(TokKind::Keyword(k)) =~= "KW_"@ + kw_spelling(k).map_values(|c: char| upper_char(c)));
        },
        Kw::Bvec4 => {
            reveal_strlit("KW_BVEC4");
            reveal_strlit("bvec4");
            assert(kind_name(TokKind::Keyword(k)) =~= "KW_"@ + kw_spelling(k).map_values(|c: char| upper_char(c)));
        },
        Kw::Mat2 => {
            reveal_strlit("KW_MAT2");
            reveal_strlit("mat2");
            assert(kind_name(TokKind::Keyword(k)) =~= "KW_"@ + kw_spelling(k).map_values(|c: char| upper_char(c)));
        },
        Kw::Mat3 => {
            reveal_strlit("KW_MAT3");
            reveal_strlit("mat3");
            assert(kind_name(TokKind::Keyword(k)) =~= "KW_"@ + kw_spelling(k).map_values(|c: char| upper_char(c)));
        },
        Kw::Mat4 => {
            reveal_strlit("KW_MAT4");
            reveal_strlit("mat4");
            assert(kind_name(TokKind::Keyword(k)) =~= "KW_"@ + kw_spelling(k).map_values(|c: char| upper_char(c)));
        },
        Kw::If => {
            reveal_strlit("KW_IF");
            reveal_strlit("if");
            assert(kind_name(TokKind::Keyword(k)) =~= "KW_"@ + kw_spelling(k).map_values(|c: char| upper_char(c)));
        },
        Kw::Else => {
            reveal_strlit("KW_ELSE");
            reveal_strlit("else");
            assert(kind_name(TokKind::Keyword(k)) =~= "KW_"@ + kw_spelling(k).map_values(|c: char| upper_char(c)));
        },
        Kw::For => {
            reveal_strlit("KW_FOR");
            reveal_strlit("for");
            assert(kind_name(TokKind::Keyword(k)) =~= "KW_"@ + kw_spelling(k).map_values(|c: char| upper_char(c)));
        },
        Kw::While => {
            reveal_strlit("KW_WHILE");
            reveal_strlit("while");
            assert(kind_name(TokKind::Keyword(k)) =~= "KW_"@ + kw_spelling(k).map_values(|c: char| upper_char(c)));
        },
        Kw::Do => {
            reveal_strlit("KW_DO");
            reveal_strlit("do");
            assert(kind_name(TokKind::Keyword(k)) =~= "KW_"@ + kw_spelling(k).map_values(|c: char| upper_char(c)));
        },
        Kw::Switch => {
            reveal_strlit("KW_SWITCH");
            reveal_strlit("switch");
            assert(kind_name(TokKind::Keyword(k)) =~= "KW_"@ + kw_spelling(k).map_values(|c: char| upper_char(c)));
        },
        Kw::Case => {
            reveal_strlit("KW_CASE");
            reveal_strlit("case");
            assert(kind_name(TokKind::Keyword(k)) =~= "KW_"@ + kw_spelling(k).map_values(|c: char| upper_char(c)));
        },
        Kw::Default => {
            reveal_strlit("KW_DEFAULT");
            reveal_strlit("default");
            assert(kind_name(TokKind::Keyword(k)) =~= "KW_"@ + kw_spelling(k).map_values(|c: char| upper_char(c)));
        },
        Kw::Return => {
            reveal_strlit("KW_RETURN");
            reveal_strlit("return");
            assert(kind_name(TokKind::Keyword(k)) =~= "KW_"@ + kw_spelling(k).map_values(|c: char| upper_char(c)));
        },
        Kw::Break => {
            reveal_strlit("KW_BREAK");
            reveal_strlit("break");
            assert(kind_name(TokKind::Keyword(k)) =~= "KW_"@ + kw_spelling(k).map_values(|c: char| upper_char(c)));
        },
        Kw::Continue => {
            reveal_strlit("KW_CONTINUE");
            reveal_strlit("continue");
            assert(kind_name(TokKind::Keyword(k)) =~= "KW_"@ + kw_spelling(k).map_values(|c: char| upper_char(c)));
        },
        Kw::Discard => {
            reveal_strlit("KW_DISCARD");
            reveal_strlit("discard");
            assert(kind_name(TokKind::Keyword(k)) =~= "KW_"@ + kw_spelling(k).map_values(|c: char| upper_char(c)));
        },
        Kw::Const => {
            reveal_strlit("KW_CONST");
            reveal_strlit("const");
            assert(kind_name(TokKind::Keyword(k)) =~= "KW_"@ + kw_spelling(k).map_values(|c: char| upper_char(c)));
        },
        Kw::In => {
            reveal_strlit("KW_IN");
            reveal_strlit("in");
            assert(kind_name(TokKind::Keyword(k)) =~= "KW_"@ + kw_spelling(k).map_values(|c: char| upper_char(c)));
        },
        Kw::Out => {
            reveal_strlit("KW_OUT");
            reveal_strlit("out");
            assert(kind_name(TokKind::Keyword(k)) =~= "KW_"@ + kw_spelling(k).map_values(|c: char| upper_char(c)));
        },
        Kw::Inout => {
            reveal_strlit("KW_INOUT");
            reveal_strlit("inout");
            assert(kind_name(TokKind::Keyword(k)) =~= "KW_"@ + kw_spelling(k).map_values(|c: char| upper_char(c)));
        },
        Kw::Uniform => {
            reveal_strlit("KW_UNIFORM");
            reveal_strlit("uniform");
            assert(kind_name(TokKind::Keyword(k)) =~= "KW_"@ + kw_spelling(k).map_values(|c: char| upper_char(c)));
        },
        Kw::Buffer => {
            reveal_strlit("KW_BUFFER");
            reveal_strlit("buffer");
            assert(kind_name(TokKind::Keyword(k)) =~= "KW_"@ + kw_spelling(k).map_values(|c: char| upper_char(c)));
        },
        Kw::Shared => {
            reveal_strlit("KW_SHARED");
            reveal_strlit("shared");
            assert(kind_name(TokKind::Keyword(k)) =~= "KW_"@ + kw_spelling(k).map_values(|c: char| upper_char(c)));
        },
        Kw::Layout => {
            reveal_strlit("KW_LAYOUT");
            reveal_strlit("layout");
            assert(kind_name(TokKind::Keyword(k)) =~= "KW_"@ + kw_spelling(k).map_values(|c: char| upper_char(c)));
        },
        Kw::Struct => {
            reveal_strlit("KW_STRUCT");
            reveal_strlit("struct");
            assert(kind_name(TokKind::Keyword(k)) =~= "KW_"@ + kw_spelling(k).map_values(|c: char| upper_char(c)));
        },
        Kw::Precision => {
            reveal_strlit("KW_PRECISION");
            reveal_strlit("precision");
            assert(kind_name(TokKind::Keyword(k)) =~= "KW_"@ + kw_spelling(k).map_values(|c: char| upper_char(c)));
        },
        Kw::Highp => {
            reveal_strlit("KW_HIGHP");
            reveal_strlit("highp");
            assert(kind_name(TokKind::Keyword(k)) =~= "KW_"@ + kw_spelling(k).map_values(|c: char| upper_char(c)));
        },
        Kw::Mediump => {
            reveal_strlit("KW_MEDIUMP");
            reveal_strlit("mediump");
            assert(kind_name(TokKind::Keyword(k)) =~= "KW_"@ + kw_spelling(k).map_values(|c: char| upper_char(c)));
        },
        Kw::Lowp => {
            reveal_strlit("KW_LOWP");
            reveal_strlit("lowp");
            assert(kind_name(TokKind::Keyword(k)) =~= "KW_"@ + kw_spelling(k).map_values(|c: char| upper_char(c)));
        },
    }
}

/// The token kind that a printed name names.
pub open spec fn kind_of_name(s: Seq<char>) -> Option<TokKind> {
    if s == "IDENTIFIER"@ { Some(TokKind::Identifier) }
    else if s == "INT_LITERAL"@ { Some(TokKind::IntLiteral) }
    else if s == "FLOAT_LITERAL"@ { Some(TokKind::FloatLiteral) }
    else if s == "BOOL_LITERAL"@ { Some(TokKind::BoolLiteral) }
    else if s == "DIRECTIVE"@ { Some(TokKind::Directive) }
    else if s == "WHITESPACE"@ { Some(TokKind::Whitespace) }
    else if s == "LINE_COMMENT"@ { Some(TokKind::LineComment) }
    else if s == "BLOCK_COMMENT"@ { Some(TokKind::BlockComment) }
    else if s == "UNKNOWN"@ { Some(TokKind::Unknown) }
    else if s == "END_OF_FILE"@ { Some(TokKind::EndOfFile) }
    else if s == "KW_VOID"@ { Some(TokKind::Keyword(Kw::Void)) }
    else if s == "KW_BOOL"@ { Some(TokKind::Keyword(Kw::Bool)) }
    else if s == "KW_INT"@ { Some(TokKind::Keyword(Kw::Int)) }
    else if s == "KW_UINT"@ { Some(TokKind::Keyword(Kw::Uint)) }
    else if s == "KW_FLOAT"@ { Some(TokKind::Keyword(Kw::Float)) }
    else if s == "KW_DOUBLE"@ { Some(TokKind::Keyword(Kw::Double)) }
    else if s == "KW_VEC2"@ { Some(TokKind::Keyword(Kw::Vec2)) }
    else if s == "KW_VEC3"@ { Some(TokKind::Keyword(Kw::Vec3)) }
    else if s == "KW_VEC4"@ { Some(TokKind::Keyword(Kw::Vec4)) }
    else if s == "KW_IVEC2"@ { Some(TokKind::Keyword(Kw::Ivec2)) }
    else if s == "KW_IVEC3"@ { Some(TokKind::Keyword(Kw::Ivec3)) }
    else if s == "KW_IVEC4"@ { Some(TokKind::Keyword(Kw::Ivec4)) }
    else if s == "KW_UVEC2"@ { Some(TokKind::Keyword(Kw::Uvec2)) }
    else if s == "KW_UVEC3"@ { Some(TokKind::Keyword(Kw::Uvec3)) }
    else if s == "KW_UVEC4"@ { Some(TokKind::Keyword(Kw::Uvec4)) }
    else if s == "KW_BVEC2"@ { Some(TokKind::Keyword(Kw::Bvec2)) }
    else if s == "KW_BVEC3"@ { Some(TokKind::Keyword(Kw::Bvec3)) }
    else if s == "KW_BVEC4"@ { Some(TokKind::Keyword(Kw::Bvec4)) }
    else if s == "KW_MAT2"@ { Some(TokKind::Keyword(Kw::Mat2)) }
    else if s == "KW_MAT3"@ { Some(TokKind::Keyword(Kw::Mat3)) }
    else if s == "KW_MAT4"@ { Some(TokKind::Keyword(Kw::Mat4)) }
    else if s == "KW_IF"@ { Some(TokKind::Keyword(Kw::If)) }
    else if s == "KW_ELSE"@ { Some(TokKind::Keyword(Kw::Else)) }
    else if s == "KW_FOR"@ { Some(TokKind::Keyword(Kw::For)) }
    else if s == "KW_WHILE"@ { Some(TokKind::Keyword(Kw::While)) }
    else if s == "KW_DO"@ { Some(TokKind::Keyword(Kw::Do)) }
    else if s == "KW_SWITCH"@ { Some(TokKind::Keyword(Kw::Switch)) }
    else if s == "KW_CASE"@ { Some(TokKind::Keyword(Kw::Case)) }
    else if s == "KW_DEFAULT"@ { Some(TokKind::Keyword(Kw::Default)) }
    else if s == "KW_RETURN"@ { Some(TokKind::Keyword(Kw::Return)) }
    else if s == "KW_BREAK"@ { Some(TokKind::Keyword(Kw::Break)) }
    else if s == "KW_CONTINUE"@ { Some(TokKind::Keyword(Kw::Continue)) }
    else if s == "KW_DISCARD"@ { Some(TokKind::Keyword(Kw::Discard)) }
    else if s == "KW_CONST"@ { Some(TokKind::Keyword(Kw::Const)) }
    else if s == "KW_IN"@ { Some(TokKind::Keyword(Kw::In)) }
    else if s == "KW_OUT"@ { Some(TokKind::Keyword(Kw::Out)) }
    else if s == "KW_INOUT"@ { Some(TokKind::Keyword(Kw::Inout)) }
    else if s == "KW_UNIFORM"@ { Some(TokKind::Keyword(Kw::Uniform)) }
    else if s == "KW_BUFFER"@ { Some(TokKind::Keyword(Kw::Buffer)) }
    else if s == "KW_SHARED"@ { Some(TokKind::Keyword(Kw::Shared)) }
    else if s == "KW_LAYOUT"@ { Some(TokKind::Keyword(Kw::Layout)) }
    else if s == "KW_STRUCT"@ { Some(TokKind::Keyword(Kw::Struct)) }
    else if s == "KW_PRECISION"@ { Some(TokKind::Keyword(Kw::Precision)) }
    else if s == "KW_HIGHP"@ { Some(TokKind::Keyword(Kw::Highp)) }
    else if s == "KW_MEDIUMP"@ { Some(TokKind::Keyword(Kw::Mediump)) }
    else if s == "KW_LOWP"@ { Some(TokKind::Keyword(Kw::Lowp)) }
    else if s == "PLUS"@ { Some(TokKind::Punct(Punct::Plus)) }
    else if s == "MINUS"@ { Some(TokKind::Punct(Punct::Minus)) }
    else if s == "STAR"@ { Some(TokKind::Punct(Punct::Star)) }
    else if s == "SLASH"@ { Some(TokKind::Punct(Punct::Slash)) }
    else if s == "PERCENT"@ { Some(TokKind::Punct(Punct::Percent)) }
    else if s == "LESS"@ { Some(TokKind::Punct(Punct::Less)) }
    else if s == "GREATER"@ { Some(TokKind::Punct(Punct::Greater)) }
    else if s == "LESS_EQUALS"@ { Some(TokKind::Punct(Punct::LessEquals)) }
    else if s == "GREATER_EQUALS"@ { Some(TokKind::Punct(Punct::GreaterEquals)) }
    else if s == "EQUALS_EQUALS"@ { Some(TokKind::Punct(Punct::EqualsEquals)) }
    else if s == "NOT_EQUALS"@ { Some(TokKind::Punct(Punct::NotEquals)) }
    else if s == "ASSIGN"@ { Some(TokKind::Punct(Punct::Assign)) }
    else if s == "PLUS_ASSIGN"@ { Some(TokKind::Punct(Punct::PlusAssign)) }
    else if s == "MINUS_ASSIGN"@ { Some(TokKind::Punct(Punct::MinusAssign)) }
    else if s == "STAR_ASSIGN"@ { Some(TokKind::Punct(Punct::StarAssign)) }
    else if s == "SLASH_ASSIGN"@ { Some(TokKind::Punct(Punct::SlashAssign)) }
    else if s == "PERCENT_ASSIGN"@ { Some(TokKind::Punct(Punct::PercentAssign)) }
    else if s == "AND_ASSIGN"@ { Some(TokKind::Punct(Punct::AndAssign)) }
    else if s == "OR_ASSIGN"@ { Some(TokKind::Punct(Punct::OrAssign)) }
    else if s == "XOR_ASSIGN"@ { Some(TokKind::Punct(Punct::XorAssign)) }
    else if s == "SHIFT_LEFT_ASSIGN"@ { Some(TokKind::Punct(Punct::ShiftLeftAssign)) }
    else if s == "SHIFT_RIGHT_ASSIGN"@ { Some(TokKind::Punct(Punct::ShiftRightAssign)) }
    else if s == "SHIFT_LEFT"@ { Some(TokKind::Punct(Punct::ShiftLeft)) }
    else if s == "SHIFT_RIGHT"@ { Some(TokKind::Punct(Punct::ShiftRight)) }
    else if s == "AND_AND"@ { Some(TokKind::Punct(Punct::AndAnd)) }
    else if s == "OR_OR"@ { Some(TokKind::Punct(Punct::OrOr)) }
    else if s == "XOR_XOR"@ { Some(TokKind::Punct(Punct::XorXor)) }
    else if s == "AMPERSAND"@ { Some(TokKind::Punct(Punct::Ampersand)) }
    else if s == "PIPE"@ { Some(TokKind::Punct(Punct::Pipe)) }
    else if s == "CARET"@ { Some(TokKind::Punct(Punct::Caret)) }
    else if s == "BANG"@ { Some(TokKind::Punct(Punct::Bang)) }
    else if s == "TILDE"@ { Some(TokKind::Punct(Punct::Tilde)) }
    else if s == "PLUS_PLUS"@ { Some(TokKind::Punct(Punct::PlusPlus)) }
    else if s == "MINUS_MINUS"@ { Some(TokKind::Punct(Punct::MinusMinus)) }
    else if s == "OPEN_PAREN"@ { Some(TokKind::Punct(Punct::OpenParen)) }
    else if s == "CLOSE_PAREN"@ { Some(TokKind::Punct(Punct::CloseParen)) }
    else if s == "OPEN_BRACE"@ { Some(TokKind::Punct(Punct::OpenBrace)) }
    else if s == "CLOSE_BRACE"@ { Some(TokKind::Punct(Punct::CloseBrace)) }
    else if s == "OPEN_BRACKET"@ { Some(TokKind::Punct(Punct::OpenBracket)) }
    else if s == "CLOSE_BRACKET"@ { Some(TokKind::Punct(Punct::CloseBracket)) }
    else if s == "SEMICOLON"@ { Some(TokKind::Punct(Punct::Semicolon)) }
    else if s == "COMMA"@ { Some(TokKind::Punct(Punct::Comma)) }
    else if s == "DOT"@ { Some(TokKind::Punct(Punct::Dot)) }
    else if s == "QUESTION"@ { Some(TokKind::Punct(Punct::Question)) }
    else if s == "COLON"@ { Some(TokKind::Punct(Punct::Colon)) }
    else { None }
}

proof fn lemma_name_names_its_kind(k: TokKind)
    ensures
        kind_of_name(kind_name(k)) == Some(k),
{
        reveal_strlit("IDENTIFIER");
        assert("IDENTIFIER"@.len() == 10 && "IDENTIFIER"@[0] == 'I' && "IDENTIFIER"@[3] == 'N' && "IDENTIFIER"@[9] == 'R');
        reveal_strlit("INT_LITERAL");
        assert("INT_LITERAL"@.len() == 11 && "INT_LITERAL"@[0] == 'I' && "INT_LITERAL"@[3] == '_' && "INT_LITERAL"@[10] == 'L');
        reveal_strlit("FLOAT_LITERAL");
        assert("FLOAT_LITERAL"@.len() == 13 && "FLOAT_LITERAL"@[0] == 'F' && "FLOAT_LITERAL"@[3] == 'A' && "FLOAT_LITERAL"@[12] == 'L');
        reveal_strlit("BOOL_LITERAL");
        assert("BOOL_LITERAL"@.len() == 12 && "BOOL_LITERAL"@[0] == 'B' && "BOOL_LITERAL"@[3] == 'L' && "BOOL_LITERAL"@[11] == 'L');
        reveal_strlit("DIRECTIVE");
        assert("DIRECTIVE"@.len() == 9 && "DIRECTIVE"@[0] == 'D' && "DIRECTIVE"@[3] == 'E' && "DIRECTIVE"@[8] == 'E');
        reveal_strlit("WHITESPACE");
        assert("WHITESPACE"@.len() == 10 && "WHITESPACE"@[0] == 'W' && "WHITESPACE"@[3] == 'T' && "WHITESPACE"@[9] == 'E');
        reveal_strlit("LINE_COMMENT");
        assert("LINE_COMMENT"@.len() == 12 && "LINE_COMMENT"@[0] == 'L' && "LINE_COMMENT"@[3] == 'E' && "LINE_COMMENT"@[11] == 'T');
        reveal_strlit("BLOCK_COMMENT");
        assert("BLOCK_COMMENT"@.len() == 13 && "BLOCK_COMMENT"@[0] == 'B' && "BLOCK_COMMENT"@[3] == 'C' && "BLOCK_COMMENT"@[12] == 'T');
        reveal_strlit("UNKNOWN");
        assert("UNKNOWN"@.len() == 7 && "UNKNOWN"@[0] == 'U' && "UNKNOWN"@[3] == 'N' && "UNKNOWN"@[6] == 'N');
        reveal_strlit("END_OF_FILE");
        assert("END_OF_FILE"@.len() == 11 && "END_OF_FILE"@[0] == 'E' && "END_OF_FILE"@[3] == '_' && "END_OF_FILE"@[10] == 'E');
        reveal_strlit("KW_VOID");
        assert("KW_VOID"@.len() == 7 && "KW_VOID"@[0] == 'K' && "KW_VOID"@[3] == 'V' && "KW_VOID"@[6] == 'D');
        reveal_strlit("KW_BOOL");
        assert("KW_BOOL"@.len() == 7 && "KW_BOOL"@[0] == 'K' && "KW_BOOL"@[3] == 'B' && "KW_BOOL"@[6] == 'L');
        reveal_strlit("KW_INT");
        assert("KW_INT"@.len() == 6 && "KW_INT"@[0] == 'K' && "KW_INT"@[3] == 'I' && "KW_INT"@[5] == 'T');
        reveal_strlit("KW_UINT");
        assert("KW_UINT"@.len() == 7 && "KW_UINT"@[0] == 'K' && "KW_UINT"@[3] == 'U' && "KW_UINT"@[6] == 'T');
        reveal_strlit("KW_FLOAT");
        assert("KW_FLOAT"@.len() == 8 && "KW_FLOAT"@[0] == 'K' && "KW_FLOAT"@[3] == 'F' && "KW_FLOAT"@[7] == 'T');
        reveal_strlit("KW_DOUBLE");
        assert("KW_DOUBLE"@.len() == 9 && "KW_DOUBLE"@[0] == 'K' && "KW_DOUBLE"@[3] == 'D' && "KW_DOUBLE"@[8] == 'E');
        reveal_strlit("KW_VEC2");
        assert("KW_VEC2"@.len() == 7 && "KW_VEC2"@[0] == 'K' && "KW_VEC2"@[3] == 'V' && "KW_VEC2"@[6] == '2');
        reveal_strlit("KW_VEC3");
        assert("KW_VEC3"@.len() == 7 && "KW_VEC3"@[0] == 'K' && "KW_VEC3"@[3] == 'V' && "KW_VEC3"@[6] == '3');
        reveal_strlit("KW_VEC4");
        assert("KW_VEC4"@.len() == 7 && "KW_VEC4"@[0] == 'K' && "KW_VEC4"@[3] == 'V' && "KW_VEC4"@[6] == '4');
        reveal_strlit("KW_IVEC2");
        assert("KW_IVEC2"@.len() == 8 && "KW_IVEC2"@[0] == 'K' && "KW_IVEC2"@[3] == 'I' && "KW_IVEC2"@[7] == '2');
        reveal_strlit("KW_IVEC3");
        assert("KW_IVEC3"@.len() == 8 && "KW_IVEC3"@[0] == 'K' && "KW_IVEC3"@[3] == 'I' && "KW_IVEC3"@[7] == '3');
        reveal_strlit("KW_IVEC4");
        assert("KW_IVEC4"@.len() == 8 && "KW_IVEC4"@[0] == 'K' && "KW_IVEC4"@[3] == 'I' && "KW_IVEC4"@[7] == '4');
        reveal_strlit("KW_UVEC2");
        assert("KW_UVEC2"@.len() == 8 && "KW_UVEC2"@[0] == 'K' && "KW_UVEC2"@[3] == 'U' && "KW_UVEC2"@[7] == '2');
        reveal_strlit("KW_UVEC3");
        assert("KW_UVEC3"@.len() == 8 && "KW_UVEC3"@[0] == 'K' && "KW_UVEC3"@[3] == 'U' && "KW_UVEC3"@[7] == '3');
        reveal_strlit("KW_UVEC4");
        assert("KW_UVEC4"@.len() == 8 && "KW_UVEC4"@[0] == 'K' && "KW_UVEC4"@[3] == 'U' && "KW_UVEC4"@[7] == '4');
        reveal_strlit("KW_BVEC2");
        assert("KW_BVEC2"@.len() == 8 && "KW_BVEC2"@[0] == 'K' && "KW_BVEC2"@[3] == 'B' && "KW_BVEC2"@[7] == '2');
        reveal_strlit("KW_BVEC3");
        assert("KW_BVEC3"@.len() == 8 && "KW_BVEC3"@[0] == 'K' && "KW_BVEC3"@[3] == 'B' && "KW_BVEC3"@[7] == '3');
        reveal_strlit("KW_BVEC4");
        assert("KW_BVEC4"@.len() == 8 && "KW_BVEC4"@[0] == 'K' && "KW_BVEC4"@[3] == 'B' && "KW_BVEC4"@[7] == '4');
        reveal_strlit("KW_MAT2");
        assert("KW_MAT2"@.len() == 7 && "KW_MAT2"@[0] == 'K' && "KW_MAT2"@[3] == 'M' && "KW_MAT2"@[6] == '2');
        reveal_strlit("KW_MAT3");
        assert("KW_MAT3"@.len() == 7 && "KW_MAT3"@[0] == 'K' && "KW_MAT3"@[3] == 'M' && "KW_MAT3"@[6] == '3');
        reveal_strlit("KW_MAT4");
        assert("KW_MAT4"@.len() == 7 && "KW_MAT4"@[0] == 'K' && "KW_MAT4"@[3] == 'M' && "KW_MAT4"@[6] == '4');
        reveal_strlit("KW_IF");
        assert("KW_IF"@.len() == 5 && "KW_IF"@[0] == 'K' && "KW_IF"@[3] == 'I' && "KW_IF"@[4] == 'F');
        reveal_strlit("KW_ELSE");
        assert("KW_ELSE"@.len() == 7 && "KW_ELSE"@[0] == 'K' && "KW_ELSE"@[3] == 'E' && "KW_ELSE"@[6] == 'E');
        reveal_strlit("KW_FOR");
        assert("KW_FOR"@.len() == 6 && "KW_FOR"@[0] == 'K' && "KW_FOR"@[3] == 'F' && "KW_FOR"@[5] == 'R');
        reveal_strlit("KW_WHILE");
        assert("KW_WHILE"@.len() == 8 && "KW_WHILE"@[0] == 'K' && "KW_WHILE"@[3] == 'W' && "KW_WHILE"@[7] == 'E');
        reveal_strlit("KW_DO");
        assert("KW_DO"@.len() == 5 && "KW_DO"@[0] == 'K' && "KW_DO"@[3] == 'D' && "KW_DO"@[4] == 'O');
        reveal_strlit("KW_SWITCH");
        assert("KW_SWITCH"@.len() == 9 && "KW_SWITCH"@[0] == 'K' && "KW_SWITCH"@[3] == 'S' && "KW_SWITCH"@[8] == 'H');
        reveal_strlit("KW_CASE");
        assert("KW_CASE"@.len() == 7 && "KW_CASE"@[0] == 'K' && "KW_CASE"@[3] == 'C' && "KW_CASE"@[6] == 'E');
        reveal_strlit("KW_DEFAULT");
        assert("KW_DEFAULT"@.len() == 10 && "KW_DEFAULT"@[0] == 'K' && "KW_DEFAULT"@[3] == 'D' && "KW_DEFAULT"@[9] == 'T');
        reveal_strlit("KW_RETURN");
        assert("KW_RETURN"@.len() == 9 && "KW_RETURN"@[0] == 'K' && "KW_RETURN"@[3] == 'R' && "KW_RETURN"@[8] == 'N');
        reveal_strlit("KW_BREAK");
        assert("KW_BREAK"@.len() == 8 && "KW_BREAK"@[0] == 'K' && "KW_BREAK"@[3] == 'B' && "KW_BREAK"@[7] == 'K');
        reveal_strlit("KW_CONTINUE");
        assert("KW_CONTINUE"@.len() == 11 && "KW_CONTINUE"@[0] == 'K' && "KW_CONTINUE"@[3] == 'C' && "KW_CONTINUE"@[10] == 'E');
        reveal_strlit("KW_DISCARD");
        assert("KW_DISCARD"@.len() == 10 && "KW_DISCARD"@[0] == 'K' && "KW_DISCARD"@[3] == 'D' && "KW_DISCARD"@[9] == 'D');
        reveal_strlit("KW_CONST");
        assert("KW_CONST"@.len() == 8 && "KW_CONST"@[0] == 'K' && "KW_CONST"@[3] == 'C' && "KW_CONST"@[7] == 'T');
        reveal_strlit("KW_IN");
        assert("KW_IN"@.len() == 5 && "KW_IN"@[0] == 'K' && "KW_IN"@[3] == 'I' && "KW_IN"@[4] == 'N');
        reveal_strlit("KW_OUT");
        assert("KW_OUT"@.len() == 6 && "KW_OUT"@[0] == 'K' && "KW_OUT"@[3] == 'O' && "KW_OUT"@[5] == 'T');
        reveal_strlit("KW_INOUT");
        assert("KW_INOUT"@.len() == 8 && "KW_INOUT"@[0] == 'K' && "KW_INOUT"@[3] == 'I' && "KW_INOUT"@[7] == 'T');
        reveal_strlit("KW_UNIFORM");
        assert("KW_UNIFORM"@.len() == 10 && "KW_UNIFORM"@[0] == 'K' && "KW_UNIFORM"@[3] == 'U' && "KW_UNIFORM"@[9] == 'M');
        reveal_strlit("KW_BUFFER");
        assert("KW_BUFFER"@.len() == 9 && "KW_BUFFER"@[0] == 'K' && "KW_BUFFER"@[3] == 'B' && "KW_BUFFER"@[8] == 'R');
        reveal_strlit("KW_SHARED");
        assert("KW_SHARED"@.len() == 9 && "KW_SHARED"@[0] == 'K' && "KW_SHARED"@[3] == 'S' && "KW_SHARED"@[8] == 'D');
        reveal_strlit("KW_LAYOUT");
        assert("KW_LAYOUT"@.len() == 9 && "KW_LAYOUT"@[0] == 'K' && "KW_LAYOUT"@[3] == 'L' && "KW_LAYOUT"@[8] == 'T');
        reveal_strlit("KW_STRUCT");
        assert("KW_STRUCT"@.len() == 9 && "KW_STRUCT"@[0] == 'K' && "KW_STRUCT"@[3] == 'S' && "KW_STRUCT"@[8] == 'T');
        reveal_strlit("KW_PRECISION");
        assert("KW_PRECISION"@.len() == 12 && "KW_PRECISION"@[0] == 'K' && "KW_PRECISION"@[3] == 'P' && "KW_PRECISION"@[11] == 'N');
        reveal_strlit("KW_HIGHP");
        assert("KW_HIGHP"@.len() == 8 && "KW_HIGHP"@[0] == 'K' && "KW_HIGHP"@[3] == 'H' && "KW_HIGHP"@[7] == 'P');
        reveal_strlit("KW_MEDIUMP");
        assert("KW_MEDIUMP"@.len() == 10 && "KW_MEDIUMP"@[0] == 'K' && "KW_MEDIUMP"@[3] == 'M' && "KW_MEDIUMP"@[9] == 'P');
        reveal_strlit("KW_LOWP");
        assert("KW_LOWP"@.len() == 7 && "KW_LOWP"@[0] == 'K' && "KW_LOWP"@[3] == 'L' && "KW_LOWP"@[6] == 'P');
        reveal_strlit("PLUS");
        assert("PLUS"@.len() == 4 && "PLUS"@[0] == 'P' && "PLUS"@[3] == 'S' && "PLUS"@[3] == 'S');
        reveal_strlit("MINUS");
        assert("MINUS"@.len() == 5 && "MINUS"@[0] == 'M' && "MINUS"@[3] == 'U' && "MINUS"@[4] == 'S');
        reveal_strlit("STAR");
        assert("STAR"@.len() == 4 && "STAR"@[0] == 'S' && "STAR"@[3] == 'R' && "STAR"@[3] == 'R');
        reveal_strlit("SLASH");
        assert("SLASH"@.len() == 5 && "SLASH"@[0] == 'S' && "SLASH"@[3] == 'S' && "SLASH"@[4] == 'H');
        reveal_strlit("PERCENT");
        assert("PERCENT"@.len() == 7 && "PERCENT"@[0] == 'P' && "PERCENT"@[3] == 'C' && "PERCENT"@[6] == 'T');
        reveal_strlit("LESS");
        assert("LESS"@.len() == 4 && "LESS"@[0] == 'L' && "LESS"@[3] == 'S' && "LESS"@[3] == 'S');
        reveal_strlit("GREATER");
        assert("GREATER"@.len() == 7 && "GREATER"@[0] == 'G' && "GREATER"@[3] == 'A' && "GREATER"@[6] == 'R');
        reveal_strlit("LESS_EQUALS");
        assert("LESS_EQUALS"@.len() == 11 && "LESS_EQUALS"@[0] == 'L' && "LESS_EQUALS"@[3] == 'S' && "LESS_EQUALS"@[10] == 'S');
        reveal_strlit("GREATER_EQUALS");
        assert("GREATER_EQUALS"@.len() == 14 && "GREATER_EQUALS"@[0] == 'G' && "GREATER_EQUALS"@[3] == 'A' && "GREATER_EQUALS"@[13] == 'S');
        reveal_strlit("EQUALS_EQUALS");
        assert("EQUALS_EQUALS"@.len() == 13 && "EQUALS_EQUALS"@[0] == 'E' && "EQUALS_EQUALS"@[3] == 'A' && "EQUALS_EQUALS"@[12] == 'S');
        reveal_strlit("NOT_EQUALS");
        assert("NOT_EQUALS"@.len() == 10 && "NOT_EQUALS"@[0] == 'N' && "NOT_EQUALS"@[3] == '_' && "NOT_EQUALS"@[9] == 'S');
        reveal_strlit("ASSIGN");
        assert("ASSIGN"@.len() == 6 && "ASSIGN"@[0] == 'A' && "ASSIGN"@[3] == 'I' && "ASSIGN"@[5] == 'N');
        reveal_strlit("PLUS_ASSIGN");
        assert("PLUS_ASSIGN"@.len() == 11 && "PLUS_ASSIGN"@[0] == 'P' && "PLUS_ASSIGN"@[3] == 'S' && "PLUS_ASSIGN"@[10] == 'N');
        reveal_strlit("MINUS_ASSIGN");
        assert("MINUS_ASSIGN"@.len() == 12 && "MINUS_ASSIGN"@[0] == 'M' && "MINUS_ASSIGN"@[3] == 'U' && "MINUS_ASSIGN"@[11] == 'N');
        reveal_strlit("STAR_ASSIGN");
        assert("STAR_ASSIGN"@.len() == 11 && "STAR_ASSIGN"@[0] == 'S' && "STAR_ASSIGN"@[3] == 'R' && "STAR_ASSIGN"@[10] == 'N');
        reveal_strlit("SLASH_ASSIGN");
        assert("SLASH_ASSIGN"@.len() == 12 && "SLASH_ASSIGN"@[0] == 'S' && "SLASH_ASSIGN"@[3] == 'S' && "SLASH_ASSIGN"@[11] == 'N');
        reveal_strlit("PERCENT_ASSIGN");
        assert("PERCENT_ASSIGN"@.len() == 14 && "PERCENT_ASSIGN"@[0] == 'P' && "PERCENT_ASSIGN"@[3] == 'C' && "PERCENT_ASSIGN"@[13] == 'N');
        reveal_strlit("AND_ASSIGN");
        assert("AND_ASSIGN"@.len() == 10 && "AND_ASSIGN"@[0] == 'A' && "AND_ASSIGN"@[3] == '_' && "AND_ASSIGN"@[9] == 'N');
        reveal_strlit("OR_ASSIGN");
        assert("OR_ASSIGN"@.len() == 9 && "OR_ASSIGN"@[0] == 'O' && "OR_ASSIGN"@[3] == 'A' && "OR_ASSIGN"@[8] == 'N');
        reveal_strlit("XOR_ASSIGN");
        assert("XOR_ASSIGN"@.len() == 10 && "XOR_ASSIGN"@[0] == 'X' && "XOR_ASSIGN"@[3] == '_' && "XOR_ASSIGN"@[9] == 'N');
        reveal_strlit("SHIFT_LEFT_ASSIGN");
        assert("SHIFT_LEFT_ASSIGN"@.len() == 17 && "SHIFT_LEFT_ASSIGN"@[0] == 'S' && "SHIFT_LEFT_ASSIGN"@[3] == 'F' && "SHIFT_LEFT_ASSIGN"@[16] == 'N');
        reveal_strlit("SHIFT_RIGHT_ASSIGN");
        assert("SHIFT_RIGHT_ASSIGN"@.len() == 18 && "SHIFT_RIGHT_ASSIGN"@[0] == 'S' && "SHIFT_RIGHT_ASSIGN"@[3] == 'F' && "SHIFT_RIGHT_ASSIGN"@[17] == 'N');
        reveal_strlit("SHIFT_LEFT");
        assert("SHIFT_LEFT"@.len() == 10 && "SHIFT_LEFT"@[0] == 'S' && "SHIFT_LEFT"@[3] == 'F' && "SHIFT_LEFT"@[9] == 'T');
        reveal_strlit("SHIFT_RIGHT");
        assert("SHIFT_RIGHT"@.len() == 11 && "SHIFT_RIGHT"@[0] == 'S' && "SHIFT_RIGHT"@[3] == 'F' && "SHIFT_RIGHT"@[10] == 'T');
        reveal_strlit("AND_AND");
        assert("AND_AND"@.len() == 7 && "AND_AND"@[0] == 'A' && "AND_AND"@[3] == '_' && "AND_AND"@[6] == 'D');
        reveal_strlit("OR_OR");
        assert("OR_OR"@.len() == 5 && "OR_OR"@[0] == 'O' && "OR_OR"@[3] == 'O' && "OR_OR"@[4] == 'R');
        reveal_strlit("XOR_XOR");
        assert("XOR_XOR"@.len() == 7 && "XOR_XOR"@[0] == 'X' && "XOR_XOR"@[3] == '_' && "XOR_XOR"@[6] == 'R');
        reveal_strlit("AMPERSAND");
        assert("AMPERSAND"@.len() == 9 && "AMPERSAND"@[0] == 'A' && "AMPERSAND"@[3] == 'E' && "AMPERSAND"@[8] == 'D');
        reveal_strlit("PIPE");
        assert("PIPE"@.len() == 4 && "PIPE"@[0] == 'P' && "PIPE"@[3] == 'E' && "PIPE"@[3] == 'E');
        reveal_strlit("CARET");
        assert("CARET"@.len() == 5 && "CARET"@[0] == 'C' && "CARET"@[3] == 'E' && "CARET"@[4] == 'T');
        reveal_strlit("BANG");
        assert("BANG"@.len() == 4 && "BANG"@[0] == 'B' && "BANG"@[3] == 'G' && "BANG"@[3] == 'G');
        reveal_strlit("TILDE");
        assert("TILDE"@.len() == 5 && "TILDE"@[0] == 'T' && "TILDE"@[3] == 'D' && "TILDE"@[4] == 'E');
        reveal_strlit("PLUS_PLUS");
        assert("PLUS_PLUS"@.len() == 9 && "PLUS_PLUS"@[0] == 'P' && "PLUS_PLUS"@[3] == 'S' && "PLUS_PLUS"@[8] == 'S');
        reveal_strlit("MINUS_MINUS");
        assert("MINUS_MINUS"@.len() == 11 && "MINUS_MINUS"@[0] == 'M' && "MINUS_MINUS"@[3] == 'U' && "MINUS_MINUS"@[10] == 'S');
        reveal_strlit("OPEN_PAREN");
        assert("OPEN_PAREN"@.len() == 10 && "OPEN_PAREN"@[0] == 'O' && "OPEN_PAREN"@[3] == 'N' && "OPEN_PAREN"@[9] == 'N');
        reveal_strlit("CLOSE_PAREN");
        assert("CLOSE_PAREN"@.len() == 11 && "CLOSE_PAREN"@[0] == 'C' && "CLOSE_PAREN"@[3] == 'S' && "CLOSE_PAREN"@[10] == 'N');
        reveal_strlit("OPEN_BRACE");
        assert("OPEN_BRACE"@.len() == 10 && "OPEN_BRACE"@[0] == 'O' && "OPEN_BRACE"@[3] == 'N' && "OPEN_BRACE"@[9] == 'E');
        reveal_strlit("CLOSE_BRACE");
        assert("CLOSE_BRACE"@.len() == 11 && "CLOSE_BRACE"@[0] == 'C' && "CLOSE_BRACE"@[3] == 'S' && "CLOSE_BRACE"@[10] == 'E');
        reveal_strlit("OPEN_BRACKET");
        assert("OPEN_BRACKET"@.len() == 12 && "OPEN_BRACKET"@[0] == 'O' && "OPEN_BRACKET"@[3] == 'N' && "OPEN_BRACKET"@[11] == 'T');
        reveal_strlit("CLOSE_BRACKET");
        assert("CLOSE_BRACKET"@.len() == 13 && "CLOSE_BRACKET"@[0] == 'C' && "CLOSE_BRACKET"@[3] == 'S' && "CLOSE_BRACKET"@[12] == 'T');
        reveal_strlit("SEMICOLON");
        assert("SEMICOLON"@.len() == 9 && "SEMICOLON"@[0] == 'S' && "SEMICOLON"@[3] == 'I' && "SEMICOLON"@[8] == 'N');
        reveal_strlit("COMMA");
        assert("COMMA"@.len() == 5 && "COMMA"@[0] == 'C' && "COMMA"@[3] == 'M' && "COMMA"@[4] == 'A');
        reveal_strlit("DOT");
        assert("DOT"@.len() == 3 && "DOT"@[0] == 'D' && "DOT"@[2] == 'T');
        reveal_strlit("QUESTION");
        assert("QUESTION"@.len() == 8 && "QUESTION"@[0] == 'Q' && "QUESTION"@[3] == 'S' && "QUESTION"@[7] == 'N');
        reveal_strlit("COLON");
        assert("COLON"@.len() == 5 && "COLON"@[0] == 'C' && "COLON"@[3] == 'O' && "COLON"@[4] == 'N');
}

/// Different token kinds are printed under different names.
pub proof fn lemma_kind_name_injective(k1: TokKind, k2: TokKind)
    ensures
        kind_name(k1) == kind_name(k2) ==> k1 == k2,
{
    lemma_name_names_its_kind(k1);
    lemma_name_names_its_kind(k2);
}

/// The name of a token kind, as the compiler's tools print it.
pub fn kind_name_str(k: TokKind) -> (s: &'static str)
    ensures
        s@ == kind_name(k),
{
    match k {
        TokKind::Identifier => "IDENTIFIER",
        TokKind::IntLiteral => "INT_LITERAL",
        TokKind::FloatLiteral => "FLOAT_LITERAL",
        TokKind::BoolLiteral => "BOOL_LITERAL",
        TokKind::Directive => "DIRECTIVE",
        TokKind::Whitespace => "WHITESPACE",
        TokKind::LineComment => "LINE_COMMENT",
        TokKind::BlockComment => "BLOCK_COMMENT",
        TokKind::Unknown => "UNKNOWN",
        TokKind::EndOfFile => "END_OF_FILE",
        TokKind::Keyword(w) => match w {
            Kw::Void => "KW_VOID",
            Kw::Bool => "KW_BOOL",
            Kw::Int => "KW_INT",
            Kw::Uint => "KW_UINT",
            Kw::Float => "KW_FLOAT",
            Kw::Double => "KW_DOUBLE",
            Kw::Vec2 => "KW_VEC2",
            Kw::Vec3 => "KW_VEC3",
            Kw::Vec4 => "KW_VEC4",
            Kw::Ivec2 => "KW_IVEC2",
            Kw::Ivec3 => "KW_IVEC3",
            Kw::Ivec4 => "KW_IVEC4",
            Kw::Uvec2 => "KW_UVEC2",
            Kw::Uvec3 => "KW_UVEC3",
            Kw::Uvec4 => "KW_UVEC4",
            Kw::Bvec2 => "KW_BVEC2",
            Kw::Bvec3 => "KW_BVEC3",
            Kw::Bvec4 => "KW_BVEC4",
            Kw::Mat2 => "KW_MAT2",
            Kw::Mat3 => "KW_MAT3",
            Kw::Mat4 => "KW_MAT4",
            Kw::If => "KW_IF",
            Kw::Else => "KW_ELSE",
            Kw::For => "KW_FOR",
            Kw::While => "KW_WHILE",
            Kw::Do => "KW_DO",
            Kw::Switch => "KW_SWITCH",
            Kw::Case => "KW_CASE",
            Kw::Default => "KW_DEFAULT",
            Kw::Return => "KW_RETURN",
            Kw::Break => "KW_BREAK",
            Kw::Continue => "KW_CONTINUE",
            Kw::Discard => "KW_DISCARD",
            Kw::Const => "KW_CONST",
            Kw::In => "KW_IN",
            Kw::Out => "KW_OUT",
            Kw::Inout => "KW_INOUT",
            Kw::Uniform => "KW_UNIFORM",
            Kw::Buffer => "KW_BUFFER",
            Kw::Shared => "KW_SHARED",
            Kw::Layout => "KW_LAYOUT",
            Kw::Struct => "KW_STRUCT",
            Kw::Precision => "KW_PRECISION",
            Kw::Highp => "KW_HIGHP",
            Kw::Mediump => "KW_MEDIUMP",
            Kw::Lowp => "KW_LOWP",
        },
        TokKind::Punct(q) => match q {
            Punct::Plus => "PLUS",
            Punct::Minus => "MINUS",
            Punct::Star => "STAR",
            Punct::Slash => "SLASH",
            Punct::Percent => "PERCENT",
            Punct::Less => "LESS",
            Punct::Greater => "GREATER",
            Punct::LessEquals => "LESS_EQUALS",
            Punct::GreaterEquals => "GREATER_EQUALS",
            Punct::EqualsEquals => "EQUALS_EQUALS",
            Punct::NotEquals => "NOT_EQUALS",
            Punct::Assign => "ASSIGN",
            Punct::PlusAssign => "PLUS_ASSIGN",
            Punct::MinusAssign => "MINUS_ASSIGN",
            Punct::StarAssign => "STAR_ASSIGN",
            Punct::SlashAssign => "SLASH_ASSIGN",
            Punct::PercentAssign => "PERCENT_ASSIGN",
            Punct::AndAssign => "AND_ASSIGN",
            Punct::OrAssign => "OR_ASSIGN",
            Punct::XorAssign => "XOR_ASSIGN",
            Punct::ShiftLeftAssign => "SHIFT_LEFT_ASSIGN",
            Punct::ShiftRightAssign => "SHIFT_RIGHT_ASSIGN",
            Punct::ShiftLeft => "SHIFT_LEFT",
            Punct::ShiftRight => "SHIFT_RIGHT",
            Punct::AndAnd => "AND_AND",
            Punct::OrOr => "OR_OR",
            Punct::XorXor => "XOR_XOR",
            Punct::Ampersand => "AMPERSAND",
            Punct::Pipe => "PIPE",
            Punct::Caret => "CARET",
            Punct::Bang => "BANG",
            Punct::Tilde => "TILDE",
            Punct::PlusPlus => "PLUS_PLUS",
            Punct::MinusMinus => "MINUS_MINUS",
            Punct::OpenParen => "OPEN_PAREN",
            Punct::CloseParen => "CLOSE_PAREN",
            Punct::OpenBrace => "OPEN_BRACE",
            Punct::CloseBrace => "CLOSE_BRACE",
            Punct::OpenBracket => "OPEN_BRACKET",
            Punct::CloseBracket => "CLOSE_BRACKET",
            Punct::Semicolon => "SEMICOLON",
            Punct::Comma => "COMMA",
            Punct::Dot => "DOT",
            Punct::Question => "QUESTION",
            Punct::Colon => "COLON",
        },
    }
}

} // verus!
