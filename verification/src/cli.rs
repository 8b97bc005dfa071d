//! The arguments of the `compile` command and the plan of passes they
//! select.
use vstd::prelude::*;
use vstd::string::StringExecFns;

verus! {

/// The arguments of the `compile` command, paths given as text.
pub struct CompileArgs {
    pub input: String,
    pub output: String,
    pub no_preprocess: bool,
    pub no_unroll: bool,
    pub no_ast_opt: bool,
    pub include_dirs: Vec<String>,
    pub defines: Vec<String>,
    pub optimize: bool,
    pub validate: bool,
    pub verbose: bool,
}

/// Where the Mandelbrot demo looks.
#[derive(PartialEq, Eq, Structural, Clone, Copy, Debug)]
pub enum ZoomPreset {
    Full,
    Seahorse,
    Elephant,
    Spiral,
}

/// The passes a compilation runs, and the arguments of the preprocessor.
pub struct CompilePlan {
    pub preprocess: bool,
    pub include_dirs: Option<String>,
    pub defines: Option<String>,
    pub unroll: bool,
    pub constant_propagation: bool,
    pub optimize: bool,
    pub validate: bool,
}

/// Texts joined with `;` between them.
pub open spec fn joined(parts: Seq<Seq<char>>) -> Seq<char>
    decreases parts.len(),
{
    if parts.len() == 0 {
        Seq::empty()
    } else if parts.len() == 1 {
        parts[0]
    } else {
        joined(parts.drop_last()) + seq![';'] + parts.last()
    }
}

pub open spec fn views_of(v: Seq<String>) -> Seq<Seq<char>> {
    v.map_values(|s: String| s@)
}

/// The texts joined with `;`, or none when there are none.
pub fn join_list(parts: &Vec<String>) -> (r: Option<String>)
    ensures
        parts@.len() == 0 <==> r is None,
        r matches Some(s) ==> s@ == joined(views_of(parts@)),
{
    if parts.len() == 0 {
        return None;
    }
    let mut acc = parts[0].clone();
    let mut i: usize = 1;
    assert(views_of(parts@).take(1) =~= seq![parts@[0]@]);
    while i < parts.len()
        invariant
            1 <= i <= parts@.len(),
            acc@ == joined(views_of(parts@).take(i as int)),
        decreases parts@.len() - i,
    {
        let ghost vs = views_of(parts@).take(i + 1);
        assert(vs.drop_last() =~= views_of(parts@).take(i as int));
        assert(vs.last() == parts@[i as int]@);
        assert(joined(vs) == joined(vs.drop_last()) + seq![';'] + vs.last());
        acc = acc.concat(";");
        proof {
            reveal_strlit(";");
        }
        acc = acc.concat(parts[i].as_str());
        i = i + 1;
    }
    assert(views_of(parts@).take(i as int) =~= views_of(parts@));
    Some(acc)
}

/// The plan of a compilation: preprocessing unless `--no-preprocess`, with
/// the include directories and the definitions each joined by `;` (none
/// when there are none); loop unrolling unless `--no-unroll`; constant
/// propagation unless `--no-ast-opt`; then `spirv-opt` and `spirv-val` on
/// request.
pub fn compile_plan(args: &CompileArgs) -> (p: CompilePlan)
    ensures
        p.preprocess == !args.no_preprocess,
        p.unroll == !args.no_unroll,
        p.constant_propagation == !args.no_ast_opt,
        p.optimize == args.optimize,
        p.validate == args.validate,
        args.include_dirs@.len() == 0 <==> p.include_dirs is None,
        p.include_dirs matches Some(s) ==> s@ == joined(views_of(args.include_dirs@)),
        args.defines@.len() == 0 <==> p.defines is None,
        p.defines matches Some(s) ==> s@ == joined(views_of(args.defines@)),
{
    CompilePlan {
        preprocess: !args.no_preprocess,
        include_dirs: join_list(&args.include_dirs),
        defines: join_list(&args.defines),
        unroll: !args.no_unroll,
        constant_propagation: !args.no_ast_opt,
        optimize: args.optimize,
        validate: args.validate,
    }
}

} // verus!
