use vstd::prelude::*;

verus! {

/// One external program of the pipeline: its name and its argument list, in
/// the order they are handed to the operating system.
#[derive(Debug)]
pub struct StageSpec {
    pub program: String,
    pub args: Vec<String>,
}

/// Mathematical image of a `StageSpec`: the program name and each argument as
/// a character sequence.
pub struct StageSpecView {
    pub program: Seq<char>,
    pub args: Seq<Seq<char>>,
}

impl View for StageSpec {
    type V = StageSpecView;

    open spec fn view(&self) -> StageSpecView {
        StageSpecView { program: self.program@, args: self.args.deep_view() }
    }
}

impl DeepView for StageSpec {
    type V = StageSpecView;

    open spec fn deep_view(&self) -> StageSpecView {
        self.view()
    }
}

/// The fixed flags of every compiler invocation: 32-bit WebAssembly target,
/// no standard library, no required entry symbol, undefined imports allowed,
/// dynamic symbols exported.
pub open spec fn compiler_flags() -> Seq<Seq<char>> {
    seq![
        "--target=wasm32"@,
        "--no-standard-libraries"@,
        "-Wl,--no-entry"@,
        "-Wl,--import-undefined"@,
        "-Wl,--export-dynamic"@,
    ]
}

/// The compile stage: the compiler, told to read C source from `src_path` and
/// write the compiled binary to `out_path`.
pub open spec fn compile_stage_view(src_path: Seq<char>, out_path: Seq<char>) -> StageSpecView {
    StageSpecView {
        program: "clang"@,
        args: compiler_flags() + seq!["-o"@, out_path, "-x"@, "c"@, src_path],
    }
}

/// The disassemble stage: the disassembler, told by the conventional `-`
/// argument to read the binary from its standard input; it writes text to its
/// standard output.
pub open spec fn disassemble_stage_view() -> StageSpecView {
    StageSpecView { program: "wasm2wat"@, args: seq!["-"@] }
}

/// The two-stage preview pipeline: compile `src_path` to the compiler's own
/// standard output, disassemble from standard input.
pub open spec fn preview_stages_view(src_path: Seq<char>) -> Seq<StageSpecView> {
    seq![compile_stage_view(src_path, "/dev/stdout"@), disassemble_stage_view()]
}

/// The one-stage save-binary pipeline: compile `src_path` straight to
/// `dest_path`; nothing is captured.
pub open spec fn save_binary_stages_view(src_path: Seq<char>, dest_path: Seq<char>) -> Seq<StageSpecView> {
    seq![compile_stage_view(src_path, dest_path)]
}

fn compile_stage(src_path: &str, out_path: &str) -> (r: StageSpec)
    ensures
        r@ == compile_stage_view(src_path@, out_path@),
{
    let mut args: Vec<String> = Vec::new();
    args.push("--target=wasm32".to_owned());
    args.push("--no-standard-libraries".to_owned());
    args.push("-Wl,--no-entry".to_owned());
    args.push("-Wl,--import-undefined".to_owned());
    args.push("-Wl,--export-dynamic".to_owned());
    args.push("-o".to_owned());
    args.push(out_path.to_owned());
    args.push("-x".to_owned());
    args.push("c".to_owned());
    args.push(src_path.to_owned());
    let r = StageSpec { program: "clang".to_owned(), args };
    proof {
        assert(r@.args =~= compile_stage_view(src_path@, out_path@).args);
    }
    r
}

fn disassemble_stage() -> (r: StageSpec)
    ensures
        r@ == disassemble_stage_view(),
{
    let mut args: Vec<String> = Vec::new();
    args.push("-".to_owned());
    let r = StageSpec { program: "wasm2wat".to_owned(), args };
    proof {
        assert(r@.args =~= disassemble_stage_view().args);
    }
    r
}

/// Build the two-stage preview pipeline for a staged source file.
pub fn preview_stages(src_path: &str) -> (r: Vec<StageSpec>)
    ensures
        r.deep_view() == preview_stages_view(src_path@),
        r@.len() == 2,
{
    let mut r: Vec<StageSpec> = Vec::new();
    r.push(compile_stage(src_path, "/dev/stdout"));
    r.push(disassemble_stage());
    proof {
        assert(r.deep_view() =~= preview_stages_view(src_path@));
    }
    r
}

/// Build the one-stage save-binary pipeline for a staged source file.
pub fn save_binary_stages(src_path: &str, dest_path: &str) -> (r: Vec<StageSpec>)
    ensures
        r.deep_view() == save_binary_stages_view(src_path@, dest_path@),
        r@.len() == 1,
{
    let mut r: Vec<StageSpec> = Vec::new();
    r.push(compile_stage(src_path, dest_path));
    proof {
        assert(r.deep_view() =~= save_binary_stages_view(src_path@, dest_path@));
    }
    r
}

} // verus!
