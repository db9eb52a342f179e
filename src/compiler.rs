use vstd::prelude::*;

use crate::ir::{default_kind, flag_for, known_kind, IrType};

verus! {

/// What one run of the compiler came to.
pub struct CompileResult {
    /// Whether the compiler ran and exited with status zero.
    pub success: bool,
    /// The representation, as the compiler wrote it to standard output.
    pub ir_output: String,
    /// The compiler's diagnostics, or what kept it from running.
    pub messages: String,
}

/// A step before the compiler runs that can fail; the compiler is then never
/// started.
pub enum SetupError {
    /// No temporary file could be made for the source.
    TempFile,
    /// The source could not be written to the temporary file.
    WriteSource,
    /// The compiler process could not be started.
    SpawnCompiler,
}

/// The start of the message that reports `e`.
pub open spec fn setup_prefix(e: SetupError) -> Seq<char> {
    match e {
        SetupError::TempFile => "Failed to create temp file: "@,
        SetupError::WriteSource => "Failed to write source: "@,
        SetupError::SpawnCompiler => "Failed to run rustc: "@,
    }
}

/// The unstable flag that selects the representation of kind `kind`.
pub open spec fn unpretty_flag_for(kind: Seq<char>) -> Seq<char> {
    "-Zunpretty="@ + flag_for(kind)
}

/// The command line, program first, that prints the representation of kind
/// `kind`; the path of the source file follows it.
pub open spec fn compiler_argv(kind: Seq<char>) -> Seq<Seq<char>> {
    seq![
        "rustup"@,
        "run"@,
        "nightly"@,
        "rustc"@,
        unpretty_flag_for(kind),
        "--edition=2021"@,
        "--crate-name=input"@,
    ]
}

/// The text that the bytes `b` give when each invalid UTF-8 sequence in them
/// is replaced by U+FFFD.
pub uninterp spec fn lossy_text(b: Seq<u8>) -> Seq<char>;

/// Relies on `String::from_utf8_lossy`: its result depends on the bytes
/// alone.
#[verifier::external_body]
fn decode_lossy(b: &[u8]) -> (r: String)
    ensures
        r@ == lossy_text(b@),
{
    String::from_utf8_lossy(b).into_owned()
}

impl SetupError {
    /// The start of the message that reports this failure.
    pub fn prefix(&self) -> (r: &'static str)
        ensures
            r@ == setup_prefix(*self),
    {
        match self {
            SetupError::TempFile => "Failed to create temp file: ",
            SetupError::WriteSource => "Failed to write source: ",
            SetupError::SpawnCompiler => "Failed to run rustc: ",
        }
    }
}

/// The result of a run that stopped at `err` before the compiler produced
/// anything; `detail` says why.
pub fn setup_failure(err: SetupError, detail: &str) -> (r: CompileResult)
    ensures
        !r.success,
        r.ir_output@ == Seq::<char>::empty(),
        r.messages@ == setup_prefix(err) + detail@,
{
    let messages = String::from_str(err.prefix()).concat(detail);
    CompileResult { success: false, ir_output: String::new(), messages }
}

/// The result of a run in which the compiler exited, successfully or not,
/// after writing `stdout` and `stderr`. Both streams are kept in full.
pub fn finished(exit_success: bool, stdout: &[u8], stderr: &[u8]) -> (r: CompileResult)
    ensures
        r.success == exit_success,
        r.ir_output@ == lossy_text(stdout@),
        r.messages@ == lossy_text(stderr@),
{
    CompileResult {
        success: exit_success,
        ir_output: decode_lossy(stdout),
        messages: decode_lossy(stderr),
    }
}

/// The flag that selects the representation that `ir` asks for.
pub fn unpretty_flag(ir: &IrType) -> (r: String)
    ensures
        r@ == unpretty_flag_for(ir@),
{
    String::from_str("-Zunpretty=").concat(ir.rustc_flag())
}

/// The command line, program first, that prints the representation that
/// `ir` asks for; the path of the source file is to be added after it.
pub fn compiler_command(ir: &IrType) -> (r: Vec<String>)
    ensures
        r.deep_view() == compiler_argv(ir@),
{
    let mut argv: Vec<String> = Vec::new();
    argv.push(String::from_str("rustup"));
    argv.push(String::from_str("run"));
    argv.push(String::from_str("nightly"));
    argv.push(String::from_str("rustc"));
    argv.push(unpretty_flag(ir));
    argv.push(String::from_str("--edition=2021"));
    argv.push(String::from_str("--crate-name=input"));
    assert(argv.deep_view() =~= compiler_argv(ir@));
    argv
}

/// A request for a kind outside the known set runs the very same command as
/// a request for the default kind.
pub proof fn lemma_unknown_kind_runs_as_default(kind: Seq<char>)
    requires
        !known_kind(kind),
    ensures
        compiler_argv(kind) == compiler_argv(default_kind()),
{
    assert(known_kind(default_kind()));
}

} // verus!
