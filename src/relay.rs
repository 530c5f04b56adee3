//! The decisions of the relay: what the formatter is run with, what it is
//! given on standard input, and which exit status comes of its outcome.

use vstd::prelude::*;
use crate::rewrite::{rewrite_source, rewritten};

verus! {

/// How the formatter's standard streams are connected.
pub enum RelayMode {
    /// The formatter inherits this process's streams; its input is not seen,
    /// so it cannot be rewritten.
    Direct,
    /// This process reads all input, rewrites it, hands it to the formatter
    /// and copies the formatter's output back.
    Piped,
}

/// What a finished child process left: the bytes it wrote to standard output
/// and standard error, and its exit code, absent where a signal ended it.
pub struct ProcessOutcome {
    pub stdout: Vec<u8>,
    pub stderr: Vec<u8>,
    pub code: Option<i32>,
}

/// A failure of the relay itself, as opposed to the formatter rejecting its
/// input.
#[derive(PartialEq, Eq, Structural, Clone, Copy, Debug)]
pub enum RelayError {
    ReadInput,
    Spawn,
    WriteInput,
    ReadOutput,
    NoExitCode,
    WriteStdout,
    WriteStderr,
}

/// What the relay passes on once the formatter has exited.
pub struct Relayed {
    pub stdout: Vec<u8>,
    pub stderr: Vec<u8>,
    pub exit_code: i32,
}

/// The exit status of the relay when it fails itself.
pub const RELAY_FAILURE: i32 = 1;

/// The arguments of the toolchain manager that run the formatter of
/// `toolchain` on the forwarded arguments.
pub open spec fn formatter_command(toolchain: Seq<char>, forwarded: Seq<Seq<char>>) -> Seq<Seq<char>> {
    seq!["run"@, "--install"@, toolchain, "rustfmt"@] + forwarded
}

/// The arguments of the toolchain manager that ask for the active toolchain.
pub open spec fn active_query_command() -> Seq<Seq<char>> {
    seq!["show"@, "active-toolchain"@]
}

/// Builds `run --install <toolchain> rustfmt <forwarded...>`.
pub fn formatter_args(toolchain: &str, forwarded: &Vec<String>) -> (r: Vec<String>)
    ensures
        r.deep_view() == formatter_command(toolchain@, forwarded.deep_view()),
{
    let mut r: Vec<String> = Vec::new();
    r.push(String::from_str("run"));
    r.push(String::from_str("--install"));
    r.push(toolchain.to_owned());
    r.push(String::from_str("rustfmt"));
    let ghost head = seq!["run"@, "--install"@, toolchain@, "rustfmt"@];
    proof {
        assert(r.deep_view() =~= head);
    }
    let mut k: usize = 0;
    while k < forwarded.len()
        invariant
            k <= forwarded.len(),
            r.len() == k + 4,
            forall|i: int| 0 <= i < 4 ==> (#[trigger] r@[i])@ == head[i],
            forall|i: int| 0 <= i < k ==> (#[trigger] r@[i + 4])@ == forwarded@[i]@,
        decreases forwarded.len() - k,
    {
        r.push(forwarded[k].clone());
        k = k + 1;
    }
    assert forall|i: int| 0 <= i < r.len() implies r.deep_view()[i] == formatter_command(
        toolchain@,
        forwarded.deep_view(),
    )[i] by {
        if i >= 4 {
            assert(r@[(i - 4) + 4] == r@[i]);
        }
    }
    assert(r.deep_view() =~= formatter_command(toolchain@, forwarded.deep_view()));
    r
}

/// Builds `show active-toolchain`.
pub fn active_query_args() -> (r: Vec<String>)
    ensures
        r.deep_view() == active_query_command(),
{
    let mut r: Vec<String> = Vec::new();
    r.push(String::from_str("show"));
    r.push(String::from_str("active-toolchain"));
    assert(r.deep_view() =~= active_query_command());
    r
}

/// What the formatter is given on standard input: in piped mode the source
/// after rewriting; in direct mode nothing, as it reads the stream itself.
pub fn child_input(mode: RelayMode, source: &str) -> (r: Option<String>)
    ensures
        match mode {
            RelayMode::Piped => r is Some && r->0@ == rewritten(source@),
            RelayMode::Direct => r is None,
        },
{
    match mode {
        RelayMode::Piped => Some(rewrite_source(source)),
        RelayMode::Direct => None,
    }
}

/// The formatter's exit code, or an error where a signal ended it.
pub fn child_exit_code(code: Option<i32>) -> (r: Result<i32, RelayError>)
    ensures
        match code {
            Some(c) => r == Ok::<i32, RelayError>(c),
            None => r == Err::<i32, RelayError>(RelayError::NoExitCode),
        },
{
    match code {
        Some(c) => Ok(c),
        None => Err(RelayError::NoExitCode),
    }
}

/// What is passed on from a finished formatter: its output and error bytes
/// unchanged and its exit code; nothing where it has no exit code.
pub fn relay_outcome(outcome: ProcessOutcome) -> (r: Result<Relayed, RelayError>)
    ensures
        match outcome.code {
            Some(c) => r is Ok && r->Ok_0.stdout@ == outcome.stdout@ && r->Ok_0.stderr@
                == outcome.stderr@ && r->Ok_0.exit_code == c,
            None => r is Err && r->Err_0 == RelayError::NoExitCode,
        },
{
    match child_exit_code(outcome.code) {
        Ok(c) => Ok(Relayed { stdout: outcome.stdout, stderr: outcome.stderr, exit_code: c }),
        Err(e) => Err(e),
    }
}

/// The relay's own exit status: the formatter's exit code, or
/// `RELAY_FAILURE` where the relay failed.
pub fn exit_status(r: &Result<i32, RelayError>) -> (s: i32)
    ensures
        match r {
            Ok(c) => s == *c,
            Err(_) => s == RELAY_FAILURE,
        },
{
    match r {
        Ok(c) => *c,
        Err(_) => RELAY_FAILURE,
    }
}

} // verus!
