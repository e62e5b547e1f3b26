//! What running a hook came to, at the level of the runner and at the level
//! of its callers.

use vstd::prelude::*;

verus! {

/// The text that lossy UTF-8 decoding makes of `b`: each invalid sequence
/// becomes U+FFFD.
pub uninterp spec fn utf8_lossy(b: Seq<u8>) -> Seq<char>;

/// `b` holds ASCII bytes only.
pub open spec fn all_ascii(b: Seq<u8>) -> bool {
    forall|i: int| 0 <= i < b.len() ==> #[trigger] b[i] < 128
}

/// Relies on `String::from_utf8_lossy`: the text depends on the bytes alone,
/// and valid UTF-8, so ASCII above all, is kept as it is.
#[verifier::external_body]
fn decode_lossy(b: &[u8]) -> (r: String)
    ensures
        r@ == utf8_lossy(b@),
        all_ascii(b@) ==> r@ == b@.map_values(|x: u8| x as char),
{
    String::from_utf8_lossy(b).into_owned()
}

/// How a hook process ended: its exit code, absent when a signal ended it,
/// and the bytes it wrote to its two output streams.
#[derive(Debug, Clone, PartialEq, Eq)]
pub struct HookOutput {
    pub code: Option<i32>,
    pub stdout: Vec<u8>,
    pub stderr: Vec<u8>,
}

/// The outcome of one hook invocation.
#[derive(Debug, Clone, PartialEq, Eq)]
pub enum HookOutcome {
    /// There is no executable hook file: nothing was run.
    NoHookFound,
    /// The hook ran and exited with status zero.
    Success { hook: String },
    /// The hook ran and did not exit with status zero.
    RunNotSuccessful { code: Option<i32>, stdout: String, stderr: String, hook: String },
    /// The hook outlasted its deadline and was killed.
    TimedOut { hook: String },
}

/// A process succeeded when its exit code is zero.
pub open spec fn exited_ok(code: Option<i32>) -> bool {
    code == Some(0i32)
}

/// `o` is what a finished run of the hook at `hook` that ended as `output`
/// comes to: success on exit code zero, else a failure that carries the exit
/// code and the decoded output.
pub open spec fn classifies(o: HookOutcome, hook: String, output: HookOutput) -> bool {
    if exited_ok(output.code) {
        o == (HookOutcome::Success { hook })
    } else {
        o matches HookOutcome::RunNotSuccessful { code, stdout, stderr, hook: h } && code
            == output.code && stdout@ == utf8_lossy(output.stdout@) && stderr@ == utf8_lossy(
            output.stderr@,
        ) && h == hook
    }
}

/// Classifies the finished run of the hook at `hook`.
pub fn hook_result_from_output(hook: String, output: &HookOutput) -> (r: HookOutcome)
    ensures
        classifies(r, hook, *output),
{
    let ok = match output.code {
        Some(c) => c == 0,
        None => false,
    };
    if ok {
        HookOutcome::Success { hook }
    } else {
        let stderr = decode_lossy(output.stderr.as_slice());
        let stdout = decode_lossy(output.stdout.as_slice());
        HookOutcome::RunNotSuccessful { code: output.code, stdout, stderr, hook }
    }
}

/// The outcome of a hook as its callers see it.
#[derive(Debug, Clone, PartialEq, Eq)]
pub enum HookResult {
    /// Everything went fine.
    Success,
    /// The hook rejected, with what it wrote to stdout and then to stderr.
    NotOk(String),
    /// The hook timed out.
    TimedOut,
}

/// Callers see `v` as a success: the hook passed, or there was none.
pub open spec fn seen_as_success(v: HookOutcome) -> bool {
    v is NoHookFound || v is Success
}

impl HookResult {
    /// The callers' view of a runner outcome: a missing hook counts as
    /// success, and a failure carries the hook's stdout followed by its stderr.
    pub fn from(v: HookOutcome) -> (r: HookResult)
        ensures
            seen_as_success(v) <==> r is Success,
            v is TimedOut <==> r is TimedOut,
            v is RunNotSuccessful <==> r is NotOk,
            v matches HookOutcome::RunNotSuccessful { stdout, stderr, .. } ==> r->NotOk_0@
                == stdout@ + stderr@,
    {
        match v {
            HookOutcome::NoHookFound | HookOutcome::Success { .. } => HookResult::Success,
            HookOutcome::RunNotSuccessful { stdout, stderr, .. } => {
                let mut text = stdout;
                text.append(stderr.as_str());
                HookResult::NotOk(text)
            },
            HookOutcome::TimedOut { .. } => HookResult::TimedOut,
        }
    }
}

} // verus!
