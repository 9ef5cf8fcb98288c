//! Reading the outcomes of the two version-control subprocesses.
//!
//! The shell runs `git diff --cached` and `git commit -m <message>` and hands
//! in what came of each run; these functions decide what the pipeline sees:
//! the decoded diff, or an error that carries the subprocess's own words.

use vstd::prelude::*;

verus! {

/// What a finished subprocess left behind: whether it exited successfully,
/// and its captured output streams.
pub struct CmdOutput {
    pub success: bool,
    pub stdout: Vec<u8>,
    pub stderr: Vec<u8>,
}

/// What `String::from_utf8_lossy` makes of a byte sequence: its UTF-8
/// decoding with invalid sequences replaced, a fixed function of the bytes
/// alone.
pub uninterp spec fn lossy_utf8(bytes: Seq<u8>) -> Seq<char>;

/// Relies on `String::from_utf8_lossy`: decodes the bytes as UTF-8 and
/// replaces each invalid sequence with U+FFFD; no bytes decode to no
/// characters.
#[verifier::external_body]
fn bytes_to_string_lossy(bytes: &Vec<u8>) -> (r: String)
    ensures
        r@ == lossy_utf8(bytes@),
        bytes@.len() == 0 ==> r@.len() == 0,
{
    String::from_utf8_lossy(bytes).into_owned()
}

/// The staged diff, read off the outcome of `git diff --cached`: the decoded
/// standard output when the subprocess ran — empty exactly when it printed
/// nothing, as with no staged changes — and an execution error naming the
/// launch failure when it could not be run at all.
pub fn get_diff(run: Result<CmdOutput, String>) -> (r: Result<String, String>)
    ensures
        (r is Ok) == (run is Ok),
        run matches Ok(o) ==> r->Ok_0@ == lossy_utf8(o.stdout@),
        run matches Ok(o) ==> o.stdout@.len() == 0 ==> r->Ok_0@.len() == 0,
        run matches Err(e) ==> r->Err_0@ == "Failed to execute git command: "@ + e@,
{
    match run {
        Ok(output) => Ok(bytes_to_string_lossy(&output.stdout)),
        Err(e) => {
            let mut m = String::from_str("Failed to execute git command: ");
            m.append(e.as_str());
            Err(m)
        },
    }
}

/// The commit outcome, read off the result of `git commit -m <message>`:
/// success exactly when the subprocess ran and exited zero; a run that
/// exited non-zero surfaces the decoded standard-error text inside the
/// error; a run that could not start surfaces the launch failure.
pub fn commit(run: Result<CmdOutput, String>) -> (r: Result<(), String>)
    ensures
        (r is Ok) == (run matches Ok(o) && o.success),
        run matches Ok(o) ==> !o.success ==> r->Err_0@ == "Commit failed:\n"@ + lossy_utf8(
            o.stderr@,
        ),
        run matches Err(e) ==> r->Err_0@ == "Failed to execute git commit: "@ + e@,
{
    match run {
        Ok(output) => {
            if output.success {
                Ok(())
            } else {
                let mut m = String::from_str("Commit failed:\n");
                let tail = bytes_to_string_lossy(&output.stderr);
                m.append(tail.as_str());
                Err(m)
            }
        },
        Err(e) => {
            let mut m = String::from_str("Failed to execute git commit: ");
            m.append(e.as_str());
            Err(m)
        },
    }
}

} // verus!
