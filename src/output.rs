use vstd::prelude::*;
use crate::decode::{decode_output, output_text};
use crate::messages::command_failed_message;
use crate::text::{trim, trimmed};

verus! {

/// Standard output and standard error put together: each one that is not
/// empty, the two parted by a line break where both are there.
pub open spec fn joined(out: Seq<char>, err: Seq<char>) -> Seq<char> {
    if out.len() == 0 {
        err
    } else if err.len() == 0 {
        out
    } else {
        out + seq!['\n'] + err
    }
}

/// The answer to a command that ran: on success its combined output,
/// trimmed; on failure the combined output behind a failure notice.
pub open spec fn finished(success: bool, combined: Seq<char>) -> Result<Seq<char>, Seq<char>> {
    if success {
        Ok(trimmed(combined))
    } else {
        Err("命令执行失败: "@ + combined)
    }
}

/// Puts the decoded standard output and standard error of a command together.
pub fn combine_output(out: &str, err: &str) -> (r: String)
    ensures
        r@ == joined(out@, err@),
{
    let mut result = String::new();
    if !out.is_empty() {
        result.append(out);
    }
    if !err.is_empty() {
        if !result.as_str().is_empty() {
            result.append("\n");
        }
        result.append(err);
    }
    proof {
        reveal_strlit("\n");
    }
    assert(result@ =~= joined(out@, err@));
    result
}

/// The answer to a command, from its combined output and whether it exited
/// with success.
pub fn finish_command(success: bool, combined: &str) -> (r: Result<String, String>)
    ensures
        r is Ok <==> success,
        r is Ok ==> finished(success, combined@) == Ok::<Seq<char>, Seq<char>>(r->Ok_0@),
        r is Err ==> finished(success, combined@) == Err::<Seq<char>, Seq<char>>(r->Err_0@),
{
    if success {
        Ok(String::from_str(trim(combined)))
    } else {
        Err(command_failed_message(combined))
    }
}

/// The answer to a command that ran, from the raw bytes of its standard
/// output and standard error and whether it exited with success.
pub fn command_outcome(stdout: &[u8], stderr: &[u8], success: bool) -> (r: Result<String, String>)
    ensures
        r is Ok <==> success,
        r is Ok ==> finished(success, joined(output_text(stdout@), output_text(stderr@)))
            == Ok::<Seq<char>, Seq<char>>(r->Ok_0@),
        r is Err ==> finished(success, joined(output_text(stdout@), output_text(stderr@)))
            == Err::<Seq<char>, Seq<char>>(r->Err_0@),
{
    let out = decode_output(stdout);
    let err = decode_output(stderr);
    let combined = combine_output(out.as_str(), err.as_str());
    finish_command(success, combined.as_str())
}

} // verus!
