//! The process-identification resolver: the pure halves of the two
//! strategies that determine a running container's OS process id.
//!
//! Spawning the inspect query, querying the daemon for its run-root and
//! reading the pidfile are I/O and belong to the embedding application;
//! everything that decides or decodes is here and verified.  Note that
//! the runtime reports process id `0` for a stopped container: that is
//! a valid, non-error result which callers interpret themselves.

use vstd::prelude::*;

use crate::cmd::clone_bytes;
use crate::encode::{append_bytes, lit, lit_vec};
use crate::error::DriverError;
use crate::text::{
    all_dec_digits, dec_value, is_dec_digit, is_u32_numeral, lemma_dec_value_grows, trim_ascii,
    trimmed,
};

verus! {

/// What decoding a process-id text yields: the numeral's value when the
/// trimmed bytes form an unsigned 32-bit decimal numeral, a parse error
/// otherwise.  Both resolution strategies decode through this one
/// function.
pub open spec fn pid_decode(content: Seq<u8>) -> Result<u32, DriverError> {
    if is_u32_numeral(trimmed(content)) {
        Ok(dec_value(trimmed(content)) as u32)
    } else {
        Err(DriverError::PidParse)
    }
}

/// Parses a process-id text: leading and trailing ASCII whitespace is
/// ignored, the rest must be an unsigned decimal integer in 32-bit
/// range.  No default value is ever substituted for malformed input.
pub fn parse_pid(content: &Vec<u8>) -> (r: Result<u32, DriverError>)
    ensures
        r == pid_decode(content@),
{
    let t = trim_ascii(content);
    if t.len() == 0 {
        return Err(DriverError::PidParse);
    }
    let mut acc: u64 = 0;
    let mut i: usize = 0;
    while i < t.len()
        invariant
            i <= t.len(),
            t@ == trimmed(content@),
            t@.len() > 0,
            forall|j: int| 0 <= j < i ==> is_dec_digit(#[trigger] t@[j]),
            acc == dec_value(t@.take(i as int)),
            acc <= u32::MAX,
        decreases t.len() - i,
    {
        let b = t[i];
        if b < 48 || b > 57 {
            return Err(DriverError::PidParse);
        }
        acc = acc * 10 + ((b - 48) as u64);
        proof {
            assert(t@.take(i + 1).drop_last() =~= t@.take(i as int));
            assert(acc == dec_value(t@.take(i + 1)));
        }
        if acc > 0xFFFF_FFFF {
            proof {
                if all_dec_digits(t@) {
                    lemma_dec_value_grows(t@, i + 1, t@.len() as int);
                    assert(t@.take(t@.len() as int) =~= t@);
                }
            }
            return Err(DriverError::PidParse);
        }
        i += 1;
    }
    proof {
        assert(t@.take(t@.len() as int) =~= t@);
    }
    Ok(acc as u32)
}

/// Interprets the outcome of the inspect-based strategy: the spawned
/// inspect invocation's exit, standard output and standard error.
///
/// A non-zero exit becomes a command failure carrying the trimmed
/// standard-error text; on success the trimmed standard output is
/// decoded as the process id.  A reported id of `0` (a stopped
/// container) is returned as a valid result, not an error.
pub fn get_container_pid(success: bool, stdout: &Vec<u8>, stderr: &Vec<u8>) -> (r: Result<
    u32,
    DriverError,
>)
    ensures
        success ==> r == pid_decode(stdout@),
        !success ==> (r matches Err(DriverError::CommandFailed { stderr: e }) && e@ == trimmed(
            stderr@,
        )),
{
    if success {
        parse_pid(stdout)
    } else {
        let e = trim_ascii(stderr);
        Err(DriverError::CommandFailed { stderr: e })
    }
}

/// The well-known per-container pidfile path under the runtime's
/// run-root, valid for the overlay storage driver:
/// `<runroot>/overlay-containers/<container-id>/userdata/pidfile`.
pub open spec fn pidfile_path(runroot: Seq<u8>, container_id: Seq<u8>) -> Seq<u8> {
    runroot + lit("/overlay-containers/") + container_id + lit("/userdata/pidfile")
}

/// Builds the default pidfile path for a container under the given
/// run-root.  This location is only meaningful while the container is
/// running, was started without a custom pidfile, and the storage
/// driver is the overlay driver; violations surface later as plain
/// I/O or parse failures when the file is read.
pub fn default_pidfile_path(container_id: &Vec<u8>, runroot: &Vec<u8>) -> (r: Vec<u8>)
    ensures
        r@ == pidfile_path(runroot@, container_id@),
{
    proof {
        reveal_strlit("/overlay-containers/");
        reveal_strlit("/userdata/pidfile");
        assert(vstd::string::is_ascii("/overlay-containers/"));
        assert(vstd::string::is_ascii("/userdata/pidfile"));
    }
    let mut r = clone_bytes(runroot);
    let mid = lit_vec("/overlay-containers/");
    append_bytes(&mut r, &mid);
    append_bytes(&mut r, container_id);
    let tail = lit_vec("/userdata/pidfile");
    append_bytes(&mut r, &tail);
    r
}

/// The two resolution strategies agree wherever their raw texts carry
/// the same trimmed bytes: both decode through `pid_decode`, so for a
/// running, overlay-backed container their equality reduces entirely to
/// the external runtime writing the same number to its inspect output
/// and to the pidfile.
pub proof fn lemma_pid_strategies_agree(inspect_stdout: Seq<u8>, pidfile_content: Seq<u8>)
    requires
        trimmed(inspect_stdout) == trimmed(pidfile_content),
    ensures
        pid_decode(inspect_stdout) == pid_decode(pidfile_content),
{
}

} // verus!
