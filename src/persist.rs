//! Atomic, durable file replacement as a protocol: the caller performs each step and reports
//! whether it succeeded; `next_step` decides what comes next. The destination is touched by
//! the rename alone, which comes only after the temporary file was written, flushed and
//! synced; a failure while the temporary file exists removes it first.
use vstd::prelude::*;
use crate::errors::SecurityError;
use crate::keystore::{hex_lower, hex_text, random_bytes};
use crate::text::joined;
use vstd::string::StringExecFns;

verus! {

/// The steps of an atomic write, in protocol order.
#[derive(Debug, Clone, Copy, PartialEq, Eq, Structural)]
pub enum WriteStep {
    /// Create the parent directory if missing.
    CreateDir,
    /// Create the temporary file beside the target, failing if it exists.
    CreateTemp,
    /// Restrict the temporary file to owner read/write (best effort).
    RestrictTemp,
    /// Write every byte to the temporary file.
    WriteAll,
    /// Flush the temporary file.
    Flush,
    /// fsync the temporary file.
    SyncFile,
    /// Rename the temporary file over the target.
    Rename,
    /// fsync the parent directory (best effort).
    SyncDir,
    /// Restrict the target to owner read/write (best effort).
    RestrictFinal,
    /// Resolve the target to a canonical absolute path.
    Resolve,
    /// Remove the temporary file after a failure.
    RemoveTemp,
    /// Finished: report the resolved path.
    Done,
    /// Finished: report the first error.
    Failed,
}

/// Whether a step's own failure is ignored.
pub open spec fn best_effort(s: WriteStep) -> bool {
    s == WriteStep::RestrictTemp || s == WriteStep::SyncDir || s == WriteStep::RestrictFinal
}

/// Whether the temporary file exists while the step runs.
pub open spec fn holds_temp(s: WriteStep) -> bool {
    ||| s == WriteStep::RestrictTemp
    ||| s == WriteStep::WriteAll
    ||| s == WriteStep::Flush
    ||| s == WriteStep::SyncFile
    ||| s == WriteStep::Rename
}

/// The step after `s`, given whether `s` succeeded.
pub open spec fn next_of(s: WriteStep, ok: bool) -> WriteStep {
    match s {
        WriteStep::CreateDir => if ok {
            WriteStep::CreateTemp
        } else {
            WriteStep::Failed
        },
        WriteStep::CreateTemp => if ok {
            WriteStep::RestrictTemp
        } else {
            WriteStep::Failed
        },
        WriteStep::RestrictTemp => WriteStep::WriteAll,
        WriteStep::WriteAll => if ok {
            WriteStep::Flush
        } else {
            WriteStep::RemoveTemp
        },
        WriteStep::Flush => if ok {
            WriteStep::SyncFile
        } else {
            WriteStep::RemoveTemp
        },
        WriteStep::SyncFile => if ok {
            WriteStep::Rename
        } else {
            WriteStep::RemoveTemp
        },
        WriteStep::Rename => if ok {
            WriteStep::SyncDir
        } else {
            WriteStep::RemoveTemp
        },
        WriteStep::SyncDir => WriteStep::RestrictFinal,
        WriteStep::RestrictFinal => WriteStep::Resolve,
        WriteStep::Resolve => if ok {
            WriteStep::Done
        } else {
            WriteStep::Failed
        },
        WriteStep::RemoveTemp => WriteStep::Failed,
        WriteStep::Done => WriteStep::Done,
        WriteStep::Failed => WriteStep::Failed,
    }
}

/// The step that starts every write.
pub fn first_step() -> (s: WriteStep)
    ensures
        s == WriteStep::CreateDir,
{
    WriteStep::CreateDir
}

/// Decides the step after `step`, given whether it succeeded.
pub fn next_step(step: WriteStep, ok: bool) -> (n: WriteStep)
    ensures
        n == next_of(step, ok),
        n == WriteStep::Rename <==> step == WriteStep::SyncFile && ok,
        holds_temp(step) && !best_effort(step) && !ok ==> n == WriteStep::RemoveTemp,
        n == WriteStep::Failed ==> !holds_temp(step),
{
    match step {
        WriteStep::CreateDir => if ok {
            WriteStep::CreateTemp
        } else {
            WriteStep::Failed
        },
        WriteStep::CreateTemp => if ok {
            WriteStep::RestrictTemp
        } else {
            WriteStep::Failed
        },
        WriteStep::RestrictTemp => WriteStep::WriteAll,
        WriteStep::WriteAll => if ok {
            WriteStep::Flush
        } else {
            WriteStep::RemoveTemp
        },
        WriteStep::Flush => if ok {
            WriteStep::SyncFile
        } else {
            WriteStep::RemoveTemp
        },
        WriteStep::SyncFile => if ok {
            WriteStep::Rename
        } else {
            WriteStep::RemoveTemp
        },
        WriteStep::Rename => if ok {
            WriteStep::SyncDir
        } else {
            WriteStep::RemoveTemp
        },
        WriteStep::SyncDir => WriteStep::RestrictFinal,
        WriteStep::RestrictFinal => WriteStep::Resolve,
        WriteStep::Resolve => if ok {
            WriteStep::Done
        } else {
            WriteStep::Failed
        },
        WriteStep::RemoveTemp => WriteStep::Failed,
        WriteStep::Done => WriteStep::Done,
        WriteStep::Failed => WriteStep::Failed,
    }
}

/// Whether the protocol has finished.
pub fn is_finished(step: WriteStep) -> (r: bool)
    ensures
        r == (step == WriteStep::Done || step == WriteStep::Failed),
{
    match step {
        WriteStep::Done | WriteStep::Failed => true,
        _ => false,
    }
}

/// Whether a failure of `step` is the error that the write reports: best-effort steps and
/// the clean-up are never reported.
pub fn reports_failure(step: WriteStep) -> (r: bool)
    ensures
        r == !(best_effort(step) || step == WriteStep::RemoveTemp),
{
    match step {
        WriteStep::RestrictTemp | WriteStep::SyncDir | WriteStep::RestrictFinal
        | WriteStep::RemoveTemp => false,
        _ => true,
    }
}

/// The steps that a run takes when the performed steps report `outcomes` in turn.
pub open spec fn trace(outcomes: Seq<bool>) -> Seq<WriteStep>
    decreases outcomes.len(),
{
    if outcomes.len() == 0 {
        seq![WriteStep::CreateDir]
    } else {
        let t = trace(outcomes.drop_last());
        t.push(next_of(t.last(), outcomes.last()))
    }
}

proof fn lemma_trace_step(outcomes: Seq<bool>, i: int)
    requires
        0 < i <= outcomes.len(),
    ensures
        trace(outcomes).len() == outcomes.len() + 1,
        trace(outcomes)[i] == next_of(trace(outcomes)[i - 1], outcomes[i - 1]),
    decreases outcomes.len(),
{
    lemma_trace_len(outcomes);
    let prev = outcomes.drop_last();
    lemma_trace_len(prev);
    if i < outcomes.len() {
        lemma_trace_step(prev, i);
        assert(trace(outcomes)[i] == trace(prev)[i]);
        assert(trace(outcomes)[i - 1] == trace(prev)[i - 1]);
    }
}

proof fn lemma_trace_len(outcomes: Seq<bool>)
    ensures
        trace(outcomes).len() == outcomes.len() + 1,
        trace(outcomes)[0] == WriteStep::CreateDir,
    decreases outcomes.len(),
{
    if outcomes.len() > 0 {
        lemma_trace_len(outcomes.drop_last());
    }
}

/// Whatever the steps report, the rename comes only right after the temporary file was
/// written, flushed and synced, each with success.
pub proof fn lemma_rename_only_after_sync(outcomes: Seq<bool>, i: int)
    requires
        0 <= i <= outcomes.len(),
        trace(outcomes)[i] == WriteStep::Rename,
    ensures
        i >= 3,
        trace(outcomes)[i - 1] == WriteStep::SyncFile && outcomes[i - 1],
        trace(outcomes)[i - 2] == WriteStep::Flush && outcomes[i - 2],
        trace(outcomes)[i - 3] == WriteStep::WriteAll && outcomes[i - 3],
{
    lemma_trace_len(outcomes);
    assert(i != 0);
    lemma_trace_step(outcomes, i);
    assert(i - 1 != 0);
    lemma_trace_step(outcomes, i - 1);
    assert(i - 2 != 0);
    lemma_trace_step(outcomes, i - 2);
}

/// Whatever the steps report, a run never fails while its temporary file still exists:
/// a failure at any step that holds the file goes through its removal.
pub proof fn lemma_failure_removes_temp(outcomes: Seq<bool>, i: int)
    requires
        0 < i <= outcomes.len(),
        trace(outcomes)[i] == WriteStep::Failed,
    ensures
        !holds_temp(trace(outcomes)[i - 1]),
        trace(outcomes)[i - 1] != WriteStep::Rename,
{
    lemma_trace_step(outcomes, i);
}

/// Name of the temporary file for target file `base`: `.<base>.tmp.<hex of suffix>`.
pub open spec fn temp_name_of(base: Seq<char>, suffix: Seq<u8>) -> Seq<char> {
    "."@ + base + ".tmp."@ + hex_text(suffix)
}

/// Name of the temporary file for target file `base` with a given 16-byte random suffix.
pub fn temp_file_name(base: &str, suffix: &[u8; 16]) -> (r: String)
    ensures
        r@ == temp_name_of(base@, suffix@),
{
    let head = joined(".", base);
    let head = joined(head.as_str(), ".tmp.");
    let tail = hex_lower(suffix);
    joined(head.as_str(), tail.as_str())
}

/// Name of a fresh temporary file for target file `base`, with a random 16-byte suffix.
pub fn fresh_temp_name(base: &str) -> (r: Result<String, SecurityError>)
    ensures
        r matches Ok(s) ==> exists|suffix: Seq<u8>| suffix.len() == 16 && s@ == temp_name_of(base@, suffix),
        r matches Err(e) ==> e is Rand,
{
    let v = match random_bytes(16) {
        Some(v) => v,
        None => {
            return Err(SecurityError::Rand(String::from_str("os random source failed")));
        },
    };
    let suffix: [u8; 16] = crate::keystore::to_array(v.as_slice());
    let name = temp_file_name(base, &suffix);
    assert(suffix@.len() == 16 && name@ == temp_name_of(base@, suffix@));
    Ok(name)
}

} // verus!
