//! What the coordinator of print jobs decides. It lets one job at a time
//! at the printer and runs it on a worker; the locking and the worker are
//! the caller's.

use crate::error::PrinterBotError;
use crate::text::joined;
use vstd::prelude::*;

verus! {

/// Where files that are to be printed are kept.
pub const PRINTED_FILES_DIR: &'static str = "/home/sticker/printed-files/";

/// How a job ended, from what the worker handed back.
pub open spec fn job_result(joined: Option<Result<(), PrinterBotError>>) -> Result<
    (),
    PrinterBotError,
> {
    match joined {
        Some(outcome) => outcome,
        None => Err(PrinterBotError::WorkerFailure),
    }
}

/// How a job ended: as the worker says, where it ran the job to its end;
/// as `WorkerFailure`, apart from every failure of the device, where the
/// worker ended abnormally and handed nothing back.
pub fn worker_outcome(joined: Option<Result<(), PrinterBotError>>) -> (outcome: Result<
    (),
    PrinterBotError,
>)
    ensures
        outcome == job_result(joined),
        joined is None ==> outcome == Err::<(), PrinterBotError>(PrinterBotError::WorkerFailure),
{
    match joined {
        Some(outcome) => outcome,
        None => Err(PrinterBotError::WorkerFailure),
    }
}

/// The path under which a downloaded file is kept: the directory of
/// printed files, the file's id, a dot and its extension.
pub fn storage_path(file_id: &str, file_ext: &str) -> (path: String)
    ensures
        path@ == PRINTED_FILES_DIR@ + file_id@ + "."@ + file_ext@,
{
    let mut path = joined(PRINTED_FILES_DIR, file_id);
    path.push_str(".");
    path.push_str(file_ext);
    path
}

} // verus!
