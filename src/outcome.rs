//! The record that one host's session pipeline produces.
use vstd::prelude::*;

verus! {

/// What one host's session pipeline produced.
///
/// `status` is true exactly when `result` holds the command's captured output;
/// when it is false, `result` holds a description of the failure.
pub struct Response {
    pub result: String,
    pub hostname: String,
    /// Time from pipeline start to completion, in milliseconds.
    pub process_time: u64,
    pub status: bool,
}

impl Response {
    /// The outcome of a finished pipeline: its output on success, its failure
    /// description otherwise, with the time it took in either case.
    pub fn from_result(hostname: String, result: Result<String, String>, process_time: u64) -> (r:
        Response)
        ensures
            r.status == result is Ok,
            result matches Ok(out) ==> r.result == out,
            result matches Err(msg) ==> r.result == msg,
            r.hostname == hostname,
            r.process_time == process_time,
    {
        match result {
            Ok(out) => Response { result: out, hostname, process_time, status: true },
            Err(msg) => Response { result: msg, hostname, process_time, status: false },
        }
    }

    pub fn clone(&self) -> (r: Response)
        ensures
            r == *self,
    {
        Response {
            result: self.result.clone(),
            hostname: self.hostname.clone(),
            process_time: self.process_time,
            status: self.status,
        }
    }
}

} // verus!
