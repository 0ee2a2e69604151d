//! The error that a job ends with.

use vstd::prelude::*;
use vstd::string::*;

verus! {

/// Why a job could not be carried out. The message is what the job store
/// shows for a broken job.
#[derive(Debug)]
pub struct JobError {
    message: String,
}

/// The result of a job or of one of its steps.
pub type JobResult<T> = Result<T, JobError>;

impl View for JobError {
    type V = Seq<char>;

    closed spec fn view(&self) -> Seq<char> {
        self.message@
    }
}

impl JobError {
    /// An error with the message `s`.
    pub fn new(s: &str) -> (e: JobError)
        ensures
            e@ == s@,
    {
        JobError { message: String::from_str(s) }
    }

    /// An error with the message `prefix` followed by `detail`.
    pub fn with_detail(prefix: &str, detail: &str) -> (e: JobError)
        ensures
            e@ == prefix@ + detail@,
    {
        let mut message = String::from_str(prefix);
        message.append(detail);
        JobError { message }
    }

    /// The message.
    pub fn to_string(&self) -> (s: String)
        ensures
            s@ == self@,
    {
        self.message.clone()
    }
}

impl Clone for JobError {
    fn clone(&self) -> (e: JobError)
        ensures
            e@ == self@,
    {
        JobError { message: self.message.clone() }
    }
}

} // verus!
