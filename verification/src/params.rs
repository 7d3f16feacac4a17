use vstd::prelude::*;
use vstd::string::StringExecFns;

use crate::catalog::CourseTable;
use crate::text::{decimal, decimal_spec};

verus! {

/// How long, in milliseconds, the client waits before it asks again for a
/// captcha or for the course list after a failed try.
pub const RETRY_PAUSE_MS: u64 = 1000;

/// How long, in milliseconds, the client waits after sending an enrollment
/// request before it reads the reply.
pub const REPLY_WAIT_MS: u64 = 350;

/// The parameters a logged-in session sends with every request: the
/// authorization token and the batch the enrollment belongs to.
#[derive(Clone, Debug)]
pub struct ValiPara {
    pub auth: String,
    pub batchid: String,
}

/// The error an enrollment attempt ends with when the server calls the
/// course's task stale; `value` is the course number that should be tried
/// again.
#[derive(Clone, Copy, Debug, PartialEq, Eq)]
pub struct ClassError {
    pub value: usize,
}

/// The text `ClassError` shows: `an error occurred with value: {value}`.
pub open spec fn class_error_text(value: usize) -> Seq<char> {
    "an error occurred with value: "@ + decimal_spec(value as nat)
}

impl ClassError {
    /// The message of this error, as it is displayed.
    pub fn message(&self) -> (s: String)
        ensures
            s@ == class_error_text(self.value),
    {
        let mut s = "an error occurred with value: ".to_owned();
        let digits = decimal(self.value as u64);
        s.append(digits.as_str());
        s
    }
}

/// The user's settings: the account, its password and the numbers of the
/// courses to enroll in.
#[derive(Clone, Debug)]
pub struct Config {
    pub account: String,
    pub password: String,
    pub class: Vec<usize>,
}

/// The course list the server returned, with the kind of list it is:
/// `is_tjkc` is true for the specialized-elective list ("TJKC") and false
/// for the general-elective one ("XGKC").
pub struct FormatData {
    pub data_json: CourseTable,
    pub is_tjkc: bool,
}

/// Everything the enrollment tasks share: the server's base address, the
/// chosen course numbers, the session and the course list.
pub struct AsyncPara<'a> {
    pub urls: &'a str,
    pub class: &'a Vec<usize>,
    pub vali_para: &'a ValiPara,
    pub data: &'a FormatData,
}

} // verus!
