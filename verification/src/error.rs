//! The launcher's error model: a numeric OS error code plus a context label
//! naming the step that failed. Constructing one never needs to allocate on
//! the child's side, because every child-side context is a static string.

use vstd::prelude::*;
use vstd::string::StringExecFns;

verus! {

/// Error code the launcher reserves for failures that carry no OS code:
/// synthetic errors and ambiguities in the child's error packet.
pub const SYNTHETIC_OS_CODE: i32 = -1;

/// An OS failure (or a synthetic failure) together with the step it came
/// from. `message` is set only for synthetic errors; OS errors describe
/// themselves through `os_code`.
#[derive(Debug)]
pub struct Error {
    pub os_code: i32,
    pub message: Option<String>,
    pub context: String,
}

/// Relies on std's `io::Error::last_os_error`: the `errno` value left by the
/// calling thread's most recent failed OS call. Nothing can be promised of
/// the code itself; it depends on what the thread last did.
#[verifier::external_body]
fn last_errno() -> (r: Option<i32>) {
    std::io::Error::last_os_error().raw_os_error()
}

/// Relies on std's `io::Error::from_raw_os_error`: the platform's message
/// text for an OS error code. The text depends on the platform, so nothing
/// is promised of it.
#[verifier::external_body]
fn os_error_message(code: i32) -> (r: String) {
    format!("{}", std::io::Error::from_raw_os_error(code))
}

impl Error {
    /// An error with an explicit OS error code.
    pub fn from_raw_os_error(code: i32, context: &str) -> (r: Self)
        ensures
            r.os_code == code,
            r.message is None,
            r.context@ == context@,
    {
        Error { os_code: code, message: None, context: context.to_owned() }
    }

    /// An error carrying the calling thread's last OS error code, or the
    /// reserved synthetic code if none is available.
    pub fn last_os_error(context: &str) -> (r: Self)
        ensures
            r.message is None,
            r.context@ == context@,
    {
        let code = match last_errno() {
            Some(c) => c,
            None => SYNTHETIC_OS_CODE,
        };
        Error::from_raw_os_error(code, context)
    }

    /// A synthetic error: no OS code, only a description.
    pub fn other(error: &str, context: &str) -> (r: Self)
        ensures
            r.os_code == SYNTHETIC_OS_CODE,
            r.message matches Some(m) && m@ == error@,
            r.context@ == context@,
    {
        Error {
            os_code: SYNTHETIC_OS_CODE,
            message: Some(error.to_owned()),
            context: context.to_owned(),
        }
    }

    /// The error rendered as `<context>: <os-message>`. For an OS error the
    /// message text comes from the platform; for a synthetic error it is the
    /// stored description.
    pub fn describe(&self) -> (r: String)
        ensures
            self.message matches Some(m) ==> r@ == self.context@ + ": "@ + m@,
            self.message is None ==> r@.subrange(0, self.context@.len() as int) == self.context@,
    {
        let mut r = self.context.clone();
        r.append(": ");
        match &self.message {
            Some(m) => {
                r.append(m.as_str());
                r
            },
            None => {
                let m = os_error_message(self.os_code);
                r.append(m.as_str());
                proof {
                    assert(r@.subrange(0, self.context@.len() as int) =~= self.context@);
                }
                r
            },
        }
    }
}

/// Attach a context label to a raw OS result, whose error is the `errno`
/// code the failed call produced.
pub trait ResultExt {
    type Value;

    fn context(self, context: &str) -> Result<Self::Value, Error>;
}

impl<T> ResultExt for Result<T, i32> {
    type Value = T;

    fn context(self, context: &str) -> (r: Result<T, Error>)
        ensures
            self matches Ok(v) ==> r matches Ok(w) && w == v,
            self matches Err(code) ==> r matches Err(e) && e.os_code == code && e.message is None
                && e.context@ == context@,
    {
        match self {
            Ok(v) => Ok(v),
            Err(code) => Err(Error::from_raw_os_error(code, context)),
        }
    }
}

} // verus!
