//! The failures of a request as the client is told of them.

use std::collections::BTreeMap;
use vstd::prelude::*;
use vstd::string::StringExecFns;

use crate::error::CrawlError;
use crate::locator::join3;

verus! {

/// A failure with a fixed message.
#[derive(Clone, Copy, Debug)]
pub struct ErrorResponseCode {
    /// The number that tells the failures apart.
    pub code: u16,
    pub message: &'static str,
    /// The HTTP status that goes with the failure.
    pub status_code: u16,
}

/// A failure with a message of its own.
#[derive(Debug)]
pub struct ErrorResponseCodeOwnedStr {
    pub code: u16,
    pub message: String,
    pub status_code: u16,
}

/// A failure with a list of further facts.
#[derive(Debug)]
pub struct ErrorResponseCodeOwnedStrWithMeta {
    pub code: u16,
    pub message: String,
    pub status_code: u16,
    pub meta: Vec<ErrorResponseMeta>,
}

/// A failure with further facts by name.
#[derive(Debug)]
pub struct ErrorResponseCodeOwnedStrWithKVMeta {
    pub code: u16,
    pub message: String,
    pub status_code: u16,
    pub meta: BTreeMap<String, ErrorResponseMeta>,
}

/// A fact that goes with a failure.
#[derive(Debug)]
pub enum ErrorResponseMeta {
    String(String),
    Integer(i128),
    /// A moment in time, written as RFC 3339 wants it.
    TimestampTz(String),
}

impl ErrorResponseCode {
    /// The connection to the browser driver could not be made.
    pub fn create_client() -> (e: ErrorResponseCode)
        ensures
            e.code == 5001,
            e.message@ == "Could not create_client!"@,
            e.status_code == 500,
    {
        ErrorResponseCode { code: 5001, message: "Could not create_client!", status_code: 500 }
    }

    /// The login at the portal failed.
    pub fn pp_login() -> (e: ErrorResponseCode)
        ensures
            e.code == 5002,
            e.message@ == "Could not pp_login!"@,
            e.status_code == 500,
    {
        ErrorResponseCode { code: 5002, message: "Could not pp_login!", status_code: 500 }
    }

    /// The customer's pages could not be read.
    pub fn pp_user_info() -> (e: ErrorResponseCode)
        ensures
            e.code == 5003,
            e.message@ == "Could not pp_user_info!"@,
            e.status_code == 500,
    {
        ErrorResponseCode { code: 5003, message: "Could not pp_user_info!", status_code: 500 }
    }

    /// The session could not be cleaned up.
    pub fn clean_client() -> (e: ErrorResponseCode)
        ensures
            e.code == 5003,
            e.message@ == "Could not clean_client!"@,
            e.status_code == 500,
    {
        ErrorResponseCode { code: 5003, message: "Could not clean_client!", status_code: 500 }
    }

    /// The same failure with `message` added to its message after a blank.
    pub fn with_message(self, message: String) -> (e: ErrorResponseCodeOwnedStr)
        ensures
            e.code == self.code,
            e.status_code == self.status_code,
            e.message@ == self.message@ + " "@ + message@,
    {
        ErrorResponseCodeOwnedStr {
            code: self.code,
            message: join3(self.message, " ", message.as_str()),
            status_code: self.status_code,
        }
    }

    /// The same failure with the facts `message`.
    pub fn with_metadata(self, message: Vec<ErrorResponseMeta>) -> (e:
        ErrorResponseCodeOwnedStrWithMeta)
        ensures
            e.code == self.code,
            e.status_code == self.status_code,
            e.message@ == self.message@,
            e.meta == message,
    {
        ErrorResponseCodeOwnedStrWithMeta {
            code: self.code,
            message: String::from_str(self.message),
            status_code: self.status_code,
            meta: message,
        }
    }

    /// The same failure with the named facts `message`.
    pub fn with_kv_metadata(self, message: BTreeMap<String, ErrorResponseMeta>) -> (e:
        ErrorResponseCodeOwnedStrWithKVMeta)
        ensures
            e.code == self.code,
            e.status_code == self.status_code,
            e.message@ == self.message@,
            e.meta == message,
    {
        ErrorResponseCodeOwnedStrWithKVMeta {
            code: self.code,
            message: String::from_str(self.message),
            status_code: self.status_code,
            meta: message,
        }
    }
}

/// What the client is told when a crawl fails: the number and the words
/// for the failure. Every failure of a crawl is the server's.
pub open spec fn crawl_failure_code(e: CrawlError) -> u16 {
    match e {
        CrawlError::DriverUnavailable => 5001,
        CrawlError::SessionConnectFailed => 5001,
        _ => 5002,
    }
}

/// The words for the failure that the client is told of when a crawl fails.
pub open spec fn crawl_failure_message(e: CrawlError) -> Seq<char> {
    match e {
        CrawlError::DriverUnavailable => "Could not create_client!"@,
        CrawlError::SessionConnectFailed => "Could not create_client!"@,
        _ => "Could not pp_login!"@,
    }
}

/// The failure that the client is told of when a crawl ends in `e`: the one
/// for the driver where it could not be reached, the one for the portal
/// otherwise.
pub fn crawl_failure(e: CrawlError) -> (code: ErrorResponseCode)
    ensures
        code.code == crawl_failure_code(e),
        code.message@ == crawl_failure_message(e),
        code.status_code == 500,
{
    match e {
        CrawlError::DriverUnavailable => ErrorResponseCode::create_client(),
        CrawlError::SessionConnectFailed => ErrorResponseCode::create_client(),
        _ => ErrorResponseCode::pp_login(),
    }
}

} // verus!
