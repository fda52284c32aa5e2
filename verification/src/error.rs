//! Owned wrappers for values the native layer hands out: error details and
//! strings.
//!
//! Each wrapper owns its contents outright. Release is by consumption: the
//! `free` methods take the wrapper by value, so a released wrapper can
//! neither be read again nor released twice — the compiler rejects both.

use vstd::prelude::*;

use crate::codes::ResultCode;

verus! {

/// Details of a failed operation: a classification code and a
/// human-readable message.
///
/// Every fallible operation of this library returns one of these on
/// failure, and nothing on success.
#[derive(Debug)]
pub struct ErrorDetails {
    kind: ResultCode,
    message: String,
}

impl ErrorDetails {
    /// The classification code, for specification.
    pub closed spec fn spec_kind(self) -> ResultCode {
        self.kind
    }

    /// The message text, for specification.
    pub closed spec fn spec_message(self) -> Seq<char> {
        self.message@
    }

    /// Build an error value; failing operations of this library use this.
    pub(crate) fn new(kind: ResultCode, message: String) -> (r: ErrorDetails)
        ensures
            r.spec_kind() == kind,
            r.spec_message() == message@,
    {
        ErrorDetails { kind, message }
    }

    /// The kind of failure that occurred.
    pub fn kind(&self) -> (r: ResultCode)
        ensures
            r == self.spec_kind(),
    {
        self.kind
    }

    /// A human-readable description of the failure.
    pub fn message(&self) -> (r: &str)
        ensures
            r@ == self.spec_message(),
    {
        self.message.as_str()
    }

    /// Release the error value.
    ///
    /// Consumes the wrapper, so each instance is released at most once and
    /// cannot be read afterwards.
    pub fn free(self) {
    }
}

/// An owned string handed out by the event layer, such as a device name.
#[derive(Debug)]
pub struct MyoString {
    text: String,
}

impl MyoString {
    /// The text, for specification.
    pub closed spec fn spec_text(self) -> Seq<char> {
        self.text@
    }

    /// Wrap owned text; event accessors use this.
    pub(crate) fn from_string(text: String) -> (r: MyoString)
        ensures
            r.spec_text() == text@,
    {
        MyoString { text }
    }

    /// The text of the string.
    pub fn text(&self) -> (r: &str)
        ensures
            r@ == self.spec_text(),
    {
        self.text.as_str()
    }

    /// Release the string.
    ///
    /// Consumes the wrapper, so each instance is released at most once and
    /// cannot be read afterwards.
    pub fn free(self) {
    }
}

} // verus!
