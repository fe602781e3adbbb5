//! The errors of the dispatcher, each with its kind and its status code.

use vstd::prelude::*;
use vstd::string::StringExecFns;
use crate::envelope::Defect;
use crate::json::{json_null, JsonData};
use crate::response::{Failure, FailureData};
use crate::task::TaskError;

verus! {

/// The status of a request that is wrong in itself.
pub const STATUS_BAD_REQUEST: u16 = 400;

/// The status of a request that is not allowed.
pub const STATUS_FORBIDDEN: u16 = 403;

/// The status of a request that the server cannot serve for want of means.
pub const STATUS_INTERNAL_ERROR: u16 = 500;

/// Why a request got no result.
#[derive(Clone, Copy, Debug, PartialEq, Eq, Structural)]
pub enum DispatcherError {
    /// A caller from another machine asked for a protected method while only
    /// local callers are served.
    LocalHostOnly,
    /// The caller's address is banned.
    Banned,
    /// A protected method was called without a credential.
    CredentialMissing,
    /// The credential supplied is not the configured one.
    IncorrectCredential,
    /// No namespace and no table holds the method.
    NoSuchMethod,
    /// The request, or its parameters, cannot be decoded.
    MalformedRequest(Defect),
    /// The task addressed does not allow what was asked.
    Task(TaskError),
    /// The operation has given out all its task ids.
    OutOfTaskIds,
}

impl DispatcherError {
    /// The status code of the error. Every kind has exactly one.
    pub open spec fn spec_status_code(self) -> u16 {
        match self {
            DispatcherError::LocalHostOnly => STATUS_FORBIDDEN,
            DispatcherError::Banned => STATUS_FORBIDDEN,
            DispatcherError::CredentialMissing => STATUS_FORBIDDEN,
            DispatcherError::IncorrectCredential => STATUS_FORBIDDEN,
            DispatcherError::NoSuchMethod => STATUS_BAD_REQUEST,
            DispatcherError::MalformedRequest(_) => STATUS_BAD_REQUEST,
            DispatcherError::Task(_) => STATUS_BAD_REQUEST,
            DispatcherError::OutOfTaskIds => STATUS_INTERNAL_ERROR,
        }
    }

    /// The status code of the error.
    #[verifier::when_used_as_spec(spec_status_code)]
    pub fn status_code(self) -> (code: u16)
        ensures
            code == self.spec_status_code(),
    {
        match self {
            DispatcherError::LocalHostOnly => STATUS_FORBIDDEN,
            DispatcherError::Banned => STATUS_FORBIDDEN,
            DispatcherError::CredentialMissing => STATUS_FORBIDDEN,
            DispatcherError::IncorrectCredential => STATUS_FORBIDDEN,
            DispatcherError::NoSuchMethod => STATUS_BAD_REQUEST,
            DispatcherError::MalformedRequest(_) => STATUS_BAD_REQUEST,
            DispatcherError::Task(_) => STATUS_BAD_REQUEST,
            DispatcherError::OutOfTaskIds => STATUS_INTERNAL_ERROR,
        }
    }

    /// The kind of the error, for machines.
    pub open spec fn kind_text(self) -> Seq<char> {
        match self {
            DispatcherError::LocalHostOnly => "LocalHostOnly"@,
            DispatcherError::Banned => "Banned"@,
            DispatcherError::CredentialMissing => "CredentialMissing"@,
            DispatcherError::IncorrectCredential => "IncorrectCredential"@,
            DispatcherError::NoSuchMethod => "NoSuchMethod"@,
            DispatcherError::MalformedRequest(_) => "MalformedRequest"@,
            DispatcherError::Task(TaskError::UnknownTask) => "UnknownTask"@,
            DispatcherError::Task(TaskError::AlreadyTerminal) => "AlreadyTerminal"@,
            DispatcherError::Task(TaskError::NotAwaitingAction) => "NotAwaitingAction"@,
            DispatcherError::OutOfTaskIds => "OutOfTaskIds"@,
        }
    }

    /// The kind of the error, for machines.
    pub fn kind(self) -> (text: &'static str)
        ensures
            text@ == self.kind_text(),
    {
        match self {
            DispatcherError::LocalHostOnly => "LocalHostOnly",
            DispatcherError::Banned => "Banned",
            DispatcherError::CredentialMissing => "CredentialMissing",
            DispatcherError::IncorrectCredential => "IncorrectCredential",
            DispatcherError::NoSuchMethod => "NoSuchMethod",
            DispatcherError::MalformedRequest(_) => "MalformedRequest",
            DispatcherError::Task(TaskError::UnknownTask) => "UnknownTask",
            DispatcherError::Task(TaskError::AlreadyTerminal) => "AlreadyTerminal",
            DispatcherError::Task(TaskError::NotAwaitingAction) => "NotAwaitingAction",
            DispatcherError::OutOfTaskIds => "OutOfTaskIds",
        }
    }

    /// The error in words.
    pub open spec fn message_text(self) -> Seq<char> {
        match self {
            DispatcherError::LocalHostOnly => "Selected method can be called from localhost only!"@,
            DispatcherError::Banned => "Your ip is banned."@,
            DispatcherError::CredentialMissing => "Userpass is not set!"@,
            DispatcherError::IncorrectCredential => "Userpass is invalid!"@,
            DispatcherError::NoSuchMethod => "No such method"@,
            DispatcherError::MalformedRequest(Defect::BadVersion) => {
                "Error parsing request: 'mmrpc' is missing or no string"@
            },
            DispatcherError::MalformedRequest(Defect::UnsupportedVersion) => {
                "Error parsing request: unsupported 'mmrpc' version"@
            },
            DispatcherError::MalformedRequest(Defect::BadMethod) => {
                "Error parsing request: 'method' is missing, empty or no string"@
            },
            DispatcherError::MalformedRequest(Defect::BadCredential) => {
                "Error parsing request: 'userpass' is no string"@
            },
            DispatcherError::MalformedRequest(Defect::BadParams) => {
                "Error parsing request: 'params' do not fit the method"@
            },
            DispatcherError::Task(TaskError::UnknownTask) => "No such task"@,
            DispatcherError::Task(TaskError::AlreadyTerminal) => "Task is finished already"@,
            DispatcherError::Task(TaskError::NotAwaitingAction) => {
                "Task is not awaiting a user action"@
            },
            DispatcherError::OutOfTaskIds => "No task id is left"@,
        }
    }

    /// The error in words.
    pub fn message(self) -> (text: &'static str)
        ensures
            text@ == self.message_text(),
    {
        match self {
            DispatcherError::LocalHostOnly => "Selected method can be called from localhost only!",
            DispatcherError::Banned => "Your ip is banned.",
            DispatcherError::CredentialMissing => "Userpass is not set!",
            DispatcherError::IncorrectCredential => "Userpass is invalid!",
            DispatcherError::NoSuchMethod => "No such method",
            DispatcherError::MalformedRequest(Defect::BadVersion) => {
                "Error parsing request: 'mmrpc' is missing or no string"
            },
            DispatcherError::MalformedRequest(Defect::UnsupportedVersion) => {
                "Error parsing request: unsupported 'mmrpc' version"
            },
            DispatcherError::MalformedRequest(Defect::BadMethod) => {
                "Error parsing request: 'method' is missing, empty or no string"
            },
            DispatcherError::MalformedRequest(Defect::BadCredential) => {
                "Error parsing request: 'userpass' is no string"
            },
            DispatcherError::MalformedRequest(Defect::BadParams) => {
                "Error parsing request: 'params' do not fit the method"
            },
            DispatcherError::Task(TaskError::UnknownTask) => "No such task",
            DispatcherError::Task(TaskError::AlreadyTerminal) => "Task is finished already",
            DispatcherError::Task(TaskError::NotAwaitingAction) => {
                "Task is not awaiting a user action"
            },
            DispatcherError::OutOfTaskIds => "No task id is left",
        }
    }

    /// The error as the caller gets to see it: its status code, its kind and
    /// its message, with no path, no trace and no data.
    pub open spec fn failure_data(self) -> FailureData {
        FailureData {
            status: self.spec_status_code(),
            error_type: self.kind_text(),
            message: self.message_text(),
            path: Seq::empty(),
            trace: Seq::empty(),
            data: JsonData::Null,
        }
    }

    /// The error as the caller gets to see it.
    pub fn failure(self) -> (failure: Failure)
        ensures
            failure@ == self.failure_data(),
    {
        Failure {
            status: self.status_code(),
            error_type: String::from_str(self.kind()),
            message: String::from_str(self.message()),
            path: String::new(),
            trace: String::new(),
            data: json_null(),
        }
    }
}

} // verus!
