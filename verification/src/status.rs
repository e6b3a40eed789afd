//! gRPC status codes and statuses.

use crate::metadata::metadata_entries;
use crate::text::{clone_text, opt_text};
use tonic::metadata::MetadataMap;
use vstd::prelude::*;

verus! {

/// The canonical gRPC status codes.
#[derive(Debug, Clone, Copy, PartialEq, Eq, Structural, Hash)]
pub enum Code {
    /// The operation completed successfully.
    Success,
    /// The operation was cancelled.
    Cancelled,
    /// Unknown error.
    Unknown,
    /// The client specified an invalid argument.
    InvalidArgument,
    /// The deadline expired before the operation could complete.
    DeadlineExceeded,
    /// Some requested entity was not found.
    NotFound,
    /// Some entity that was to be created already exists.
    AlreadyExists,
    /// The caller may not execute the operation.
    PermissionDenied,
    /// Some resource has been exhausted.
    ResourceExhausted,
    /// The system is not in a state required for the operation.
    FailedPrecondition,
    /// The operation was aborted.
    Aborted,
    /// The operation was attempted past the valid range.
    OutOfRange,
    /// The operation is not implemented or not supported.
    Unimplemented,
    /// Internal error.
    Internal,
    /// The service is currently unavailable.
    Unavailable,
    /// Unrecoverable data loss or corruption.
    DataLoss,
    /// The request has no valid authentication credentials.
    Unauthenticated,
}

impl Code {
    /// The number that stands for the code on the wire.
    pub open spec fn num(self) -> i32 {
        match self {
            Code::Success => 0,
            Code::Cancelled => 1,
            Code::Unknown => 2,
            Code::InvalidArgument => 3,
            Code::DeadlineExceeded => 4,
            Code::NotFound => 5,
            Code::AlreadyExists => 6,
            Code::PermissionDenied => 7,
            Code::ResourceExhausted => 8,
            Code::FailedPrecondition => 9,
            Code::Aborted => 10,
            Code::OutOfRange => 11,
            Code::Unimplemented => 12,
            Code::Internal => 13,
            Code::Unavailable => 14,
            Code::DataLoss => 15,
            Code::Unauthenticated => 16,
        }
    }

    /// The code that a number on the wire stands for. Numbers without a code
    /// are told as unknown.
    pub open spec fn from_num(n: i32) -> Code {
        match n {
            0 => Code::Success,
            1 => Code::Cancelled,
            3 => Code::InvalidArgument,
            4 => Code::DeadlineExceeded,
            5 => Code::NotFound,
            6 => Code::AlreadyExists,
            7 => Code::PermissionDenied,
            8 => Code::ResourceExhausted,
            9 => Code::FailedPrecondition,
            10 => Code::Aborted,
            11 => Code::OutOfRange,
            12 => Code::Unimplemented,
            13 => Code::Internal,
            14 => Code::Unavailable,
            15 => Code::DataLoss,
            16 => Code::Unauthenticated,
            _ => Code::Unknown,
        }
    }

    /// The number that stands for the code on the wire.
    pub fn number(self) -> (r: i32)
        ensures
            r == self.num(),
    {
        match self {
            Code::Success => 0,
            Code::Cancelled => 1,
            Code::Unknown => 2,
            Code::InvalidArgument => 3,
            Code::DeadlineExceeded => 4,
            Code::NotFound => 5,
            Code::AlreadyExists => 6,
            Code::PermissionDenied => 7,
            Code::ResourceExhausted => 8,
            Code::FailedPrecondition => 9,
            Code::Aborted => 10,
            Code::OutOfRange => 11,
            Code::Unimplemented => 12,
            Code::Internal => 13,
            Code::Unavailable => 14,
            Code::DataLoss => 15,
            Code::Unauthenticated => 16,
        }
    }

    /// The code that a number on the wire stands for. Numbers without a code
    /// are told as unknown.
    pub fn from_number(n: i32) -> (r: Code)
        ensures
            r == Code::from_num(n),
    {
        match n {
            0 => Code::Success,
            1 => Code::Cancelled,
            3 => Code::InvalidArgument,
            4 => Code::DeadlineExceeded,
            5 => Code::NotFound,
            6 => Code::AlreadyExists,
            7 => Code::PermissionDenied,
            8 => Code::ResourceExhausted,
            9 => Code::FailedPrecondition,
            10 => Code::Aborted,
            11 => Code::OutOfRange,
            12 => Code::Unimplemented,
            13 => Code::Internal,
            14 => Code::Unavailable,
            15 => Code::DataLoss,
            16 => Code::Unauthenticated,
            _ => Code::Unknown,
        }
    }
}

/// A code is read back from its number.
pub proof fn lemma_code_reads_back(code: Code)
    ensures
        Code::from_num(code.num()) == code,
{
}

/// The outcome of a gRPC call: a code, a message for people, opaque details,
/// custom metadata and what caused it.
#[derive(Debug)]
pub struct Status {
    /// The status code.
    pub code: Code,
    /// The message.
    pub message: String,
    /// Opaque details.
    pub details: Vec<u8>,
    /// Custom metadata.
    pub metadata: MetadataMap,
    /// The error that caused it, as that is written for debugging.
    pub source: Option<String>,
}

/// What a status says.
#[verifier::ext_equal]
pub struct StatusView {
    pub code: Code,
    pub message: Seq<char>,
    pub details: Seq<u8>,
    pub metadata: Map<Seq<u8>, Seq<Seq<u8>>>,
    pub source: Option<Seq<char>>,
}

impl View for Status {
    type V = StatusView;

    open spec fn view(&self) -> StatusView {
        StatusView {
            code: self.code,
            message: self.message@,
            details: self.details@,
            metadata: metadata_entries(self.metadata),
            source: opt_text(self.source),
        }
    }
}

impl StatusView {
    /// A status with a code and a message, and nothing else.
    pub open spec fn plain(code: Code, message: Seq<char>) -> StatusView {
        StatusView {
            code,
            message,
            details: Seq::empty(),
            metadata: Map::empty(),
            source: None,
        }
    }

    /// How the status is written: its code and message, and its source where it
    /// has one. Details and metadata are not part of it.
    pub open spec fn text(self) -> Seq<char> {
        match self.source {
            Some(source) => status_text(self.code.num(), self.message) + ", source: "@ + source,
            None => status_text(self.code.num(), self.message),
        }
    }
}

impl Status {
    /// A status with a code and a message, and nothing else.
    pub fn new(code: Code, message: String) -> (r: Status)
        ensures
            r@ == StatusView::plain(code, message@),
            r.message == message,
    {
        Status {
            code,
            message,
            details: Vec::new(),
            metadata: MetadataMap::new(),
            source: None,
        }
    }

    /// The status code.
    pub fn code(&self) -> (r: Code)
        ensures
            r == self@.code,
    {
        self.code
    }

    /// The message.
    pub fn message(&self) -> (r: &str)
        ensures
            r@ == self@.message,
    {
        self.message.as_str()
    }
}

impl Clone for Status {
    fn clone(&self) -> (r: Self)
        ensures
            r@ == self@,
    {
        Status {
            code: self.code,
            message: self.message.clone(),
            details: self.details.clone(),
            metadata: self.metadata.clone(),
            source: clone_text(&self.source),
        }
    }
}

/// How tonic writes a status with a code and a message, and no source.
pub uninterp spec fn status_text(code: i32, message: Seq<char>) -> Seq<char>;

/// The `Display` text of a `tonic::Status` that has a code and a message, and no
/// source: the code's description, and the message in quotes where there is one.
#[verifier::external_body]
fn display_status(code: i32, message: &str) -> (r: String)
    ensures
        r@ == status_text(code, message@),
{
    tonic::Status::new(tonic::Code::from_i32(code), message).to_string()
}

impl Status {
    /// How the status is written. Details and metadata are not part of it.
    pub fn display(&self) -> (r: String)
        ensures
            r@ == self@.text(),
    {
        let mut text = display_status(self.code.number(), self.message.as_str());
        if let Some(source) = &self.source {
            text.append(", source: ");
            text.append(source.as_str());
        }
        text
    }
}

/// Codes have the numbers that gRPC gives them, and no two have the same.
pub proof fn lemma_code_numbers(code: Code, r: i32, n: i32, back: Code)
    requires
        call_ensures(Code::number, (code,), r),
        call_ensures(Code::from_number, (n,), back),
    ensures
        code is Success <==> r == 0,
        code is Cancelled <==> r == 1,
        code is Unknown <==> r == 2,
        code is InvalidArgument <==> r == 3,
        code is DeadlineExceeded <==> r == 4,
        code is NotFound <==> r == 5,
        code is AlreadyExists <==> r == 6,
        code is PermissionDenied <==> r == 7,
        code is ResourceExhausted <==> r == 8,
        code is FailedPrecondition <==> r == 9,
        code is Aborted <==> r == 10,
        code is OutOfRange <==> r == 11,
        code is Unimplemented <==> r == 12,
        code is Internal <==> r == 13,
        code is Unavailable <==> r == 14,
        code is DataLoss <==> r == 15,
        code is Unauthenticated <==> r == 16,
        n == r ==> back == code,
        n < 0 || n > 16 ==> back is Unknown,
{
}

/// A new status has its code and message and nothing else, a copy says what the
/// status says, and what is asked of a status is what it holds.
pub proof fn lemma_statuses_hold_what_they_are_given(
    code: Code,
    message: String,
    fresh: Status,
    status: Status,
    copy: Status,
    c: Code,
    m: &str,
)
    requires
        call_ensures(Status::new, (code, message), fresh),
        call_ensures(<Status as Clone>::clone, (&status,), copy),
        call_ensures(Status::code, (&status,), c),
        call_ensures(Status::message, (&status,), m),
    ensures
        fresh.code == code && fresh.message@ == message@ && fresh.details@.len() == 0
            && metadata_entries(fresh.metadata) == Map::<Seq<u8>, Seq<Seq<u8>>>::empty()
            && fresh.source is None,
        copy.code == status.code && copy.message@ == status.message@ && copy.details@
            == status.details@ && metadata_entries(copy.metadata) == metadata_entries(
            status.metadata,
        ) && opt_text(copy.source) == opt_text(status.source),
        c == status.code,
        m@ == status.message@,
{
}

/// A status is written as tonic writes its code and message, with its source
/// behind where it has one. Details and metadata make no difference.
pub proof fn lemma_statuses_are_written(status: Status, r: String)
    requires
        call_ensures(Status::display, (&status,), r),
    ensures
        status.source is None ==> r@ == status_text(status.code.num(), status.message@),
        status.source matches Some(source) ==> r@ == status_text(
            status.code.num(),
            status.message@,
        ) + ", source: "@ + source@,
{
}

} // verus!
