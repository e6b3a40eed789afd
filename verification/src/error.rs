//! gRPC error types.

use crate::status::{Code, Status, StatusView};
use vstd::prelude::*;

verus! {

#[verifier::external_type_specification]
#[verifier::external_body]
pub struct ExTransportError(tonic::transport::Error);

/// The text that a transport error of tonic's is told by.
pub uninterp spec fn error_text(error: tonic::transport::Error) -> Seq<char>;

/// Whether a text is one that tonic's transport errors are told by.
pub open spec fn is_transport_text(text: Seq<char>) -> bool {
    ||| text == "transport error"@
    ||| text == "invalid URI"@
    ||| text == "user agent is not a valid header value"@
    ||| text == "cannot apply TLS config for unix domain socket"@
}

/// The `Display` text of `tonic::transport::Error`, which rests on the error
/// alone: one of four, by its kind. Which error is of which kind is left unsaid,
/// since tonic keeps that field to itself.
#[verifier::external_body]
fn transport_text(error: &tonic::transport::Error) -> (r: String)
    ensures
        r@ == error_text(*error),
        is_transport_text(r@),
{
    error.to_string()
}

/// Result type for gRPC operations.
pub type Result<T> = std::result::Result<T, GrpcError>;

/// gRPC errors.
#[derive(Debug)]
#[non_exhaustive]
pub enum GrpcError {
    /// Transport error.
    Transport(tonic::transport::Error),
    /// Status error from gRPC call.
    Status(Status),
    /// Connection error.
    Connection(String),
    /// Configuration error.
    Config(String),
    /// Timeout error.
    Timeout,
    /// Authentication error.
    Auth(String),
    /// Interceptor error.
    Interceptor(String),
    /// Server error.
    Server(String),
}

impl GrpcError {
    /// The status that tells of the error.
    pub open spec fn status(self) -> StatusView {
        match self {
            GrpcError::Transport(e) => StatusView::plain(Code::Unavailable, error_text(e)),
            GrpcError::Status(s) => s@,
            GrpcError::Connection(msg) => StatusView::plain(Code::Unavailable, msg@),
            GrpcError::Config(msg) => StatusView::plain(Code::InvalidArgument, msg@),
            GrpcError::Timeout => StatusView::plain(Code::DeadlineExceeded, "Request timed out"@),
            GrpcError::Auth(msg) => StatusView::plain(Code::Unauthenticated, msg@),
            GrpcError::Interceptor(msg) => StatusView::plain(Code::Internal, msg@),
            GrpcError::Server(msg) => StatusView::plain(Code::Internal, msg@),
        }
    }

    /// Convert to a status.
    pub fn to_status(&self) -> (r: Status)
        ensures
            r@ == self.status(),
    {
        match self {
            GrpcError::Transport(e) => Status::new(Code::Unavailable, transport_text(e)),
            GrpcError::Status(s) => s.clone(),
            GrpcError::Connection(msg) => Status::new(Code::Unavailable, msg.clone()),
            GrpcError::Config(msg) => Status::new(Code::InvalidArgument, msg.clone()),
            GrpcError::Timeout => Status::new(
                Code::DeadlineExceeded,
                String::from("Request timed out"),
            ),
            GrpcError::Auth(msg) => Status::new(Code::Unauthenticated, msg.clone()),
            GrpcError::Interceptor(msg) => Status::new(Code::Internal, msg.clone()),
            GrpcError::Server(msg) => Status::new(Code::Internal, msg.clone()),
        }
    }

    /// What the error tells besides its kind: nothing for a timeout.
    pub open spec fn detail(self) -> Seq<char> {
        match self {
            GrpcError::Transport(e) => error_text(e),
            GrpcError::Status(s) => s@.text(),
            GrpcError::Connection(msg) => msg@,
            GrpcError::Config(msg) => msg@,
            GrpcError::Timeout => Seq::empty(),
            GrpcError::Auth(msg) => msg@,
            GrpcError::Interceptor(msg) => msg@,
            GrpcError::Server(msg) => msg@,
        }
    }

    /// What stands before the detail.
    pub open spec fn heading(self) -> Seq<char> {
        match self {
            GrpcError::Transport(_) => "Transport error: "@,
            GrpcError::Status(_) => "gRPC status: "@,
            GrpcError::Connection(_) => "Connection error: "@,
            GrpcError::Config(_) => "Configuration error: "@,
            GrpcError::Timeout => "Request timed out"@,
            GrpcError::Auth(_) => "Authentication failed: "@,
            GrpcError::Interceptor(_) => "Interceptor error: "@,
            GrpcError::Server(_) => "Server error: "@,
        }
    }

    /// How the error is written.
    pub fn message(&self) -> (r: String)
        ensures
            r@ == self.heading() + self.detail(),
    {
        match self {
            GrpcError::Transport(e) => self.message_with(transport_text(e).as_str()),
            GrpcError::Status(s) => self.message_with(s.display().as_str()),
            GrpcError::Connection(msg) => self.message_with(msg.as_str()),
            GrpcError::Config(msg) => self.message_with(msg.as_str()),
            GrpcError::Timeout => {
                let message = self.message_with("");
                proof {
                    reveal_strlit("");
                    assert(self.heading() + ""@ =~= self.heading() + self.detail());
                }
                message
            },
            GrpcError::Auth(msg) => self.message_with(msg.as_str()),
            GrpcError::Interceptor(msg) => self.message_with(msg.as_str()),
            GrpcError::Server(msg) => self.message_with(msg.as_str()),
        }
    }

    /// How the error is written with a detail.
    pub fn message_with(&self, detail: &str) -> (r: String)
        ensures
            r@ == self.heading() + detail@,
    {
        let heading = match self {
            GrpcError::Transport(_) => "Transport error: ",
            GrpcError::Status(_) => "gRPC status: ",
            GrpcError::Connection(_) => "Connection error: ",
            GrpcError::Config(_) => "Configuration error: ",
            GrpcError::Timeout => "Request timed out",
            GrpcError::Auth(_) => "Authentication failed: ",
            GrpcError::Interceptor(_) => "Interceptor error: ",
            GrpcError::Server(_) => "Server error: ",
        };
        let mut message = String::from(heading);
        message.append(detail);
        message
    }

    /// Create from a code and message.
    pub fn from_code(code: Code, message: impl Into<String>) -> (r: Self)
        ensures
            r matches GrpcError::Status(s) && call_ensures(
                Into::<String>::into,
                (message,),
                s.message,
            ) && s@ == StatusView::plain(code, s.message@),
    {
        let text: String = message.into();
        GrpcError::Status(Status::new(code, text))
    }
}

/// What is made of the result of a call into tonic's transport.
pub fn transport_result<T>(result: std::result::Result<T, tonic::transport::Error>) -> (r: Result<
    T,
>)
    ensures
        match result {
            Ok(value) => r == Ok::<T, GrpcError>(value),
            Err(error) => r == Err::<T, GrpcError>(GrpcError::Transport(error)),
        },
{
    match result {
        Ok(value) => Ok(value),
        Err(error) => Err(GrpcError::from(error)),
    }
}

impl vstd::std_specs::convert::FromSpecImpl<tonic::transport::Error> for GrpcError {
    open spec fn obeys_from_spec() -> bool {
        true
    }

    open spec fn from_spec(err: tonic::transport::Error) -> GrpcError {
        GrpcError::Transport(err)
    }
}

impl From<tonic::transport::Error> for GrpcError {
    fn from(err: tonic::transport::Error) -> (r: GrpcError) {
        GrpcError::Transport(err)
    }
}

impl vstd::std_specs::convert::FromSpecImpl<Status> for GrpcError {
    open spec fn obeys_from_spec() -> bool {
        true
    }

    open spec fn from_spec(status: Status) -> GrpcError {
        GrpcError::Status(status)
    }
}

impl From<Status> for GrpcError {
    fn from(status: Status) -> (r: GrpcError) {
        GrpcError::Status(status)
    }
}

// Two statuses that say the same need not be the same value, so the conversion
// is told by its own contract.
impl vstd::std_specs::convert::FromSpecImpl<GrpcError> for Status {
    open spec fn obeys_from_spec() -> bool {
        false
    }

    open spec fn from_spec(err: GrpcError) -> Status {
        arbitrary()
    }
}

impl From<GrpcError> for Status {
    fn from(err: GrpcError) -> (r: Status)
        ensures
            r@ == err.status(),
    {
        err.to_status()
    }
}

/// Every error has the status that tells of it: failures to reach the server are
/// unavailable, mistakes in the configuration invalid arguments, timeouts expired
/// deadlines, refused credentials unauthenticated and the others internal. The
/// status tells what the error told, and nothing else comes with it. A status
/// that came with the error is told as it is.
pub proof fn lemma_statuses_of_errors(error: GrpcError, r: Status)
    requires
        call_ensures(GrpcError::to_status, (&error,), r),
    ensures
        error matches GrpcError::Status(s) ==> r@ == s@,
        !(error is Status) ==> r@.details.len() == 0 && r@.metadata == Map::<
            Seq<u8>,
            Seq<Seq<u8>>,
        >::empty() && r@.source is None,
        error matches GrpcError::Transport(e) ==> r@.code == Code::Unavailable && r@.message
            == error_text(e),
        error matches GrpcError::Connection(m) ==> r@.code == Code::Unavailable && r@.message
            == m@,
        error matches GrpcError::Config(m) ==> r@.code == Code::InvalidArgument && r@.message
            == m@,
        error is Timeout ==> r@.code == Code::DeadlineExceeded && r@.message
            == "Request timed out"@,
        error matches GrpcError::Auth(m) ==> r@.code == Code::Unauthenticated && r@.message
            == m@,
        error matches GrpcError::Interceptor(m) ==> r@.code == Code::Internal && r@.message
            == m@,
        error matches GrpcError::Server(m) ==> r@.code == Code::Internal && r@.message == m@,
{
}

/// Every error is written with a heading for its kind, and with what it tells.
pub proof fn lemma_errors_are_written(error: GrpcError, r: String)
    requires
        call_ensures(GrpcError::message, (&error,), r),
    ensures
        error matches GrpcError::Transport(e) ==> r@ == "Transport error: "@ + error_text(e),
        error matches GrpcError::Status(s) ==> r@ == "gRPC status: "@ + s@.text(),
        error matches GrpcError::Connection(m) ==> r@ == "Connection error: "@ + m@,
        error matches GrpcError::Config(m) ==> r@ == "Configuration error: "@ + m@,
        error is Timeout ==> r@ == "Request timed out"@,
        error matches GrpcError::Auth(m) ==> r@ == "Authentication failed: "@ + m@,
        error matches GrpcError::Interceptor(m) ==> r@ == "Interceptor error: "@ + m@,
        error matches GrpcError::Server(m) ==> r@ == "Server error: "@ + m@,
{
    assert(error is Timeout ==> error.heading() + error.detail() =~= "Request timed out"@);
}

/// An error made from a code and a message is a status with those, and turns into
/// that status again.
pub proof fn lemma_code_becomes_status(
    code: Code,
    message: &str,
    error: GrpcError,
    r: Status,
    s: Status,
)
    requires
        call_ensures(GrpcError::from_code, (code, message), error),
        call_ensures(GrpcError::to_status, (&error,), r),
        call_ensures(<Status as From<GrpcError>>::from, (error,), s),
    ensures
        r@.code == code && r@.message == message@ && r@.details.len() == 0 && r@.source is None,
        s@ == r@,
{
}

/// What comes out of the transport is passed on: a value as it is, and a failure
/// as the error that holds it.
pub proof fn lemma_transport_is_passed_on<T>(
    result: std::result::Result<T, tonic::transport::Error>,
    r: Result<T>,
)
    requires
        call_ensures(transport_result::<T>, (result,), r),
    ensures
        result matches Ok(v) ==> r == Ok::<T, GrpcError>(v),
        result matches Err(e) ==> (r matches Err(GrpcError::Transport(f)) && f == e),
{
}

/// An error that is written with a detail has the heading of its kind before it.
pub proof fn lemma_headings(error: GrpcError, detail: &str, r: String)
    requires
        call_ensures(GrpcError::message_with, (&error, detail), r),
    ensures
        error is Transport ==> r@ == "Transport error: "@ + detail@,
        error is Status ==> r@ == "gRPC status: "@ + detail@,
        error is Connection ==> r@ == "Connection error: "@ + detail@,
        error is Config ==> r@ == "Configuration error: "@ + detail@,
        error is Timeout ==> r@ == "Request timed out"@ + detail@,
        error is Auth ==> r@ == "Authentication failed: "@ + detail@,
        error is Interceptor ==> r@ == "Interceptor error: "@ + detail@,
        error is Server ==> r@ == "Server error: "@ + detail@,
{
}

} // verus!
