use vstd::prelude::*;
use vstd::string::StringExecFns;

verus! {

/// The ways a call on the sound server can fail.
#[derive(Clone, Copy, Debug, PartialEq, Eq, Structural)]
pub enum PulseCtlErrorType {
    /// The event loop or the context gave up before the context was ready.
    ConnectError,
    /// The event loop quit or failed, or the operation was cancelled, while
    /// a request was in flight; or the session could not take the request.
    OperationError,
    /// The request completed but the server delivered no matching item.
    NotFound,
    /// The server answered with an error code of its own.
    PulseAudioError,
}

/// A failure: its kind and a message for people.
#[derive(Clone, Debug)]
pub struct PulseCtlError {
    error: PulseCtlErrorType,
    message: String,
}

/// What a `PulseCtlError` holds, as plain values.
pub struct ErrorView {
    pub kind: PulseCtlErrorType,
    pub message: Seq<char>,
}

impl View for PulseCtlError {
    type V = ErrorView;

    closed spec fn view(&self) -> ErrorView {
        ErrorView { kind: self.error, message: self.message@ }
    }
}

/// The name under which a kind of error is shown.
pub open spec fn kind_name(kind: PulseCtlErrorType) -> Seq<char> {
    match kind {
        PulseCtlErrorType::ConnectError => "ConnectError"@,
        PulseCtlErrorType::OperationError => "OperationError"@,
        PulseCtlErrorType::NotFound => "NotFound"@,
        PulseCtlErrorType::PulseAudioError => "PulseAudioError"@,
    }
}

/// The text shown for an error: its kind in brackets, then the message.
pub open spec fn shown(e: ErrorView) -> Seq<char> {
    "["@ + kind_name(e.kind) + "]: "@ + e.message
}

/// The message of an error that wraps the server's own description of an
/// error code; a code without a description leaves the place empty.
pub open spec fn server_message(text: Option<Seq<char>>) -> Seq<char> {
    "PulseAudio returned error code "@ + match text {
        Some(t) => t,
        None => Seq::<char>::empty(),
    }
}

impl PulseCtlError {
    pub fn new(err: PulseCtlErrorType, msg: &str) -> (e: Self)
        ensures
            e@.kind == err,
            e@.message == msg@,
    {
        PulseCtlError { error: err, message: String::from_str(msg) }
    }

    /// The error for a code that the server returned, given the text that
    /// the server's library has for that code.
    pub fn from_server_text(text: Option<&str>) -> (e: Self)
        ensures
            e@.kind == PulseCtlErrorType::PulseAudioError,
            e@.message == server_message(
                match text {
                    Some(t) => Some(t@),
                    None => None,
                },
            ),
    {
        let mut message = String::from_str("PulseAudio returned error code ");
        match text {
            Some(t) => {
                message.append(t);
            },
            None => {
                assert(message@ + Seq::<char>::empty() =~= message@);
            },
        }
        PulseCtlError { error: PulseCtlErrorType::PulseAudioError, message }
    }

    pub fn kind(&self) -> (k: PulseCtlErrorType)
        ensures
            k == self@.kind,
    {
        self.error
    }

    pub fn message(&self) -> (m: &str)
        ensures
            m@ == self@.message,
    {
        self.message.as_str()
    }

    /// The error as text: `[Kind]: message`.
    pub fn describe(&self) -> (text: String)
        ensures
            text@ == shown(self@),
    {
        let name = match self.error {
            PulseCtlErrorType::ConnectError => "ConnectError",
            PulseCtlErrorType::OperationError => "OperationError",
            PulseCtlErrorType::NotFound => "NotFound",
            PulseCtlErrorType::PulseAudioError => "PulseAudioError",
        };
        let mut text = String::from_str("[");
        text.append(name);
        text.append("]: ");
        text.append(self.message.as_str());
        text
    }
}

} // verus!
