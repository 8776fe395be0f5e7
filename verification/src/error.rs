//! Failures to interact with the IKE daemon.

use vstd::prelude::*;
use vstd::string::StringExecFns;

use crate::packet_type::PacketType;

verus! {

/// Categorizes the cause of an [`Error`] for programmatic classification.
#[derive(Copy, Clone, PartialEq, Eq, Structural, Debug)]
pub enum Category {
    /// The error was caused by a failure to read or write bytes on an IO stream.
    Io,
    /// The error was caused by invalid data.
    Data,
    /// The error was caused by a listener or handler being already closed.
    Closed,
    /// The error was caused by a failure to execute a command.
    CmdFailure,
    /// The error was caused by an unknown command request.
    UnknownCmd,
    /// The error was caused by an unknown event request.
    UnknownEvent,
}

/// The precise reason for an [`Error`].
///
/// Event and command names are carried as the raw wire bytes of the name.
#[derive(Debug)]
pub enum ErrorCode {
    /// Some IO error occurred on the transport, described by a message.
    Io(String),
    /// Invalid data when decoding a packet or a message body, described by a
    /// message.
    InvalidData(String),
    /// The listener has already been closed.
    ListenerClosed,
    /// The handler has already been closed while processing a command request.
    HandlerClosedWhileCommandRequest,
    /// The handler has already been closed while processing a named event
    /// request.
    HandlerClosedWhileEventRequest(Vec<u8>),
    /// The handler has already been closed while processing the stream; the
    /// payload is the type of the packet whose delivery failed.
    HandlerClosedWhileStreaming(PacketType),
    /// An unexpected packet has been received: no handler was registered for
    /// it, or its type is one the daemon must never send.
    UnexpectedPacket(PacketType),
    /// The issued command failed, with the daemon's optional error message.
    CommandFailed(Option<String>),
    /// An unknown command has been requested.
    UnknownCmd,
    /// An unknown event has been requested.
    UnknownEvent(Vec<u8>),
}

/// The human-readable message for each reason.  Event and command names,
/// carried as raw wire bytes, are not rendered into the message.
pub open spec fn message_spec(code: ErrorCode) -> Seq<char> {
    match code {
        ErrorCode::Io(msg) => msg@,
        ErrorCode::InvalidData(msg) => msg@,
        ErrorCode::ListenerClosed => "listener has been closed"@,
        ErrorCode::HandlerClosedWhileCommandRequest => {
            "handler has been closed while processing command request"@
        },
        ErrorCode::HandlerClosedWhileEventRequest(_) => {
            "handler has been closed while processing event request"@
        },
        ErrorCode::HandlerClosedWhileStreaming(t) => {
            "handler has been closed while processing "@ + t@.describe_spec()
        },
        ErrorCode::UnexpectedPacket(t) => "unexpected packet type "@ + t@.describe_spec(),
        ErrorCode::CommandFailed(Some(msg)) => "command failed: "@ + msg@,
        ErrorCode::CommandFailed(None) => "command failed"@,
        ErrorCode::UnknownCmd => "unknown command"@,
        ErrorCode::UnknownEvent(_) => "unknown event"@,
    }
}

impl ErrorCode {
    /// The category that `Error::classify` assigns to each reason.
    pub open spec fn category(self) -> Category {
        match self {
            ErrorCode::Io(_) => Category::Io,
            ErrorCode::InvalidData(_) => Category::Data,
            ErrorCode::UnexpectedPacket(_) => Category::Data,
            ErrorCode::ListenerClosed => Category::Closed,
            ErrorCode::HandlerClosedWhileCommandRequest => Category::Closed,
            ErrorCode::HandlerClosedWhileEventRequest(_) => Category::Closed,
            ErrorCode::HandlerClosedWhileStreaming(_) => Category::Closed,
            ErrorCode::CommandFailed(_) => Category::CmdFailure,
            ErrorCode::UnknownCmd => Category::UnknownCmd,
            ErrorCode::UnknownEvent(_) => Category::UnknownEvent,
        }
    }
}

/// A structure representing all possible errors of this crate.
#[derive(Debug)]
pub struct Error {
    code: ErrorCode,
}

impl Error {
    /// The reason carried by this error.
    pub closed spec fn spec_code(self) -> ErrorCode {
        self.code
    }

    /// Wraps a reason as an error.
    pub fn data(code: ErrorCode) -> (r: Error)
        ensures
            r.spec_code() == code,
    {
        Error { code }
    }

    /// Wraps a transport I/O failure described by `msg`.
    pub fn io(msg: String) -> (r: Error)
        ensures
            r.spec_code() == ErrorCode::Io(msg),
    {
        Error { code: ErrorCode::Io(msg) }
    }

    /// Borrows the reason carried by this error.
    pub fn code(&self) -> (r: &ErrorCode)
        ensures
            *r == self.spec_code(),
    {
        &self.code
    }

    /// Takes the reason carried by this error.
    pub fn into_code(self) -> (r: ErrorCode)
        ensures
            r == self.spec_code(),
    {
        self.code
    }

    /// Categorizes the cause of this error.
    ///
    /// - `Category::Io` - failure to read or write bytes on an IO stream
    /// - `Category::Data` - invalid data
    /// - `Category::Closed` - a listener or handler has already been closed
    /// - `Category::CmdFailure` - failure to execute a command
    /// - `Category::UnknownCmd` - an unknown command request
    /// - `Category::UnknownEvent` - an unknown event request
    pub fn classify(&self) -> (r: Category)
        ensures
            r == self.spec_code().category(),
    {
        match &self.code {
            ErrorCode::Io(_) => Category::Io,
            ErrorCode::InvalidData(_) => Category::Data,
            ErrorCode::UnexpectedPacket(_) => Category::Data,
            ErrorCode::ListenerClosed => Category::Closed,
            ErrorCode::HandlerClosedWhileCommandRequest => Category::Closed,
            ErrorCode::HandlerClosedWhileEventRequest(_) => Category::Closed,
            ErrorCode::HandlerClosedWhileStreaming(_) => Category::Closed,
            ErrorCode::CommandFailed(_) => Category::CmdFailure,
            ErrorCode::UnknownCmd => Category::UnknownCmd,
            ErrorCode::UnknownEvent(_) => Category::UnknownEvent,
        }
    }

    /// Returns true if this error was caused by a failure to read or write
    /// bytes on an IO stream.
    pub fn is_io(&self) -> (r: bool)
        ensures
            r == (self.spec_code().category() == Category::Io),
    {
        self.classify() == Category::Io
    }

    /// Returns true if this error was caused by invalid data.
    pub fn is_data(&self) -> (r: bool)
        ensures
            r == (self.spec_code().category() == Category::Data),
    {
        self.classify() == Category::Data
    }

    /// Returns true if this error was caused by a listener or handler being
    /// already closed.
    pub fn is_closed(&self) -> (r: bool)
        ensures
            r == (self.spec_code().category() == Category::Closed),
    {
        self.classify() == Category::Closed
    }

    /// Returns true if this error was caused by a failure to execute a
    /// command.
    pub fn is_command_failed(&self) -> (r: bool)
        ensures
            r == (self.spec_code().category() == Category::CmdFailure),
    {
        self.classify() == Category::CmdFailure
    }

    /// Returns true if this error was caused by an unknown command request.
    pub fn is_unknown_cmd(&self) -> (r: bool)
        ensures
            r == (self.spec_code().category() == Category::UnknownCmd),
    {
        self.classify() == Category::UnknownCmd
    }

    /// Returns true if this error was caused by an unknown event request.
    pub fn is_unknown_event(&self) -> (r: bool)
        ensures
            r == (self.spec_code().category() == Category::UnknownEvent),
    {
        self.classify() == Category::UnknownEvent
    }

    /// The human-readable message for this error.
    pub fn message(&self) -> (r: String)
        ensures
            r@ == message_spec(self.spec_code()),
    {
        match &self.code {
            ErrorCode::Io(msg) => msg.clone(),
            ErrorCode::InvalidData(msg) => msg.clone(),
            ErrorCode::ListenerClosed => String::from_str("listener has been closed"),
            ErrorCode::HandlerClosedWhileCommandRequest => String::from_str(
                "handler has been closed while processing command request",
            ),
            ErrorCode::HandlerClosedWhileEventRequest(_) => String::from_str(
                "handler has been closed while processing event request",
            ),
            ErrorCode::HandlerClosedWhileStreaming(t) => {
                let mut msg = String::from_str("handler has been closed while processing ");
                let name = t.describe();
                msg.append(name.as_str());
                msg
            },
            ErrorCode::UnexpectedPacket(t) => {
                let mut msg = String::from_str("unexpected packet type ");
                let name = t.describe();
                msg.append(name.as_str());
                msg
            },
            ErrorCode::CommandFailed(Some(errmsg)) => {
                let mut msg = String::from_str("command failed: ");
                msg.append(errmsg.as_str());
                msg
            },
            ErrorCode::CommandFailed(None) => String::from_str("command failed"),
            ErrorCode::UnknownCmd => String::from_str("unknown command"),
            ErrorCode::UnknownEvent(_) => String::from_str("unknown event"),
        }
    }
}

} // verus!
