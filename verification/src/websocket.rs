//! The WebSocket handler's messages, and the decisions it takes on what arrives.
//!
//! The handler only knows about sending and receiving strings; the SSAP protocol lives
//! elsewhere. The caller sends [`WsMessage`]s; the handler answers with [`WsUpdateMessage`]s.

use vstd::prelude::*;

use crate::text::contains_seq;

verus! {

/// Messages from the caller to the WebSocket handler.
#[derive(Debug)]
pub enum WsMessage {
    /// A command for the handler.
    Command(WsCommand),
    /// A text payload to send to the TV.
    Payload(String),
    /// Test whether the server answers a ping.
    TestConnection,
}

/// Messages from the WebSocket handler back to the caller.
#[derive(Debug)]
pub enum WsUpdateMessage {
    /// A status change.
    Status(WsStatus),
    /// A text payload received from the TV.
    Payload(String),
    /// The result of a connection test.
    IsConnectionOk(bool),
}

/// Commands for the WebSocket handler.
#[derive(Debug, Clone, Copy, PartialEq, Eq, Structural)]
pub enum WsCommand {
    ShutDown,
}

/// WebSocket handler status.
#[derive(Debug)]
pub enum WsStatus {
    Idle,
    Connected,
    Disconnected,
    ConnectError(String),
    MessageReadError(String),
    ServerClosedConnection,
}

/// Handles one WebSocket connection to a TV.
pub struct LgTvWebSocket {}

impl LgTvWebSocket {
    /// A new handler, not yet connected.
    pub fn new() -> (r: Self) {
        LgTvWebSocket {}
    }
}

/// How long a connection test may wait for the pong, in milliseconds.
pub const TEST_CONNECTION_MILLIS: u64 = 1500;

/// What arrives on the WebSocket, by kind.
#[derive(Debug)]
pub enum WsIncoming {
    Text(String),
    Ping,
    Pong,
    Close,
    /// Any other frame (binary, raw frame); it is ignored.
    Other,
    /// A read error, with its display text.
    ReadError(String),
}

/// What the handler does in answer to an event.
#[derive(Debug)]
pub enum WsReaction {
    /// Nothing to do.
    Nothing,
    /// Report an update to the caller, and carry on.
    Report(WsUpdateMessage),
    /// Report an update to the caller, and stop the connection loop.
    ReportAndStop(WsUpdateMessage),
    /// Send a close frame and stop.
    CloseAndStop,
    /// Send a text payload to the TV.
    SendText(String),
    /// Send a ping to the TV to start a connection test.
    SendPing,
}

/// The state of the handler's connection loop: when the current connection test began
/// (milliseconds on the caller's clock), if one is running.
pub struct WsSession {
    pub connection_test_start: Option<u64>,
}

impl WsSession {
    /// A session with no connection test running.
    pub fn new() -> (r: WsSession)
        ensures
            r.connection_test_start is None,
    {
        WsSession { connection_test_start: None }
    }

    /// Reaction to the outcome of connecting to the TV: a connection is reported; a failure is
    /// reported as a connect error and ends the handler.
    pub fn on_connect_result(&self, result: Result<(), String>) -> (r: WsReaction)
        ensures
            match result {
                Ok(_) => r == WsReaction::Report(WsUpdateMessage::Status(WsStatus::Connected)),
                Err(e) => r == WsReaction::ReportAndStop(
                    WsUpdateMessage::Status(WsStatus::ConnectError(e)),
                ),
            },
    {
        match result {
            Ok(_) => WsReaction::Report(WsUpdateMessage::Status(WsStatus::Connected)),
            Err(e) => WsReaction::ReportAndStop(WsUpdateMessage::Status(WsStatus::ConnectError(e))),
        }
    }

    /// Reaction to a message from the caller (`None`: the caller's channel closed).
    ///
    /// Shut down or a closed channel: close and stop. A payload is sent. A connection test
    /// sends a ping and notes the time, unless a test is already running.
    pub fn on_caller_message(&mut self, msg: Option<WsMessage>, now_millis: u64) -> (r: WsReaction)
        ensures
            match msg {
                None => r is CloseAndStop && final(self).connection_test_start
                    == old(self).connection_test_start,
                Some(WsMessage::Command(WsCommand::ShutDown)) => r is CloseAndStop
                    && final(self).connection_test_start == old(self).connection_test_start,
                Some(WsMessage::Payload(p)) => r == WsReaction::SendText(p)
                    && final(self).connection_test_start == old(self).connection_test_start,
                Some(WsMessage::TestConnection) => if old(self).connection_test_start is Some {
                    r is Nothing && final(self).connection_test_start
                        == old(self).connection_test_start
                } else {
                    r is SendPing && final(self).connection_test_start == Some(now_millis)
                },
            },
    {
        match msg {
            None => WsReaction::CloseAndStop,
            Some(WsMessage::Command(WsCommand::ShutDown)) => WsReaction::CloseAndStop,
            Some(WsMessage::Payload(p)) => WsReaction::SendText(p),
            Some(WsMessage::TestConnection) => {
                if self.connection_test_start.is_some() {
                    WsReaction::Nothing
                } else {
                    self.connection_test_start = Some(now_millis);
                    WsReaction::SendPing
                }
            },
        }
    }

    /// Reaction to what arrives from the TV.
    ///
    /// Text is passed on; a pong ends a running connection test as passed; a close frame or
    /// a read error is reported and stops the loop; anything else is ignored.
    pub fn on_incoming(&mut self, incoming: WsIncoming) -> (r: WsReaction)
        ensures
            match incoming {
                WsIncoming::Text(t) => r == WsReaction::Report(WsUpdateMessage::Payload(t))
                    && final(self).connection_test_start == old(self).connection_test_start,
                WsIncoming::Pong => if old(self).connection_test_start is Some {
                    r == WsReaction::Report(WsUpdateMessage::IsConnectionOk(true))
                        && final(self).connection_test_start is None
                } else {
                    r is Nothing && final(self).connection_test_start is None
                },
                WsIncoming::Close => r == WsReaction::ReportAndStop(
                    WsUpdateMessage::Status(WsStatus::ServerClosedConnection),
                ) && final(self).connection_test_start == old(self).connection_test_start,
                WsIncoming::ReadError(e) => r == WsReaction::ReportAndStop(
                    WsUpdateMessage::Status(WsStatus::MessageReadError(e)),
                ) && final(self).connection_test_start == old(self).connection_test_start,
                _ => r is Nothing && final(self).connection_test_start
                    == old(self).connection_test_start,
            },
    {
        match incoming {
            WsIncoming::Text(t) => WsReaction::Report(WsUpdateMessage::Payload(t)),
            WsIncoming::Pong => {
                if self.connection_test_start.is_some() {
                    self.connection_test_start = None;
                    WsReaction::Report(WsUpdateMessage::IsConnectionOk(true))
                } else {
                    WsReaction::Nothing
                }
            },
            WsIncoming::Close => WsReaction::ReportAndStop(
                WsUpdateMessage::Status(WsStatus::ServerClosedConnection),
            ),
            WsIncoming::ReadError(e) => WsReaction::ReportAndStop(
                WsUpdateMessage::Status(WsStatus::MessageReadError(e)),
            ),
            _ => WsReaction::Nothing,
        }
    }

    /// Reaction to the once-a-second tick: a connection test that has waited longer than
    /// [`TEST_CONNECTION_MILLIS`] without a pong has failed. The test stays marked as running,
    /// so the failure is reported on every tick until a pong arrives.
    pub fn on_tick(&self, now_millis: u64) -> (r: WsReaction)
        ensures
            match self.connection_test_start {
                Some(start) => if start <= now_millis && now_millis - start
                    > TEST_CONNECTION_MILLIS {
                    r == WsReaction::Report(WsUpdateMessage::IsConnectionOk(false))
                } else {
                    r is Nothing
                },
                None => r is Nothing,
            },
    {
        match self.connection_test_start {
            Some(start) => {
                if start <= now_millis && now_millis - start > TEST_CONNECTION_MILLIS {
                    WsReaction::Report(WsUpdateMessage::IsConnectionOk(false))
                } else {
                    WsReaction::Nothing
                }
            },
            None => WsReaction::Nothing,
        }
    }
}

/// The connect error message for an I/O failure with display text `io_error`: a host that is
/// down gets its own short message.
pub open spec fn spec_io_connect_error(io_error: Seq<char>) -> Seq<char> {
    if contains_seq(io_error, "Host is down"@) {
        "Failed to connect to TV: Host is down"@
    } else {
        "Failed to connect to TV: "@ + io_error
    }
}

/// The connect error message for an I/O failure while connecting.
pub fn io_connect_error(io_error: &str) -> (r: String)
    ensures
        r@ == spec_io_connect_error(io_error@),
{
    if crate::text::contains_str(io_error, "Host is down") {
        String::from_str("Failed to connect to TV: Host is down")
    } else {
        let mut msg = String::from_str("Failed to connect to TV: ");
        msg.append(io_error);
        msg
    }
}

} // verus!
