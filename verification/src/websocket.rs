//! Event streaming over WebSocket: where to connect, and what to do with each frame.

use vstd::prelude::*;

use crate::client::{CapturedStackTrace, MemorySnapshot};
use crate::text::{cat2, cat3, decimal, num};

verus! {

/// An event as the server sends it.
#[derive(Debug, Clone)]
pub struct EventMessage {
    pub metric_id: i64,
    pub metric_name: String,
    pub timestamp: i64,
    pub value_json: String,
    pub stack_trace: Option<CapturedStackTrace>,
    pub memory_snapshot: Option<MemorySnapshot>,
}

/// The address of a streaming endpoint.
#[derive(Debug)]
pub struct WebSocketClient {
    pub url: String,
}

impl WebSocketClient {
    /// The endpoint of a daemon on a port of this machine.
    pub fn new(http_port: u16) -> (r: Self)
        ensures
            r.url@ == "ws://127.0.0.1:"@ + decimal(http_port as nat) + "/ws"@,
    {
        WebSocketClient { url: cat3("ws://127.0.0.1:", num(http_port as u64).as_str(), "/ws") }
    }

    /// An endpoint at a given address.
    pub fn with_url(url: String) -> (r: Self)
        ensures
            r.url == url,
    {
        WebSocketClient { url }
    }
}

/// The error of a stream.
#[derive(Debug)]
pub struct WebSocketError {
    pub message: String,
}

impl WebSocketError {
    /// An error with a message.
    pub fn new(message: String) -> (r: Self)
        ensures
            r.message == message,
    {
        WebSocketError { message }
    }

    /// The text that the error is displayed as: its message.
    pub fn to_text(&self) -> (r: String)
        ensures
            r@ == self.message@,
    {
        self.message.clone()
    }
}

/// The error of a connection that could not be made: it took too long, or it was refused with
/// the given reason.
pub fn connection_error(reason: Option<&str>) -> (r: WebSocketError)
    ensures
        r.message@ == (match reason {
            Some(e) => "Connection failed: "@ + e@,
            None => "Connection timeout"@,
        }),
{
    match reason {
        Some(e) => WebSocketError::new(cat2("Connection failed: ", e)),
        None => WebSocketError::new("Connection timeout".to_owned()),
    }
}

/// What came from the stream within one wait.
#[derive(Debug)]
pub enum Frame {
    /// A text, and the event that it holds if it holds one.
    Text { event: Option<EventMessage> },
    /// The server closes the stream.
    Close,
    /// Something that does not concern events.
    Other,
    /// Reading failed.
    Error { message: String },
    /// The stream has ended.
    End,
    /// Nothing came.
    Timeout,
}

/// How receiving goes on.
#[derive(Debug)]
pub enum Flow {
    Continue,
    Stop,
    Fail { error: WebSocketError },
}

/// A stretch of receiving: the events so far, and how many are wanted at most.
#[derive(Debug)]
pub struct Receiving {
    pub events: Vec<EventMessage>,
    pub max_events: usize,
}

impl Receiving {
    /// Nothing was received yet.
    pub fn new(max_events: Option<usize>) -> (r: Self)
        ensures
            r.events@.len() == 0,
            r.max_events == (match max_events {
                Some(n) => n,
                None => usize::MAX,
            }),
    {
        Receiving {
            events: Vec::new(),
            max_events: match max_events {
                Some(n) => n,
                None => usize::MAX,
            },
        }
    }

    /// Whether to wait for another frame: the time is not up, and more events are wanted.
    pub fn wants_more(&self, time_is_up: bool) -> (r: bool)
        ensures
            r == (!time_is_up && self.events@.len() < self.max_events),
    {
        !time_is_up && self.events.len() < self.max_events
    }

    /// Takes a frame: an event is kept, an end of the stream ends receiving, a failure fails it,
    /// and everything else is passed over.
    pub fn take(&mut self, frame: Frame) -> (r: Flow)
        ensures
            final(self).max_events == old(self).max_events,
            final(self).events@ == (match frame {
                Frame::Text { event: Some(e) } => old(self).events@.push(e),
                _ => old(self).events@,
            }),
            match frame {
                Frame::Text { .. } | Frame::Other | Frame::Timeout => r is Continue,
                Frame::Close | Frame::End => r is Stop,
                Frame::Error { message } => r matches Flow::Fail { error } && error.message@
                    == "Read error: "@ + message@,
            },
    {
        match frame {
            Frame::Text { event } => {
                match event {
                    Some(e) => self.events.push(e),
                    None => {},
                }
                Flow::Continue
            },
            Frame::Close => Flow::Stop,
            Frame::End => Flow::Stop,
            Frame::Other => Flow::Continue,
            Frame::Timeout => Flow::Continue,
            Frame::Error { message } => Flow::Fail {
                error: WebSocketError::new(cat2("Read error: ", message.as_str())),
            },
        }
    }
}

/// As long as frames are taken only while more events are wanted, there are never more events
/// than that.
pub proof fn law_receiving_is_bounded(before: Receiving, after: Receiving)
    requires
        before.events@.len() < before.max_events,
        after.max_events == before.max_events,
        after.events@ == before.events@ || (exists|e: EventMessage|
            after.events@ == before.events@.push(e)),
    ensures
        after.events@.len() <= after.max_events,
{
}

/// Whether forwarding a stream to a receiver ends with this frame: on an event only if the
/// receiver is gone, and on every end of the stream or failure.
pub fn forwarding_ends(frame: &Frame, receiver_gone: bool) -> (r: bool)
    ensures
        r == (match *frame {
            Frame::Text { event } => event is Some && receiver_gone,
            Frame::Close | Frame::End | Frame::Error { .. } => true,
            Frame::Other | Frame::Timeout => false,
        }),
{
    match frame {
        Frame::Text { event } => event.is_some() && receiver_gone,
        Frame::Close => true,
        Frame::End => true,
        Frame::Error { .. } => true,
        Frame::Other => false,
        Frame::Timeout => false,
    }
}

} // verus!
