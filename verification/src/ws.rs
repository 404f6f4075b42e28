use vstd::prelude::*;
use std::ops::ControlFlow;
use crate::models::{BibeMsg, SocketAddress};

verus! {

/// The frame that closed a websocket: its close code and reason.
#[derive(Debug, Clone)]
pub struct CloseFrame {
    pub code: u16,
    pub reason: String,
}

/// A websocket message. `Frame` is a raw frame, which a client's reader can
/// hand over and which never reaches a reading application.
#[derive(Debug, Clone)]
pub enum WsMessage {
    Text(String),
    Binary(Vec<u8>),
    Ping(Vec<u8>),
    Pong(Vec<u8>),
    Close(Option<CloseFrame>),
    Frame,
}

/// Reading from a websocket failed.
#[derive(Debug, PartialEq, Eq, Clone, Copy, Structural)]
pub struct WsTransportError;

/// Whether a connection goes on after `msg`: it stops on a close message
/// and goes on after any other.
pub fn process_message(msg: &WsMessage) -> (r: ControlFlow<(), ()>)
    requires
        !(msg is Frame),
    ensures
        r == (if msg is Close {
            ControlFlow::<(), ()>::Break(())
        } else {
            ControlFlow::<(), ()>::Continue(())
        }),
{
    match msg {
        WsMessage::Close(_) => ControlFlow::Break(()),
        _ => ControlFlow::Continue(()),
    }
}

/// How a connecting client is described: by its user agent, or as an
/// unknown browser when it sent none.
pub fn user_agent_label(user_agent: Option<String>) -> (r: String)
    ensures
        r@ == match user_agent {
            Some(agent) => agent@,
            None => "Unknown browser"@,
        },
{
    match user_agent {
        Some(agent) => agent,
        None => "Unknown browser".to_owned(),
    }
}

/// What the server does with one item read from a client.
#[derive(Debug, PartialEq, Eq, Clone, Copy, Structural)]
pub enum Relay {
    /// Decode the text as a message and broadcast it.
    Broadcast,
    /// Note the item and read on.
    Skip,
    /// Stop reading from this client.
    Stop,
}

/// What the server does with `item`, the next thing read from a client
/// (`None` once the client's stream has ended): text is broadcast, pings,
/// pongs and binary data are skipped, and a close message, a read error or
/// the end of the stream stop the reading.
pub fn relay_decision(item: &Option<Result<WsMessage, WsTransportError>>) -> (r: Relay)
    requires
        item matches Some(Ok(m)) ==> !(m is Frame),
    ensures
        r == match item {
            Some(Ok(WsMessage::Text(_))) => Relay::Broadcast,
            Some(Ok(WsMessage::Close(_))) => Relay::Stop,
            Some(Ok(_)) => Relay::Skip,
            Some(Err(_)) => Relay::Stop,
            None => Relay::Stop,
        },
{
    match item {
        Some(Ok(WsMessage::Text(_))) => Relay::Broadcast,
        Some(Ok(WsMessage::Close(_))) => Relay::Stop,
        Some(Ok(_)) => Relay::Skip,
        Some(Err(_)) => Relay::Stop,
        None => Relay::Stop,
    }
}

/// Whether a client reads on after `item`, the next thing read from the
/// server (`None` once the stream has ended): it stops at the end of the
/// stream, on a read error and on a close message, and reads on otherwise.
pub fn client_read_flow(item: &Option<Result<WsMessage, WsTransportError>>) -> (r: ControlFlow<(), ()>)
    requires
        item matches Some(Ok(m)) ==> !(m is Frame),
    ensures
        r == match item {
            Some(Ok(m)) => if m is Close {
                ControlFlow::<(), ()>::Break(())
            } else {
                ControlFlow::<(), ()>::Continue(())
            },
            _ => ControlFlow::<(), ()>::Break(()),
        },
{
    match item {
        Some(Ok(msg)) => process_message(msg),
        _ => ControlFlow::Break(()),
    }
}

} // verus!
