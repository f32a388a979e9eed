//! Reliable messages between clients and the server, and where each
//! server message goes.
//!
//! The server's own player (the listen server) has no connection: messages
//! for it are handed over locally instead of being sent.

use vstd::prelude::*;
use super::SERVER_ID;

verus! {

/// A message from a client.
#[derive(Clone, Debug, PartialEq, Eq)]
pub enum ClientMessage {
    ChatMessage(String),
}

/// A message from the server.
#[derive(Clone, Debug, PartialEq, Eq)]
pub enum ServerMessage {
    ChatMessage { sender_id: u64, message: String },
}

/// A client message as received by the server, with its sender.
#[derive(Clone, Debug, PartialEq, Eq)]
pub struct MessageReceived {
    pub client_id: u64,
    pub message: ClientMessage,
}

/// Who a server message is for.
#[derive(Clone, Copy, Debug, PartialEq, Eq, Structural)]
pub enum SendKind {
    /// Every client.
    Broadcast,
    /// Every client but the given one.
    BroadcastExcept(u64),
    /// Only the given client.
    Direct(u64),
}

/// A server message to send, with its recipients.
#[derive(Clone, Debug, PartialEq, Eq)]
pub struct MessageSent {
    pub kind: SendKind,
    pub message: ServerMessage,
}

/// Whether the client `client` is a recipient of a message sent as `kind`.
pub open spec fn is_recipient(kind: SendKind, client: u64) -> bool {
    match kind {
        SendKind::Broadcast => true,
        SendKind::BroadcastExcept(except) => client != except,
        SendKind::Direct(to) => client == to,
    }
}

/// What the server's transport does with a message.
#[derive(Clone, Copy, Debug, PartialEq, Eq, Structural)]
pub enum Delivery {
    /// Send to every connected client.
    All,
    /// Send to every connected client but the given one.
    AllExcept(u64),
    /// Send to the given client only.
    One(u64),
    /// Send nothing.
    Nowhere,
}

/// Whether the transport delivers to the connected client `client`.
pub open spec fn delivers_to(delivery: Delivery, client: u64) -> bool {
    match delivery {
        Delivery::All => true,
        Delivery::AllExcept(except) => client != except,
        Delivery::One(to) => client == to,
        Delivery::Nowhere => false,
    }
}

/// How a server message reaches its recipients: through the transport, and
/// locally to the server's own player.
#[derive(Clone, Copy, Debug, PartialEq, Eq, Structural)]
pub struct Route {
    pub delivery: Delivery,
    pub local: bool,
}

/// The route of a message sent as `kind`.
///
/// A broadcast goes to every connection and to the server's own player. A
/// broadcast that leaves out the server goes to every connection only; one
/// that leaves out a client goes to every other connection and to the
/// server's own player. A direct message to the server stays local; one to a
/// client goes to that connection only.
pub open spec fn route_spec(kind: SendKind) -> Route {
    match kind {
        SendKind::Broadcast => Route { delivery: Delivery::All, local: true },
        SendKind::BroadcastExcept(except) => if except == SERVER_ID {
            Route { delivery: Delivery::All, local: false }
        } else {
            Route { delivery: Delivery::AllExcept(except), local: true }
        },
        SendKind::Direct(to) => if to == SERVER_ID {
            Route { delivery: Delivery::Nowhere, local: true }
        } else {
            Route { delivery: Delivery::One(to), local: false }
        },
    }
}

/// Routes a message sent as `kind` (see [`route_spec`]).
pub fn route(kind: SendKind) -> (r: Route)
    ensures
        r == route_spec(kind),
        r.local == is_recipient(kind, SERVER_ID),
        forall|client: u64| client != SERVER_ID ==> delivers_to(r.delivery, client) == is_recipient(kind, client),
{
    match kind {
        SendKind::Broadcast => Route { delivery: Delivery::All, local: true },
        SendKind::BroadcastExcept(except) => {
            if except == SERVER_ID {
                Route { delivery: Delivery::All, local: false }
            } else {
                Route { delivery: Delivery::AllExcept(except), local: true }
            }
        },
        SendKind::Direct(to) => {
            if to == SERVER_ID {
                Route { delivery: Delivery::Nowhere, local: true }
            } else {
                Route { delivery: Delivery::One(to), local: false }
            }
        },
    }
}

/// A message from the server's own player, received as if from the client
/// [`SERVER_ID`].
pub fn receive_local(message: ClientMessage) -> (received: MessageReceived)
    ensures
        received == (MessageReceived { client_id: SERVER_ID, message }),
{
    MessageReceived { client_id: SERVER_ID, message }
}

/// Relays a chat message received from a client: to everyone but its
/// sender, with the sender's id.
pub fn relay_chat(received: &MessageReceived) -> (sent: MessageSent)
    ensures
        sent.kind == SendKind::BroadcastExcept(received.client_id),
        match (received.message, sent.message) {
            (ClientMessage::ChatMessage(text), ServerMessage::ChatMessage { sender_id, message }) => {
                sender_id == received.client_id && message@ == text@
            },
        },
{
    match &received.message {
        ClientMessage::ChatMessage(text) => MessageSent {
            kind: SendKind::BroadcastExcept(received.client_id),
            message: ServerMessage::ChatMessage { sender_id: received.client_id, message: text.clone() },
        },
    }
}

/// Every recipient of a routed message gets it exactly once, either through
/// the transport or locally, and nobody else gets it: the server's own player
/// locally when it is a recipient, every other client through the transport
/// when it is one.
pub proof fn lemma_route_delivers_to_recipients(kind: SendKind, client: u64)
    ensures
        client == SERVER_ID ==> route_spec(kind).local == is_recipient(kind, client),
        client != SERVER_ID ==> delivers_to(route_spec(kind).delivery, client) == is_recipient(kind, client),
{
}

/// A relayed chat message reaches every client but its sender.
pub proof fn lemma_chat_skips_sender(sender: u64, client: u64)
    ensures
        is_recipient(SendKind::BroadcastExcept(sender), client) == (client != sender),
{
}

} // verus!
