//! Decisions of the networking layer: channels, the connection state
//! machine, message routing and replication bookkeeping.

pub mod message;
pub mod replication;

use vstd::prelude::*;

verus! {

/// Port that servers listen on and clients connect to unless told otherwise.
pub const DEFAULT_PORT: u16 = 4761;

/// Largest port number.
pub const MAX_PORT: u16 = 65535;

/// Client id under which the server's own player sends and receives.
pub const SERVER_ID: u64 = 0;

/// Identifies this game's protocol to the transport.
pub const PROTOCOL_ID: u64 = 7;

/// Number of player slots a server offers to the transport.
pub const MAX_CLIENTS: usize = 64;

/// Seconds a connect token stays valid.
pub const CONNECT_TOKEN_EXPIRE_SECS: u64 = 300;

/// Seconds of the connection timeout written into a connect token.
pub const CONNECT_TOKEN_TIMEOUT_SECS: i32 = 15;

/// Transport channels.
#[derive(Clone, Copy, Debug, PartialEq, Eq, Structural)]
pub enum Channel {
    Reliable,
    Unreliable,
}

impl Channel {
    /// The channel's number on the transport.
    pub fn id(&self) -> (id: u8)
        ensures
            id == match self {
                Channel::Reliable => 0u8,
                Channel::Unreliable => 1u8,
            },
    {
        match self {
            Channel::Reliable => 0,
            Channel::Unreliable => 1,
        }
    }
}

/// Whether the game has a socket open, and what kind.
#[derive(Clone, Copy, Debug, PartialEq, Eq, Hash, Structural)]
pub enum NetworkingState {
    NoSocket,
    Connecting,
    Connected,
    Hosting,
}

/// The state that the server side moves to: from having no socket to
/// hosting once a server exists.
pub fn server_transition(state: NetworkingState, server_exists: bool) -> (next: Option<NetworkingState>)
    ensures
        next == if state == NetworkingState::NoSocket && server_exists {
            Some(NetworkingState::Hosting)
        } else {
            None
        },
{
    if state == NetworkingState::NoSocket && server_exists {
        Some(NetworkingState::Hosting)
    } else {
        None
    }
}

/// The state that the client side moves to: from having no socket to
/// connecting once a client was created, and from connecting to connected
/// once the client is connected.
pub fn client_transition(state: NetworkingState, client_added: bool, client_connected: bool) -> (next: Option<NetworkingState>)
    ensures
        next == if state == NetworkingState::NoSocket && client_added {
            Some(NetworkingState::Connecting)
        } else if state == NetworkingState::Connecting && client_connected {
            Some(NetworkingState::Connected)
        } else {
            None
        },
{
    if state == NetworkingState::NoSocket && client_added {
        Some(NetworkingState::Connecting)
    } else if state == NetworkingState::Connecting && client_connected {
        Some(NetworkingState::Connected)
    } else {
        None
    }
}

/// What to do with the socket when leaving a networking state.
#[derive(Clone, Copy, Debug, PartialEq, Eq, Structural)]
pub enum SocketCleanup {
    /// Leave the socket alone.
    Keep,
    /// Disconnect the client and drop it.
    DisconnectClient,
    /// Drop the client that never connected.
    DropClient,
    /// Disconnect every client of the server and drop the server.
    ShutdownServer,
}

/// The cleanup on leaving `state`: a connected client disconnects, a client
/// that is still connecting is dropped unless it got connected, and a hosting
/// server shuts down.
pub fn exit_cleanup(state: NetworkingState, client_connected: bool) -> (cleanup: SocketCleanup)
    ensures
        cleanup == match state {
            NetworkingState::Connected => SocketCleanup::DisconnectClient,
            NetworkingState::Connecting => if client_connected {
                SocketCleanup::Keep
            } else {
                SocketCleanup::DropClient
            },
            NetworkingState::Hosting => SocketCleanup::ShutdownServer,
            NetworkingState::NoSocket => SocketCleanup::Keep,
        },
{
    match state {
        NetworkingState::Connected => SocketCleanup::DisconnectClient,
        NetworkingState::Connecting => if client_connected {
            SocketCleanup::Keep
        } else {
            SocketCleanup::DropClient
        },
        NetworkingState::Hosting => SocketCleanup::ShutdownServer,
        NetworkingState::NoSocket => SocketCleanup::Keep,
    }
}

} // verus!
