//! A connection to a peer, as a lightweight copyable handle to an
//! engine-owned connection object, together with the decisions this layer
//! makes over what the engine reports for it: readiness and disconnection
//! classification, role classification, error derivation, the
//! packet-preparation outcome, stream-identifier allocation, and the
//! keep-alive interval handed to the engine.
//!
//! The engine alone creates, mutates and destroys the underlying object; the
//! unverified driver samples it (state code, role flag, raw error codes,
//! bytes written into a packet buffer) and hands the samples to the methods
//! here, which say exactly what each sample means.

use crate::address::SocketAddress;
use crate::error::{classify, connection_error_spec, ErrorKind};
use crate::stream;
use crate::stream::stream_id_spec;
use vstd::prelude::*;

verus! {

/// Role of an endpoint on a connection: `Outgoing` when the connection was
/// created locally as a client initiator, `Incoming` when it was accepted as
/// a server responder.
#[derive(Clone, Copy, Debug, PartialEq, Eq, Structural)]
pub enum ConnectionType {
    Outgoing,
    Incoming,
}

/// The code the engine's connection-state enumeration assigns to the
/// "client ready" state: the handshake has completed on a client connection.
pub const STATE_CLIENT_READY: u32 = 10;

/// The code the engine's connection-state enumeration assigns to the
/// "server ready" state: the handshake has completed on a server connection.
pub const STATE_SERVER_READY: u32 = 12;

/// The code the engine's connection-state enumeration assigns to the
/// terminal "disconnected" state.
pub const STATE_DISCONNECTED: u32 = 17;

/// A sampled state code means "ready" exactly when it is one of the two
/// symmetric post-handshake states, distinguished only by role.
pub open spec fn is_ready_state(state: u32) -> bool {
    state == STATE_CLIENT_READY || state == STATE_SERVER_READY
}

/// A sampled state code means "disconnected" exactly when it is the terminal
/// state.
pub open spec fn is_disconnected_state(state: u32) -> bool {
    state == STATE_DISCONNECTED
}

/// No sampled state is both ready and disconnected.
pub proof fn lemma_ready_disconnected_exclusive(state: u32)
    ensures
        !(is_ready_state(state) && is_disconnected_state(state)),
{
}

/// The packet-preparation outcome derived from the engine's answer
/// `prepared` (the number of bytes it wrote into the caller's buffer, or its
/// failure): the packet's length when data is present, the normal "nothing
/// to send right now" outcome when the buffer stayed empty, and the engine's
/// failure unchanged.
pub open spec fn packet_outcome_spec(prepared: Result<usize, ErrorKind>) -> Result<
    Option<usize>,
    ErrorKind,
> {
    match prepared {
        Ok(len) => if len > 0 {
            Ok(Some(len))
        } else {
            Ok(None)
        },
        Err(e) => Err(e),
    }
}

/// A lightweight, copyable, non-owning reference to an engine-owned
/// connection object, as the raw numeric value of the engine's reference;
/// 0 stands for "no object". The engine alone owns the object: the caller
/// must delete it exactly once and never use a handle after deletion.
#[derive(Clone, Copy, Debug, PartialEq, Eq, Structural)]
pub struct Connection {
    pub cnx: u64,
}

impl Connection {
    /// A handle is attached exactly when it names an engine object.
    pub open spec fn is_attached(&self) -> bool {
        self.cnx != 0
    }

    /// The outcome of creating a new client-role connection: `raw` is the
    /// engine's answer to the creation request (0 when allocation failed).
    /// The destination must not be the unspecified address — such a
    /// connection could never function, so asking for one is a programming
    /// error the caller fails fast on, not a recoverable outcome.
    pub fn new(raw: u64, server_addr: &SocketAddress) -> (created: Result<Connection, ErrorKind>)
        requires
            !server_addr.is_unspecified_spec(),
        ensures
            raw == 0 ==> created == Err::<Connection, ErrorKind>(ErrorKind::Unknown),
            raw != 0 ==> created == Ok::<Connection, ErrorKind>(Connection { cnx: raw }),
    {
        if raw == 0 {
            Err(ErrorKind::Unknown)
        } else {
            Ok(Connection { cnx: raw })
        }
    }

    /// Wraps a reference the engine handed out, such as one observed while
    /// walking the engine's connection list.
    pub fn from_handle(raw: u64) -> (con: Connection)
        requires
            raw != 0,
        ensures
            con == (Connection { cnx: raw }),
            con.is_attached(),
    {
        Connection { cnx: raw }
    }

    /// The raw engine reference this handle wraps.
    pub fn as_raw(&self) -> (raw: u64)
        ensures
            raw == self.cnx,
    {
        self.cnx
    }

    /// Whether the engine's sampled state code for this connection is the
    /// terminal "disconnected" state.
    pub fn is_disconnected(&self, state: u32) -> (disconnected: bool)
        ensures
            disconnected == is_disconnected_state(state),
    {
        state == STATE_DISCONNECTED
    }

    /// Whether the engine's sampled state code for this connection means the
    /// handshake has completed and the connection is usable for application
    /// data — "client ready" or "server ready", distinguished only by role.
    /// Every intermediate state reports neither ready nor disconnected.
    pub fn is_ready(&self, state: u32) -> (ready: bool)
        ensures
            ready == is_ready_state(state),
    {
        state == STATE_CLIENT_READY || state == STATE_SERVER_READY
    }

    /// The role of this connection, from the engine's client flag: 1 means
    /// the connection was initiated locally.
    pub fn con_type(&self, client_flag: i32) -> (role: ConnectionType)
        ensures
            role == (if client_flag == 1 {
                ConnectionType::Outgoing
            } else {
                ConnectionType::Incoming
            }),
    {
        if client_flag == 1 {
            ConnectionType::Outgoing
        } else {
            ConnectionType::Incoming
        }
    }

    /// The error condition of this connection, derived from the raw local
    /// and remote error codes the engine reports: no error while both are 0;
    /// otherwise the classification of the local code when it is non-zero,
    /// preferring it over the remote one, else of the remote code.
    pub fn error(&self, local_code: u64, remote_code: u64) -> (err: Option<ErrorKind>)
        ensures
            err == connection_error_spec(local_code, remote_code),
    {
        if local_code != 0 {
            Some(classify(local_code))
        } else if remote_code != 0 {
            Some(classify(remote_code))
        } else {
            None
        }
    }

    /// The outcome of one packet-preparation tick: `prepared` is the
    /// engine's answer to filling the caller's buffer with the next pending
    /// outbound unit — the number of bytes it wrote, or its failure. A
    /// written packet yields its length; an empty one yields the normal
    /// "nothing to send right now" outcome, which is not an error; an engine
    /// failure is surfaced unchanged.
    pub fn create_and_prepare_packet(&self, prepared: Result<usize, ErrorKind>) -> (outcome: Result<
        Option<usize>,
        ErrorKind,
    >)
        ensures
            outcome == packet_outcome_spec(prepared),
    {
        match prepared {
            Ok(len) => {
                if len > 0 {
                    Ok(Some(len))
                } else {
                    Ok(None)
                }
            },
            Err(e) => Err(e),
        }
    }

    /// The keep-alive interval handed to the engine, in microseconds, from a
    /// duration given as whole seconds and a sub-second nanosecond part; a
    /// zero interval disables keep-alive.
    pub fn enable_keep_alive(&self, interval_secs: u64, interval_subsec_nanos: u32) -> (micros:
        u64)
        requires
            interval_secs * 1_000_000 + interval_subsec_nanos / 1_000 <= u64::MAX,
        ensures
            micros == interval_secs * 1_000_000 + interval_subsec_nanos / 1_000,
    {
        interval_secs * 1_000_000 + (interval_subsec_nanos / 1_000) as u64
    }

    /// Allocates the stream identifier for counter `next_id`, for a stream
    /// of directionality `stype` opened by this endpoint in role
    /// `is_client`. The caller owns the counter and increments it by one
    /// after each successful allocation for this (role, directionality)
    /// combination. Identifiers 0 to 3 are reserved and never produced.
    pub fn generate_stream_id(next_id: u64, is_client: bool, stype: stream::Type) -> (id:
        stream::Id)
        requires
            next_id <= stream::MAX_STREAM_COUNTER,
        ensures
            id == stream_id_spec(next_id, is_client, stype),
            id >= 4,
    {
        let mut id: u64 = next_id + 1;
        id = id * 4;
        if !is_client {
            id = id + 1;
        }
        if let stream::Type::Unidirectional = stype {
            id = id + 2;
        }
        id
    }
}

} // verus!
