use vstd::prelude::*;
use crate::routes::market::{ascii_lowercase, is_ascii_text, lowercase, to_lowercase};
use crate::text::str_eq;

verus! {

/// Something that happens to the connection of one websocket client.
pub enum SocketEvent {
    /// A market update for a symbol arrived on the client's feed.
    Market { symbol: String },
    /// The client's feed was closed.
    FeedClosed,
    /// The client sent a ping with this payload.
    ClientPing(Vec<u8>),
    /// The client answered a ping.
    ClientPong,
    /// The client asked to close the connection.
    ClientClose,
    /// Reading from the client failed.
    ClientError,
    /// The client's stream ended.
    ClientGone,
    /// The client sent text or binary data, which the server ignores.
    ClientOther,
    /// The keep-alive interval passed without anything else happening.
    KeepAliveTick,
}

/// What the handler does on an event.
pub enum SocketAction {
    /// Send the client the latest candle for its symbol.
    SendUpdate,
    /// Answer a ping with a pong that carries the same payload.
    SendPong(Vec<u8>),
    /// Send a keep-alive ping with this payload.
    SendPing(Vec<u8>),
    /// Nothing to send; wait for the next event.
    Wait,
    /// Stop serving the client.
    Disconnect,
}

/// The payload of the keep-alive ping.
pub open spec fn keep_alive_payload() -> Seq<u8> {
    seq![1u8, 2u8, 3u8]
}

/// Whether a market update for `data_symbol` is for a client that follows
/// `client_symbol`: the update's symbol, lowercased, is the client's.
pub fn is_for_client(data_symbol: &str, client_symbol: &str) -> (b: bool)
    ensures
        b == (lowercase(data_symbol@) == client_symbol@),
        is_ascii_text(data_symbol@) ==> (b == (ascii_lowercase(data_symbol@) == client_symbol@)),
{
    let lower = to_lowercase(data_symbol);
    str_eq(lower.as_str(), client_symbol)
}

/// The handler's decision on one event. A market update for the client's
/// symbol is sent on, one for another symbol is skipped; a ping is answered
/// with its payload; a pong or a data frame changes nothing; the keep-alive
/// interval sends a ping; the end of the feed, a close, a read error or the
/// end of the client's stream end the session.
pub fn next_action(event: SocketEvent, client_symbol: &str) -> (a: SocketAction)
    ensures
        match event {
            SocketEvent::Market { symbol } => if lowercase(symbol@) == client_symbol@ {
                a is SendUpdate
            } else {
                a is Wait
            },
            SocketEvent::ClientPing(q) => a matches SocketAction::SendPong(p) && p@ == q@,
            SocketEvent::ClientPong | SocketEvent::ClientOther => a is Wait,
            SocketEvent::KeepAliveTick => a matches SocketAction::SendPing(p) && p@
                == keep_alive_payload(),
            _ => a is Disconnect,
        },
{
    match event {
        SocketEvent::Market { symbol } => if is_for_client(symbol.as_str(), client_symbol) {
            SocketAction::SendUpdate
        } else {
            SocketAction::Wait
        },
        SocketEvent::ClientPing(p) => SocketAction::SendPong(p),
        SocketEvent::ClientPong | SocketEvent::ClientOther => SocketAction::Wait,
        SocketEvent::KeepAliveTick => {
            let mut p: Vec<u8> = Vec::new();
            p.push(1);
            p.push(2);
            p.push(3);
            assert(p@ =~= keep_alive_payload());
            SocketAction::SendPing(p)
        },
        _ => SocketAction::Disconnect,
    }
}

/// Whether the session goes on after the handler tried to send what
/// `action` asked for, and the send succeeded or not: a failed update or
/// keep-alive ping ends it, a failed pong does not.
pub fn continues_after_send(action: &SocketAction, sent: bool) -> (go_on: bool)
    ensures
        go_on == match action {
            SocketAction::SendUpdate | SocketAction::SendPing(_) => sent,
            SocketAction::Disconnect => false,
            _ => true,
        },
{
    match action {
        SocketAction::SendUpdate | SocketAction::SendPing(_) => sent,
        SocketAction::Disconnect => false,
        _ => true,
    }
}

} // verus!
