//! The decisions of a feed's socket loop: what to do on each socket event
//! and ping tick, and when a sent ping's round trip is measured.

use vstd::prelude::*;

use crate::models::Exchange;
use crate::text::{contains, occurs_at};

verus! {

/// Something the socket loop observed.
#[derive(Clone, Debug)]
pub enum WsEvent {
    /// A text message.
    Text(String),
    /// A binary message: its text where it is valid UTF-8.
    Binary(Option<String>),
    /// A ping from the server.
    Ping,
    /// A pong from the server.
    Pong,
    /// The server closed the connection.
    Close,
    /// The socket reported an error.
    Error,
    /// The stream ended.
    End,
    /// Another frame.
    OtherFrame,
    /// The ping interval elapsed.
    PingTick,
    /// Sending our ping failed.
    PingFailed,
}

/// What the socket loop does next.
#[derive(Clone, Copy, Debug, PartialEq, Eq, Structural)]
pub enum WsAction {
    /// Hand the message text to the venue's message handler.
    Handle,
    /// Answer the server's ping with a pong carrying its payload.
    SendPong,
    /// Record the round trip since our ping was sent.
    RecordRtt,
    /// Send our ping (a control frame, or Bybit's `{"op":"ping"}` text) and
    /// note when it was sent.
    SendPing,
    /// Nothing to do.
    Ignore,
    /// A binary message that is not valid UTF-8: report it and go on.
    SkipBinary,
    /// Leave the loop (the connection is over).
    Stop,
}

/// The next action and whether a ping is then awaiting its pong.
pub open spec fn step_spec(venue: Exchange, pending: bool, event: WsEvent) -> (bool, WsAction) {
    match event {
        WsEvent::Text(t) => if venue == Exchange::Bybit && exists|i: int| occurs_at(t@, "\"pong\""@, i) {
            if pending {
                (false, WsAction::RecordRtt)
            } else {
                (pending, WsAction::Ignore)
            }
        } else {
            (pending, WsAction::Handle)
        },
        WsEvent::Binary(b) => if venue == Exchange::Upbit || venue == Exchange::Bithumb {
            match b {
                Some(_) => (pending, WsAction::Handle),
                None => (pending, WsAction::SkipBinary),
            }
        } else {
            (pending, WsAction::Ignore)
        },
        WsEvent::Ping => (pending, WsAction::SendPong),
        WsEvent::Pong => if pending {
            (false, WsAction::RecordRtt)
        } else {
            (pending, WsAction::Ignore)
        },
        WsEvent::Close => (pending, WsAction::Stop),
        WsEvent::Error => (pending, WsAction::Stop),
        WsEvent::End => if venue == Exchange::Binance {
            (pending, WsAction::Ignore)
        } else {
            (pending, WsAction::Stop)
        },
        WsEvent::OtherFrame => (pending, WsAction::Ignore),
        WsEvent::PingTick => (true, WsAction::SendPing),
        WsEvent::PingFailed => (pending, WsAction::Stop),
    }
}

/// The seconds between our pings on a venue's connection.
pub open spec fn ping_interval_spec(venue: Exchange) -> u64 {
    match venue {
        Exchange::Binance => 15,
        Exchange::Bybit => 20,
        Exchange::Upbit => 30,
        Exchange::Bithumb => 30,
    }
}

/// The seconds between our pings on a venue's connection.
pub fn ping_interval_secs(venue: Exchange) -> (r: u64)
    ensures
        r == ping_interval_spec(venue),
{
    match venue {
        Exchange::Binance => 15,
        Exchange::Bybit => 20,
        Exchange::Upbit => 30,
        Exchange::Bithumb => 30,
    }
}

/// The state of a feed's socket loop: whether a ping awaits its pong.
#[derive(Clone, Copy, Debug)]
pub struct Session {
    pub venue: Exchange,
    pub ping_pending: bool,
}

impl Session {
    /// A fresh connection's loop state: no ping outstanding.
    pub fn new(venue: Exchange) -> (r: Session)
        ensures
            r.venue == venue,
            !r.ping_pending,
    {
        Session { venue, ping_pending: false }
    }

    /// Decides what to do on an event and updates the state.
    pub fn on_event(&mut self, event: &WsEvent) -> (r: WsAction)
        ensures
            final(self).venue == old(self).venue,
            (final(self).ping_pending, r) == step_spec(old(self).venue, old(self).ping_pending, *event),
    {
        proof {
            reveal_strlit("\"pong\"");
        }
        match event {
            WsEvent::Text(t) => {
                if self.venue == Exchange::Bybit && contains(t.as_str(), "\"pong\"") {
                    if self.ping_pending {
                        self.ping_pending = false;
                        WsAction::RecordRtt
                    } else {
                        WsAction::Ignore
                    }
                } else {
                    WsAction::Handle
                }
            },
            WsEvent::Binary(b) => {
                if self.venue == Exchange::Upbit || self.venue == Exchange::Bithumb {
                    match b {
                        Some(_) => WsAction::Handle,
                        None => WsAction::SkipBinary,
                    }
                } else {
                    WsAction::Ignore
                }
            },
            WsEvent::Ping => WsAction::SendPong,
            WsEvent::Pong => {
                if self.ping_pending {
                    self.ping_pending = false;
                    WsAction::RecordRtt
                } else {
                    WsAction::Ignore
                }
            },
            WsEvent::Close => WsAction::Stop,
            WsEvent::Error => WsAction::Stop,
            WsEvent::End => {
                if self.venue == Exchange::Binance {
                    WsAction::Ignore
                } else {
                    WsAction::Stop
                }
            },
            WsEvent::OtherFrame => WsAction::Ignore,
            WsEvent::PingTick => {
                self.ping_pending = true;
                WsAction::SendPing
            },
            WsEvent::PingFailed => WsAction::Stop,
        }
    }
}

/// A round trip is recorded only for a ping that was sent and not yet
/// answered, and at most once per ping.
pub proof fn lemma_rtt_once_per_ping(venue: Exchange, pending: bool, event: WsEvent)
    ensures
        step_spec(venue, pending, event).1 == WsAction::RecordRtt ==> pending && !step_spec(venue, pending, event).0,
        step_spec(venue, pending, event).1 == WsAction::SendPing ==> step_spec(venue, pending, event).0,
{
}

} // verus!
