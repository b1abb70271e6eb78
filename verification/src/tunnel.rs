//! The tunnel pump: bytes read from the local TCP service go to the relay as
//! binary WebSocket frames, binary frames from the relay are written to the
//! TCP service, and the pump stops when either side closes. The caller owns
//! both sockets; it feeds each thing that happens to `Pump::on_event` and
//! performs the returned action.

use vstd::prelude::*;
use crate::message::AgentMessage;

verus! {

/// Size of the buffer the caller reads TCP data into.
pub const BUF_SIZE: usize = 4096;

/// Something the pump observed.
#[derive(Debug, PartialEq, Eq)]
pub enum PumpEvent {
    /// Bytes read from the TCP service; empty when the service closed the connection.
    TcpRead(Vec<u8>),
    /// Reading from the TCP service failed.
    TcpError,
    /// A binary frame from the relay.
    RelayBinary(Vec<u8>),
    /// A text frame from the relay; `None` where it is not a message the agent knows.
    RelayText(Option<AgentMessage>),
    /// The relay sent a close frame, or the stream ended.
    RelayClosed,
    /// The WebSocket stream reported an error.
    RelayError,
    /// Any other frame (ping, pong, raw frame).
    RelayOther,
}

/// What the caller does next.
#[derive(Debug, PartialEq, Eq)]
pub enum PumpAction {
    /// Send these bytes to the relay as one binary frame.
    SendToRelay(Vec<u8>),
    /// Write these bytes to the TCP service.
    WriteToTcp(Vec<u8>),
    /// Tell the relay that the tunnel is closing (a `TunnelClose` message); the tunnel is then over.
    NotifyClose,
    /// The tunnel is over without error.
    Finish,
    /// The tunnel is over with the error that was observed.
    Fail,
    /// Nothing to do.
    Wait,
}

/// The pump's reaction to `event`: whether the tunnel is still open
/// afterwards, and the action. A closed pump ignores everything.
pub open spec fn pump_reaction(open: bool, event: PumpEvent) -> (bool, PumpAction) {
    if !open {
        (false, PumpAction::Wait)
    } else {
        match event {
            PumpEvent::TcpRead(data) => if data@.len() == 0 {
                (false, PumpAction::NotifyClose)
            } else {
                (true, PumpAction::SendToRelay(data))
            },
            PumpEvent::TcpError => (false, PumpAction::Fail),
            PumpEvent::RelayBinary(data) => (true, PumpAction::WriteToTcp(data)),
            PumpEvent::RelayText(Some(AgentMessage::TunnelClose)) => (false, PumpAction::Finish),
            PumpEvent::RelayText(_) => (true, PumpAction::Wait),
            PumpEvent::RelayClosed => (false, PumpAction::Finish),
            PumpEvent::RelayError => (false, PumpAction::Fail),
            PumpEvent::RelayOther => (true, PumpAction::Wait),
        }
    }
}

/// The state of one tunnel.
#[derive(Debug)]
pub struct Pump {
    open: bool,
}

impl Pump {
    /// Whether the tunnel still forwards traffic.
    pub closed spec fn is_open(self) -> bool {
        self.open
    }

    /// A freshly opened tunnel.
    pub fn new() -> (p: Pump)
        ensures
            p.is_open(),
    {
        Pump { open: true }
    }

    /// Whether the tunnel still forwards traffic.
    pub fn open(&self) -> (b: bool)
        ensures
            b == self.is_open(),
    {
        self.open
    }

    /// Decides what to do about `event`.
    pub fn on_event(&mut self, event: PumpEvent) -> (a: PumpAction)
        ensures
            (final(self).is_open(), a) == pump_reaction(old(self).is_open(), event),
            !old(self).is_open() ==> !final(self).is_open() && a is Wait,
            old(self).is_open() ==> match event {
                PumpEvent::TcpRead(data) => if data@.len() == 0 {
                    !final(self).is_open() && a is NotifyClose
                } else {
                    final(self).is_open() && a == PumpAction::SendToRelay(data)
                },
                PumpEvent::TcpError => !final(self).is_open() && a is Fail,
                PumpEvent::RelayBinary(data) => final(self).is_open() && a == PumpAction::WriteToTcp(data),
                PumpEvent::RelayText(Some(AgentMessage::TunnelClose)) => !final(self).is_open() && a is Finish,
                PumpEvent::RelayText(_) => final(self).is_open() && a is Wait,
                PumpEvent::RelayClosed => !final(self).is_open() && a is Finish,
                PumpEvent::RelayError => !final(self).is_open() && a is Fail,
                PumpEvent::RelayOther => final(self).is_open() && a is Wait,
            },
    {
        if !self.open {
            return PumpAction::Wait;
        }
        match event {
            PumpEvent::TcpRead(data) => {
                if data.len() == 0 {
                    self.open = false;
                    PumpAction::NotifyClose
                } else {
                    PumpAction::SendToRelay(data)
                }
            },
            PumpEvent::TcpError => {
                self.open = false;
                PumpAction::Fail
            },
            PumpEvent::RelayBinary(data) => PumpAction::WriteToTcp(data),
            PumpEvent::RelayText(Some(AgentMessage::TunnelClose)) => {
                self.open = false;
                PumpAction::Finish
            },
            PumpEvent::RelayText(_) => PumpAction::Wait,
            PumpEvent::RelayClosed => {
                self.open = false;
                PumpAction::Finish
            },
            PumpEvent::RelayError => {
                self.open = false;
                PumpAction::Fail
            },
            PumpEvent::RelayOther => PumpAction::Wait,
        }
    }
}

/// The events that end a tunnel, written out: the relay closing the stream,
/// a stream error, a TCP read error, the TCP service closing (an empty read),
/// and a `TunnelClose` message from the relay.
pub open spec fn is_closing_event(event: PumpEvent) -> bool {
    ||| event is RelayClosed
    ||| event is RelayError
    ||| event is TcpError
    ||| (event matches PumpEvent::TcpRead(d) && d@.len() == 0)
    ||| (event matches PumpEvent::RelayText(Some(m)) && m is TunnelClose)
}

/// A tunnel ends exactly on a closing event; once it has ended it forwards
/// nothing, whatever happens next.
pub proof fn lemma_tunnel_ends_on_close(event: PumpEvent, later: Seq<PumpEvent>)
    ensures
        is_closing_event(event) ==> !pump_reaction(true, event).0,
        !is_closing_event(event) ==> pump_reaction(true, event).0,
        event is RelayClosed ==> pump_reaction(true, event) == (false, PumpAction::Finish),
        is_closing_event(event) ==> sent_to_relay(pump_session(true, seq![event] + later))
            == tcp_bytes(seq![event]),
        is_closing_event(event) ==> written_to_tcp(pump_session(true, seq![event] + later))
            == Seq::<u8>::empty(),
        forall|i: int| 0 <= i < later.len() ==> #[trigger] pump_session(false, later)[i] is Wait,
{
    lemma_closed_pump_waits(later);
    let evs = seq![event] + later;
    assert(evs[0] == event);
    assert(evs.drop_first() =~= later);
    if is_closing_event(event) {
        lemma_forwarding_faithful(evs);
        assert(live_pump_events(evs) =~= seq![event]);
        let l = seq![event];
        assert(l.drop_first() =~= Seq::<PumpEvent>::empty());
        assert(tcp_bytes(l.drop_first()) == Seq::<u8>::empty());
        assert(relay_bytes(l.drop_first()) == Seq::<u8>::empty());
        assert(relay_bytes(l) == Seq::<u8>::empty());
    }
}

/// A closed pump answers every event with `Wait`.
proof fn lemma_closed_pump_waits(events: Seq<PumpEvent>)
    ensures
        pump_session(false, events).len() == events.len(),
        forall|i: int| 0 <= i < events.len() ==> #[trigger] pump_session(false, events)[i] is Wait,
    decreases events.len(),
{
    if events.len() > 0 {
        lemma_closed_pump_waits(events.drop_first());
        let s = pump_session(false, events);
        let rest = pump_session(false, events.drop_first());
        assert(s == seq![PumpAction::Wait] + rest);
        assert forall|i: int| 0 <= i < events.len() implies #[trigger] s[i] is Wait by {
            if i > 0 {
                assert(s[i] == rest[i - 1]);
            }
        }
    }
}

/// The actions a pump takes for a run of events, starting open or closed.
pub open spec fn pump_session(open: bool, events: Seq<PumpEvent>) -> Seq<PumpAction>
    decreases events.len(),
{
    if events.len() == 0 {
        seq![]
    } else {
        let (next, action) = pump_reaction(open, events[0]);
        seq![action] + pump_session(next, events.drop_first())
    }
}

/// Whether `event` ends an open tunnel.
pub open spec fn closes_tunnel(event: PumpEvent) -> bool {
    !pump_reaction(true, event).0
}

/// The events up to and including the first one that ends the tunnel.
pub open spec fn live_pump_events(events: Seq<PumpEvent>) -> Seq<PumpEvent>
    decreases events.len(),
{
    if events.len() == 0 {
        seq![]
    } else if closes_tunnel(events[0]) {
        seq![events[0]]
    } else {
        seq![events[0]] + live_pump_events(events.drop_first())
    }
}

/// All bytes read from the TCP service, in order.
pub open spec fn tcp_bytes(events: Seq<PumpEvent>) -> Seq<u8>
    decreases events.len(),
{
    if events.len() == 0 {
        seq![]
    } else {
        (match events[0] {
            PumpEvent::TcpRead(data) => data@,
            _ => seq![],
        }) + tcp_bytes(events.drop_first())
    }
}

/// All bytes received from the relay in binary frames, in order.
pub open spec fn relay_bytes(events: Seq<PumpEvent>) -> Seq<u8>
    decreases events.len(),
{
    if events.len() == 0 {
        seq![]
    } else {
        (match events[0] {
            PumpEvent::RelayBinary(data) => data@,
            _ => seq![],
        }) + relay_bytes(events.drop_first())
    }
}

/// All bytes the actions send to the relay, in order.
pub open spec fn sent_to_relay(actions: Seq<PumpAction>) -> Seq<u8>
    decreases actions.len(),
{
    if actions.len() == 0 {
        seq![]
    } else {
        (match actions[0] {
            PumpAction::SendToRelay(data) => data@,
            _ => seq![],
        }) + sent_to_relay(actions.drop_first())
    }
}

/// All bytes the actions write to the TCP service, in order.
pub open spec fn written_to_tcp(actions: Seq<PumpAction>) -> Seq<u8>
    decreases actions.len(),
{
    if actions.len() == 0 {
        seq![]
    } else {
        (match actions[0] {
            PumpAction::WriteToTcp(data) => data@,
            _ => seq![],
        }) + written_to_tcp(actions.drop_first())
    }
}

/// A closed pump forwards nothing.
proof fn lemma_closed_pump_silent(events: Seq<PumpEvent>)
    ensures
        sent_to_relay(pump_session(false, events)) == Seq::<u8>::empty(),
        written_to_tcp(pump_session(false, events)) == Seq::<u8>::empty(),
    decreases events.len(),
{
    if events.len() > 0 {
        lemma_closed_pump_silent(events.drop_first());
        let s = pump_session(false, events);
        assert(s.drop_first() == pump_session(false, events.drop_first()));
        assert(s[0] is Wait);
    }
}

/// Forwarding is faithful in both directions: an open tunnel sends the relay
/// exactly the bytes it read from the TCP service, and writes to the TCP
/// service exactly the bytes the relay sent, in order, up to the event that
/// closes it; nothing is forwarded after that.
pub proof fn lemma_forwarding_faithful(events: Seq<PumpEvent>)
    ensures
        sent_to_relay(pump_session(true, events)) == tcp_bytes(live_pump_events(events)),
        written_to_tcp(pump_session(true, events)) == relay_bytes(live_pump_events(events)),
    decreases events.len(),
{
    if events.len() > 0 {
        let s = pump_session(true, events);
        let (next, action) = pump_reaction(true, events[0]);
        let l = live_pump_events(events);
        assert(s[0] == action);
        assert(s.drop_first() == pump_session(next, events.drop_first()));
        assert(l[0] == events[0]);
        if closes_tunnel(events[0]) {
            lemma_closed_pump_silent(events.drop_first());
            assert(l.drop_first().len() == 0);
            assert(tcp_bytes(l.drop_first()) == Seq::<u8>::empty());
            assert(relay_bytes(l.drop_first()) == Seq::<u8>::empty());
        } else {
            lemma_forwarding_faithful(events.drop_first());
            assert(l.drop_first() == live_pump_events(events.drop_first()));
        }
    }
}

} // verus!
