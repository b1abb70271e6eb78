//! The heartbeat session: register, ping the relay on every timer tick, and
//! react to what the relay sends until the connection ends or a tunnel is
//! requested. The caller owns the socket and the timer; it feeds each thing
//! that happens to `Heartbeat::on_event` and performs the returned action.

use vstd::prelude::*;
use crate::config::AgentConfig;
use crate::message::AgentMessage;

verus! {

/// Something the heartbeat loop observed.
#[derive(Debug, PartialEq, Eq)]
pub enum RelayEvent {
    /// The heartbeat timer fired.
    Tick,
    /// A text frame arrived; `None` where it is not a message the agent knows.
    Text(Option<AgentMessage>),
    /// A pong frame arrived.
    Pong,
    /// The relay sent a close frame.
    Close,
    /// Any other frame (binary, ping, raw frame).
    Other,
    /// The WebSocket stream reported an error.
    Error,
    /// The WebSocket stream ended.
    End,
}

/// What the caller does next.
#[derive(Debug, PartialEq, Eq)]
pub enum HeartbeatAction {
    /// Send a ping frame.
    SendPing,
    /// Nothing to do; keep listening.
    Wait,
    /// Hand the connection over to a tunnel to `host:port`.
    OpenTunnel { host: String, port: u16 },
    /// The session is over without error.
    Finish,
    /// The session is over with the stream's error.
    Fail,
}

/// The session's reaction to `event`: whether the session is over afterwards,
/// and the action. A session that is over ignores everything.
pub open spec fn reaction(over: bool, event: RelayEvent) -> (bool, HeartbeatAction) {
    if over {
        (true, HeartbeatAction::Wait)
    } else {
        match event {
            RelayEvent::Tick => (false, HeartbeatAction::SendPing),
            RelayEvent::Text(Some(AgentMessage::TunnelOpen { host, port })) => (
                true,
                HeartbeatAction::OpenTunnel { host, port },
            ),
            RelayEvent::Text(_) => (false, HeartbeatAction::Wait),
            RelayEvent::Pong => (false, HeartbeatAction::Wait),
            RelayEvent::Other => (false, HeartbeatAction::Wait),
            RelayEvent::Close => (true, HeartbeatAction::Finish),
            RelayEvent::End => (true, HeartbeatAction::Finish),
            RelayEvent::Error => (true, HeartbeatAction::Fail),
        }
    }
}

/// The state of one heartbeat session on one connection.
#[derive(Debug)]
pub struct Heartbeat {
    over: bool,
}

impl Heartbeat {
    /// Whether the session has ended.
    pub closed spec fn is_over(self) -> bool {
        self.over
    }

    /// A session that has just registered.
    pub fn new() -> (h: Heartbeat)
        ensures
            !h.is_over(),
    {
        Heartbeat { over: false }
    }

    /// Whether the session has ended.
    pub fn over(&self) -> (b: bool)
        ensures
            b == self.is_over(),
    {
        self.over
    }

    /// Decides what to do about `event`.
    pub fn on_event(&mut self, event: RelayEvent) -> (a: HeartbeatAction)
        ensures
            (final(self).is_over(), a) == reaction(old(self).is_over(), event),
            old(self).is_over() ==> final(self).is_over() && a is Wait,
            !old(self).is_over() ==> match event {
                RelayEvent::Tick => !final(self).is_over() && a is SendPing,
                RelayEvent::Text(Some(AgentMessage::TunnelOpen { host, port })) => final(self).is_over()
                    && a == (HeartbeatAction::OpenTunnel { host, port }),
                RelayEvent::Text(_) => !final(self).is_over() && a is Wait,
                RelayEvent::Pong => !final(self).is_over() && a is Wait,
                RelayEvent::Other => !final(self).is_over() && a is Wait,
                RelayEvent::Close => final(self).is_over() && a is Finish,
                RelayEvent::End => final(self).is_over() && a is Finish,
                RelayEvent::Error => final(self).is_over() && a is Fail,
            },
    {
        if self.over {
            return HeartbeatAction::Wait;
        }
        match event {
            RelayEvent::Tick => HeartbeatAction::SendPing,
            RelayEvent::Text(Some(AgentMessage::TunnelOpen { host, port })) => {
                self.over = true;
                HeartbeatAction::OpenTunnel { host, port }
            },
            RelayEvent::Text(_) => HeartbeatAction::Wait,
            RelayEvent::Pong => HeartbeatAction::Wait,
            RelayEvent::Other => HeartbeatAction::Wait,
            RelayEvent::Close => {
                self.over = true;
                HeartbeatAction::Finish
            },
            RelayEvent::End => {
                self.over = true;
                HeartbeatAction::Finish
            },
            RelayEvent::Error => {
                self.over = true;
                HeartbeatAction::Fail
            },
        }
    }
}

/// The registration a device sends right after connecting: its device id,
/// hostname and token from the configuration, and the operating system it runs
/// on (`platform`).
pub fn register_message(config: &AgentConfig, platform: &str) -> (m: AgentMessage)
    ensures
        m matches AgentMessage::Register { device_id, hostname, platform: p, token } && {
            &&& device_id@ == config.device_id@
            &&& hostname@ == config.hostname@
            &&& p@ == platform@
            &&& token == config.token
        },
{
    AgentMessage::Register {
        device_id: config.device_id.clone(),
        hostname: config.hostname.clone(),
        platform: platform.to_owned(),
        token: config.token.clone(),
    }
}

/// A tunnel request is obeyed to the letter: a running session answers
/// `TunnelOpen { host, port }` by opening a tunnel to exactly that host and
/// that port, and the session ends there.
pub proof fn lemma_tunnel_goes_to_requested_address(host: String, port: u16)
    ensures
        reaction(false, RelayEvent::Text(Some(AgentMessage::TunnelOpen { host, port }))) == (
            true,
            HeartbeatAction::OpenTunnel { host, port },
        ),
{
}

/// A running session pings on a tick and keeps running; a close frame or the
/// end of the stream ends it without error; a stream error ends it with one.
pub proof fn lemma_session_outcomes()
    ensures
        reaction(false, RelayEvent::Tick) == (false, HeartbeatAction::SendPing),
        reaction(false, RelayEvent::Close) == (true, HeartbeatAction::Finish),
        reaction(false, RelayEvent::End) == (true, HeartbeatAction::Finish),
        reaction(false, RelayEvent::Error) == (true, HeartbeatAction::Fail),
        reaction(false, RelayEvent::Pong) == (false, HeartbeatAction::Wait),
        forall|e: RelayEvent| #[trigger] reaction(true, e) == (true, HeartbeatAction::Wait),
{
}

/// The actions a session takes for a run of events, starting in state `over`.
pub open spec fn session(over: bool, events: Seq<RelayEvent>) -> Seq<HeartbeatAction>
    decreases events.len(),
{
    if events.len() == 0 {
        seq![]
    } else {
        let (next, action) = reaction(over, events[0]);
        seq![action] + session(next, events.drop_first())
    }
}

/// Whether `event` ends a running session.
pub open spec fn ends_session(event: RelayEvent) -> bool {
    reaction(false, event).0
}

/// The events up to and including the first one that ends the session.
pub open spec fn live_events(events: Seq<RelayEvent>) -> Seq<RelayEvent>
    decreases events.len(),
{
    if events.len() == 0 {
        seq![]
    } else if ends_session(events[0]) {
        seq![events[0]]
    } else {
        seq![events[0]] + live_events(events.drop_first())
    }
}

/// The number of timer ticks among `events`.
pub open spec fn tick_count(events: Seq<RelayEvent>) -> nat
    decreases events.len(),
{
    if events.len() == 0 {
        0
    } else {
        (if events[0] is Tick { 1nat } else { 0nat }) + tick_count(events.drop_first())
    }
}

/// The number of pings among `actions`.
pub open spec fn ping_count(actions: Seq<HeartbeatAction>) -> nat
    decreases actions.len(),
{
    if actions.len() == 0 {
        0
    } else {
        (if actions[0] is SendPing { 1nat } else { 0nat }) + ping_count(actions.drop_first())
    }
}

/// A session that is over only waits: it answers every event with `Wait`.
pub proof fn lemma_over_session_waits(events: Seq<RelayEvent>)
    ensures
        session(true, events).len() == events.len(),
        forall|i: int| 0 <= i < events.len() ==> #[trigger] session(true, events)[i] is Wait,
    decreases events.len(),
{
    if events.len() > 0 {
        lemma_over_session_waits(events.drop_first());
        let s = session(true, events);
        let rest = session(true, events.drop_first());
        assert(s == seq![HeartbeatAction::Wait] + rest);
        assert forall|i: int| 0 <= i < events.len() implies #[trigger] s[i] is Wait by {
            if i > 0 {
                assert(s[i] == rest[i - 1]);
            }
        }
    }
}

/// A session that is over sends no pings.
proof fn lemma_over_session_no_pings(events: Seq<RelayEvent>)
    ensures
        ping_count(session(true, events)) == 0,
    decreases events.len(),
{
    if events.len() > 0 {
        lemma_over_session_no_pings(events.drop_first());
        let s = session(true, events);
        assert(s.drop_first() == session(true, events.drop_first()));
    }
}

/// Keep-alive: a session sends exactly one ping for every timer tick that
/// comes before the event that ends it, and none after.
pub proof fn lemma_one_ping_per_tick(events: Seq<RelayEvent>)
    ensures
        ping_count(session(false, events)) == tick_count(live_events(events)),
    decreases events.len(),
{
    if events.len() > 0 {
        let s = session(false, events);
        let (next, action) = reaction(false, events[0]);
        assert(s.drop_first() == session(next, events.drop_first()));
        assert(s[0] == action);
        assert((action is SendPing) == (events[0] is Tick));
        assert(next == ends_session(events[0]));
        assert(ping_count(s) == (if s[0] is SendPing { 1nat } else { 0nat }) + ping_count(s.drop_first()));
        let l = live_events(events);
        assert(tick_count(l) == (if l[0] is Tick { 1nat } else { 0nat }) + tick_count(l.drop_first()));
        if ends_session(events[0]) {
            lemma_over_session_no_pings(events.drop_first());
            assert(l[0] == events[0]);
            assert(l.drop_first().len() == 0);
            assert(tick_count(l.drop_first()) == 0);
        } else {
            lemma_one_ping_per_tick(events.drop_first());
            assert(l[0] == events[0]);
            assert(l.drop_first() == live_events(events.drop_first()));
        }
    }
}

} // verus!
