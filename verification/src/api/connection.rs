//! The life of a WebSocket connection.
//!
//! A connection first reaches for the upstream, then reads one message after the
//! other. Subscriptions are handled in turn; other requests run concurrently and
//! hold permits until they are answered. The application performs each action
//! and hands back the event that it led to.

use crate::api::rpc;
use crate::api::ws;
use crate::api::ws::{ConnectOutcome, Permits, WsAction, WsEvent, WsInput};
use crate::config::security::SecurityConfig;
use crate::types::rpc::{RpcEnvelope, RpcRequest, RpcResponse};
use vstd::prelude::*;
#[allow(unused_imports)]
use vstd::utf8::*;

verus! {

/// What a connection waits for.
#[derive(Debug, Clone, Copy, PartialEq, Eq, Structural)]
pub enum Phase {
    /// The upstream.
    Connecting,
    /// The next message of the client.
    Reading,
    /// A message to be parsed.
    Parsing,
    /// A reply to be handed to the client.
    Replying,
    /// A subscription request to be forwarded to the upstream.
    Forwarding,
    /// Nothing: it is closed.
    Closed,
}

/// What happened to a connection.
#[derive(Debug)]
pub enum ConnectionEvent {
    /// The attempt to reach the upstream ended.
    Connected(ConnectOutcome),
    /// Something was read from the client.
    Read(WsEvent),
    /// A message was parsed, or could not be for this reason.
    Parsed(Result<RpcEnvelope, String>),
    /// A reply was handed to the client, if `true`.
    Replied(bool),
    /// A request was forwarded to the upstream, if `true`.
    Forwarded(bool),
}

/// What is to be done for a connection.
#[derive(Debug)]
pub enum ConnectionAction {
    /// Read from the client.
    Read,
    /// Parse this message.
    Parse(String),
    /// Hand this reply to the client.
    Reply(RpcResponse),
    /// Forward this subscription request to the upstream.
    Forward(RpcRequest),
    /// Process this request concurrently, and read from the client.
    Process(RpcRequest),
    /// Process this batch concurrently, and read from the client.
    ProcessBatch { requests: Vec<RpcRequest>, permits: usize },
    /// Send this error and close the connection.
    RefuseAndClose(RpcResponse),
    /// Abort what runs, and close both sides of the connection.
    Close,
}

/// Number of permits that an action holds.
pub open spec fn permits_of(action: ConnectionAction) -> nat {
    match action {
        ConnectionAction::Process(_) => 1,
        ConnectionAction::ProcessBatch { permits, .. } => permits as nat,
        _ => 0,
    }
}

/// Whether an event is what a connection waits for.
pub open spec fn expects(phase: Phase, event: ConnectionEvent) -> bool {
    match event {
        ConnectionEvent::Connected(_) => phase == Phase::Connecting,
        ConnectionEvent::Read(_) => phase == Phase::Reading,
        ConnectionEvent::Parsed(_) => phase == Phase::Parsing,
        ConnectionEvent::Replied(_) => phase == Phase::Replying,
        ConnectionEvent::Forwarded(_) => phase == Phase::Forwarding,
    }
}

/// What follows something that was read.
pub open spec fn after_read(event: WsEvent, phase: Phase, action: ConnectionAction) -> bool {
    match event {
        WsEvent::Text(t) => phase == Phase::Parsing && action == ConnectionAction::Parse(t),
        WsEvent::Binary(b) => if valid_utf8(b@) {
            &&& phase == Phase::Parsing
            &&& action matches ConnectionAction::Parse(t)
            &&& t@ == decode_utf8(b@)
        } else {
            phase == Phase::Reading && action is Read
        },
        WsEvent::Control => phase == Phase::Reading && action is Read,
        WsEvent::Close | WsEvent::Ended | WsEvent::Idle => phase == Phase::Closed && action is Close,
    }
}

/// What follows a message: what `ws::message_action` says, where a subscription
/// request that is refused gets a reply and any other is forwarded.
pub open spec fn after_parsing(
    security: SecurityConfig,
    parsed: Result<RpcEnvelope, String>,
    free: int,
    phase: Phase,
    action: ConnectionAction,
) -> bool {
    exists|decided: WsAction| #[trigger]
        ws::message_action(parsed, free, decided) && match decided {
            WsAction::Reply(response) => phase == Phase::Replying && action
                == ConnectionAction::Reply(response),
            WsAction::Subscribe(req) => match ws::subscription_refusal(security, req.method@) {
                Some((code, message)) => {
                    &&& phase == Phase::Replying
                    &&& action matches ConnectionAction::Reply(response)
                    &&& response.is_error(req.id, code, message)
                },
                None => phase == Phase::Forwarding && action == ConnectionAction::Forward(req),
            },
            WsAction::Process(req) => phase == Phase::Reading && action
                == ConnectionAction::Process(req),
            WsAction::ProcessBatch { requests, permits } => phase == Phase::Reading && action == (
            ConnectionAction::ProcessBatch { requests, permits }),
        }
}

/// Whether a connection with `free` permits goes on like this after an event.
pub open spec fn transition(
    security: SecurityConfig,
    event: ConnectionEvent,
    free: int,
    phase: Phase,
    action: ConnectionAction,
) -> bool {
    match event {
        ConnectionEvent::Connected(outcome) => match outcome {
            ConnectOutcome::Connected => phase == Phase::Reading && action is Read,
            ConnectOutcome::Failed => {
                &&& phase == Phase::Closed
                &&& action matches ConnectionAction::RefuseAndClose(e)
                &&& e.is_error(
                    crate::types::rpc::JsonValue::Null,
                    -32603,
                    "Backend WebSocket connection failed"@,
                )
            },
            ConnectOutcome::TimedOut => {
                &&& phase == Phase::Closed
                &&& action matches ConnectionAction::RefuseAndClose(e)
                &&& e.is_error(
                    crate::types::rpc::JsonValue::Null,
                    -32603,
                    "Backend WebSocket connection timeout"@,
                )
            },
        },
        ConnectionEvent::Read(read) => after_read(read, phase, action),
        ConnectionEvent::Parsed(parsed) => after_parsing(security, parsed, free, phase, action),
        ConnectionEvent::Replied(alive) | ConnectionEvent::Forwarded(alive) => if alive {
            phase == Phase::Reading && action is Read
        } else {
            phase == Phase::Closed && action is Close
        },
    }
}

/// A WebSocket connection.
#[derive(Debug)]
pub struct Connection {
    phase: Phase,
    inflight: Permits,
}

impl Connection {
    /// What the connection waits for.
    pub closed spec fn phase_view(self) -> Phase {
        self.phase
    }

    /// The permits for requests that run concurrently.
    pub closed spec fn inflight_view(self) -> Permits {
        self.inflight
    }

    /// Number of permits that are free.
    pub open spec fn free(self) -> int {
        self.inflight_view().limit_view() - self.inflight_view().held_view()
    }

    /// Opens a connection; the first thing to do is to reach for the upstream.
    pub fn new() -> (r: Self)
        ensures
            r.phase_view() == Phase::Connecting,
            r.inflight_view().limit_view() == ws::MAX_INFLIGHT_REQUESTS,
            r.inflight_view().held_view() == 0,
    {
        Connection { phase: Phase::Connecting, inflight: Permits::new(ws::MAX_INFLIGHT_REQUESTS) }
    }

    /// What the connection waits for.
    pub fn phase(&self) -> (r: Phase)
        ensures
            r == self.phase_view(),
    {
        self.phase
    }

    /// Decides how the connection goes on after an event that it waits for.
    pub fn step(self, security: &SecurityConfig, event: ConnectionEvent) -> (r: (
        Self,
        ConnectionAction,
    ))
        requires
            expects(self.phase_view(), event),
        ensures
            transition(*security, event, self.free(), r.0.phase_view(), r.1),
            r.0.inflight_view().limit_view() == self.inflight_view().limit_view(),
            r.0.inflight_view().held_view() == self.inflight_view().held_view() + permits_of(r.1),
    {
        let mut inflight = self.inflight;
        match event {
            ConnectionEvent::Connected(outcome) => match ws::connect_error(outcome) {
                None => (
                    Connection { phase: Phase::Reading, inflight },
                    ConnectionAction::Read,
                ),
                Some(error) => (
                    Connection { phase: Phase::Closed, inflight },
                    ConnectionAction::RefuseAndClose(error),
                ),
            },
            ConnectionEvent::Read(read) => match ws::read_event(read) {
                WsInput::Message(text) => (
                    Connection { phase: Phase::Parsing, inflight },
                    ConnectionAction::Parse(text),
                ),
                WsInput::Skip => (
                    Connection { phase: Phase::Reading, inflight },
                    ConnectionAction::Read,
                ),
                WsInput::Disconnect => (
                    Connection { phase: Phase::Closed, inflight },
                    ConnectionAction::Close,
                ),
            },
            ConnectionEvent::Parsed(parsed) => {
                let decided = ws::handle_message(parsed, &mut inflight);
                assert(ws::message_action(parsed, self.free(), decided));
                match decided {
                    WsAction::Reply(response) => (
                        Connection { phase: Phase::Replying, inflight },
                        ConnectionAction::Reply(response),
                    ),
                    WsAction::Subscribe(req) => {
                        match ws::process_subscription_request(security, &req) {
                            Some(error) => (
                                Connection { phase: Phase::Replying, inflight },
                                ConnectionAction::Reply(error),
                            ),
                            None => (
                                Connection { phase: Phase::Forwarding, inflight },
                                ConnectionAction::Forward(req),
                            ),
                        }
                    },
                    WsAction::Process(req) => (
                        Connection { phase: Phase::Reading, inflight },
                        ConnectionAction::Process(req),
                    ),
                    WsAction::ProcessBatch { requests, permits } => (
                        Connection { phase: Phase::Reading, inflight },
                        ConnectionAction::ProcessBatch { requests, permits },
                    ),
                }
            },
            ConnectionEvent::Replied(alive) => Self::go_on(alive, inflight),
            ConnectionEvent::Forwarded(alive) => Self::go_on(alive, inflight),
        }
    }

    /// Reads on where both sides are alive, and closes the connection otherwise.
    fn go_on(alive: bool, inflight: Permits) -> (r: (Self, ConnectionAction))
        ensures
            r.0.inflight_view() == inflight,
            if alive {
                r.0.phase_view() == Phase::Reading && r.1 is Read
            } else {
                r.0.phase_view() == Phase::Closed && r.1 is Close
            },
    {
        if alive {
            (Connection { phase: Phase::Reading, inflight }, ConnectionAction::Read)
        } else {
            (Connection { phase: Phase::Closed, inflight }, ConnectionAction::Close)
        }
    }

    /// Takes the permits back of a request or batch that has been answered.
    pub fn answered(self, permits: usize) -> (r: Self)
        requires
            permits <= self.inflight_view().held_view(),
        ensures
            r.phase_view() == self.phase_view(),
            r.inflight_view().limit_view() == self.inflight_view().limit_view(),
            r.inflight_view().held_view() == self.inflight_view().held_view() - permits,
    {
        let mut inflight = self.inflight;
        inflight.release(permits);
        Connection { phase: self.phase, inflight }
    }
}

/// A closed connection stays closed: it waits for no event.
pub proof fn closed_connections_stay_closed(event: ConnectionEvent)
    ensures
        !expects(Phase::Closed, event),
{
}

/// A connection that does not close always has something to do next, and the
/// event that this leads to is what it then waits for.
pub proof fn connections_never_stall(
    security: SecurityConfig,
    event: ConnectionEvent,
    free: int,
    phase: Phase,
    action: ConnectionAction,
)
    requires
        transition(security, event, free, phase, action),
    ensures
        phase == match action {
            ConnectionAction::Read => Phase::Reading,
            ConnectionAction::Parse(_) => Phase::Parsing,
            ConnectionAction::Reply(_) => Phase::Replying,
            ConnectionAction::Forward(_) => Phase::Forwarding,
            ConnectionAction::Process(_) => Phase::Reading,
            ConnectionAction::ProcessBatch { .. } => Phase::Reading,
            ConnectionAction::RefuseAndClose(_) => Phase::Closed,
            ConnectionAction::Close => Phase::Closed,
        },
        phase != Phase::Connecting,
{
}

/// Only subscription requests that the rules admit reach the upstream: in
/// particular never a transaction, which must go through the base layer.
pub proof fn upstream_sees_admitted_subscriptions_only(
    security: SecurityConfig,
    event: ConnectionEvent,
    free: int,
    phase: Phase,
    action: ConnectionAction,
)
    requires
        transition(security, event, free, phase, action),
    ensures
        action matches ConnectionAction::Forward(req) ==> {
            &&& ws::subscribes(req.method@)
            &&& ws::subscription_refusal(security, req.method@) is None
            &&& req.method@ != "eth_sendRawTransaction"@
        },
{
    reveal_strlit("eth_subscribe");
    reveal_strlit("eth_unsubscribe");
    reveal_strlit("eth_sendRawTransaction");
    assert("eth_subscribe"@.len() != "eth_sendRawTransaction"@.len());
    assert("eth_unsubscribe"@.len() != "eth_sendRawTransaction"@.len());
}

/// A subscription request on its own is always relayed to the upstream, with the
/// whitelist on or off, in read-only mode too, and however many permits are
/// taken.
pub proof fn single_subscriptions_are_relayed(
    security: SecurityConfig,
    req: RpcRequest,
    free: int,
    phase: Phase,
    action: ConnectionAction,
)
    requires
        ws::subscribes(req.method@),
        transition(
            security,
            ConnectionEvent::Parsed(Ok(RpcEnvelope::Single(req))),
            free,
            phase,
            action,
        ),
    ensures
        phase == Phase::Forwarding,
        action == ConnectionAction::Forward(req),
{
}

/// A concurrent action never holds more permits than were free.
pub proof fn concurrent_actions_fit_the_free_permits(
    security: SecurityConfig,
    event: ConnectionEvent,
    free: nat,
    phase: Phase,
    action: ConnectionAction,
)
    requires
        transition(security, event, free as int, phase, action),
    ensures
        permits_of(action) <= free,
{
}

/// A message is parsed as it came: text as it is, and bytes as the text that they
/// encode. Bytes that are no text and frames without a message are passed over,
/// and the connection ends with its stream, on a close frame or when it is idle.
pub proof fn messages_are_read_as_they_came(
    security: SecurityConfig,
    read: WsEvent,
    free: int,
    phase: Phase,
    action: ConnectionAction,
)
    requires
        transition(security, ConnectionEvent::Read(read), free, phase, action),
    ensures
        read matches WsEvent::Text(t) ==> action == ConnectionAction::Parse(t),
        read matches WsEvent::Binary(bytes) ==> if valid_utf8(bytes@) {
            action matches ConnectionAction::Parse(t) && encode_utf8(t@) == bytes@
        } else {
            action is Read
        },
        read is Control ==> action is Read,
        read is Close || read is Ended || read is Idle ==> action is Close && phase
            == Phase::Closed,
{
    if let WsEvent::Binary(bytes) = read {
        if valid_utf8(bytes@) {
            decode_utf8_encode_utf8(bytes@);
        }
    }
}

/// What is processed for a connection is what its client sent: a batch whole and
/// in order, a single request as it is. A request that is turned away is answered
/// at once, so none is left without an answer.
pub proof fn requests_are_processed_as_they_came(
    security: SecurityConfig,
    envelope: RpcEnvelope,
    free: int,
    phase: Phase,
    action: ConnectionAction,
)
    requires
        transition(security, ConnectionEvent::Parsed(Ok(envelope)), free, phase, action),
    ensures
        action matches ConnectionAction::ProcessBatch { requests, permits } ==> {
            &&& envelope matches RpcEnvelope::Batch(sent)
            &&& requests@.len() == sent@.len()
            &&& forall|i: int| 0 <= i < sent@.len() ==> requests@[i] == #[trigger] sent@[i]
        },
        action matches ConnectionAction::Process(req) ==> envelope == RpcEnvelope::Single(req),
        action matches ConnectionAction::Forward(req) ==> envelope == RpcEnvelope::Single(req),
        envelope matches RpcEnvelope::Single(req) ==> (action matches ConnectionAction::Reply(e)
            ==> e.id == req.id && e.outcome is Error),
        action is ProcessBatch || action is Process || action is Forward || action is Reply,
        action is Process || action is ProcessBatch ==> phase == Phase::Reading,
        action is Reply ==> phase == Phase::Replying,
{
}

/// A connection reads on only where the upstream was reached, and it ends as soon
/// as a reply or a forwarded request cannot be handed over.
pub proof fn broken_sides_end_a_connection(
    security: SecurityConfig,
    event: ConnectionEvent,
    free: int,
    phase: Phase,
    action: ConnectionAction,
)
    requires
        transition(security, event, free, phase, action),
    ensures
        event matches ConnectionEvent::Connected(outcome) ==> (action is Read <==> outcome
            == ConnectOutcome::Connected) && (action is RefuseAndClose <==> outcome
            != ConnectOutcome::Connected),
        action matches ConnectionAction::RefuseAndClose(e) ==> e.id is Null && e.outcome is Error
            && e.outcome->code == -32603,
        event matches ConnectionEvent::Replied(alive) ==> (action is Read <==> alive) && (
        action is Close <==> !alive),
        event matches ConnectionEvent::Forwarded(alive) ==> (action is Read <==> alive) && (
        action is Close <==> !alive),
        event matches ConnectionEvent::Parsed(Err(e)) ==> (action matches ConnectionAction::Reply(
            response,
        ) && response.outcome is Error && response.outcome->code == -32700),
        action is Close || action is RefuseAndClose ==> phase == Phase::Closed,
{
}

} // verus!
