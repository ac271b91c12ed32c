//! The session actor modeled as a state machine. The actor's event loop
//! races two sources — the next inbound message from the transport and
//! the next operation drained from the handle mailbox — and feeds each
//! event through `handle_event`, which says which state the session
//! moves to and which effects (user-callback deliveries, transport
//! writes, the disconnect notification) the loop must perform, in order.

use vstd::prelude::*;

use crate::mailbox::HandleOp;
use crate::message::CloseFrame;
use crate::message::Message;

verus! {

/// The lifecycle state of one session actor.
#[derive(Clone, Copy, Debug, PartialEq, Eq, Structural)]
pub enum SessionState {
    /// The transport is open and events are processed in full.
    Active,
    /// A close handshake or shutdown has begun: outputs produced after
    /// this point are discarded, only the end of the transport is awaited.
    Closing,
    /// The transport has ended and the actor's event loop has exited.
    Terminated,
}

/// One event observed by a session's event loop.
#[derive(Clone, Debug, PartialEq, Eq)]
pub enum SessionEvent {
    /// The transport decoded an inbound message.
    Inbound(Message),
    /// The transport reported a decode or I/O fault.
    InboundError,
    /// A user callback reported failure: this session — and only this
    /// session — is disconnected for it.
    CallbackFailed,
    /// The transport is permanently closed: no further messages will arrive.
    TransportClosed,
    /// An operation drained from the handle mailbox.
    FromHandle(HandleOp),
}

/// One effect the event loop must perform, in the order produced.
#[derive(Clone, Debug, PartialEq, Eq)]
pub enum SessionAction {
    /// Invoke the user's text callback with this payload and await it.
    DeliverText(String),
    /// Invoke the user's binary callback with this payload and await it.
    DeliverBinary(Vec<u8>),
    /// Invoke the user's call callback with this in-process request.
    DeliverCall(u64),
    /// Write this message to the transport.
    Write(Message),
    /// Tell the owning controller that this session has terminated.
    NotifyDisconnect,
}

/// The state a session in state `state` moves to on `event`.
pub open spec fn next_state(state: SessionState, event: SessionEvent) -> SessionState {
    match state {
        SessionState::Active => match event {
            SessionEvent::Inbound(message) => if message is Close {
                SessionState::Closing
            } else {
                SessionState::Active
            },
            SessionEvent::InboundError => SessionState::Closing,
            SessionEvent::CallbackFailed => SessionState::Closing,
            SessionEvent::TransportClosed => SessionState::Terminated,
            SessionEvent::FromHandle(op) => if op is SendClose {
                SessionState::Closing
            } else {
                SessionState::Active
            },
        },
        SessionState::Closing => match event {
            SessionEvent::TransportClosed => SessionState::Terminated,
            _ => SessionState::Closing,
        },
        SessionState::Terminated => SessionState::Terminated,
    }
}

/// The effects a session in state `state` performs on `event`.
pub open spec fn step_actions(state: SessionState, event: SessionEvent) -> Seq<SessionAction> {
    match state {
        SessionState::Active => match event {
            SessionEvent::Inbound(message) => match message {
                Message::Text(text) => seq![SessionAction::DeliverText(text)],
                Message::Binary(bytes) => seq![SessionAction::DeliverBinary(bytes)],
                Message::Ping(payload) => seq![SessionAction::Write(Message::Pong(payload))],
                Message::Pong(_) => Seq::<SessionAction>::empty(),
                Message::Close(_) => Seq::<SessionAction>::empty(),
            },
            SessionEvent::InboundError => Seq::<SessionAction>::empty(),
            SessionEvent::CallbackFailed => Seq::<SessionAction>::empty(),
            SessionEvent::TransportClosed => seq![SessionAction::NotifyDisconnect],
            SessionEvent::FromHandle(op) => match op {
                HandleOp::SendText(text) => seq![SessionAction::Write(Message::Text(text))],
                HandleOp::SendBinary(bytes) => seq![SessionAction::Write(Message::Binary(bytes))],
                HandleOp::SendClose(frame) => seq![SessionAction::Write(Message::Close(frame))],
                HandleOp::Call(request) => seq![SessionAction::DeliverCall(request)],
            },
        },
        SessionState::Closing => match event {
            SessionEvent::TransportClosed => seq![SessionAction::NotifyDisconnect],
            _ => Seq::<SessionAction>::empty(),
        },
        SessionState::Terminated => Seq::<SessionAction>::empty(),
    }
}

/// The state after running a whole sequence of events.
pub open spec fn run_state(state: SessionState, events: Seq<SessionEvent>) -> SessionState
    decreases events.len(),
{
    if events.len() == 0 {
        state
    } else {
        run_state(next_state(state, events[0]), events.drop_first())
    }
}

/// All effects of running a whole sequence of events, concatenated in
/// the order they are performed.
pub open spec fn run_actions(state: SessionState, events: Seq<SessionEvent>) -> Seq<SessionAction>
    decreases events.len(),
{
    if events.len() == 0 {
        Seq::<SessionAction>::empty()
    } else {
        step_actions(state, events[0]) + run_actions(next_state(state, events[0]), events.drop_first())
    }
}

/// One session: a stable identity, chosen at creation and never changed,
/// and the actor's lifecycle state.
#[derive(Clone, Copy, Debug, PartialEq, Eq, Structural)]
pub struct Session {
    /// The caller-supplied identity, a unique lookup key.
    pub id: u64,
    /// The actor's lifecycle state.
    pub state: SessionState,
}

impl Session {
    /// A new session starts active, under the identity it keeps for life.
    pub fn new(id: u64) -> (session: Session)
        ensures
            session.id == id,
            session.state == SessionState::Active,
    {
        Session { id, state: SessionState::Active }
    }

    /// One turn of the event loop: move to the next state and hand back
    /// the effects to perform, in order. Never changes the identity.
    pub fn handle_event(&mut self, event: SessionEvent) -> (actions: Vec<SessionAction>)
        ensures
            final(self).id == old(self).id,
            final(self).state == next_state(old(self).state, event),
            actions@ == step_actions(old(self).state, event),
    {
        match self.state {
            SessionState::Active => match event {
                SessionEvent::Inbound(message) => match message {
                    Message::Text(text) => single_action(SessionAction::DeliverText(text)),
                    Message::Binary(bytes) => single_action(SessionAction::DeliverBinary(bytes)),
                    Message::Ping(payload) => single_action(
                        SessionAction::Write(Message::Pong(payload)),
                    ),
                    Message::Pong(_) => no_actions(),
                    Message::Close(_) => {
                        self.state = SessionState::Closing;
                        no_actions()
                    },
                },
                SessionEvent::InboundError => {
                    self.state = SessionState::Closing;
                    no_actions()
                },
                SessionEvent::CallbackFailed => {
                    self.state = SessionState::Closing;
                    no_actions()
                },
                SessionEvent::TransportClosed => {
                    self.state = SessionState::Terminated;
                    single_action(SessionAction::NotifyDisconnect)
                },
                SessionEvent::FromHandle(op) => match op {
                    HandleOp::SendText(text) => single_action(
                        SessionAction::Write(Message::Text(text)),
                    ),
                    HandleOp::SendBinary(bytes) => single_action(
                        SessionAction::Write(Message::Binary(bytes)),
                    ),
                    HandleOp::SendClose(frame) => {
                        self.state = SessionState::Closing;
                        single_action(SessionAction::Write(Message::Close(frame)))
                    },
                    HandleOp::Call(request) => single_action(SessionAction::DeliverCall(request)),
                },
            },
            SessionState::Closing => match event {
                SessionEvent::TransportClosed => {
                    self.state = SessionState::Terminated;
                    single_action(SessionAction::NotifyDisconnect)
                },
                _ => no_actions(),
            },
            SessionState::Terminated => no_actions(),
        }
    }

    /// Run a whole batch of events in order: the event loop's core,
    /// with every effect of every event, concatenated in order.
    pub fn run(&mut self, events: Vec<SessionEvent>) -> (actions: Vec<SessionAction>)
        ensures
            final(self).id == old(self).id,
            final(self).state == run_state(old(self).state, events@),
            actions@ == run_actions(old(self).state, events@),
    {
        let mut remaining = events;
        let mut actions: Vec<SessionAction> = Vec::new();
        proof {
            assert(actions@ + run_actions(self.state, remaining@) =~= run_actions(
                self.state,
                remaining@,
            ));
        }
        while remaining.len() > 0
            invariant
                self.id == old(self).id,
                run_state(old(self).state, events@) == run_state(self.state, remaining@),
                run_actions(old(self).state, events@) == actions@ + run_actions(
                    self.state,
                    remaining@,
                ),
            decreases remaining.len(),
        {
            let ghost pre_remaining = remaining@;
            let ghost pre_state = self.state;
            let ghost pre_actions = actions@;
            let event = remaining.remove(0);
            let mut step = self.handle_event(event);
            actions.append(&mut step);
            proof {
                assert(remaining@ =~= pre_remaining.drop_first());
                assert(pre_actions + (step_actions(pre_state, pre_remaining[0]) + run_actions(
                    self.state,
                    remaining@,
                )) =~= actions@ + run_actions(self.state, remaining@));
            }
        }
        proof {
            assert(actions@ + run_actions(self.state, remaining@) =~= actions@);
        }
        actions
    }
}

/// Whether an event is an inbound data message (text or binary), the
/// kind the actor must deliver to a user callback.
pub open spec fn is_data_inbound(event: SessionEvent) -> bool {
    event matches SessionEvent::Inbound(message) && (message is Text || message is Binary)
}

/// The inbound data messages among a sequence of events, in arrival order.
pub open spec fn inbound_data(events: Seq<SessionEvent>) -> Seq<Message>
    decreases events.len(),
{
    if events.len() == 0 {
        Seq::<Message>::empty()
    } else {
        (if is_data_inbound(events[0]) {
            seq![events[0]->Inbound_0]
        } else {
            Seq::<Message>::empty()
        }) + inbound_data(events.drop_first())
    }
}

/// The messages a sequence of actions delivers to the user's text and
/// binary callbacks, in delivery order.
pub open spec fn delivered_data(actions: Seq<SessionAction>) -> Seq<Message>
    decreases actions.len(),
{
    if actions.len() == 0 {
        Seq::<Message>::empty()
    } else {
        (match actions[0] {
            SessionAction::DeliverText(text) => seq![Message::Text(text)],
            SessionAction::DeliverBinary(bytes) => seq![Message::Binary(bytes)],
            _ => Seq::<Message>::empty(),
        }) + delivered_data(actions.drop_first())
    }
}

/// Whether an event is a data send issued through the handle (text or
/// binary), the kind the actor must write to the transport.
pub open spec fn is_data_send(event: SessionEvent) -> bool {
    event matches SessionEvent::FromHandle(op) && (op is SendText || op is SendBinary)
}

/// The messages a sequence of handle events asks the actor to write, in
/// submission order.
pub open spec fn requested_sends(events: Seq<SessionEvent>) -> Seq<Message>
    decreases events.len(),
{
    if events.len() == 0 {
        Seq::<Message>::empty()
    } else {
        (match events[0] {
            SessionEvent::FromHandle(op) => match op {
                HandleOp::SendText(text) => seq![Message::Text(text)],
                HandleOp::SendBinary(bytes) => seq![Message::Binary(bytes)],
                _ => Seq::<Message>::empty(),
            },
            _ => Seq::<Message>::empty(),
        }) + requested_sends(events.drop_first())
    }
}

/// The text and binary messages a sequence of actions writes to the
/// transport, in write order.
pub open spec fn written_data(actions: Seq<SessionAction>) -> Seq<Message>
    decreases actions.len(),
{
    if actions.len() == 0 {
        Seq::<Message>::empty()
    } else {
        (match actions[0] {
            SessionAction::Write(message) => if message is Text || message is Binary {
                seq![message]
            } else {
                Seq::<Message>::empty()
            },
            _ => Seq::<Message>::empty(),
        }) + written_data(actions.drop_first())
    }
}

/// The close frames a sequence of actions writes to the transport, in
/// write order.
pub open spec fn close_frames_written(actions: Seq<SessionAction>) -> Seq<Option<CloseFrame>>
    decreases actions.len(),
{
    if actions.len() == 0 {
        Seq::<Option<CloseFrame>>::empty()
    } else {
        (match actions[0] {
            SessionAction::Write(message) => match message {
                Message::Close(frame) => seq![frame],
                _ => Seq::<Option<CloseFrame>>::empty(),
            },
            _ => Seq::<Option<CloseFrame>>::empty(),
        }) + close_frames_written(actions.drop_first())
    }
}

proof fn lemma_delivered_data_single(action: SessionAction)
    ensures
        delivered_data(seq![action]) == (match action {
            SessionAction::DeliverText(text) => seq![Message::Text(text)],
            SessionAction::DeliverBinary(bytes) => seq![Message::Binary(bytes)],
            _ => Seq::<Message>::empty(),
        }),
{
    let s = seq![action];
    assert(s.drop_first().len() == 0);
    assert(delivered_data(s.drop_first()) =~= Seq::<Message>::empty());
    assert(delivered_data(s) =~= (match action {
        SessionAction::DeliverText(text) => seq![Message::Text(text)],
        SessionAction::DeliverBinary(bytes) => seq![Message::Binary(bytes)],
        _ => Seq::<Message>::empty(),
    }));
}

proof fn lemma_close_frames_single(action: SessionAction)
    ensures
        close_frames_written(seq![action]) == (match action {
            SessionAction::Write(message) => match message {
                Message::Close(frame) => seq![frame],
                _ => Seq::<Option<CloseFrame>>::empty(),
            },
            _ => Seq::<Option<CloseFrame>>::empty(),
        }),
{
    let s = seq![action];
    assert(s.drop_first().len() == 0);
    assert(close_frames_written(s.drop_first()) =~= Seq::<Option<CloseFrame>>::empty());
    assert(close_frames_written(s) =~= (match action {
        SessionAction::Write(message) => match message {
            Message::Close(frame) => seq![frame],
            _ => Seq::<Option<CloseFrame>>::empty(),
        },
        _ => Seq::<Option<CloseFrame>>::empty(),
    }));
}

/// Deliveries distribute over concatenation of action sequences.
pub proof fn lemma_delivered_data_append(a: Seq<SessionAction>, b: Seq<SessionAction>)
    ensures
        delivered_data(a + b) == delivered_data(a) + delivered_data(b),
    decreases a.len(),
{
    if a.len() == 0 {
        assert(a + b =~= b);
        assert(delivered_data(a) + delivered_data(b) =~= delivered_data(b));
    } else {
        assert((a + b).drop_first() =~= a.drop_first() + b);
        lemma_delivered_data_append(a.drop_first(), b);
        assert(delivered_data(a + b) =~= delivered_data(a) + delivered_data(b));
    }
}

/// Close writes distribute over concatenation of action sequences.
pub proof fn lemma_close_frames_append(a: Seq<SessionAction>, b: Seq<SessionAction>)
    ensures
        close_frames_written(a + b) == close_frames_written(a) + close_frames_written(b),
    decreases a.len(),
{
    if a.len() == 0 {
        assert(a + b =~= b);
        assert(close_frames_written(a) + close_frames_written(b) =~= close_frames_written(b));
    } else {
        assert((a + b).drop_first() =~= a.drop_first() + b);
        lemma_close_frames_append(a.drop_first(), b);
        assert(close_frames_written(a + b) =~= close_frames_written(a) + close_frames_written(b));
    }
}

/// Whether an event leaves an active session active: a data message, a
/// ping or a pong inbound, or any handle operation short of a close.
pub open spec fn keeps_active(event: SessionEvent) -> bool {
    next_state(SessionState::Active, event) == SessionState::Active
}

/// Law: as long as no event ends or closes the session — pings, pongs
/// and handle operations may be interleaved freely — the user callbacks
/// observe exactly the inbound data messages, in exactly arrival order:
/// none dropped, none reordered, none duplicated.
pub proof fn lemma_inbound_delivery_order(events: Seq<SessionEvent>)
    requires
        forall|i: int| 0 <= i < events.len() ==> keeps_active(#[trigger] events[i]),
    ensures
        delivered_data(run_actions(SessionState::Active, events)) == inbound_data(events),
    decreases events.len(),
{
    if events.len() == 0 {
        assert(delivered_data(run_actions(SessionState::Active, events)) =~= inbound_data(events));
    } else {
        let first = events[0];
        let rest = events.drop_first();
        assert(keeps_active(first));
        assert(forall|i: int| 0 <= i < rest.len() ==> keeps_active(#[trigger] rest[i]));
        lemma_inbound_delivery_order(rest);
        lemma_delivered_data_append(
            step_actions(SessionState::Active, first),
            run_actions(SessionState::Active, rest),
        );
        let step = step_actions(SessionState::Active, first);
        if step.len() == 0 {
            assert(delivered_data(step) =~= Seq::<Message>::empty());
        } else {
            assert(step =~= seq![step[0]]);
            lemma_delivered_data_single(step[0]);
        }
        assert(delivered_data(run_actions(SessionState::Active, events)) =~= inbound_data(events));
    }
}

proof fn lemma_written_data_single(action: SessionAction)
    ensures
        written_data(seq![action]) == (match action {
            SessionAction::Write(message) => if message is Text || message is Binary {
                seq![message]
            } else {
                Seq::<Message>::empty()
            },
            _ => Seq::<Message>::empty(),
        }),
{
    let s = seq![action];
    assert(s.drop_first().len() == 0);
    assert(written_data(s.drop_first()) =~= Seq::<Message>::empty());
    assert(written_data(s) =~= (match action {
        SessionAction::Write(message) => if message is Text || message is Binary {
            seq![message]
        } else {
            Seq::<Message>::empty()
        },
        _ => Seq::<Message>::empty(),
    }));
}

/// Transport writes distribute over concatenation of action sequences.
pub proof fn lemma_written_data_append(a: Seq<SessionAction>, b: Seq<SessionAction>)
    ensures
        written_data(a + b) == written_data(a) + written_data(b),
    decreases a.len(),
{
    if a.len() == 0 {
        assert(a + b =~= b);
        assert(written_data(a) + written_data(b) =~= written_data(b));
    } else {
        assert((a + b).drop_first() =~= a.drop_first() + b);
        lemma_written_data_append(a.drop_first(), b);
        assert(written_data(a + b) =~= written_data(a) + written_data(b));
    }
}

/// Law: as long as every event is a data send issued through the handle,
/// an active session writes exactly the requested messages to the
/// transport, in exactly submission order.
pub proof fn lemma_outbound_write_order(events: Seq<SessionEvent>)
    requires
        forall|i: int| 0 <= i < events.len() ==> is_data_send(#[trigger] events[i]),
    ensures
        written_data(run_actions(SessionState::Active, events)) == requested_sends(events),
    decreases events.len(),
{
    if events.len() == 0 {
        assert(written_data(run_actions(SessionState::Active, events)) =~= requested_sends(
            events,
        ));
    } else {
        let first = events[0];
        let rest = events.drop_first();
        assert(is_data_send(first));
        assert(next_state(SessionState::Active, first) == SessionState::Active);
        assert(forall|i: int| 0 <= i < rest.len() ==> is_data_send(#[trigger] rest[i]));
        lemma_outbound_write_order(rest);
        lemma_written_data_append(
            step_actions(SessionState::Active, first),
            run_actions(SessionState::Active, rest),
        );
        match first {
            SessionEvent::FromHandle(op) => match op {
                HandleOp::SendText(text) => lemma_written_data_single(
                    SessionAction::Write(Message::Text(text)),
                ),
                HandleOp::SendBinary(bytes) => lemma_written_data_single(
                    SessionAction::Write(Message::Binary(bytes)),
                ),
                _ => assert(false),
            },
            _ => assert(false),
        }
        assert(written_data(run_actions(SessionState::Active, events)) =~= requested_sends(
            events,
        ));
    }
}

/// Once a session has left the active state it never writes another
/// close frame, whatever events still arrive.
pub proof fn lemma_no_close_after_active(state: SessionState, events: Seq<SessionEvent>)
    requires
        state != SessionState::Active,
    ensures
        close_frames_written(run_actions(state, events)) == Seq::<Option<CloseFrame>>::empty(),
    decreases events.len(),
{
    if events.len() == 0 {
        assert(close_frames_written(run_actions(state, events)) =~= Seq::<
            Option<CloseFrame>,
        >::empty());
    } else {
        let first = events[0];
        assert(next_state(state, first) != SessionState::Active);
        lemma_no_close_after_active(next_state(state, first), events.drop_first());
        lemma_close_frames_append(
            step_actions(state, first),
            run_actions(next_state(state, first), events.drop_first()),
        );
        let step = step_actions(state, first);
        if step.len() == 0 {
            assert(close_frames_written(step) =~= Seq::<Option<CloseFrame>>::empty());
        } else {
            assert(step =~= seq![SessionAction::NotifyDisconnect]);
            lemma_close_frames_single(SessionAction::NotifyDisconnect);
        }
        assert(close_frames_written(step_actions(state, first)) =~= Seq::<
            Option<CloseFrame>,
        >::empty());
        assert(close_frames_written(run_actions(state, events)) =~= Seq::<
            Option<CloseFrame>,
        >::empty());
    }
}

/// Law: a close requested through the handle of an active session writes
/// exactly one close frame to the transport over the session's whole
/// remaining life — the requested frame, code and reason intact.
pub proof fn lemma_close_written_exactly_once(
    frame: Option<CloseFrame>,
    rest: Seq<SessionEvent>,
)
    ensures
        close_frames_written(
            run_actions(
                SessionState::Active,
                seq![SessionEvent::FromHandle(HandleOp::SendClose(frame))] + rest,
            ),
        ) == seq![frame],
{
    let first = SessionEvent::FromHandle(HandleOp::SendClose(frame));
    let events = seq![first] + rest;
    assert(events[0] == first);
    assert(events.drop_first() =~= rest);
    assert(next_state(SessionState::Active, first) == SessionState::Closing);
    lemma_no_close_after_active(SessionState::Closing, rest);
    lemma_close_frames_append(
        step_actions(SessionState::Active, first),
        run_actions(SessionState::Closing, rest),
    );
    lemma_close_frames_single(SessionAction::Write(Message::Close(frame)));
    assert(close_frames_written(step_actions(SessionState::Active, first)) =~= seq![frame]);
    assert(close_frames_written(run_actions(SessionState::Active, events)) =~= seq![frame]);
}

/// Law: a terminated session is inert: any further events leave it
/// terminated and produce no deliveries, no writes, no notifications.
pub proof fn lemma_terminated_inert(events: Seq<SessionEvent>)
    ensures
        run_state(SessionState::Terminated, events) == SessionState::Terminated,
        run_actions(SessionState::Terminated, events) == Seq::<SessionAction>::empty(),
    decreases events.len(),
{
    if events.len() == 0 {
    } else {
        lemma_terminated_inert(events.drop_first());
        assert(run_actions(SessionState::Terminated, events) =~= Seq::<SessionAction>::empty());
    }
}

fn single_action(action: SessionAction) -> (actions: Vec<SessionAction>)
    ensures
        actions@ == seq![action],
{
    let mut actions: Vec<SessionAction> = Vec::new();
    actions.push(action);
    proof {
        assert(actions@ =~= seq![action]);
    }
    actions
}

fn no_actions() -> (actions: Vec<SessionAction>)
    ensures
        actions@ == Seq::<SessionAction>::empty(),
{
    let actions: Vec<SessionAction> = Vec::new();
    proof {
        assert(actions@ =~= Seq::<SessionAction>::empty());
    }
    actions
}

} // verus!
