//! The message dispatcher and the inbound half of the session.
//!
//! A text frame is a JSON object with a mandatory `type` discriminator;
//! `auth` frames carry a mandatory `subtype`. The dispatcher classifies each
//! frame and either rotates the stored auth token (`auth.confirm`), reports a
//! logout notice (`auth.logout`), or rejects the frame — and a rejected frame
//! never ends the inbound loop.

use vstd::prelude::*;
use crate::json_in::{get_str_field, json_str_field};
use crate::manage_keys::{CredKind, CredentialMap};
use crate::text::str_eq;

verus! {

/// Where the in-band auth handshake stands for one connection.
#[derive(Clone, Copy, PartialEq, Eq, Structural, Debug)]
pub enum AuthPhase {
    /// The connection is up; no confirm frame has arrived yet.
    Connected,
    /// At least one `auth.confirm` has refreshed the token.
    Authenticated,
    /// The transport has terminated.
    Closed,
}

/// The dispatcher's state: the handshake phase and the session's view of the
/// credential store.
pub struct SessionState {
    pub phase: AuthPhase,
    pub creds: CredentialMap,
}

/// The mathematical image of a session state.
pub struct SessionView {
    pub phase: AuthPhase,
    pub creds: Map<(CredKind, Seq<char>), Seq<char>>,
}

impl View for SessionState {
    type V = SessionView;

    open spec fn view(&self) -> SessionView {
        SessionView { phase: self.phase, creds: self.creds@ }
    }
}

impl SessionState {
    pub open spec fn wf(&self) -> bool {
        self.creds.wf()
    }

    /// A fresh session: connected, with an empty credential view.
    pub fn new() -> (r: SessionState)
        ensures
            r.wf(),
            r@.phase == AuthPhase::Connected,
            r@.creds == Map::<(CredKind, Seq<char>), Seq<char>>::empty(),
    {
        SessionState { phase: AuthPhase::Connected, creds: CredentialMap::new() }
    }
}

/// A frame the dispatcher rejected. Every variant is recoverable: the frame
/// is dropped and the inbound loop continues.
#[derive(Clone, Copy, PartialEq, Eq, Structural, Debug)]
pub enum DispatchError {
    /// Not a JSON object, or a mandatory field is missing or not a string.
    MalformedMessage,
    /// The `type` discriminator names no known handler.
    UnknownMessageType,
    /// An `auth` frame whose `subtype` names no known sub-handler.
    UnknownAuthSubtype,
}

/// What a dispatched frame asked for.
pub enum DispatchOutcome {
    /// An `auth.confirm`: the stored token for `user_id` is now `token`.
    TokenRotated { user_id: String, token: String },
    /// An `auth.logout`: acknowledged; teardown is the caller's decision.
    LogoutNotice,
}

/// How the dispatcher classifies one frame's text.
pub enum FrameClass {
    Malformed,
    UnknownType,
    UnknownAuthSubtype,
    AuthConfirm { token: Seq<char>, user_id: Seq<char> },
    AuthLogout,
}

/// Classification of a frame already known to carry `type: auth`.
pub open spec fn auth_frame_class(s: Seq<char>) -> FrameClass {
    match json_str_field(s, "subtype"@) {
        Option::None => FrameClass::Malformed,
        Option::Some(st) => if st == "confirm"@ {
            match (json_str_field(s, "token"@), json_str_field(s, "user_id"@)) {
                (Option::Some(tok), Option::Some(uid)) => FrameClass::AuthConfirm {
                    token: tok,
                    user_id: uid,
                },
                _ => FrameClass::Malformed,
            }
        } else if st == "logout"@ {
            FrameClass::AuthLogout
        } else {
            FrameClass::UnknownAuthSubtype
        },
    }
}

/// Classification of one frame's text by its `type` discriminator.
pub open spec fn frame_class(s: Seq<char>) -> FrameClass {
    match json_str_field(s, "type"@) {
        Option::None => FrameClass::Malformed,
        Option::Some(t) => if t == "auth"@ {
            auth_frame_class(s)
        } else {
            FrameClass::UnknownType
        },
    }
}

/// The state a frame leaves behind: an `auth.confirm` refreshes the stored
/// token and marks the session authenticated; every other frame changes
/// nothing.
pub open spec fn dispatch_transition(v: SessionView, s: Seq<char>) -> SessionView {
    match frame_class(s) {
        FrameClass::AuthConfirm { token, user_id } => SessionView {
            phase: AuthPhase::Authenticated,
            creds: v.creds.insert((CredKind::AuthToken, user_id), token),
        },
        _ => v,
    }
}

/// Whether `r` is the verdict the dispatcher owes for the frame `s`.
pub open spec fn dispatch_result_matches(
    s: Seq<char>,
    r: Result<DispatchOutcome, DispatchError>,
) -> bool {
    match frame_class(s) {
        FrameClass::Malformed => r matches Result::Err(DispatchError::MalformedMessage),
        FrameClass::UnknownType => r matches Result::Err(DispatchError::UnknownMessageType),
        FrameClass::UnknownAuthSubtype => r matches Result::Err(DispatchError::UnknownAuthSubtype),
        FrameClass::AuthLogout => r matches Result::Ok(DispatchOutcome::LogoutNotice),
        FrameClass::AuthConfirm { token, user_id } => r matches Result::Ok(
            DispatchOutcome::TokenRotated { user_id: u, token: t },
        ) && u@ == user_id && t@ == token,
    }
}

/// Handles an `auth.confirm`: reads the mandatory `token` and `user_id`
/// fields and atomically overwrites the stored auth token for that user.
pub fn auth_confirm(state: &mut SessionState, raw: &str) -> (r: Result<
    DispatchOutcome,
    DispatchError,
>)
    requires
        old(state).wf(),
    ensures
        final(state).wf(),
        match (json_str_field(raw@, "token"@), json_str_field(raw@, "user_id"@)) {
            (Option::Some(tok), Option::Some(uid)) => r matches Result::Ok(
                DispatchOutcome::TokenRotated { user_id: u, token: t },
            ) && u@ == uid && t@ == tok && final(state)@.phase == AuthPhase::Authenticated && final(state)@.creds == old(state)@.creds.insert((CredKind::AuthToken, uid), tok),
            _ => r matches Result::Err(DispatchError::MalformedMessage) && final(state)@ == old(state)@,
        },
{
    let token = match get_str_field(raw, "token") {
        Option::Some(t) => t,
        Option::None => {
            return Result::Err(DispatchError::MalformedMessage);
        },
    };
    let user_id = match get_str_field(raw, "user_id") {
        Option::Some(u) => u,
        Option::None => {
            return Result::Err(DispatchError::MalformedMessage);
        },
    };
    state.creds.put(CredKind::AuthToken, user_id.as_str(), token.clone());
    state.phase = AuthPhase::Authenticated;
    Result::Ok(DispatchOutcome::TokenRotated { user_id, token })
}

/// Routes an `auth` frame by its mandatory `subtype` field.
fn auth_handler(state: &mut SessionState, raw: &str) -> (r: Result<DispatchOutcome, DispatchError>)
    requires
        old(state).wf(),
    ensures
        final(state).wf(),
        match auth_frame_class(raw@) {
            FrameClass::AuthConfirm { token, user_id } => r matches Result::Ok(
                DispatchOutcome::TokenRotated { user_id: u, token: t },
            ) && u@ == user_id && t@ == token && final(state)@.phase == AuthPhase::Authenticated
                && final(state)@.creds == old(state)@.creds.insert(
                (CredKind::AuthToken, user_id),
                token,
            ),
            FrameClass::AuthLogout => r matches Result::Ok(DispatchOutcome::LogoutNotice) && final(state)@ == old(state)@,
            FrameClass::UnknownAuthSubtype => r matches Result::Err(
                DispatchError::UnknownAuthSubtype,
            ) && final(state)@ == old(state)@,
            _ => r matches Result::Err(DispatchError::MalformedMessage) && final(state)@ == old(state)@,
        },
{
    let subtype = match get_str_field(raw, "subtype") {
        Option::Some(st) => st,
        Option::None => {
            return Result::Err(DispatchError::MalformedMessage);
        },
    };
    if str_eq(subtype.as_str(), "confirm") {
        auth_confirm(state, raw)
    } else if str_eq(subtype.as_str(), "logout") {
        Result::Ok(DispatchOutcome::LogoutNotice)
    } else {
        Result::Err(DispatchError::UnknownAuthSubtype)
    }
}

/// Dispatches one text frame: classifies it by its `type` discriminator and
/// performs what it asks. A rejected frame leaves the state unchanged.
pub fn process_message(state: &mut SessionState, raw: &str) -> (r: Result<
    DispatchOutcome,
    DispatchError,
>)
    requires
        old(state).wf(),
    ensures
        final(state).wf(),
        final(state)@ == dispatch_transition(old(state)@, raw@),
        dispatch_result_matches(raw@, r),
{
    match get_str_field(raw, "type") {
        Option::Some(t) => {
            if str_eq(t.as_str(), "auth") {
                auth_handler(state, raw)
            } else {
                Result::Err(DispatchError::UnknownMessageType)
            }
        },
        Option::None => Result::Err(DispatchError::MalformedMessage),
    }
}

/// Law: dispatching the same frame twice leaves the same state as dispatching
/// it once. In particular a repeated `auth.confirm` carrying the same token
/// is observably a no-op: the stored token stays that token.
pub proof fn lemma_dispatch_idempotent(v: SessionView, s: Seq<char>)
    ensures
        dispatch_transition(dispatch_transition(v, s), s) == dispatch_transition(v, s),
{
    match frame_class(s) {
        FrameClass::AuthConfirm { token, user_id } => {
            let once = dispatch_transition(v, s);
            let twice = dispatch_transition(once, s);
            assert(twice.creds =~= once.creds);
        },
        _ => {},
    }
}

/// Law: a frame the dispatcher rejects — one missing the `type` field, say —
/// leaves the session state untouched, and the next frame drives the state
/// exactly as if the bad frame had never arrived.
pub proof fn lemma_rejected_frame_recoverable(v: SessionView, bad: Seq<char>, next: Seq<char>)
    requires
        !(frame_class(bad) matches FrameClass::AuthConfirm { .. }),
    ensures
        dispatch_transition(v, bad) == v,
        dispatch_transition(dispatch_transition(v, bad), next) == dispatch_transition(v, next),
{
}

/// One thing the inbound loop can see on the wire.
pub enum InboundEvent {
    /// A text frame, handed to the dispatcher.
    Text(String),
    /// A binary frame: acknowledged, reserved for future encrypted payloads.
    Binary,
    /// A transport-level read error, with its cause.
    ReadError(String),
}

/// What the inbound loop did with one event.
pub enum InboundStep {
    /// A text frame was dispatched; the loop went on whatever the verdict.
    Dispatched(Result<DispatchOutcome, DispatchError>),
    /// A binary frame was acknowledged and not interpreted.
    BinaryAcknowledged,
    /// A read error ended the loop; its cause is surfaced, not retried.
    Terminated(String),
}

/// How many events the inbound loop handles: every event up to and including
/// the first transport read error.
pub open spec fn steps_taken(events: Seq<InboundEvent>) -> int
    decreases events.len(),
{
    if events.len() == 0 {
        0
    } else if events.first() is ReadError {
        1
    } else {
        1 + steps_taken(events.drop_first())
    }
}

/// The state the inbound loop leaves behind: text frames drive the dispatch
/// transition in arrival order; a read error closes the session.
pub open spec fn state_after(v: SessionView, events: Seq<InboundEvent>) -> SessionView
    decreases events.len(),
{
    if events.len() == 0 {
        v
    } else {
        match events.first() {
            InboundEvent::Text(f) => state_after(dispatch_transition(v, f@), events.drop_first()),
            InboundEvent::Binary => state_after(v, events.drop_first()),
            InboundEvent::ReadError(_) => SessionView { phase: AuthPhase::Closed, creds: v.creds },
        }
    }
}

/// Whether `step` is what the inbound loop owes for the event `ev`.
pub open spec fn step_matches(ev: InboundEvent, step: InboundStep) -> bool {
    match ev {
        InboundEvent::Text(f) => step matches InboundStep::Dispatched(res)
            && dispatch_result_matches(f@, res),
        InboundEvent::Binary => step matches InboundStep::BinaryAcknowledged,
        InboundEvent::ReadError(c) => step matches InboundStep::Terminated(cause) && cause@ == c@,
    }
}

/// Handles one wire event: dispatches a text frame (a rejected frame is
/// reported, never fatal), acknowledges a binary frame, and closes the
/// session on a read error.
pub fn handle_inbound_event(state: &mut SessionState, ev: &InboundEvent) -> (step: InboundStep)
    requires
        old(state).wf(),
    ensures
        final(state).wf(),
        step_matches(*ev, step),
        final(state)@ == (match *ev {
            InboundEvent::Text(f) => dispatch_transition(old(state)@, f@),
            InboundEvent::Binary => old(state)@,
            InboundEvent::ReadError(_) => SessionView {
                phase: AuthPhase::Closed,
                creds: old(state)@.creds,
            },
        }),
{
    match ev {
        InboundEvent::Text(f) => InboundStep::Dispatched(process_message(state, f.as_str())),
        InboundEvent::Binary => InboundStep::BinaryAcknowledged,
        InboundEvent::ReadError(cause) => {
            state.phase = AuthPhase::Closed;
            InboundStep::Terminated(cause.clone())
        },
    }
}

/// The inbound loop: handles wire events one at a time, in arrival order.
/// A rejected frame is reported and the next event is still handled; the
/// first read error terminates the loop and closes the session.
pub fn run_inbound(state: &mut SessionState, events: &Vec<InboundEvent>) -> (steps: Vec<
    InboundStep,
>)
    requires
        old(state).wf(),
    ensures
        final(state).wf(),
        final(state)@ == state_after(old(state)@, events@),
        steps@.len() == steps_taken(events@),
        forall|i: int| 0 <= i < steps@.len() ==> step_matches(events@[i], #[trigger] steps@[i]),
{
    let mut steps: Vec<InboundStep> = Vec::new();
    let n = events.len();
    let mut i: usize = 0;
    proof {
        assert(events@.skip(0) =~= events@);
    }
    while i < n
        invariant
            old(state).wf(),
            state.wf(),
            n == events@.len(),
            i <= n,
            steps@.len() == i as int,
            state_after(old(state)@, events@) == state_after(state@, events@.skip(i as int)),
            steps_taken(events@) == i + steps_taken(events@.skip(i as int)),
            forall|j: int| 0 <= j < i ==> step_matches(events@[j], #[trigger] steps@[j]),
        decreases n - i,
    {
        proof {
            assert(events@.skip(i as int).first() == events@[i as int]);
            assert(events@.skip(i as int).drop_first() =~= events@.skip(i as int + 1));
        }
        let ev = &events[i];
        let step = handle_inbound_event(state, ev);
        let terminated = match &step {
            InboundStep::Terminated(_) => true,
            _ => false,
        };
        steps.push(step);
        i += 1;
        if terminated {
            return steps;
        }
    }
    proof {
        assert(events@.skip(n as int) =~= Seq::<InboundEvent>::empty());
    }
    steps
}

/// How one of the two session loops ended.
pub enum LoopEnd {
    /// The loop ran out of work and ended cleanly.
    Clean,
    /// The loop ended on a terminal error with this cause.
    Failed(String),
}

/// Which side of the session a terminal error came from.
#[derive(Clone, Copy, PartialEq, Eq, Structural, Debug)]
pub enum SessionSide {
    Inbound,
    Outbound,
}

/// Aggregates the two loops' outcomes once both have finished: the session
/// reports the failing side and its cause — the inbound side's when both
/// failed — and succeeds only when both ended cleanly.
pub fn session_verdict(inbound: LoopEnd, outbound: LoopEnd) -> (r: Option<(SessionSide, String)>)
    ensures
        match (inbound, outbound) {
            (LoopEnd::Failed(c), _) => r matches Option::Some((side, cause)) && side
                == SessionSide::Inbound && cause@ == c@,
            (LoopEnd::Clean, LoopEnd::Failed(c)) => r matches Option::Some((side, cause)) && side
                == SessionSide::Outbound && cause@ == c@,
            (LoopEnd::Clean, LoopEnd::Clean) => r is None,
        },
{
    match inbound {
        LoopEnd::Failed(c) => Option::Some((SessionSide::Inbound, c)),
        LoopEnd::Clean => match outbound {
            LoopEnd::Failed(c) => Option::Some((SessionSide::Outbound, c)),
            LoopEnd::Clean => Option::None,
        },
    }
}

} // verus!
