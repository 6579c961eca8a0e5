//! The connection session: one per live transport connection.
//!
//! A session owns one input actuator, created at connection-open and
//! released at teardown, and runs a strictly serialised frame loop: the
//! operations returned for frame `n` must be completed before frame `n + 1`
//! is read, so input actions apply in exactly the order the user produced
//! them and never overlap.  The session records, as ghost history, every
//! actuator operation it has dispatched, in order; `spec_step` and
//! `spec_run` pin what any sequence of transport events does to it.

use vstd::prelude::*;
use crate::codec::{parse_frame, spec_decode, CodecError, CommandModel};
use crate::dispatch::{actions_model, dispatch_plan, spec_plan, Action, ActionModel};
use crate::frame::doc_of;

verus! {

/// The lifecycle states of one connection session.
#[derive(Clone, Copy, Debug, PartialEq, Eq, Structural)]
pub enum SessionState {
    /// The actuator is constructed; frames are awaited and dispatched.
    Open,
    /// A close frame arrived: no further dispatch, teardown pending.
    Draining,
    /// Terminal: no frame is ever processed again.
    Closed,
}

/// One event the transport delivers to a session.
#[derive(Debug, Clone)]
pub enum SessionEvent {
    /// A text frame carrying one encoded command.
    Text(String),
    /// An explicit close frame.
    CloseFrame,
    /// A transport-level read error.
    TransportError,
    /// Any other transport message; ignored.
    OtherFrame,
}

/// The mathematical model of a `SessionEvent`.
pub ghost enum SessionEventModel {
    Text(Seq<char>),
    CloseFrame,
    TransportError,
    OtherFrame,
}

impl View for SessionEvent {
    type V = SessionEventModel;

    open spec fn view(&self) -> SessionEventModel {
        match self {
            SessionEvent::Text(text) => SessionEventModel::Text(text@),
            SessionEvent::CloseFrame => SessionEventModel::CloseFrame,
            SessionEvent::TransportError => SessionEventModel::TransportError,
            SessionEvent::OtherFrame => SessionEventModel::OtherFrame,
        }
    }
}

/// The operations one text frame makes an open session dispatch: the plan
/// of the command it carries, or nothing when the codec rejects it.
pub open spec fn spec_frame_actions(text: Seq<char>) -> Seq<ActionModel> {
    match spec_decode(doc_of(text)) {
        Ok(c) => spec_plan(c),
        Err(_) => Seq::empty(),
    }
}

/// What one step of the session does with an event received in the given
/// state: the state after it, and the actuator operations it dispatches.
///
/// An open session dispatches a valid frame's plan and stays open; a
/// rejected frame is logged and the connection stays open; a close frame
/// starts draining; a transport error closes at once.  A session that is
/// not open ignores every event and dispatches nothing.
pub open spec fn spec_step(st: SessionState, ev: SessionEventModel) -> (SessionState, Seq<
    ActionModel,
>) {
    if st is Open {
        match ev {
            SessionEventModel::Text(text) => (SessionState::Open, spec_frame_actions(text)),
            SessionEventModel::CloseFrame => (SessionState::Draining, Seq::empty()),
            SessionEventModel::TransportError => (SessionState::Closed, Seq::empty()),
            SessionEventModel::OtherFrame => (SessionState::Open, Seq::empty()),
        }
    } else {
        (st, Seq::empty())
    }
}

/// What a whole sequence of events does, step by step from the given
/// state: the final state, and every dispatched operation in order.
pub open spec fn spec_run(st: SessionState, evs: Seq<SessionEventModel>) -> (SessionState, Seq<
    ActionModel,
>)
    decreases evs.len(),
{
    if evs.len() == 0 {
        (st, Seq::empty())
    } else {
        let first = spec_step(st, evs[0]);
        let rest = spec_run(first.0, evs.drop_first());
        (rest.0, first.1 + rest.1)
    }
}

/// One connection's session: the state of its frame loop and, as ghost
/// history, every actuator operation it has dispatched, in order.
pub struct Session {
    state: SessionState,
    history: Ghost<Seq<ActionModel>>,
}

impl Session {
    /// The session's lifecycle state.
    pub closed spec fn spec_state(&self) -> SessionState {
        self.state
    }

    /// Every actuator operation this session has dispatched, in order.
    pub closed spec fn dispatched(&self) -> Seq<ActionModel> {
        self.history@
    }

    /// Open a session for one connection.  If actuator construction
    /// failed, the session is born closed: it never enters the frame loop
    /// and will dispatch nothing, whatever is later delivered.
    pub fn start(actuator_ok: bool) -> (s: Session)
        ensures
            s.spec_state() == (if actuator_ok {
                SessionState::Open
            } else {
                SessionState::Closed
            }),
            s.dispatched() == Seq::<ActionModel>::empty(),
    {
        Session {
            state: if actuator_ok {
                SessionState::Open
            } else {
                SessionState::Closed
            },
            history: Ghost(Seq::empty()),
        }
    }

    /// The session's current lifecycle state.
    pub fn state(&self) -> (st: SessionState)
        ensures
            st == self.spec_state(),
    {
        self.state
    }

    /// Feed one transport event to the session.
    ///
    /// Returns the actuator operations to perform now, in order — the
    /// caller must complete them, delays included, before it reads the
    /// next frame — or, when an open session rejects a text frame, the
    /// exact codec error to log; the connection then stays open.
    pub fn on_event(&mut self, ev: &SessionEvent) -> (r: Result<Vec<Action>, CodecError>)
        ensures
            final(self).spec_state() == spec_step(old(self).spec_state(), ev@).0,
            final(self).dispatched() == old(self).dispatched() + spec_step(
                old(self).spec_state(),
                ev@,
            ).1,
            match r {
                Ok(acts) => actions_model(acts@) == spec_step(old(self).spec_state(), ev@).1,
                Err(e) => {
                    &&& old(self).spec_state() is Open
                    &&& ev@ matches SessionEventModel::Text(text)
                        && spec_decode(doc_of(text)) == Err::<CommandModel, CodecError>(e)
                    &&& spec_step(old(self).spec_state(), ev@).1 == Seq::<ActionModel>::empty()
                },
            },
    {
        if !matches!(self.state, SessionState::Open) {
            let acts: Vec<Action> = Vec::new();
            proof {
                assert(actions_model(acts@) =~= Seq::<ActionModel>::empty());
            }
            self.history = Ghost(self.history@ + actions_model(acts@));
            return Ok(acts);
        }
        match ev {
            SessionEvent::Text(text) => {
                match parse_frame(text.as_str()) {
                    Ok(cmd) => {
                        let acts = dispatch_plan(&cmd);
                        self.history = Ghost(self.history@ + actions_model(acts@));
                        Ok(acts)
                    },
                    Err(e) => {
                        self.history = Ghost(self.history@ + Seq::<ActionModel>::empty());
                        Err(e)
                    },
                }
            },
            SessionEvent::CloseFrame => {
                self.state = SessionState::Draining;
                let acts: Vec<Action> = Vec::new();
                proof {
                    assert(actions_model(acts@) =~= Seq::<ActionModel>::empty());
                }
                self.history = Ghost(self.history@ + actions_model(acts@));
                Ok(acts)
            },
            SessionEvent::TransportError => {
                self.state = SessionState::Closed;
                let acts: Vec<Action> = Vec::new();
                proof {
                    assert(actions_model(acts@) =~= Seq::<ActionModel>::empty());
                }
                self.history = Ghost(self.history@ + actions_model(acts@));
                Ok(acts)
            },
            SessionEvent::OtherFrame => {
                let acts: Vec<Action> = Vec::new();
                proof {
                    assert(actions_model(acts@) =~= Seq::<ActionModel>::empty());
                }
                self.history = Ghost(self.history@ + actions_model(acts@));
                Ok(acts)
            },
        }
    }

    /// Tear the session down.  Every termination path — normal close after
    /// draining, transport error, actuator construction failure — ends
    /// here: the actuator is released by the caller and the session is
    /// terminal.
    pub fn teardown(&mut self)
        ensures
            final(self).spec_state() == SessionState::Closed,
            final(self).dispatched() == old(self).dispatched(),
    {
        self.state = SessionState::Closed;
    }
}

/// The operations a sequence of text frames makes an open session
/// dispatch, frame by frame, in order.
pub open spec fn spec_frames_actions(texts: Seq<Seq<char>>) -> Seq<ActionModel>
    decreases texts.len(),
{
    if texts.len() == 0 {
        Seq::empty()
    } else {
        spec_frame_actions(texts[0]) + spec_frames_actions(texts.drop_first())
    }
}

/// Law: frames sent back-to-back on one connection apply in exactly the
/// order sent.  An open session given any sequence of text frames stays
/// open and dispatches precisely each frame's operations, concatenated in
/// frame order.
pub proof fn lemma_frames_apply_in_order(texts: Seq<Seq<char>>)
    ensures
        spec_run(SessionState::Open, texts.map_values(|t: Seq<char>| SessionEventModel::Text(t))).0
            == SessionState::Open,
        spec_run(SessionState::Open, texts.map_values(|t: Seq<char>| SessionEventModel::Text(t))).1
            == spec_frames_actions(texts),
    decreases texts.len(),
{
    let evs = texts.map_values(|t: Seq<char>| SessionEventModel::Text(t));
    if texts.len() == 0 {
        assert(spec_run(SessionState::Open, evs).1 =~= spec_frames_actions(texts));
    } else {
        lemma_frames_apply_in_order(texts.drop_first());
        assert(evs.drop_first() =~= texts.drop_first().map_values(
            |t: Seq<char>| SessionEventModel::Text(t),
        ));
    }
}

/// Law: a single rejected frame between two valid frames does not close
/// the connection and does not affect the frames around it: the session
/// stays open and dispatches exactly the two valid frames' operations, in
/// order.
pub proof fn lemma_rejected_frame_is_isolated(before: Seq<char>, bad: Seq<char>, after: Seq<char>)
    requires
        spec_decode(doc_of(bad)) is Err,
    ensures
        spec_run(
            SessionState::Open,
            seq![
                SessionEventModel::Text(before),
                SessionEventModel::Text(bad),
                SessionEventModel::Text(after),
            ],
        ).0 == SessionState::Open,
        spec_run(
            SessionState::Open,
            seq![
                SessionEventModel::Text(before),
                SessionEventModel::Text(bad),
                SessionEventModel::Text(after),
            ],
        ).1 == spec_frame_actions(before) + spec_frame_actions(after),
{
    let evs = seq![
        SessionEventModel::Text(before),
        SessionEventModel::Text(bad),
        SessionEventModel::Text(after),
    ];
    let e1 = seq![SessionEventModel::Text(bad), SessionEventModel::Text(after)];
    let e2 = seq![SessionEventModel::Text(after)];
    let e0 = Seq::<SessionEventModel>::empty();
    assert(evs.drop_first() =~= e1);
    assert(e1.drop_first() =~= e2);
    assert(e2.drop_first() =~= e0);
    assert(spec_run(SessionState::Open, e0).0 == SessionState::Open);
    assert(spec_run(SessionState::Open, e2).0 == SessionState::Open);
    assert(spec_run(SessionState::Open, e2).1 =~= spec_frame_actions(after));
    assert(spec_frame_actions(bad) =~= Seq::<ActionModel>::empty());
    assert(spec_run(SessionState::Open, e1).0 == SessionState::Open);
    assert(spec_run(SessionState::Open, e1).1 =~= spec_frame_actions(after));
    assert(spec_run(SessionState::Open, evs).0 == SessionState::Open);
    assert(spec_run(SessionState::Open, evs).1 =~= spec_frame_actions(before) + spec_frame_actions(
        after,
    ));
}

/// Law: a session that never opened — actuator construction failed —
/// dispatches zero operations, regardless of how many events are later
/// delivered on the dead connection, and stays closed.
pub proof fn lemma_closed_session_dispatches_nothing(evs: Seq<SessionEventModel>)
    ensures
        spec_run(SessionState::Closed, evs).0 == SessionState::Closed,
        spec_run(SessionState::Closed, evs).1 == Seq::<ActionModel>::empty(),
    decreases evs.len(),
{
    if evs.len() == 0 {
    } else {
        lemma_closed_session_dispatches_nothing(evs.drop_first());
    }
    assert(spec_run(SessionState::Closed, evs).1 =~= Seq::<ActionModel>::empty());
}

} // verus!
