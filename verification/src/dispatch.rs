//! The command dispatcher: one command becomes the exact sequence of
//! actuator operations, in order.
//!
//! Dispatch is modelled as a plan: `dispatch_plan` returns the operations
//! that the connection's actuator must perform, and `spec_plan` pins the
//! sequence exactly.  A multi-click command alternates clicks with a fixed
//! delay so that rapid double or triple clicks register as distinct clicks
//! on the target OS; a heartbeat produces no operation at all.

use vstd::prelude::*;
use crate::codec::{Command, CommandModel, MouseButton, NamedKey};

verus! {

/// Milliseconds of delay between two consecutive clicks of one multi-click
/// command.
pub const INTER_CLICK_DELAY_MS: u64 = 50;

/// One concrete operation on the connection's input actuator.
#[derive(Debug, Clone)]
pub enum Action {
    /// Move the pointer by a relative delta.
    MovePointer { dx: i32, dy: i32 },
    /// Click (press and release) a button once.
    ClickButton { button: MouseButton },
    /// Scroll by a signed amount, the sign passed through unchanged.
    Scroll { dy: i32 },
    /// Insert the full string as literal text, not decomposed into
    /// individual keystrokes.
    InsertText { text: String },
    /// Press and release one named key.
    PressKey { key: NamedKey },
    /// Suspend this connection's processing for the given milliseconds.
    Sleep { ms: u64 },
}

/// The mathematical model of an `Action`.
pub ghost enum ActionModel {
    MovePointer { dx: i32, dy: i32 },
    ClickButton { button: MouseButton },
    Scroll { dy: i32 },
    InsertText { text: Seq<char> },
    PressKey { key: NamedKey },
    Sleep { ms: u64 },
}

impl View for Action {
    type V = ActionModel;

    open spec fn view(&self) -> ActionModel {
        match self {
            Action::MovePointer { dx, dy } => ActionModel::MovePointer { dx: *dx, dy: *dy },
            Action::ClickButton { button } => ActionModel::ClickButton { button: *button },
            Action::Scroll { dy } => ActionModel::Scroll { dy: *dy },
            Action::InsertText { text } => ActionModel::InsertText { text: text@ },
            Action::PressKey { key } => ActionModel::PressKey { key: *key },
            Action::Sleep { ms } => ActionModel::Sleep { ms: *ms },
        }
    }
}

/// The model of a sequence of actions.
pub open spec fn actions_model(acts: Seq<Action>) -> Seq<ActionModel> {
    acts.map_values(|a: Action| a@)
}

/// The exact operations for `count` sequential clicks on one button: the
/// first click, then, before every further click, the fixed delay.
pub open spec fn spec_click_plan(button: MouseButton, count: nat) -> Seq<ActionModel>
    decreases count,
{
    if count == 0 {
        Seq::empty()
    } else if count == 1 {
        seq![ActionModel::ClickButton { button }]
    } else {
        spec_click_plan(button, (count - 1) as nat) + seq![
            ActionModel::Sleep { ms: INTER_CLICK_DELAY_MS },
            ActionModel::ClickButton { button },
        ]
    }
}

/// What dispatching one command does: the exact actuator operations, in
/// order.  A heartbeat dispatches nothing.
pub open spec fn spec_plan(c: CommandModel) -> Seq<ActionModel> {
    match c {
        CommandModel::MouseMove { dx, dy } => seq![ActionModel::MovePointer { dx, dy }],
        CommandModel::ButtonClick { button, count } => spec_click_plan(button, count as nat),
        CommandModel::Wheel { dy } => seq![ActionModel::Scroll { dy }],
        CommandModel::TextInput { text } => seq![ActionModel::InsertText { text }],
        CommandModel::KeyPress { key } => seq![ActionModel::PressKey { key }],
        CommandModel::Ping => Seq::empty(),
    }
}

/// Map one command to the exact sequence of actuator operations it
/// dispatches.
pub fn dispatch_plan(cmd: &Command) -> (acts: Vec<Action>)
    ensures
        actions_model(acts@) == spec_plan(cmd@),
{
    match cmd {
        Command::MouseMove { dx, dy } => {
            let mut acts: Vec<Action> = Vec::new();
            acts.push(Action::MovePointer { dx: *dx, dy: *dy });
            proof {
                assert(actions_model(acts@) =~= spec_plan(cmd@));
            }
            acts
        },
        Command::ButtonClick { button, count } => {
            let mut acts: Vec<Action> = Vec::new();
            let mut i: u32 = 0;
            proof {
                assert(actions_model(acts@) =~= spec_click_plan(*button, 0));
            }
            while i < *count
                invariant
                    i <= *count,
                    actions_model(acts@) == spec_click_plan(*button, i as nat),
                decreases *count - i,
            {
                if i > 0 {
                    acts.push(Action::Sleep { ms: INTER_CLICK_DELAY_MS });
                }
                acts.push(Action::ClickButton { button: *button });
                i = i + 1;
                proof {
                    assert(actions_model(acts@) =~= spec_click_plan(*button, i as nat));
                }
            }
            acts
        },
        Command::Wheel { dy } => {
            let mut acts: Vec<Action> = Vec::new();
            acts.push(Action::Scroll { dy: *dy });
            proof {
                assert(actions_model(acts@) =~= spec_plan(cmd@));
            }
            acts
        },
        Command::TextInput { text } => {
            let mut acts: Vec<Action> = Vec::new();
            acts.push(Action::InsertText { text: text.clone() });
            proof {
                assert(actions_model(acts@) =~= spec_plan(cmd@));
            }
            acts
        },
        Command::KeyPress { key } => {
            let mut acts: Vec<Action> = Vec::new();
            acts.push(Action::PressKey { key: *key });
            proof {
                assert(actions_model(acts@) =~= spec_plan(cmd@));
            }
            acts
        },
        Command::Ping => {
            let acts: Vec<Action> = Vec::new();
            proof {
                assert(actions_model(acts@) =~= spec_plan(cmd@));
            }
            acts
        },
    }
}

/// How many clicks a sequence of operations performs.
pub open spec fn spec_click_count(s: Seq<ActionModel>) -> nat
    decreases s.len(),
{
    if s.len() == 0 {
        0
    } else {
        spec_click_count(s.drop_last()) + (if s.last() is ClickButton {
            1nat
        } else {
            0nat
        })
    }
}

/// Law: a pointer-move command dispatches exactly one move operation, with
/// the exact deltas, unmodified.
pub proof fn lemma_move_dispatch(dx: i32, dy: i32)
    ensures
        spec_plan(CommandModel::MouseMove { dx, dy }) =~= seq![
            ActionModel::MovePointer { dx, dy },
        ],
{
}

/// Law: a heartbeat command dispatches no operation at all.
pub proof fn lemma_ping_dispatch()
    ensures
        spec_plan(CommandModel::Ping) =~= Seq::<ActionModel>::empty(),
{
}

/// Law: a click command with count at least one dispatches operations that
/// strictly alternate, click first and click last, between clicks on the
/// resolved button and the fixed inter-click delay; so it performs exactly
/// `count` clicks, and between any two consecutive clicks the delay stands.
pub proof fn lemma_click_plan_shape(button: MouseButton, count: nat)
    ensures
        count == 0 ==> spec_click_plan(button, count).len() == 0,
        count >= 1 ==> spec_click_plan(button, count).len() == 2 * count - 1,
        forall|i: int|
            0 <= i < spec_click_plan(button, count).len() ==> spec_click_plan(button, count)[i]
                == (if i % 2 == 0 {
                ActionModel::ClickButton { button }
            } else {
                ActionModel::Sleep { ms: INTER_CLICK_DELAY_MS }
            }),
    decreases count,
{
    if count >= 2 {
        lemma_click_plan_shape(button, (count - 1) as nat);
    }
}

/// Law: a click command performs exactly `count` clicks.
pub proof fn lemma_click_plan_count(button: MouseButton, count: nat)
    ensures
        spec_click_count(spec_click_plan(button, count)) == count,
    decreases count,
{
    let full = spec_click_plan(button, count);
    if count == 0 {
        assert(spec_click_count(full) == 0);
    } else if count == 1 {
        assert(full.len() == 1);
        assert(full.last() == ActionModel::ClickButton { button });
        assert(full.drop_last() =~= Seq::<ActionModel>::empty());
        assert(spec_click_count(full.drop_last()) == 0);
        assert(spec_click_count(full) == 1);
    } else {
        lemma_click_plan_count(button, (count - 1) as nat);
        let prev = spec_click_plan(button, (count - 1) as nat);
        assert(full.last() == ActionModel::ClickButton { button });
        assert(full.drop_last().last() == ActionModel::Sleep { ms: INTER_CLICK_DELAY_MS });
        assert(full.drop_last().drop_last() =~= prev);
        assert(spec_click_count(full) == spec_click_count(full.drop_last()) + 1);
        assert(spec_click_count(full.drop_last()) == spec_click_count(prev));
    }
}

} // verus!
