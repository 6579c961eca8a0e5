//! Protocol laws: what the codec and the dispatcher together guarantee for
//! each kind of frame, stated once and proved from the modules' own
//! contracts.

use vstd::prelude::*;
use crate::codec::{
    spec_button, spec_decode, spec_key, CodecError, CommandModel, MouseButton, NamedKey,
};
use crate::dispatch::{
    spec_click_count, spec_click_plan, spec_plan, ActionModel, INTER_CLICK_DELAY_MS,
};
use crate::dispatch::{lemma_click_plan_count, lemma_click_plan_shape};
use crate::frame::{DocModel, ElemModel};

verus! {

/// Law: a well-formed pointer-move frame, with deltas representable as
/// signed 32-bit integers, decodes to a move command whose dispatch is
/// exactly one move operation carrying those exact values, unmodified.
pub proof fn lemma_mouse_move_frame(dx: i32, dy: i32)
    ensures
        spec_decode(
            DocModel::Arr(
                seq![
                    ElemModel::Str("m"@),
                    ElemModel::Int(dx as i64),
                    ElemModel::Int(dy as i64),
                ],
            ),
        ) == Ok::<CommandModel, CodecError>(CommandModel::MouseMove { dx, dy }),
        spec_plan(CommandModel::MouseMove { dx, dy }) =~= seq![ActionModel::MovePointer { dx, dy }],
{
}

/// Law: a well-formed click frame naming a known button, with count `n` at
/// least one, decodes to a click command whose dispatch performs exactly
/// `n` clicks on the resolved button, click first and click last, with the
/// fixed delay and nothing else between any two consecutive clicks.
pub proof fn lemma_click_frame(name: Seq<char>, button: MouseButton, count: u32)
    requires
        spec_button(name) == Some(button),
    ensures
        spec_decode(
            DocModel::Arr(
                seq![ElemModel::Str("b"@), ElemModel::Str(name), ElemModel::Int(count as i64)],
            ),
        ) == Ok::<CommandModel, CodecError>(CommandModel::ButtonClick { button, count }),
        spec_click_count(spec_plan(CommandModel::ButtonClick { button, count })) == count,
        count >= 1 ==> spec_plan(CommandModel::ButtonClick { button, count }).len() == 2 * count
            - 1,
        forall|i: int|
            0 <= i < spec_plan(CommandModel::ButtonClick { button, count }).len() ==> spec_plan(
                CommandModel::ButtonClick { button, count },
            )[i] == (if i % 2 == 0 {
                ActionModel::ClickButton { button }
            } else {
                ActionModel::Sleep { ms: INTER_CLICK_DELAY_MS }
            }),
{
    reveal_strlit("m");
    reveal_strlit("b");
    assert("m"@[0] == 'm');
    assert("b"@[0] == 'b');
    assert("b"@ != "m"@);
    lemma_click_plan_count(button, count as nat);
    lemma_click_plan_shape(button, count as nat);
}

/// Law: a click frame naming a button outside the closed enumeration is
/// rejected with `UnknownButtonName`; a rejected frame dispatches nothing
/// (see `spec_step`), so no actuator call follows from it.
pub proof fn lemma_unknown_button_frame()
    ensures
        spec_decode(
            DocModel::Arr(seq![ElemModel::Str("b"@), ElemModel::Str("x"@), ElemModel::Int(1)]),
        ) == Err::<CommandModel, CodecError>(CodecError::UnknownButtonName),
{
    reveal_strlit("m");
    reveal_strlit("b");
    reveal_strlit("x");
    reveal_strlit("l");
    reveal_strlit("r");
    assert("m"@[0] == 'm');
    assert("b"@[0] == 'b');
    assert("x"@[0] == 'x');
    assert("l"@[0] == 'l');
    assert("r"@[0] == 'r');
    assert("b"@ != "m"@);
    assert("x"@ != "l"@);
    assert("x"@ != "r"@);
}

/// Law: the wire name `"Delete"` deliberately resolves to the same
/// actuator key identifier as a literal backspace activation — the
/// documented quirk of the protocol, preserved, not corrected.
pub proof fn lemma_delete_maps_to_backspace()
    ensures
        spec_key("Delete"@) == Some(NamedKey::Backspace),
        spec_decode(DocModel::Arr(seq![ElemModel::Str("k"@), ElemModel::Str("Delete"@)])) == Ok::<
            CommandModel,
            CodecError,
        >(CommandModel::KeyPress { key: NamedKey::Backspace }),
        spec_plan(CommandModel::KeyPress { key: NamedKey::Backspace }) =~= seq![
            ActionModel::PressKey { key: NamedKey::Backspace },
        ],
{
    reveal_strlit("m");
    reveal_strlit("b");
    reveal_strlit("w");
    reveal_strlit("t");
    reveal_strlit("k");
    reveal_strlit("Escape");
    reveal_strlit("PageUp");
    reveal_strlit("PageDown");
    reveal_strlit("Delete");
    assert("m"@[0] == 'm');
    assert("b"@[0] == 'b');
    assert("w"@[0] == 'w');
    assert("t"@[0] == 't');
    assert("k"@[0] == 'k');
    assert("k"@ != "m"@);
    assert("k"@ != "b"@);
    assert("k"@ != "w"@);
    assert("k"@ != "t"@);
    assert("Escape"@[0] == 'E');
    assert("PageUp"@[0] == 'P');
    assert("PageDown"@.len() == 8);
    assert("Delete"@[0] == 'D');
    assert("Delete"@.len() == 6);
    assert("Delete"@ != "Escape"@);
    assert("Delete"@ != "PageUp"@);
    assert("Delete"@ != "PageDown"@);
}

/// Law: a heartbeat frame — whatever trails the tag — decodes to the
/// heartbeat command, never an error, and its dispatch performs no
/// actuator operation at all.
pub proof fn lemma_ping_frame(es: Seq<ElemModel>)
    requires
        es.len() >= 1,
        es[0] == ElemModel::Str("ping"@),
    ensures
        spec_decode(DocModel::Arr(es)) == Ok::<CommandModel, CodecError>(CommandModel::Ping),
        spec_plan(CommandModel::Ping) == Seq::<ActionModel>::empty(),
{
    reveal_strlit("m");
    reveal_strlit("b");
    reveal_strlit("w");
    reveal_strlit("t");
    reveal_strlit("k");
    reveal_strlit("ping");
    assert("ping"@.len() == 4);
    assert("m"@.len() == 1);
    assert("b"@.len() == 1);
    assert("w"@.len() == 1);
    assert("t"@.len() == 1);
    assert("k"@.len() == 1);
    assert("ping"@ != "m"@);
    assert("ping"@ != "b"@);
    assert("ping"@ != "w"@);
    assert("ping"@ != "t"@);
    assert("ping"@ != "k"@);
}

} // verus!
