//! What holds of the session handler on every run: the recovery never
//! leaves a key or button behind and never releases one twice, a release
//! that matches nothing goes nowhere, input outside a session changes
//! nothing, an early clipboard request gets no clipboard, and what the
//! handler marks is what the input backend holds down, so that no key
//! sticks once a session is over.

use vstd::prelude::*;
use vstd::seq_lib::*;
use vstd::multiset::*;
use super::emulator::EmulatorCall;
use super::message_handler::{
    button_at, button_index, button_release, button_releases, key_release, key_releases, no_flags,
    release_script, ClientState, EffectView, HandlerModel, ObservationView, Plan,
    ProcessingErrorView, BUTTON_SLOTS, DEBOUNCE_NANOS, KEY_SLOTS,
};
use super::{Button, JerryMessageView, JerryResponseView, Request, State};
use crate::state::CommandView;

verus! {

/// How often an effect occurs in a script.
pub open spec fn occurrences(script: Seq<EffectView>, effect: EffectView) -> nat {
    script.to_multiset().count(effect)
}

/// The call that releases a key.
pub open spec fn key_up_call(key: u32) -> EffectView {
    EffectView::Emulate(EmulatorCall::KeyUp(key))
}

/// The notice that a key was released by force.
pub open spec fn key_up_notice(key: u32) -> EffectView {
    EffectView::Publish(
        CommandView::MessageCorrective(JerryMessageView::Key(key, State::RELEASED)),
    )
}

/// The call that releases a button.
pub open spec fn button_up_call(button: Button) -> EffectView {
    EffectView::Emulate(EmulatorCall::MouseUp(button))
}

/// The notice that a button was released by force.
pub open spec fn button_up_notice(button: Button) -> EffectView {
    EffectView::Publish(
        CommandView::MessageCorrective(JerryMessageView::MouseClick(button, State::RELEASED)),
    )
}

/// Whether a key is marked in a table of pressed keys.
pub open spec fn key_held(pressed: Seq<bool>, key: u32) -> bool {
    key < pressed.len() && pressed[key as int]
}

proof fn lemma_triple_count(a: EffectView, b: EffectView, c: EffectView, e: EffectView)
    ensures
        occurrences(seq![a, b, c], e) == (if a == e {
            1nat
        } else {
            0
        }) + (if b == e {
            1nat
        } else {
            0
        }) + (if c == e {
            1nat
        } else {
            0
        }),
{
    broadcast use group_to_multiset_ensures;
    broadcast use group_multiset_axioms;

    let s0 = Seq::<EffectView>::empty();
    assert(seq![a, b, c] =~= s0.push(a).push(b).push(c));
    assert(s0.to_multiset() =~= Multiset::<EffectView>::empty());
}

proof fn lemma_key_releases_count(pressed: Seq<bool>, count: nat, e: EffectView)
    requires
        count <= pressed.len(),
        count <= KEY_SLOTS,
    ensures
        forall|key: u32|
            e == key_up_call(key) || e == key_up_notice(key) ==> occurrences(
                key_releases(pressed, count),
                e,
            ) == (if key < count && pressed[key as int] {
                1nat
            } else {
                0
            }),
        forall|button: Button|
            e == button_up_call(button) || e == button_up_notice(button) ==> occurrences(
                key_releases(pressed, count),
                e,
            ) == 0,
    decreases count,
{
    broadcast use group_to_multiset_ensures;
    broadcast use group_multiset_axioms;

    if count == 0 {
        assert(key_releases(pressed, count).to_multiset() =~= Multiset::<EffectView>::empty());
    } else {
        let before = key_releases(pressed, (count - 1) as nat);
        lemma_key_releases_count(pressed, (count - 1) as nat, e);
        if pressed[count - 1] {
            let last = key_release(count - 1);
            lemma_multiset_commutative(before, last);
            lemma_triple_count(last[0], last[1], last[2], e);
            assert(last =~= seq![last[0], last[1], last[2]]);
        }
    }
}

proof fn lemma_button_releases_count(buttons: Seq<bool>, count: nat, e: EffectView)
    requires
        count <= buttons.len(),
        count <= BUTTON_SLOTS,
    ensures
        forall|button: Button|
            e == button_up_call(button) || e == button_up_notice(button) ==> occurrences(
                button_releases(buttons, count),
                e,
            ) == (if button_index(button) < count && buttons[button_index(button)] {
                1nat
            } else {
                0
            }),
        forall|key: u32|
            e == key_up_call(key) || e == key_up_notice(key) ==> occurrences(
                button_releases(buttons, count),
                e,
            ) == 0,
    decreases count,
{
    broadcast use group_to_multiset_ensures;
    broadcast use group_multiset_axioms;

    if count == 0 {
        assert(button_releases(buttons, count).to_multiset() =~= Multiset::<EffectView>::empty());
    } else {
        let before = button_releases(buttons, (count - 1) as nat);
        lemma_button_releases_count(buttons, (count - 1) as nat, e);
        if buttons[count - 1] {
            let last = button_release(count - 1);
            lemma_multiset_commutative(before, last);
            lemma_triple_count(last[0], last[1], last[2], e);
            assert(last =~= seq![last[0], last[1], last[2]]);
        }
    }
}

/// Recovery releases every key that is held down exactly once, with exactly
/// one notice, and asks nothing for a key that is not held down.
pub proof fn lemma_recovery_releases_held_keys_once(
    pressed: Seq<bool>,
    buttons: Seq<bool>,
    key: u32,
)
    requires
        pressed.len() == KEY_SLOTS,
        buttons.len() == BUTTON_SLOTS,
    ensures
        occurrences(release_script(pressed, buttons), key_up_call(key)) == (if key_held(
            pressed,
            key,
        ) {
            1nat
        } else {
            0
        }),
        occurrences(release_script(pressed, buttons), key_up_notice(key)) == (if key_held(
            pressed,
            key,
        ) {
            1nat
        } else {
            0
        }),
{
    broadcast use group_multiset_axioms;

    let keys = key_releases(pressed, KEY_SLOTS as nat);
    let rest = button_releases(buttons, BUTTON_SLOTS as nat);
    lemma_multiset_commutative(keys, rest);
    lemma_key_releases_count(pressed, KEY_SLOTS as nat, key_up_call(key));
    lemma_key_releases_count(pressed, KEY_SLOTS as nat, key_up_notice(key));
    lemma_button_releases_count(buttons, BUTTON_SLOTS as nat, key_up_call(key));
    lemma_button_releases_count(buttons, BUTTON_SLOTS as nat, key_up_notice(key));
}

/// Recovery releases every button that is held down exactly once, with
/// exactly one notice, and asks nothing for a button that is not held down.
pub proof fn lemma_recovery_releases_held_buttons_once(
    pressed: Seq<bool>,
    buttons: Seq<bool>,
    button: Button,
)
    requires
        pressed.len() == KEY_SLOTS,
        buttons.len() == BUTTON_SLOTS,
    ensures
        occurrences(release_script(pressed, buttons), button_up_call(button)) == (
        if buttons[button_index(button)] {
            1nat
        } else {
            0
        }),
        occurrences(release_script(pressed, buttons), button_up_notice(button)) == (
        if buttons[button_index(button)] {
            1nat
        } else {
            0
        }),
{
    broadcast use group_multiset_axioms;

    let keys = key_releases(pressed, KEY_SLOTS as nat);
    let rest = button_releases(buttons, BUTTON_SLOTS as nat);
    lemma_multiset_commutative(keys, rest);
    lemma_key_releases_count(pressed, KEY_SLOTS as nat, button_up_call(button));
    lemma_key_releases_count(pressed, KEY_SLOTS as nat, button_up_notice(button));
    lemma_button_releases_count(buttons, BUTTON_SLOTS as nat, button_up_call(button));
    lemma_button_releases_count(buttons, BUTTON_SLOTS as nat, button_up_notice(button));
}


proof fn lemma_key_releases_ascend(pressed: Seq<bool>, count: nat, i: int, j: int)
    requires
        count <= pressed.len(),
        count <= KEY_SLOTS,
        0 <= i <= j < key_releases(pressed, count).len(),
    ensures
        forall|b: u32| key_releases(pressed, count)[j] == key_up_call(b) ==> b < count,
        forall|a: u32, b: u32|
            i < j && key_releases(pressed, count)[i] == key_up_call(a) && key_releases(
                pressed,
                count,
            )[j] == key_up_call(b) ==> a < b,
        forall|x: Button| key_releases(pressed, count)[j] != button_up_call(x),
    decreases count,
{
    if count > 0 {
        let before = key_releases(pressed, (count - 1) as nat);
        if j < before.len() {
            lemma_key_releases_ascend(pressed, (count - 1) as nat, i, j);
        } else if i < before.len() {
            lemma_key_releases_ascend(pressed, (count - 1) as nat, i, i);
        }
    }
}

proof fn lemma_button_releases_ascend(buttons: Seq<bool>, count: nat, i: int, j: int)
    requires
        count <= buttons.len(),
        count <= BUTTON_SLOTS,
        0 <= i <= j < button_releases(buttons, count).len(),
    ensures
        forall|y: Button|
            button_releases(buttons, count)[j] == button_up_call(y) ==> button_index(y) < count,
        forall|x: Button, y: Button|
            i < j && button_releases(buttons, count)[i] == button_up_call(x) && button_releases(
                buttons,
                count,
            )[j] == button_up_call(y) ==> button_index(x) < button_index(y),
        forall|b: u32| button_releases(buttons, count)[j] != key_up_call(b),
    decreases count,
{
    if count > 0 {
        let before = button_releases(buttons, (count - 1) as nat);
        if j < before.len() {
            lemma_button_releases_ascend(buttons, (count - 1) as nat, i, j);
        } else if i < before.len() {
            lemma_button_releases_ascend(buttons, (count - 1) as nat, i, i);
        }
    }
}

/// Recovery goes through the keys in ascending order of their codes, and
/// only then through the buttons, in ascending order of their slots.
pub proof fn lemma_recovery_is_ascending(pressed: Seq<bool>, buttons: Seq<bool>, i: int, j: int)
    requires
        pressed.len() == KEY_SLOTS,
        buttons.len() == BUTTON_SLOTS,
        0 <= i < j < release_script(pressed, buttons).len(),
    ensures
        forall|a: u32, b: u32|
            release_script(pressed, buttons)[i] == key_up_call(a) && release_script(
                pressed,
                buttons,
            )[j] == key_up_call(b) ==> a < b,
        forall|x: Button, y: Button|
            release_script(pressed, buttons)[i] == button_up_call(x) && release_script(
                pressed,
                buttons,
            )[j] == button_up_call(y) ==> button_index(x) < button_index(y),
        forall|x: Button, b: u32|
            !(release_script(pressed, buttons)[i] == button_up_call(x) && release_script(
                pressed,
                buttons,
            )[j] == key_up_call(b)),
{
    let keys = key_releases(pressed, KEY_SLOTS as nat);
    let rest = button_releases(buttons, BUTTON_SLOTS as nat);
    if j < keys.len() {
        lemma_key_releases_ascend(pressed, KEY_SLOTS as nat, i, j);
        lemma_key_releases_ascend(pressed, KEY_SLOTS as nat, i, i);
    } else if i < keys.len() {
        lemma_key_releases_ascend(pressed, KEY_SLOTS as nat, i, i);
        lemma_button_releases_ascend(
            buttons,
            BUTTON_SLOTS as nat,
            j - keys.len(),
            j - keys.len(),
        );
    } else {
        lemma_button_releases_ascend(
            buttons,
            BUTTON_SLOTS as nat,
            i - keys.len(),
            j - keys.len(),
        );
    }
}

proof fn lemma_no_keys_no_releases(count: nat)
    requires
        count <= KEY_SLOTS,
    ensures
        key_releases(no_flags(KEY_SLOTS as nat), count) == Seq::<EffectView>::empty(),
    decreases count,
{
    if count > 0 {
        lemma_no_keys_no_releases((count - 1) as nat);
    }
}

proof fn lemma_no_buttons_no_releases(count: nat)
    requires
        count <= BUTTON_SLOTS,
    ensures
        button_releases(no_flags(BUTTON_SLOTS as nat), count) == Seq::<EffectView>::empty(),
    decreases count,
{
    if count > 0 {
        lemma_no_buttons_no_releases((count - 1) as nat);
    }
}

/// Once everything is released, a further recovery asks for nothing: not
/// after the end of a session, and not after the loss of the channel.
pub proof fn lemma_nothing_left_after_recovery(m: HandlerModel, seen: ObservationView)
    requires
        m.wf(),
    ensures
        release_script(m.released().pressed, m.released().buttons) == Seq::<EffectView>::empty(),
        release_script(m.after_channel_loss().pressed, m.after_channel_loss().buttons) == Seq::<
            EffectView,
        >::empty(),
        release_script(
            m.after(JerryMessageView::SessionEnd, seen).pressed,
            m.after(JerryMessageView::SessionEnd, seen).buttons,
        ) == Seq::<EffectView>::empty(),
        m.state != ClientState::Active ==> release_script(m.pressed, m.buttons) == Seq::<
            EffectView,
        >::empty(),
{
    lemma_no_keys_no_releases(KEY_SLOTS as nat);
    lemma_no_buttons_no_releases(BUTTON_SLOTS as nat);
}

/// A message that meets a closed channel. Whatever the message was, the
/// recovery that follows it releases every key and every button that is
/// marked by then exactly once and nothing else, nothing is marked
/// afterwards, and the handler is finished. A message that is neither a key
/// nor a button message and neither begins nor ends a session leaves the
/// marks as they were, so that what is released is what was held down
/// before it.
pub proof fn lemma_closed_channel_releases_everything(
    m: HandlerModel,
    msg: JerryMessageView,
    seen: ObservationView,
    key: u32,
    button: Button,
)
    requires
        m.wf(),
    ensures
        ({
            let then = m.after(msg, seen);
            let script = release_script(then.pressed, then.buttons);
            let end = then.after_channel_loss();
            &&& end.finished
            &&& end.wf()
            &&& occurrences(script, key_up_call(key)) == (if key_held(then.pressed, key) {
                1nat
            } else {
                0
            })
            &&& occurrences(script, button_up_call(button)) == (
            if then.buttons[button_index(button)] {
                1nat
            } else {
                0
            })
            &&& release_script(end.pressed, end.buttons) == Seq::<EffectView>::empty()
            &&& !(msg is Key) && !(msg is MouseClick) && !(msg is SessionBegin) && !(msg
                is SessionEnd) ==> then.pressed == m.pressed && then.buttons == m.buttons
        }),
{
    let then = m.after(msg, seen);
    lemma_after_keeps_wf(m, msg, seen);
    lemma_after_keeps_wf(then, msg, seen);
    lemma_recovery_releases_held_keys_once(then.pressed, then.buttons, key);
    lemma_recovery_releases_held_buttons_once(then.pressed, then.buttons, button);
    lemma_nothing_left_after_recovery(then, seen);
}

/// Every message leaves the handler in a state that is well formed.
pub proof fn lemma_after_keeps_wf(m: HandlerModel, msg: JerryMessageView, seen: ObservationView)
    requires
        m.wf(),
    ensures
        m.after(msg, seen).wf(),
        m.after_channel_loss().wf(),
{
}

/// The state after a run of messages, each with what was observed for it.
pub open spec fn after_all(
    m: HandlerModel,
    steps: Seq<(JerryMessageView, ObservationView)>,
) -> HandlerModel
    decreases steps.len(),
{
    if steps.len() == 0 {
        m
    } else {
        after_all(m, steps.drop_last()).after(steps.last().0, steps.last().1)
    }
}

/// Whether a message presses a key or a button.
pub open spec fn is_press(msg: JerryMessageView) -> bool {
    ||| msg matches JerryMessageView::Key(_, State::PRESSED)
    ||| msg matches JerryMessageView::MouseClick(_, State::PRESSED)
}

/// Whether a run of messages presses the key.
pub open spec fn presses_key(steps: Seq<(JerryMessageView, ObservationView)>, key: u32) -> bool {
    exists|i: int|
        0 <= i < steps.len() && (#[trigger] steps[i]).0 == JerryMessageView::Key(
            key,
            State::PRESSED,
        )
}

/// Whether a run of messages presses the button.
pub open spec fn presses_button(
    steps: Seq<(JerryMessageView, ObservationView)>,
    button: Button,
) -> bool {
    exists|i: int|
        0 <= i < steps.len() && (#[trigger] steps[i]).0 == JerryMessageView::MouseClick(
            button,
            State::PRESSED,
        )
}

proof fn lemma_presses_mark(m: HandlerModel, steps: Seq<(JerryMessageView, ObservationView)>)
    requires
        m.wf(),
        m.state == ClientState::Active,
        m.pressed == no_flags(KEY_SLOTS as nat),
        m.buttons == no_flags(BUTTON_SLOTS as nat),
        forall|i: int|
            0 <= i < steps.len() ==> is_press((#[trigger] steps[i]).0) && steps[i].1.emulation
                is Ok,
    ensures
        after_all(m, steps).wf(),
        after_all(m, steps).state == ClientState::Active,
        forall|key: u32|
            key_held(after_all(m, steps).pressed, key) <==> key < KEY_SLOTS && presses_key(
                steps,
                key,
            ),
        forall|button: Button|
            after_all(m, steps).buttons[button_index(button)] <==> presses_button(steps, button),
    decreases steps.len(),
{
    if steps.len() > 0 {
        let earlier = steps.drop_last();
        let last = steps.last();
        lemma_presses_mark(m, earlier);
        let mid = after_all(m, earlier);
        let end = after_all(m, steps);
        assert(is_press(steps[steps.len() - 1].0));
        assert forall|key: u32|
            key_held(end.pressed, key) <==> key < KEY_SLOTS && presses_key(steps, key) by {
            if presses_key(earlier, key) {
                let i = choose|i: int|
                    0 <= i < earlier.len() && (#[trigger] earlier[i]).0 == JerryMessageView::Key(
                        key,
                        State::PRESSED,
                    );
                assert(steps[i] == earlier[i]);
            }
            if presses_key(steps, key) {
                let i = choose|i: int|
                    0 <= i < steps.len() && (#[trigger] steps[i]).0 == JerryMessageView::Key(
                        key,
                        State::PRESSED,
                    );
                if i < earlier.len() {
                    assert(earlier[i] == steps[i]);
                }
            }
        }
        assert forall|button: Button|
            end.buttons[button_index(button)] <==> presses_button(steps, button) by {
            if presses_button(earlier, button) {
                let i = choose|i: int|
                    0 <= i < earlier.len() && (#[trigger] earlier[i]).0
                        == JerryMessageView::MouseClick(button, State::PRESSED);
                assert(steps[i] == earlier[i]);
            }
            if presses_button(steps, button) {
                let i = choose|i: int|
                    0 <= i < steps.len() && (#[trigger] steps[i]).0
                        == JerryMessageView::MouseClick(button, State::PRESSED);
                if i < earlier.len() {
                    assert(earlier[i] == steps[i]);
                }
            }
        }
    }
}

/// After any run of presses that the backend carried out in a session that
/// began with nothing held down, recovery releases each key and each button
/// that was pressed exactly once and asks for no other release. This is the
/// script that the end of the session and the loss of the command channel
/// both hand out.
pub proof fn lemma_presses_are_released_once(
    m: HandlerModel,
    steps: Seq<(JerryMessageView, ObservationView)>,
    key: u32,
    button: Button,
)
    requires
        m.wf(),
        m.state == ClientState::Active,
        m.pressed == no_flags(KEY_SLOTS as nat),
        m.buttons == no_flags(BUTTON_SLOTS as nat),
        forall|i: int|
            0 <= i < steps.len() ==> is_press((#[trigger] steps[i]).0) && steps[i].1.emulation
                is Ok,
    ensures
        ({
            let end = after_all(m, steps);
            let script = release_script(end.pressed, end.buttons);
            &&& occurrences(script, key_up_call(key)) == (if key < KEY_SLOTS && presses_key(
                steps,
                key,
            ) {
                1nat
            } else {
                0
            })
            &&& occurrences(script, button_up_call(button)) == (if presses_button(steps, button) {
                1nat
            } else {
                0
            })
            &&& end.side_effects(JerryMessageView::SessionEnd) == end.end_effects()
            &&& end.end_effects().subrange(0, script.len() as int) == script
        }),
{
    lemma_presses_mark(m, steps);
    let end = after_all(m, steps);
    lemma_recovery_releases_held_keys_once(end.pressed, end.buttons, key);
    lemma_recovery_releases_held_buttons_once(end.pressed, end.buttons, button);
    let script = release_script(end.pressed, end.buttons);
    assert(end.end_effects().subrange(0, script.len() as int) =~= script);
}

/// A release for a key that is not held down, because it was never pressed
/// or was released already, is discarded: no call on the backend is planned,
/// no flag changes, and nothing but the message itself is published.
pub proof fn lemma_unmatched_key_up_is_rejected(m: HandlerModel, key: u32, seen: ObservationView)
    requires
        m.wf(),
        !key_held(m.pressed, key),
    ensures
        ({
            let msg = JerryMessageView::Key(key, State::RELEASED);
            &&& m.planned_call(msg) is None
            &&& m.plan(msg, seen.now) == Plan::Proceed
            &&& m.result_of(msg, seen) == Err::<(), ProcessingErrorView>(
                ProcessingErrorView::UnexpectedMessageDiscarded,
            )
            &&& m.after(msg, seen) == m
            &&& m.effects_of(msg) == seq![EffectView::Publish(CommandView::Message(msg))]
            &&& m.response_to(msg, seen) is None
        }),
{
    let msg = JerryMessageView::Key(key, State::RELEASED);
    assert(m.effects_of(msg) =~= seq![EffectView::Publish(CommandView::Message(msg))]);
}

/// Once the backend has released a key, the key is no longer held down, so
/// that a second release is discarded.
pub proof fn lemma_key_up_clears_the_key(m: HandlerModel, key: u32, seen: ObservationView)
    requires
        m.wf(),
        m.planned_call(JerryMessageView::Key(key, State::RELEASED)) is Some,
        seen.emulation is Ok,
    ensures
        !key_held(m.after(JerryMessageView::Key(key, State::RELEASED), seen).pressed, key),
        m.after(JerryMessageView::Key(key, State::RELEASED), seen).planned_call(
            JerryMessageView::Key(key, State::RELEASED),
        ) is None,
{
}

/// Input that arrives while no session is active is discarded: no call on
/// the backend is planned, the state stays as it is, and nothing but the
/// message itself is published.
pub proof fn lemma_input_outside_session_is_discarded(
    m: HandlerModel,
    msg: JerryMessageView,
    seen: ObservationView,
)
    requires
        HandlerModel::is_input(msg),
        m.state != ClientState::Active,
    ensures
        m.plan(msg, seen.now) == Plan::Proceed,
        m.result_of(msg, seen) == Err::<(), ProcessingErrorView>(
            ProcessingErrorView::UnexpectedMessageDiscarded,
        ),
        m.after(msg, seen) == m,
        m.effects_of(msg) == seq![EffectView::Publish(CommandView::Message(msg))],
        m.response_to(msg, seen) is None,
{
    assert(m.effects_of(msg) =~= seq![EffectView::Publish(CommandView::Message(msg))]);
}

/// Whether the message is input that a session takes whatever is held
/// down: a move, a wheel turn, the press of a tracked key or of a button.
pub open spec fn is_unconditional_input(msg: JerryMessageView) -> bool {
    ||| msg is MouseMove
    ||| msg is MouseWheel
    ||| msg matches JerryMessageView::Key(key, State::PRESSED) && key < KEY_SLOTS
    ||| msg matches JerryMessageView::MouseClick(_, State::PRESSED)
}

/// The same input, once a session has begun, is handed to the backend, and
/// what the backend answers is what becomes of the message.
pub proof fn lemma_input_in_session_is_applied(
    m: HandlerModel,
    relative_move: bool,
    begin: ObservationView,
    msg: JerryMessageView,
    seen: ObservationView,
)
    requires
        m.wf(),
        m.state != ClientState::Active,
        is_unconditional_input(msg),
    ensures
        ({
            let session = m.after(JerryMessageView::SessionBegin { relative_move }, begin);
            &&& session.state == ClientState::Active
            &&& session.planned_call(msg) is Some
            &&& session.plan(msg, seen.now) == Plan::Emulate(session.planned_call(msg)->0)
            &&& session.result_of(msg, seen) == seen.emulation
            &&& seen.emulation is Ok ==> (forall|key: u32|
                msg == JerryMessageView::Key(key, State::PRESSED) ==> key_held(
                    session.after(msg, seen).pressed,
                    key,
                ))
            &&& seen.emulation is Ok ==> (forall|button: Button|
                msg == JerryMessageView::MouseClick(button, State::PRESSED) ==> session.after(
                    msg,
                    seen,
                ).buttons[button_index(button)])
        }),
{
}

/// A clipboard request that comes less than half a second into the session
/// reads no clipboard and is answered with the empty "no response"; a later
/// one is answered with the clipboard text, where there is one.
pub proof fn lemma_clipboard_request_is_debounced(m: HandlerModel, seen: ObservationView)
    ensures
        ({
            let msg = JerryMessageView::Request(Request::CLIPBOARD);
            &&& m.age(seen.now) < DEBOUNCE_NANOS ==> m.plan(msg, seen.now) == Plan::Proceed
                && m.response_to(msg, seen) == Some(
                JerryResponseView::NoResponse(Seq::<char>::empty()),
            )
            &&& m.age(seen.now) >= DEBOUNCE_NANOS ==> m.plan(msg, seen.now) == Plan::ReadClipboard
                && (forall|text: Seq<char>|
                seen.clipboard == Some(text) ==> m.response_to(msg, seen) == Some(
                    JerryResponseView::Clipboard(text, false),
                )) && (seen.clipboard is None ==> m.response_to(msg, seen) == Some(
                JerryResponseView::NoResponse(Seq::<char>::empty()),
            ))
            &&& m.after(msg, seen) == m
        }),
{
}


/// What an input backend holds down.
pub struct Held {
    pub keys: Set<u32>,
    pub buttons: Set<Button>,
}

/// What a backend holds down once it has done as it was asked.
pub open spec fn held_after(held: Held, call: EmulatorCall) -> Held {
    match call {
        EmulatorCall::KeyDown(key) => Held { keys: held.keys.insert(key), ..held },
        EmulatorCall::KeyUp(key) => Held { keys: held.keys.remove(key), ..held },
        EmulatorCall::MouseDown(button) => Held { buttons: held.buttons.insert(button), ..held },
        EmulatorCall::MouseUp(button) => Held { buttons: held.buttons.remove(button), ..held },
        _ => held,
    }
}

/// What a backend holds down once the effects of a script were carried out
/// and the backend has done everything it was asked for.
pub open spec fn held_after_script(held: Held, script: Seq<EffectView>) -> Held
    decreases script.len(),
{
    if script.len() == 0 {
        held
    } else {
        let before = held_after_script(held, script.drop_last());
        match script.last() {
            EffectView::Emulate(call) => held_after(before, call),
            _ => before,
        }
    }
}

/// What a backend holds down after a message: the call that was planned
/// for the message, where the backend made it, and then the effects of the
/// message.
pub open spec fn held_after_message(
    m: HandlerModel,
    held: Held,
    msg: JerryMessageView,
    seen: ObservationView,
) -> Held {
    let called = match m.planned_call(msg) {
        Some(call) => if seen.emulation is Ok {
            held_after(held, call)
        } else {
            held
        },
        None => held,
    };
    held_after_script(called, m.effects_of(msg))
}

/// The keys that are marked among the first `count` codes.
pub open spec fn marked_keys(pressed: Seq<bool>, count: nat) -> Set<u32> {
    Set::new(|key: u32| key < count && key < pressed.len() && pressed[key as int])
}

/// The buttons that are marked among the first `count` slots.
pub open spec fn marked_buttons(buttons: Seq<bool>, count: nat) -> Set<Button> {
    Set::new(|button: Button| button_index(button) < count && buttons[button_index(button)])
}

/// Whether the handler marks exactly what the backend holds down.
pub open spec fn agrees(m: HandlerModel, held: Held) -> bool {
    &&& held.keys == marked_keys(m.pressed, KEY_SLOTS as nat)
    &&& held.buttons == marked_buttons(m.buttons, BUTTON_SLOTS as nat)
}

proof fn lemma_script_in_parts(held: Held, first: Seq<EffectView>, second: Seq<EffectView>)
    ensures
        held_after_script(held, first + second) == held_after_script(
            held_after_script(held, first),
            second,
        ),
    decreases second.len(),
{
    if second.len() == 0 {
        assert(first + second =~= first);
    } else {
        lemma_script_in_parts(held, first, second.drop_last());
        assert((first + second).drop_last() =~= first + second.drop_last());
    }
}

proof fn lemma_release_of_one(held: Held, release: Seq<EffectView>, call: EmulatorCall)
    requires
        release.len() == 3,
        release[0] == EffectView::Emulate(call),
        release[1] is Publish,
        release[2] is Pause,
    ensures
        held_after_script(held, release) == held_after(held, call),
{
    let two = release.drop_last();
    let one = two.drop_last();
    assert(one.drop_last() =~= Seq::<EffectView>::empty());
    assert(held_after_script(held, one.drop_last()) == held);
    assert(held_after_script(held, one) == held_after(held, call));
    assert(held_after_script(held, two) == held_after(held, call));
}

proof fn lemma_keys_released(held: Held, pressed: Seq<bool>, count: nat)
    requires
        count <= pressed.len(),
        count <= KEY_SLOTS,
    ensures
        held_after_script(held, key_releases(pressed, count)) == (Held {
            keys: held.keys.difference(marked_keys(pressed, count)),
            ..held
        }),
    decreases count,
{
    let after = held_after_script(held, key_releases(pressed, count));
    if count == 0 {
        assert(held.keys.difference(marked_keys(pressed, count)) =~= held.keys);
    } else {
        let before = key_releases(pressed, (count - 1) as nat);
        let earlier = held_after_script(held, before);
        lemma_keys_released(held, pressed, (count - 1) as nat);
        if pressed[count - 1] {
            let last = key_release(count - 1);
            lemma_script_in_parts(held, before, last);
            lemma_release_of_one(earlier, last, EmulatorCall::KeyUp((count - 1) as u32));
            assert(after.keys =~= held.keys.difference(marked_keys(pressed, count)));
        } else {
            assert(marked_keys(pressed, count) =~= marked_keys(pressed, (count - 1) as nat));
        }
    }
}

proof fn lemma_buttons_released(held: Held, buttons: Seq<bool>, count: nat)
    requires
        count <= buttons.len(),
        count <= BUTTON_SLOTS,
    ensures
        held_after_script(held, button_releases(buttons, count)) == (Held {
            buttons: held.buttons.difference(marked_buttons(buttons, count)),
            ..held
        }),
    decreases count,
{
    let after = held_after_script(held, button_releases(buttons, count));
    if count == 0 {
        assert(held.buttons.difference(marked_buttons(buttons, count)) =~= held.buttons);
    } else {
        let before = button_releases(buttons, (count - 1) as nat);
        let earlier = held_after_script(held, before);
        lemma_buttons_released(held, buttons, (count - 1) as nat);
        if buttons[count - 1] {
            let last = button_release(count - 1);
            lemma_script_in_parts(held, before, last);
            lemma_release_of_one(earlier, last, EmulatorCall::MouseUp(button_at(count - 1)));
            assert(button_index(button_at(count - 1)) == count - 1);
            assert(after.buttons =~= held.buttons.difference(marked_buttons(buttons, count)));
        } else {
            assert(marked_buttons(buttons, count) =~= marked_buttons(
                buttons,
                (count - 1) as nat,
            ));
        }
    }
}

/// Recovery leaves nothing held that the handler had marked: once the
/// script is carried out by a backend that does as it is asked, the backend
/// holds what it held before, less every key and button that was marked.
pub proof fn lemma_recovery_lets_go(held: Held, pressed: Seq<bool>, buttons: Seq<bool>)
    requires
        pressed.len() == KEY_SLOTS,
        buttons.len() == BUTTON_SLOTS,
    ensures
        held_after_script(held, release_script(pressed, buttons)) == (Held {
            keys: held.keys.difference(marked_keys(pressed, KEY_SLOTS as nat)),
            buttons: held.buttons.difference(marked_buttons(buttons, BUTTON_SLOTS as nat)),
        }),
{
    let keys = key_releases(pressed, KEY_SLOTS as nat);
    let rest = button_releases(buttons, BUTTON_SLOTS as nat);
    lemma_script_in_parts(held, keys, rest);
    lemma_keys_released(held, pressed, KEY_SLOTS as nat);
    lemma_buttons_released(held_after_script(held, keys), buttons, BUTTON_SLOTS as nat);
}

proof fn lemma_published_holds_nothing(held: Held, script: Seq<EffectView>, last: EffectView)
    requires
        !(last is Emulate),
    ensures
        held_after_script(held, script.push(last)) == held_after_script(held, script),
{
    assert(script.push(last).drop_last() =~= script);
}

proof fn lemma_nothing_marked()
    ensures
        marked_keys(no_flags(KEY_SLOTS as nat), KEY_SLOTS as nat) == Set::<u32>::empty(),
        marked_buttons(no_flags(BUTTON_SLOTS as nat), BUTTON_SLOTS as nat) == Set::<
            Button,
        >::empty(),
{
    assert(marked_keys(no_flags(KEY_SLOTS as nat), KEY_SLOTS as nat) =~= Set::<u32>::empty());
    assert(marked_buttons(no_flags(BUTTON_SLOTS as nat), BUTTON_SLOTS as nat) =~= Set::<
        Button,
    >::empty());
}

/// The handler's marks follow the backend. As long as the backend does what
/// it answers for, and carries out the releases it is asked for, the handler
/// marks exactly what the backend holds down, after every message.
pub proof fn lemma_marks_follow_the_backend(
    m: HandlerModel,
    held: Held,
    msg: JerryMessageView,
    seen: ObservationView,
)
    requires
        m.wf(),
        agrees(m, held),
    ensures
        agrees(m.after(msg, seen), held_after_message(m, held, msg, seen)),
{
    let effects = m.side_effects(msg);
    let published = EffectView::Publish(CommandView::Message(msg));
    let called = match m.planned_call(msg) {
        Some(call) => if seen.emulation is Ok {
            held_after(held, call)
        } else {
            held
        },
        None => held,
    };
    let after = held_after_message(m, held, msg, seen);
    let next = m.after(msg, seen);
    lemma_published_holds_nothing(called, effects, published);
    lemma_nothing_marked();
    match msg {
        JerryMessageView::SessionEnd => {
            if m.state == ClientState::Active {
                let script = release_script(m.pressed, m.buttons);
                lemma_recovery_lets_go(held, m.pressed, m.buttons);
                match m.clipboard_client {
                    Some(text) => {
                        lemma_published_holds_nothing(
                            held,
                            script,
                            EffectView::SetClipboard(text),
                        );
                        assert(effects =~= script.push(EffectView::SetClipboard(text)));
                    },
                    None => {
                        assert(effects =~= script);
                    },
                }
                assert(after.keys =~= Set::<u32>::empty());
                assert(after.buttons =~= Set::<Button>::empty());
            }
        },
        JerryMessageView::Handshake(result, reason) => {
            let none = Seq::<EffectView>::empty();
            let first = effects[0];
            lemma_published_holds_nothing(held, none, first);
            if effects.len() == 2 {
                lemma_published_holds_nothing(held, none.push(first), effects[1]);
                assert(effects =~= none.push(first).push(effects[1]));
            } else {
                assert(effects =~= none.push(first));
            }
        },
        JerryMessageView::Clipboard(content, files) => {
            if !files {
                let none = Seq::<EffectView>::empty();
                lemma_published_holds_nothing(held, none, effects[0]);
                assert(effects =~= none.push(effects[0]));
            }
        },
        JerryMessageView::Key(key, motion) => {
            assert(after.keys =~= marked_keys(next.pressed, KEY_SLOTS as nat));
        },
        JerryMessageView::MouseClick(button, motion) => {
            assert(after.buttons =~= marked_buttons(next.buttons, BUTTON_SLOTS as nat));
        },
        _ => {},
    }
}

/// Once a session has ended and its effects are carried out, the backend
/// holds nothing down, provided it did as it was asked. The same holds once
/// the recovery after the loss of the command channel is carried out.
pub proof fn lemma_nothing_is_held_after_the_session(
    m: HandlerModel,
    held: Held,
    seen: ObservationView,
)
    requires
        m.wf(),
        agrees(m, held),
        m.state == ClientState::Active,
    ensures
        held_after_message(m, held, JerryMessageView::SessionEnd, seen) == (Held {
            keys: Set::empty(),
            buttons: Set::empty(),
        }),
        held_after_script(held, release_script(m.pressed, m.buttons)) == (Held {
            keys: Set::empty(),
            buttons: Set::empty(),
        }),
        agrees(m.after_channel_loss(), held_after_script(held, release_script(m.pressed, m.buttons))),
{
    lemma_marks_follow_the_backend(m, held, JerryMessageView::SessionEnd, seen);
    lemma_recovery_lets_go(held, m.pressed, m.buttons);
    lemma_nothing_marked();
    let let_go = held_after_script(held, release_script(m.pressed, m.buttons));
    assert(let_go.keys =~= Set::<u32>::empty());
    assert(let_go.buttons =~= Set::<Button>::empty());
}


/// What the backend holds down after a run of messages, each with what was
/// observed for it.
pub open spec fn held_after_all(
    m: HandlerModel,
    held: Held,
    steps: Seq<(JerryMessageView, ObservationView)>,
) -> Held
    decreases steps.len(),
{
    if steps.len() == 0 {
        held
    } else {
        held_after_message(
            after_all(m, steps.drop_last()),
            held_after_all(m, held, steps.drop_last()),
            steps.last().0,
            steps.last().1,
        )
    }
}

/// No key sticks. Whatever the server sends, in whatever order, and
/// whichever calls the backend refuses: as long as the backend does what it
/// answers for, the handler marks what the backend holds down, and whenever
/// no session is active the backend holds nothing.
pub proof fn lemma_nothing_sticks(
    m: HandlerModel,
    held: Held,
    steps: Seq<(JerryMessageView, ObservationView)>,
)
    requires
        m.wf(),
        agrees(m, held),
    ensures
        after_all(m, steps).wf(),
        agrees(after_all(m, steps), held_after_all(m, held, steps)),
        after_all(m, steps).state != ClientState::Active ==> held_after_all(m, held, steps) == (
        Held { keys: Set::empty(), buttons: Set::empty() }),
    decreases steps.len(),
{
    lemma_nothing_marked();
    if steps.len() > 0 {
        let earlier = steps.drop_last();
        lemma_nothing_sticks(m, held, earlier);
        lemma_after_keeps_wf(after_all(m, earlier), steps.last().0, steps.last().1);
        lemma_marks_follow_the_backend(
            after_all(m, earlier),
            held_after_all(m, held, earlier),
            steps.last().0,
            steps.last().1,
        );
    }
    let end = after_all(m, steps);
    let left = held_after_all(m, held, steps);
    if end.state != ClientState::Active {
        assert(left.keys =~= Set::<u32>::empty());
        assert(left.buttons =~= Set::<Button>::empty());
    }
}

} // verus!
