//! What holds of the controller over whole runs, proved from the
//! transition of a single action.

use vstd::prelude::*;
use crate::action::ActionView;
use crate::app::routed;
use crate::components::chat_window::{max_scroll, resolved_offset, ScrollTarget};
use crate::components::dialog::{dialog_emits, DialogType};
use crate::key::{KeyCode, KeyEvent};
use crate::state::{entry_of, run, step, user_message, AppStateView, ChatMessageView};

verus! {

/// The entries that a sequence of actions adds to the history, in order.
pub open spec fn entries_of(actions: Seq<ActionView>) -> Seq<ChatMessageView>
    decreases actions.len(),
{
    if actions.len() == 0 {
        Seq::empty()
    } else {
        match entry_of(actions.last()) {
            Some(entry) => entries_of(actions.drop_last()).push(entry),
            None => entries_of(actions.drop_last()),
        }
    }
}

/// The texts of the messages sent in a sequence of actions, in order.
pub open spec fn sent_texts(actions: Seq<ActionView>) -> Seq<Seq<char>>
    decreases actions.len(),
{
    if actions.len() == 0 {
        Seq::empty()
    } else {
        match actions.last() {
            ActionView::SendMessage(text) => sent_texts(actions.drop_last()).push(text),
            _ => sent_texts(actions.drop_last()),
        }
    }
}

/// Whether an answer is awaited after a sequence of actions: the last
/// action among sent messages, answers and failures decides, and where
/// there is none the flag is as it was.
pub open spec fn awaited(before: bool, actions: Seq<ActionView>) -> bool
    decreases actions.len(),
{
    if actions.len() == 0 {
        before
    } else {
        match actions.last() {
            ActionView::SendMessage(_) => true,
            ActionView::MessageReceived(_) | ActionView::Error(_) => false,
            _ => awaited(before, actions.drop_last()),
        }
    }
}

/// The history only grows: after any sequence of actions it is the history
/// from before, followed by one entry for each sent message, answer and
/// failure, in the order of the actions.
pub proof fn lemma_history_is_append_only(state: AppStateView, actions: Seq<ActionView>)
    ensures
        run(state, actions).chat_history == state.chat_history + entries_of(actions),
    decreases actions.len(),
{
    if actions.len() == 0 {
        assert(state.chat_history + Seq::<ChatMessageView>::empty() =~= state.chat_history);
    } else {
        let rest = actions.drop_last();
        lemma_history_is_append_only(state, rest);
        match entry_of(actions.last()) {
            Some(entry) => {
                assert((state.chat_history + entries_of(rest)).push(entry) =~= state.chat_history
                    + entries_of(rest).push(entry));
            },
            None => {},
        }
    }
}

/// Over any sequence of sent messages, ticks and renders, the history
/// grows by exactly one entry of the user's role for each sent message, in
/// the order in which they were sent; ticks and renders add nothing.
pub proof fn lemma_one_user_entry_per_sent_message(state: AppStateView, actions: Seq<ActionView>)
    requires
        forall|i: int|
            0 <= i < actions.len() ==> (#[trigger] actions[i] is SendMessage || actions[i] is Tick
                || actions[i] is Render),
    ensures
        run(state, actions).chat_history == state.chat_history + sent_texts(actions).map_values(
            |text: Seq<char>| user_message(text),
        ),
        run(state, actions).chat_history.len() == state.chat_history.len() + sent_texts(
            actions,
        ).len(),
    decreases actions.len(),
{
    let as_entry = |text: Seq<char>| user_message(text);
    if actions.len() == 0 {
        assert(state.chat_history + sent_texts(actions).map_values(as_entry)
            =~= state.chat_history);
    } else {
        let rest = actions.drop_last();
        assert forall|i: int| 0 <= i < rest.len() implies (#[trigger] rest[i] is SendMessage
            || rest[i] is Tick || rest[i] is Render) by {
            assert(rest[i] == actions[i]);
        }
        lemma_one_user_entry_per_sent_message(state, rest);
        let last = actions[actions.len() - 1];
        assert(last is SendMessage || last is Tick || last is Render);
        match last {
            ActionView::SendMessage(text) => {
                assert(sent_texts(actions) == sent_texts(rest).push(text));
                assert(sent_texts(rest).push(text).map_values(as_entry) =~= sent_texts(
                    rest,
                ).map_values(as_entry).push(user_message(text)));
                assert((state.chat_history + sent_texts(rest).map_values(as_entry)).push(
                    user_message(text),
                ) =~= state.chat_history + sent_texts(rest).map_values(as_entry).push(
                    user_message(text),
                ));
            },
            _ => {},
        }
    }
}

/// An answer is awaited exactly from a sent message until the next answer
/// or failure.
pub proof fn lemma_loading_follows_last_exchange(state: AppStateView, actions: Seq<ActionView>)
    ensures
        run(state, actions).is_loading == awaited(state.is_loading, actions),
    decreases actions.len(),
{
    if actions.len() > 0 {
        lemma_loading_follows_last_exchange(state, actions.drop_last());
    }
}

/// Right after a sent message an answer is awaited; right after an answer
/// or a failure none is.
pub proof fn lemma_loading_after_each_action(state: AppStateView, action: ActionView)
    ensures
        action is SendMessage ==> step(state, action).is_loading,
        action is MessageReceived || action is Error ==> !step(state, action).is_loading,
        !(action is SendMessage || action is MessageReceived || action is Error) ==> step(
            state,
            action,
        ).is_loading == state.is_loading,
{
}

/// Where an answer is awaited at the end of a run, every answer and every
/// failure in the run was followed by a sent message.
pub proof fn lemma_loading_needs_a_later_send(
    state: AppStateView,
    actions: Seq<ActionView>,
    at: int,
)
    requires
        0 <= at < actions.len(),
        actions[at] is MessageReceived || actions[at] is Error,
        run(state, actions).is_loading,
    ensures
        exists|later: int| at < later < actions.len() && #[trigger] actions[later] is SendMessage,
    decreases actions.len(),
{
    let rest = actions.drop_last();
    let last = actions[actions.len() - 1];
    if last is SendMessage {
        assert(at < actions.len() - 1);
        assert(actions[actions.len() - 1] is SendMessage);
    } else {
        assert(!(last is MessageReceived || last is Error));
        assert(at < actions.len() - 1);
        assert(rest[at] == actions[at]);
        assert(run(state, actions) == step(run(state, rest), last));
        lemma_loading_needs_a_later_send(state, rest, at);
        let later = choose|later: int| at < later < rest.len() && #[trigger] rest[later] is SendMessage;
        assert(actions[later] == rest[later]);
    }
}

/// The scroll target after the log was drawn once: the offset that the
/// draw settled on.
pub open spec fn after_draw(scroll: ScrollTarget, total: nat, visible: nat) -> ScrollTarget {
    ScrollTarget::Offset(resolved_offset(scroll, total, visible) as usize)
}

/// The scroll target after the log was drawn `draws` times with the same
/// content.
pub open spec fn after_draws(scroll: ScrollTarget, total: nat, visible: nat, draws: nat) -> ScrollTarget
    decreases draws,
{
    if draws == 0 {
        scroll
    } else {
        after_draw(after_draws(scroll, total, visible, (draws - 1) as nat), total, visible)
    }
}

/// Whatever the target, a draw settles on an offset between 0 and the
/// number of lines that do not fit, which is 0 where all fit.
pub proof fn lemma_scroll_is_clamped(scroll: ScrollTarget, total: nat, visible: nat)
    ensures
        0 <= resolved_offset(scroll, total, visible) <= max_scroll(total, visible),
        total <= visible ==> resolved_offset(scroll, total, visible) == 0,
        total > visible ==> max_scroll(total, visible) == total - visible,
{
}

/// After a jump to the end, any number of draws of the same content, one
/// at least, leaves the log at the bottom.
pub proof fn lemma_jump_to_end_is_stable(total: nat, visible: nat, draws: nat)
    requires
        total <= usize::MAX,
        draws >= 1,
    ensures
        after_draws(ScrollTarget::End, total, visible, draws) == ScrollTarget::Offset(
            max_scroll(total, visible) as usize,
        ),
    decreases draws,
{
    let bottom = max_scroll(total, visible);
    assert(bottom <= usize::MAX);
    if draws > 1 {
        lemma_jump_to_end_is_stable(total, visible, (draws - 1) as nat);
        let before = after_draws(ScrollTarget::End, total, visible, (draws - 1) as nat);
        assert(before == ScrollTarget::Offset(bottom as usize));
        assert(resolved_offset(before, total, visible) == bottom);
    } else {
        assert(after_draws(ScrollTarget::End, total, visible, 0) == ScrollTarget::End);
        assert(after_draws(ScrollTarget::End, total, visible, 1) == after_draw(
            ScrollTarget::End,
            total,
            visible,
        ));
    }
}

/// Saving in the editor of the system prompt, with control and `s`, emits
/// the request to set the prompt to the text and then the request to hide
/// the dialog; once the controller has processed both, the system prompt
/// is that text and nothing else has changed.
pub proof fn lemma_save_sets_system_prompt(state: AppStateView, text: Seq<char>, key: KeyEvent)
    requires
        key.is_control_char('s'),
    ensures
        dialog_emits(true, true, DialogType::SystemPrompt, text, key) == seq![
            ActionView::SetSystemPrompt(text),
            ActionView::HideDialog,
        ],
        run(state, dialog_emits(true, true, DialogType::SystemPrompt, text, key)) == (AppStateView {
            system_prompt: text,
            ..state
        }),
{
    let emitted = dialog_emits(true, true, DialogType::SystemPrompt, text, key);
    assert(emitted.drop_last() =~= seq![ActionView::SetSystemPrompt(text)]);
    assert(emitted.drop_last().drop_last() =~= Seq::<ActionView>::empty());
    assert(run(state, emitted.drop_last().drop_last()) == state);
    assert(run(state, emitted.drop_last()) == step(state, ActionView::SetSystemPrompt(text)));
}

/// Leaving the dialog with `Esc`, or saving where any text is edited, emits
/// only the request to hide the dialog, and the state stays as it is.
pub proof fn lemma_cancel_keeps_state(
    state: AppStateView,
    kind: DialogType,
    text: Seq<char>,
    key: KeyEvent,
)
    requires
        key.code == KeyCode::Esc || (kind == DialogType::Generic && key.is_control_char('s')),
    ensures
        dialog_emits(true, true, kind, text, key) == seq![ActionView::HideDialog],
        run(state, dialog_emits(true, true, kind, text, key)) == state,
{
    let emitted = dialog_emits(true, true, kind, text, key);
    assert(emitted.drop_last() =~= Seq::<ActionView>::empty());
    assert(run(state, emitted.drop_last()) == state);
}

/// A key that a component claims leads to that component's actions
/// whatever the key bindings hold: they have no part in it.
pub proof fn lemma_claimed_key_ignores_bindings(
    claim: Seq<ActionView>,
    table: Option<Map<Seq<KeyEvent>, ActionView>>,
    other: Option<Map<Seq<KeyEvent>, ActionView>>,
    chord: Seq<KeyEvent>,
    key: KeyEvent,
)
    requires
        claim.len() > 0,
    ensures
        routed(claim, table, chord, key) == claim,
        routed(claim, table, chord, key) == routed(claim, other, chord, key),
{
}

/// A key that no component claims leads to what the key bindings make of
/// it: the action bound to the key alone before the one bound to the
/// chord.
pub proof fn lemma_unclaimed_key_follows_bindings(
    table: Map<Seq<KeyEvent>, ActionView>,
    chord: Seq<KeyEvent>,
    key: KeyEvent,
)
    ensures
        table.contains_key(seq![key]) ==> routed(Seq::empty(), Some(table), chord, key) == seq![
            table[seq![key]],
        ],
        !table.contains_key(seq![key]) && table.contains_key(chord.push(key)) ==> routed(
            Seq::empty(),
            Some(table),
            chord,
            key,
        ) == seq![table[chord.push(key)]],
        !table.contains_key(seq![key]) && !table.contains_key(chord.push(key)) ==> routed(
            Seq::empty(),
            Some(table),
            chord,
            key,
        ) == Seq::<ActionView>::empty(),
{
}

} // verus!
