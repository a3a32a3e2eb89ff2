//! The conversation state that the controller owns and hands to the
//! components as snapshots.

use vstd::prelude::*;
use crate::action::{Action, ActionView};

verus! {

/// The interface mode that selects a keybinding table.
#[derive(Debug, Clone, Copy, PartialEq, Eq, Structural, Hash)]
pub enum Mode {
    Home,
}

impl Default for Mode {
    fn default() -> (mode: Mode)
        ensures
            mode == Mode::Home,
    {
        Mode::Home
    }
}

/// One entry of the conversation.
#[derive(Debug, Clone, PartialEq, Eq)]
pub struct ChatMessage {
    pub role: String,
    pub content: String,
}

/// A [`ChatMessage`] in contracts.
pub struct ChatMessageView {
    pub role: Seq<char>,
    pub content: Seq<char>,
}

impl View for ChatMessage {
    type V = ChatMessageView;

    open spec fn view(&self) -> ChatMessageView {
        ChatMessageView { role: self.role@, content: self.content@ }
    }
}

/// The role of what the user wrote.
pub open spec fn user_role() -> Seq<char> {
    seq!['u', 's', 'e', 'r']
}

/// The role of what the service answered.
pub open spec fn assistant_role() -> Seq<char> {
    seq!['a', 's', 's', 'i', 's', 't', 'a', 'n', 't']
}

/// The role of instructions and of reported failures.
pub open spec fn system_role() -> Seq<char> {
    seq!['s', 'y', 's', 't', 'e', 'm']
}

/// The entry that records `content` as written by the user.
pub open spec fn user_message(content: Seq<char>) -> ChatMessageView {
    ChatMessageView { role: user_role(), content }
}

/// The entry that records `content` as the service's answer.
pub open spec fn assistant_message(content: Seq<char>) -> ChatMessageView {
    ChatMessageView { role: assistant_role(), content }
}

/// The entry that records `content` under the system role.
pub open spec fn system_message(content: Seq<char>) -> ChatMessageView {
    ChatMessageView { role: system_role(), content }
}

impl Default for ChatMessage {
    fn default() -> (message: ChatMessage)
        ensures
            message@ == (ChatMessageView { role: Seq::empty(), content: Seq::empty() }),
    {
        ChatMessage { role: String::new(), content: String::new() }
    }
}

impl ChatMessage {
    /// An entry written by the user.
    pub fn user(content: String) -> (message: ChatMessage)
        ensures
            message@ == user_message(content@),
    {
        proof {
            reveal_strlit("user");
        }
        let role = "user".to_owned();
        assert(role@ =~= user_role());
        ChatMessage { role, content }
    }

    /// An entry answered by the service.
    pub fn assistant(content: String) -> (message: ChatMessage)
        ensures
            message@ == assistant_message(content@),
    {
        proof {
            reveal_strlit("assistant");
        }
        let role = "assistant".to_owned();
        assert(role@ =~= assistant_role());
        ChatMessage { role, content }
    }

    /// An entry under the system role.
    pub fn system(content: String) -> (message: ChatMessage)
        ensures
            message@ == system_message(content@),
    {
        proof {
            reveal_strlit("system");
        }
        let role = "system".to_owned();
        assert(role@ =~= system_role());
        ChatMessage { role, content }
    }

    /// A copy with the same role and content.
    pub fn duplicate(&self) -> (copy: ChatMessage)
        ensures
            copy@ == self@,
    {
        ChatMessage { role: self.role.clone(), content: self.content.clone() }
    }
}

/// The state shared by the whole application.
#[derive(Debug, Clone, PartialEq, Eq)]
pub struct AppState {
    pub chat_history: Vec<ChatMessage>,
    pub is_loading: bool,
    pub system_prompt: String,
}

/// An [`AppState`] in contracts.
pub struct AppStateView {
    pub chat_history: Seq<ChatMessageView>,
    pub is_loading: bool,
    pub system_prompt: Seq<char>,
}

impl View for AppState {
    type V = AppStateView;

    open spec fn view(&self) -> AppStateView {
        AppStateView {
            chat_history: self.chat_history@.map_values(|m: ChatMessage| m@),
            is_loading: self.is_loading,
            system_prompt: self.system_prompt@,
        }
    }
}

/// The state before anything was said.
pub open spec fn initial_state() -> AppStateView {
    AppStateView { chat_history: Seq::empty(), is_loading: false, system_prompt: Seq::empty() }
}

impl Default for AppState {
    fn default() -> (state: AppState)
        ensures
            state@ == initial_state(),
    {
        let state = AppState {
            chat_history: Vec::new(),
            is_loading: false,
            system_prompt: String::new(),
        };
        assert(state@.chat_history =~= Seq::empty());
        state
    }
}

/// What stands before the text of a failure in the history.
pub open spec fn error_prefix() -> Seq<char> {
    seq!['E', 'r', 'r', 'o', 'r', ':', ' ']
}

/// The entry that an action adds to the history, if it adds one: what was
/// sent under the user's role, what came back under the assistant's, and a
/// failure, marked as one, under the system's.
pub open spec fn entry_of(action: ActionView) -> Option<ChatMessageView> {
    match action {
        ActionView::SendMessage(text) => Some(user_message(text)),
        ActionView::MessageReceived(text) => Some(assistant_message(text)),
        ActionView::Error(text) => Some(system_message(error_prefix() + text)),
        _ => None,
    }
}

/// The state after the controller has processed one action.
pub open spec fn step(state: AppStateView, action: ActionView) -> AppStateView {
    match action {
        ActionView::SendMessage(_) => AppStateView {
            chat_history: state.chat_history.push(entry_of(action).unwrap()),
            is_loading: true,
            system_prompt: state.system_prompt,
        },
        ActionView::MessageReceived(_) | ActionView::Error(_) => AppStateView {
            chat_history: state.chat_history.push(entry_of(action).unwrap()),
            is_loading: false,
            system_prompt: state.system_prompt,
        },
        ActionView::SetSystemPrompt(prompt) => AppStateView {
            chat_history: state.chat_history,
            is_loading: state.is_loading,
            system_prompt: prompt,
        },
        _ => state,
    }
}

/// The state after the controller has processed a sequence of actions, one
/// after the other.
pub open spec fn run(state: AppStateView, actions: Seq<ActionView>) -> AppStateView
    decreases actions.len(),
{
    if actions.len() == 0 {
        state
    } else {
        step(run(state, actions.drop_last()), actions.last())
    }
}

/// Whether an action changes the shared state.
pub open spec fn changes_state(action: ActionView) -> bool {
    action is SendMessage || action is MessageReceived || action is Error
        || action is SetSystemPrompt
}

/// The messages of a request: the system prompt first, under the system
/// role, unless it is empty; then the whole history in order.
pub open spec fn request_of(state: AppStateView) -> Seq<ChatMessageView> {
    if state.system_prompt.len() > 0 {
        seq![system_message(state.system_prompt)] + state.chat_history
    } else {
        state.chat_history
    }
}

impl AppState {
    /// Processes one action: a sent message, an answer and a failure go
    /// into the history and set or clear the loading flag; a new system
    /// prompt replaces the old one; nothing else touches the state.
    pub fn apply(&mut self, action: &Action) -> (changed: bool)
        ensures
            final(self)@ == step(old(self)@, action@),
            changed == changes_state(action@),
            !changed ==> *final(self) == *old(self),
    {
        let ghost before = self.chat_history@;
        match action {
            Action::SendMessage(text) => {
                self.chat_history.push(ChatMessage::user(text.clone()));
                self.is_loading = true;
                assert(self@.chat_history =~= old(self)@.chat_history.push(user_message(text@)));
                true
            },
            Action::MessageReceived(text) => {
                self.chat_history.push(ChatMessage::assistant(text.clone()));
                self.is_loading = false;
                assert(self@.chat_history =~= old(self)@.chat_history.push(
                    assistant_message(text@),
                ));
                true
            },
            Action::Error(text) => {
                proof {
                    reveal_strlit("Error: ");
                }
                let content = "Error: ".to_owned().concat(text.as_str());
                assert(content@ =~= error_prefix() + text@);
                self.chat_history.push(ChatMessage::system(content));
                self.is_loading = false;
                assert(self@.chat_history =~= old(self)@.chat_history.push(
                    system_message(error_prefix() + text@),
                ));
                true
            },
            Action::SetSystemPrompt(prompt) => {
                self.system_prompt = prompt.clone();
                true
            },
            _ => false,
        }
    }

    /// The messages to send for this state.
    pub fn request_messages(&self) -> (messages: Vec<ChatMessage>)
        ensures
            messages@.map_values(|m: ChatMessage| m@) == request_of(self@),
    {
        let mut messages: Vec<ChatMessage> = Vec::new();
        if !self.system_prompt.as_str().is_empty() {
            messages.push(ChatMessage::system(self.system_prompt.clone()));
        }
        let ghost head = messages@.map_values(|m: ChatMessage| m@);
        let mut i: usize = 0;
        while i < self.chat_history.len()
            invariant
                i <= self.chat_history.len(),
                messages@.map_values(|m: ChatMessage| m@) == head + self@.chat_history.take(
                    i as int,
                ),
            decreases self.chat_history.len() - i,
        {
            let ghost before = messages@.map_values(|m: ChatMessage| m@);
            messages.push(self.chat_history[i].duplicate());
            assert(messages@.map_values(|m: ChatMessage| m@) =~= before.push(
                self.chat_history@[i as int]@,
            ));
            assert(self@.chat_history.take(i + 1) =~= self@.chat_history.take(i as int).push(
                self.chat_history@[i as int]@,
            ));
            i += 1;
        }
        assert(self@.chat_history.take(self.chat_history.len() as int) =~= self@.chat_history);
        messages
    }

    /// A snapshot: a copy with the same history, flag and prompt.
    pub fn snapshot(&self) -> (copy: AppState)
        ensures
            copy@ == self@,
    {
        let mut chat_history: Vec<ChatMessage> = Vec::new();
        let mut i: usize = 0;
        while i < self.chat_history.len()
            invariant
                i <= self.chat_history.len(),
                chat_history@.len() == i,
                forall|j: int| 0 <= j < i ==> (#[trigger] chat_history@[j])@ == self.chat_history@[j]@,
            decreases self.chat_history.len() - i,
        {
            chat_history.push(self.chat_history[i].duplicate());
            i += 1;
        }
        let copy = AppState {
            chat_history,
            is_loading: self.is_loading,
            system_prompt: self.system_prompt.clone(),
        };
        assert(copy@.chat_history =~= self@.chat_history);
        copy
    }
}

} // verus!
