//! The messages that travel on the action bus.

use vstd::prelude::*;

verus! {

/// An intent or event crossing the bus.
#[derive(Debug, Clone, PartialEq, Eq)]
pub enum Action {
    Tick,
    Render,
    Resize(u16, u16),
    Suspend,
    Resume,
    Quit,
    ClearScreen,
    Error(String),
    Help,
    SendMessage(String),
    MessageReceived(String),
    FocusInput,
    FocusChat,
    ShowDialog(String),
    HideDialog,
    ShowSystemPromptDialog,
    SetSystemPrompt(String),
}

/// What an [`Action`] stands for in contracts: the same variants, with every
/// text as a sequence of characters.
pub enum ActionView {
    Tick,
    Render,
    Resize(u16, u16),
    Suspend,
    Resume,
    Quit,
    ClearScreen,
    Error(Seq<char>),
    Help,
    SendMessage(Seq<char>),
    MessageReceived(Seq<char>),
    FocusInput,
    FocusChat,
    ShowDialog(Seq<char>),
    HideDialog,
    ShowSystemPromptDialog,
    SetSystemPrompt(Seq<char>),
}

impl View for Action {
    type V = ActionView;

    open spec fn view(&self) -> ActionView {
        match self {
            Action::Tick => ActionView::Tick,
            Action::Render => ActionView::Render,
            Action::Resize(w, h) => ActionView::Resize(*w, *h),
            Action::Suspend => ActionView::Suspend,
            Action::Resume => ActionView::Resume,
            Action::Quit => ActionView::Quit,
            Action::ClearScreen => ActionView::ClearScreen,
            Action::Error(text) => ActionView::Error(text@),
            Action::Help => ActionView::Help,
            Action::SendMessage(text) => ActionView::SendMessage(text@),
            Action::MessageReceived(text) => ActionView::MessageReceived(text@),
            Action::FocusInput => ActionView::FocusInput,
            Action::FocusChat => ActionView::FocusChat,
            Action::ShowDialog(text) => ActionView::ShowDialog(text@),
            Action::HideDialog => ActionView::HideDialog,
            Action::ShowSystemPromptDialog => ActionView::ShowSystemPromptDialog,
            Action::SetSystemPrompt(text) => ActionView::SetSystemPrompt(text@),
        }
    }
}

impl Action {
    /// A copy that stands for the same action.
    pub fn duplicate(&self) -> (copy: Action)
        ensures
            copy@ == self@,
    {
        match self {
            Action::Tick => Action::Tick,
            Action::Render => Action::Render,
            Action::Resize(w, h) => Action::Resize(*w, *h),
            Action::Suspend => Action::Suspend,
            Action::Resume => Action::Resume,
            Action::Quit => Action::Quit,
            Action::ClearScreen => Action::ClearScreen,
            Action::Error(text) => Action::Error(text.clone()),
            Action::Help => Action::Help,
            Action::SendMessage(text) => Action::SendMessage(text.clone()),
            Action::MessageReceived(text) => Action::MessageReceived(text.clone()),
            Action::FocusInput => Action::FocusInput,
            Action::FocusChat => Action::FocusChat,
            Action::ShowDialog(text) => Action::ShowDialog(text.clone()),
            Action::HideDialog => Action::HideDialog,
            Action::ShowSystemPromptDialog => Action::ShowSystemPromptDialog,
            Action::SetSystemPrompt(text) => Action::SetSystemPrompt(text.clone()),
        }
    }
}

/// The view of an optional action.
pub open spec fn action_view(action: Option<Action>) -> Option<ActionView> {
    match action {
        Some(action) => Some(action@),
        None => None,
    }
}

/// The views of a vector of actions.
pub open spec fn action_views(actions: Seq<Action>) -> Seq<ActionView> {
    actions.map_values(|action: Action| action@)
}

} // verus!
