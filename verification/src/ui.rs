//! The interactive session: a state machine over the generated message.
//!
//! The shell owns the terminal. It shows the message, asks the three-option
//! menu, opens the editor and asks the confirmation; each answer comes back
//! as an event, and `Session::step` decides the next state and what the
//! shell is to do — including when to perform the commit. A prompt that
//! fails or is dismissed is handed in by the shell as Cancel for the menu
//! and as a `false` confirmation, as those widgets default.

use vstd::prelude::*;

verus! {

/// The three choices offered at the action menu.
#[derive(Clone, Copy, Debug, PartialEq, Eq, Structural)]
pub enum Action {
    Commit,
    Edit,
    Cancel,
}

/// Where the session stands.
#[derive(Clone, Copy, Debug, PartialEq, Eq, Structural)]
pub enum LoopState {
    ShowMessage,
    AwaitAction,
    Editing,
    AwaitEditConfirm,
    Committed,
    Cancelled,
}

/// What the shell is to do next.
#[derive(Clone, Copy, Debug, PartialEq, Eq, Structural)]
pub enum Directive {
    /// Display the current message.
    Display,
    /// Ask the three-option action menu.
    AskAction,
    /// Open the editor pre-filled with the current message.
    OpenEditor,
    /// Show the current message and ask the yes/no confirmation.
    AskConfirm,
    /// Run the commit with the current message.
    PerformCommit,
    /// The session is over.
    Stop,
}

/// An answer the shell hands back: the message was displayed, a menu choice,
/// the editor's outcome (`None` when editing was aborted), or the
/// confirmation's answer.
pub enum UiEvent {
    Shown,
    Chose(Action),
    Edited(Option<String>),
    Confirmed(bool),
}

/// `UiEvent` with the edited text as a character sequence.
pub enum SpecUiEvent {
    Shown,
    Chose(Action),
    Edited(Option<Seq<char>>),
    Confirmed(bool),
}

impl View for UiEvent {
    type V = SpecUiEvent;

    open spec fn view(&self) -> SpecUiEvent {
        match self {
            UiEvent::Shown => SpecUiEvent::Shown,
            UiEvent::Chose(a) => SpecUiEvent::Chose(*a),
            UiEvent::Edited(o) => SpecUiEvent::Edited(o.deep_view()),
            UiEvent::Confirmed(b) => SpecUiEvent::Confirmed(*b),
        }
    }
}

/// A session as the contracts see it: its state and its current message.
pub struct SessionView {
    pub state: LoopState,
    pub message: Seq<char>,
}

/// The interactive session over one generated commit message.
pub struct Session {
    state: LoopState,
    message: String,
}

impl View for Session {
    type V = SessionView;

    closed spec fn view(&self) -> SessionView {
        SessionView { state: self.state, message: self.message@ }
    }
}

/// The directive a state calls for when nothing moved.
pub open spec fn spec_directive_for(state: LoopState) -> Directive {
    match state {
        LoopState::ShowMessage => Directive::Display,
        LoopState::AwaitAction => Directive::AskAction,
        LoopState::Editing => Directive::OpenEditor,
        LoopState::AwaitEditConfirm => Directive::AskConfirm,
        LoopState::Committed => Directive::Stop,
        LoopState::Cancelled => Directive::Stop,
    }
}

/// The whole transition relation: next session and directive for a session
/// and an event. An event that does not belong to the state moves nothing
/// and re-issues the state's own directive.
pub open spec fn spec_step(s: SessionView, ev: SpecUiEvent) -> (SessionView, Directive) {
    match (s.state, ev) {
        (LoopState::ShowMessage, SpecUiEvent::Shown) => (
            (SessionView { state: LoopState::AwaitAction, ..s }),
            Directive::AskAction,
        ),
        (LoopState::AwaitAction, SpecUiEvent::Chose(Action::Commit)) => (
            (SessionView { state: LoopState::Committed, ..s }),
            Directive::PerformCommit,
        ),
        (LoopState::AwaitAction, SpecUiEvent::Chose(Action::Edit)) => (
            (SessionView { state: LoopState::Editing, ..s }),
            Directive::OpenEditor,
        ),
        (LoopState::AwaitAction, SpecUiEvent::Chose(Action::Cancel)) => (
            (SessionView { state: LoopState::Cancelled, ..s }),
            Directive::Stop,
        ),
        (LoopState::Editing, SpecUiEvent::Edited(None)) => (
            (SessionView { state: LoopState::AwaitAction, ..s }),
            Directive::AskAction,
        ),
        (LoopState::Editing, SpecUiEvent::Edited(Some(t))) => (
            (SessionView { state: LoopState::AwaitEditConfirm, message: t }),
            Directive::AskConfirm,
        ),
        (LoopState::AwaitEditConfirm, SpecUiEvent::Confirmed(true)) => (
            (SessionView { state: LoopState::Committed, ..s }),
            Directive::PerformCommit,
        ),
        (LoopState::AwaitEditConfirm, SpecUiEvent::Confirmed(false)) => (
            (SessionView { state: LoopState::AwaitAction, ..s }),
            Directive::AskAction,
        ),
        _ => (s, spec_directive_for(s.state)),
    }
}

impl Session {
    /// A fresh session, about to show the generated message.
    pub fn new(message: String) -> (s: Session)
        ensures
            s@ == (SessionView { state: LoopState::ShowMessage, message: message@ }),
    {
        Session { state: LoopState::ShowMessage, message }
    }

    /// The message the session currently holds.
    pub fn current_message(&self) -> (r: &String)
        ensures
            r@ == self@.message,
    {
        &self.message
    }

    /// Where the session stands.
    pub fn state(&self) -> (r: LoopState)
        ensures
            r == self@.state,
    {
        self.state
    }

    /// The directive the current state calls for.
    pub fn directive(&self) -> (d: Directive)
        ensures
            d == spec_directive_for(self@.state),
    {
        match self.state {
            LoopState::ShowMessage => Directive::Display,
            LoopState::AwaitAction => Directive::AskAction,
            LoopState::Editing => Directive::OpenEditor,
            LoopState::AwaitEditConfirm => Directive::AskConfirm,
            LoopState::Committed => Directive::Stop,
            LoopState::Cancelled => Directive::Stop,
        }
    }

    /// One transition of the interaction loop.
    pub fn step(&mut self, ev: UiEvent) -> (d: Directive)
        ensures
            final(self)@ == spec_step(old(self)@, ev@).0,
            d == spec_step(old(self)@, ev@).1,
    {
        match (self.state, ev) {
            (LoopState::ShowMessage, UiEvent::Shown) => {
                self.state = LoopState::AwaitAction;
                Directive::AskAction
            },
            (LoopState::AwaitAction, UiEvent::Chose(Action::Commit)) => {
                self.state = LoopState::Committed;
                Directive::PerformCommit
            },
            (LoopState::AwaitAction, UiEvent::Chose(Action::Edit)) => {
                self.state = LoopState::Editing;
                Directive::OpenEditor
            },
            (LoopState::AwaitAction, UiEvent::Chose(Action::Cancel)) => {
                self.state = LoopState::Cancelled;
                Directive::Stop
            },
            (LoopState::Editing, UiEvent::Edited(None)) => {
                self.state = LoopState::AwaitAction;
                Directive::AskAction
            },
            (LoopState::Editing, UiEvent::Edited(Some(t))) => {
                self.state = LoopState::AwaitEditConfirm;
                self.message = t;
                Directive::AskConfirm
            },
            (LoopState::AwaitEditConfirm, UiEvent::Confirmed(true)) => {
                self.state = LoopState::Committed;
                Directive::PerformCommit
            },
            (LoopState::AwaitEditConfirm, UiEvent::Confirmed(false)) => {
                self.state = LoopState::AwaitAction;
                Directive::AskAction
            },
            _ => self.directive(),
        }
    }
}

/// A commit is directed only by choosing Commit at the action menu or by
/// answering yes at the edit confirmation.
pub proof fn lemma_commit_only_on_accept(s: SessionView, ev: SpecUiEvent)
    ensures
        spec_step(s, ev).1 == Directive::PerformCommit ==> ((s.state == LoopState::AwaitAction
            && ev == SpecUiEvent::Chose(Action::Commit)) || (s.state == LoopState::AwaitEditConfirm
            && ev == SpecUiEvent::Confirmed(true))),
{
}

/// Choosing Cancel at the action menu ends the session with no commit
/// directed, the message untouched.
pub proof fn lemma_cancel_never_commits(s: SessionView)
    requires
        s.state == LoopState::AwaitAction,
    ensures
        spec_step(s, SpecUiEvent::Chose(Action::Cancel)).0.state == LoopState::Cancelled,
        spec_step(s, SpecUiEvent::Chose(Action::Cancel)).0.message == s.message,
        spec_step(s, SpecUiEvent::Chose(Action::Cancel)).1 != Directive::PerformCommit,
{
}

/// Choosing Edit and then aborting the editor returns to the action menu
/// with the original message unchanged, directing no commit on the way.
pub proof fn lemma_edit_abort_keeps_message(s: SessionView)
    requires
        s.state == LoopState::AwaitAction,
    ensures
        ({
            let (s1, d1) = spec_step(s, SpecUiEvent::Chose(Action::Edit));
            let (s2, d2) = spec_step(s1, SpecUiEvent::Edited(None));
            &&& s2.state == LoopState::AwaitAction
            &&& s2.message == s.message
            &&& d1 != Directive::PerformCommit
            &&& d2 != Directive::PerformCommit
        }),
{
}

/// Choosing Edit, supplying new text, then declining the confirmation
/// returns to the action menu with the message set to the edited text, not
/// reverted, and no commit directed on the way.
pub proof fn lemma_edit_declined_keeps_edit(s: SessionView, t: Seq<char>)
    requires
        s.state == LoopState::AwaitAction,
    ensures
        ({
            let (s1, d1) = spec_step(s, SpecUiEvent::Chose(Action::Edit));
            let (s2, d2) = spec_step(s1, SpecUiEvent::Edited(Some(t)));
            let (s3, d3) = spec_step(s2, SpecUiEvent::Confirmed(false));
            &&& s3.state == LoopState::AwaitAction
            &&& s3.message == t
            &&& d1 != Directive::PerformCommit
            &&& d2 != Directive::PerformCommit
            &&& d3 != Directive::PerformCommit
        }),
{
}

/// A finished session never moves again: every event leaves state and
/// message in place and directs Stop.
pub proof fn lemma_terminal_stays(s: SessionView, ev: SpecUiEvent)
    requires
        s.state == LoopState::Committed || s.state == LoopState::Cancelled,
    ensures
        spec_step(s, ev).0 == s,
        spec_step(s, ev).1 == Directive::Stop,
{
}

} // verus!
