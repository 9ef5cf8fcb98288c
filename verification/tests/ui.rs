use gity::ui::{Action, Directive, LoopState, Session, UiEvent};

fn at_action_menu(message: &str) -> Session {
    let mut s = Session::new(message.to_string());
    assert_eq!(s.directive(), Directive::Display);
    let d = s.step(UiEvent::Shown);
    assert_eq!(d, Directive::AskAction);
    s
}

#[test]
fn commit_choice_directs_commit() {
    let mut s = at_action_menu("msg");
    let d = s.step(UiEvent::Chose(Action::Commit));
    assert_eq!(d, Directive::PerformCommit);
    assert_eq!(s.state(), LoopState::Committed);
    assert_eq!(s.current_message(), "msg");
    assert_eq!(s.directive(), Directive::Stop);
}

#[test]
fn cancel_never_commits() {
    let mut s = at_action_menu("msg");
    let d = s.step(UiEvent::Chose(Action::Cancel));
    assert_ne!(d, Directive::PerformCommit);
    assert_eq!(d, Directive::Stop);
    assert_eq!(s.state(), LoopState::Cancelled);
    assert_eq!(s.current_message(), "msg");
}

#[test]
fn edit_aborted_returns_unchanged() {
    let mut s = at_action_menu("original");
    let d = s.step(UiEvent::Chose(Action::Edit));
    assert_eq!(d, Directive::OpenEditor);
    let d = s.step(UiEvent::Edited(None));
    assert_eq!(d, Directive::AskAction);
    assert_eq!(s.state(), LoopState::AwaitAction);
    assert_eq!(s.current_message(), "original");
}

#[test]
fn edit_declined_keeps_edited_text() {
    let mut s = at_action_menu("original");
    let d = s.step(UiEvent::Chose(Action::Edit));
    assert_ne!(d, Directive::PerformCommit);
    let d = s.step(UiEvent::Edited(Some("edited".to_string())));
    assert_eq!(d, Directive::AskConfirm);
    assert_ne!(d, Directive::PerformCommit);
    let d = s.step(UiEvent::Confirmed(false));
    assert_eq!(d, Directive::AskAction);
    assert_eq!(s.state(), LoopState::AwaitAction);
    assert_eq!(s.current_message(), "edited");
}

#[test]
fn edit_confirmed_commits_edited_text() {
    let mut s = at_action_menu("original");
    s.step(UiEvent::Chose(Action::Edit));
    s.step(UiEvent::Edited(Some("edited".to_string())));
    let d = s.step(UiEvent::Confirmed(true));
    assert_eq!(d, Directive::PerformCommit);
    assert_eq!(s.state(), LoopState::Committed);
    assert_eq!(s.current_message(), "edited");
}

#[test]
fn terminal_state_ignores_events() {
    let mut s = at_action_menu("msg");
    s.step(UiEvent::Chose(Action::Cancel));
    let d = s.step(UiEvent::Chose(Action::Commit));
    assert_eq!(d, Directive::Stop);
    assert_eq!(s.state(), LoopState::Cancelled);
    assert_eq!(s.current_message(), "msg");
}

#[test]
fn mismatched_event_moves_nothing() {
    let mut s = at_action_menu("msg");
    let d = s.step(UiEvent::Confirmed(true));
    assert_ne!(d, Directive::PerformCommit);
    assert_eq!(d, Directive::AskAction);
    assert_eq!(s.state(), LoopState::AwaitAction);
    assert_eq!(s.current_message(), "msg");
}
