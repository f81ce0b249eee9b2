//! The lifecycle table: actions per state, display names, glyphs, parsing.

use docker_ps::docker::{filter_all, filter_default, filter_non_default, parse_state, Action, State};

#[test]
fn actions_table_exact() {
    assert_eq!(
        State::Created.actions(),
        Some(vec![Action::Attach, Action::Start, Action::Remove])
    );
    assert_eq!(State::Restarting.actions(), None);
    assert_eq!(
        State::Running.actions(),
        Some(vec![
            Action::Attach,
            Action::Stop,
            Action::Kill,
            Action::Restart,
            Action::Pause,
            Action::Unpause,
            Action::Remove,
            Action::Inspect,
            Action::Exec,
            Action::Logs,
        ])
    );
    assert_eq!(State::Removing.actions(), None);
    assert_eq!(State::Paused.actions(), Some(vec![Action::Unpause, Action::Remove]));
    assert_eq!(State::Exited.actions(), Some(vec![Action::Start, Action::Remove]));
    assert_eq!(State::Dead.actions(), Some(vec![Action::Start, Action::Remove]));
}

#[test]
fn action_lists_nonempty() {
    for state in [
        State::Created,
        State::Restarting,
        State::Running,
        State::Removing,
        State::Paused,
        State::Exited,
        State::Dead,
    ] {
        if let Some(actions) = state.actions() {
            assert!(!actions.is_empty());
        }
    }
}

#[test]
fn state_names() {
    assert_eq!(State::Created.name(), "Created");
    assert_eq!(State::Restarting.name(), "Restarting");
    assert_eq!(State::Running.name(), "Running");
    assert_eq!(State::Removing.name(), "Removing");
    assert_eq!(State::Paused.name(), "Paused");
    assert_eq!(State::Exited.name(), "Exited");
    assert_eq!(State::Dead.name(), "Dead");
}

#[test]
fn state_glyphs() {
    assert_eq!(State::Created.unicode(), "\u{2714}");
    assert_eq!(State::Restarting.unicode(), "\u{231B}");
    assert_eq!(State::Running.unicode(), "\u{1F197}");
    assert_eq!(State::Removing.unicode(), "\u{267B}");
    assert_eq!(State::Paused.unicode(), "\u{23F8}");
    assert_eq!(State::Exited.unicode(), "\u{1F5D1}");
    assert_eq!(State::Dead.unicode(), "\u{2620}");
}

#[test]
fn state_icon() {
    assert_eq!(State::Running.icon(), Some("./docker-icon.png".to_owned()));
}

#[test]
fn action_labels() {
    assert_eq!(Action::Attach.label(), "Attach");
    assert_eq!(Action::Start.label(), "Start");
    assert_eq!(Action::Stop.label(), "Stop");
    assert_eq!(Action::Kill.label(), "Kill");
    assert_eq!(Action::Restart.label(), "Restart");
    assert_eq!(Action::Pause.label(), "Pause");
    assert_eq!(Action::Unpause.label(), "Unpause");
    assert_eq!(Action::Remove.label(), "Remove");
    assert_eq!(Action::Inspect.label(), "Inspect");
    assert_eq!(Action::Exec.label(), "Exec");
    assert_eq!(Action::Logs.label(), "Logs");
}

#[test]
fn parse_state_is_case_insensitive() {
    assert_eq!(parse_state("running"), State::Running);
    assert_eq!(parse_state("RUNNING"), State::Running);
    assert_eq!(parse_state("pAuSeD"), State::Paused);
    assert_eq!(parse_state("Created"), State::Created);
    assert_eq!(parse_state("restarting"), State::Restarting);
    assert_eq!(parse_state("removing"), State::Removing);
    assert_eq!(parse_state("exited"), State::Exited);
    assert_eq!(parse_state("dead"), State::Dead);
}

#[test]
fn parse_state_defaults_to_dead() {
    assert_eq!(parse_state(""), State::Dead);
    assert_eq!(parse_state("hibernating"), State::Dead);
    assert_eq!(parse_state("running "), State::Dead);
}

#[test]
fn filter_presets() {
    assert_eq!(
        filter_all(),
        vec![
            State::Created,
            State::Restarting,
            State::Running,
            State::Removing,
            State::Paused,
            State::Exited,
            State::Dead,
        ]
    );
    assert_eq!(
        filter_default(),
        vec![State::Created, State::Restarting, State::Running, State::Removing]
    );
    assert_eq!(filter_non_default(), vec![State::Paused, State::Exited, State::Dead]);
}
