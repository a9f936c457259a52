use bar::audio::{
    connection_outcome, next_step, sink_change_command, AudioCommands, ContextState, Facility,
    ListenerStep, Operation,
};

#[test]
fn connection_states() {
    assert_eq!(connection_outcome(ContextState::Unconnected), Some(false));
    assert_eq!(connection_outcome(ContextState::Connecting), None);
    assert_eq!(connection_outcome(ContextState::Authorizing), None);
    assert_eq!(connection_outcome(ContextState::SettingName), None);
    assert_eq!(connection_outcome(ContextState::Ready), Some(true));
    assert_eq!(connection_outcome(ContextState::Failed), Some(false));
    assert_eq!(connection_outcome(ContextState::Terminated), Some(false));
}

#[test]
fn only_changed_sinks_are_refreshed() {
    assert_eq!(
        sink_change_command(Some(Facility::Sink), Some(Operation::Changed), 7),
        Some(AudioCommands::Refresh(7))
    );
    assert_eq!(sink_change_command(Some(Facility::Sink), Some(Operation::New), 7), None);
    assert_eq!(sink_change_command(Some(Facility::Source), Some(Operation::Changed), 7), None);
    assert_eq!(sink_change_command(None, Some(Operation::Changed), 7), None);
    assert_eq!(sink_change_command(Some(Facility::Sink), None, 7), None);
}

#[test]
fn listener_steps() {
    assert_eq!(next_step(Some(AudioCommands::Quit)), ListenerStep::Quit);
    assert_eq!(next_step(Some(AudioCommands::Refresh(3))), ListenerStep::Query(3));
    assert_eq!(next_step(None), ListenerStep::Closed);
}
