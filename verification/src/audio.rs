use vstd::prelude::*;

verus! {

/// Requests handed to the sound-server listener loop.
#[derive(Clone, Copy, Debug, PartialEq, Eq, Structural)]
pub enum AudioCommands {
    /// Stop listening.
    Quit,
    /// Query the sink with this index again.
    Refresh(u32),
}

/// The connection states of a sound-server context.
#[derive(Clone, Copy, Debug, PartialEq, Eq, Structural)]
pub enum ContextState {
    Unconnected,
    Connecting,
    Authorizing,
    SettingName,
    Ready,
    Failed,
    Terminated,
}

/// Whether waiting for the connection is over, and how it ended: `None` while
/// it is still being set up, `Some(true)` once it is ready, `Some(false)`
/// once it can no longer become ready.
pub fn connection_outcome(state: ContextState) -> (res: Option<bool>)
    ensures
        res == match state {
            ContextState::Connecting | ContextState::Authorizing | ContextState::SettingName => None,
            ContextState::Ready => Some(true),
            _ => Some(false),
        },
{
    match state {
        ContextState::Unconnected => Some(false),
        ContextState::Connecting => None,
        ContextState::Authorizing => None,
        ContextState::SettingName => None,
        ContextState::Ready => Some(true),
        ContextState::Failed => Some(false),
        ContextState::Terminated => Some(false),
    }
}

/// The kinds of objects that a subscription event is about.
#[derive(Clone, Copy, Debug, PartialEq, Eq, Structural)]
pub enum Facility {
    Sink,
    Source,
    SinkInput,
    SourceOutput,
    Module,
    Client,
    SampleCache,
    Server,
    Card,
}

/// What happened to the object of a subscription event.
#[derive(Clone, Copy, Debug, PartialEq, Eq, Structural)]
pub enum Operation {
    New,
    Changed,
    Removed,
}

/// The request that a subscription event leads to: a refresh of the sink
/// `index` when a sink changed, nothing otherwise.
pub fn sink_change_command(
    facility: Option<Facility>,
    operation: Option<Operation>,
    index: u32,
) -> (res: Option<AudioCommands>)
    ensures
        res == (if facility == Some(Facility::Sink) && operation == Some(Operation::Changed) {
            Some(AudioCommands::Refresh(index))
        } else {
            None
        }),
{
    match (facility, operation) {
        (Some(Facility::Sink), Some(Operation::Changed)) => Some(AudioCommands::Refresh(index)),
        _ => None,
    }
}

/// What the listener loop does with what it received.
#[derive(Clone, Copy, Debug, PartialEq, Eq, Structural)]
pub enum ListenerStep {
    /// Asked to quit: leave the loop.
    Quit,
    /// Both channels are closed: leave the loop.
    Closed,
    /// Query the volume of this sink and report it.
    Query(u32),
}

/// The listener loop's decision on the next request (`None` once every
/// sender is gone).
pub fn next_step(received: Option<AudioCommands>) -> (res: ListenerStep)
    ensures
        res == match received {
            Some(AudioCommands::Quit) => ListenerStep::Quit,
            Some(AudioCommands::Refresh(idx)) => ListenerStep::Query(idx),
            None => ListenerStep::Closed,
        },
{
    match received {
        Some(AudioCommands::Quit) => ListenerStep::Quit,
        Some(AudioCommands::Refresh(idx)) => ListenerStep::Query(idx),
        None => ListenerStep::Closed,
    }
}

} // verus!
