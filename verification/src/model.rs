use vstd::prelude::*;

use crate::base::{base_size, get_desired_size_base, volume_from_reading, VolumeReading};
use crate::color::Colors;
use crate::launch::{
    after_key, launch_size, spec_options, updated_by_search, KeyPress, Launch, LaunchMessage,
};
use crate::terminal::{BackendOutcome, TerminalMessage, TerminalState};

verus! {

/// A surface size in whole logical pixels.
#[derive(Clone, Copy, Debug, PartialEq, Eq, Structural)]
pub struct Size {
    pub width: u32,
    pub height: u32,
}

/// The program that a terminal state of the bar runs.
#[derive(Clone, Copy, Debug, PartialEq, Eq, Structural)]
pub enum TerminalProgram {
    /// The wifi manager `impala`.
    Impala,
    /// The bluetooth manager `bluetui`.
    Bluetui,
}

/// The spec of the command line that a terminal program is started with.
pub open spec fn program_name(program: TerminalProgram) -> Seq<char> {
    match program {
        TerminalProgram::Impala => "impala"@,
        TerminalProgram::Bluetui => "bluetui"@,
    }
}

impl TerminalProgram {
    /// The command line that the terminal runs.
    pub fn command(&self) -> (res: &'static str)
        ensures
            res@ == program_name(*self),
    {
        match self {
            TerminalProgram::Impala => "impala",
            TerminalProgram::Bluetui => "bluetui",
        }
    }
}

/// The size at which a terminal state is opened.
pub open spec fn terminal_window_size() -> Size {
    Size { width: 800, height: 600 }
}

/// A request to replace the bar's state: which state comes next.
#[derive(Clone, Copy, Debug, PartialEq, Eq, Structural)]
pub enum Transition {
    /// Back to the collapsed bar.
    ToBase,
    /// Open the launcher with its full list.
    ToLaunch,
    /// Open a terminal that runs this program.
    ToTerminal(TerminalProgram),
}

/// What the bar shows.
pub enum BarState {
    /// The collapsed bar: volume and clock.
    Base,
    /// The launcher.
    Launch(Launch),
    /// A terminal running a program.
    Terminal(TerminalState),
}

/// The size that a state wants.
pub open spec fn state_size(state: BarState) -> Size {
    match state {
        BarState::Base => base_size(),
        BarState::Launch(l) => launch_size(l.list().len() as int),
        BarState::Terminal(t) => t.size,
    }
}

/// Which input gets the keyboard once the bar enters a state.
#[derive(Clone, Copy, Debug, PartialEq, Eq, Structural)]
pub enum Focus {
    /// The launcher's search field.
    CommandInput,
    /// The terminal widget.
    Terminal,
    /// No input.
    Nothing,
}

/// The input focused in a state.
pub open spec fn state_focus(state: BarState) -> Focus {
    match state {
        BarState::Base => Focus::Nothing,
        BarState::Launch(_) => Focus::CommandInput,
        BarState::Terminal(_) => Focus::Terminal,
    }
}

/// `state` is the state that `transition` opens with the scheme `colors`: the
/// collapsed bar; a fresh launcher; or a terminal of 800 by 600 pixels that
/// runs the program in the scheme's colors.
pub open spec fn opened_by(state: BarState, transition: Transition, colors: Colors) -> bool {
    match transition {
        Transition::ToBase => state is Base,
        Transition::ToLaunch => match state {
            BarState::Launch(l) => l.command@ == Seq::<char>::empty() && l.list() == spec_options()
                && l.selection == 0,
            _ => false,
        },
        Transition::ToTerminal(p) => match state {
            BarState::Terminal(t) => t.program@ == program_name(p) && t.size
                == terminal_window_size() && t.palette.is_palette_of(colors),
            _ => false,
        },
    }
}

/// The state is well formed: a launcher in it is.
pub open spec fn state_wf(state: BarState) -> bool {
    match state {
        BarState::Launch(l) => l.wf(),
        _ => true,
    }
}

impl Default for BarState {
    fn default() -> (res: Self)
        ensures
            res is Base,
    {
        BarState::Base
    }
}

impl BarState {
    /// The state that a transition opens, in the colors of `colors`.
    pub fn open(transition: Transition, colors: &Colors) -> (res: BarState)
        ensures
            opened_by(res, transition, *colors),
            state_wf(res),
    {
        match transition {
            Transition::ToBase => BarState::Base,
            Transition::ToLaunch => BarState::Launch(Launch::new()),
            Transition::ToTerminal(p) => {
                let size = Size { width: 800, height: 600 };
                BarState::Terminal(TerminalState::new(p.command(), size, colors))
            },
        }
    }

    /// The size that the state wants.
    pub fn get_desired_size(&self) -> (res: Size)
        ensures
            res == state_size(*self),
    {
        match self {
            BarState::Base => get_desired_size_base(),
            BarState::Launch(launch) => launch.get_desired_size(),
            BarState::Terminal(terminal) => terminal.get_desired_size(),
        }
    }

    /// A key press goes to the launcher; the other states ignore keys.
    pub fn key_event(&mut self, key: KeyPress) -> (res: Option<Transition>)
        requires
            match *old(self) {
                BarState::Launch(l) => l.key_allowed(key),
                _ => true,
            },
        ensures
            match (*old(self), *final(self)) {
                (BarState::Launch(before), BarState::Launch(after)) => after_key(
                    before,
                    after,
                    key,
                    res,
                ),
                (BarState::Launch(_), _) => false,
                (before, after) => after == before && res is None,
            },
            state_wf(*old(self)) ==> state_wf(*final(self)),
    {
        match self {
            BarState::Base => None,
            BarState::Launch(launch) => launch.key_event(key),
            BarState::Terminal(_terminal_state) => None,
        }
    }
}

/// Opening the launcher makes the bar 400 by 240 pixels (three rows under
/// the search field) and focuses the search field, in a well-formed state.
pub proof fn lemma_opened_launcher(state: BarState, colors: Colors)
    requires
        opened_by(state, Transition::ToLaunch, colors),
    ensures
        state_size(state) == (Size { width: 400, height: 240 }),
        state_focus(state) == Focus::CommandInput,
        state_wf(state),
{
    crate::launch::lemma_empty_search_lists_all();
    assert(spec_options().len() == 3);
}

/// Opening a terminal makes the bar 800 by 600 pixels and focuses the terminal.
pub proof fn lemma_opened_terminal(state: BarState, program: TerminalProgram, colors: Colors)
    requires
        opened_by(state, Transition::ToTerminal(program), colors),
    ensures
        state_size(state) == terminal_window_size(),
        state_focus(state) == Focus::Terminal,
{
}

/// A well-formed launcher never asks for more than its fresh size: a search
/// only ever lists part of the table.
pub proof fn lemma_launcher_never_grows(launch: Launch)
    requires
        launch.wf(),
    ensures
        state_size(BarState::Launch(launch)).width == 400,
        state_size(BarState::Launch(launch)).height <= 240,
{
    let pred = |o: crate::launch::OptionView| crate::launch::option_matches(o.0, launch.command@);
    spec_options().lemma_filter_len(pred);
    assert(launch.list().len() <= 3);
    assert(launch.list().len() * 55 + 75 <= 240);
}

/// A launcher state wants the size of its own list: 400 pixels wide, 55 per
/// listed entry under 75 for the search field (at most the largest `u32`),
/// the same as the launcher itself asks for.
pub proof fn lemma_launch_state_size(launch: Launch)
    ensures
        state_size(BarState::Launch(launch)).width == 400,
        launch.current_list@.len() * 55 + 75 <= u32::MAX ==> state_size(
            BarState::Launch(launch),
        ).height == launch.current_list@.len() * 55 + 75,
        launch.current_list@.len() * 55 + 75 > u32::MAX ==> state_size(
            BarState::Launch(launch),
        ).height == u32::MAX,
        state_size(BarState::Launch(launch)) == launch_size(launch.current_list@.len() as int),
{
}

/// The part of the bar that its decisions read and write.
pub struct Bar {
    pub state: BarState,
    pub colors: Colors,
    pub volume: Option<String>,
}

impl Default for Bar {
    fn default() -> (res: Self)
        ensures
            res.state is Base,
            res.colors == crate::color::default_colors(),
            res.volume is None,
    {
        Bar { state: BarState::Base, colors: Colors::default(), volume: None }
    }
}

/// What happens to the bar.
pub enum Message {
    /// The pointer entered the bar.
    HoverStart,
    /// The pointer left the bar.
    HoverEnd,
    /// Replace the state.
    StateChange(Transition),
    /// The launcher's search text changed.
    LaunchUpdate(LaunchMessage),
    /// The terminal's backend handled an event.
    TerminalEvent(TerminalMessage),
    /// The sink volume changed.
    NewVolume(VolumeReading),
    /// A key was pressed.
    KeyEvent(KeyPress),
}

/// What the bar asks of its surroundings after a message.
#[derive(Clone, Copy, Debug, PartialEq, Eq, Structural)]
pub enum Effect {
    /// Nothing.
    Nothing,
    /// Deliver a state change as the next message.
    Emit(Transition),
    /// Animate the bar to this size.
    Resize(Size),
    /// Animate the bar to this size, then focus this input.
    ResizeAndFocus(Size, Focus),
}

/// The bar's decision on a message: how the bar changes and what it asks for.
pub fn update(bar: &mut Bar, message: Message) -> (res: Effect)
    requires
        match message {
            Message::KeyEvent(key) => match old(bar).state {
                BarState::Launch(l) => l.key_allowed(key),
                _ => true,
            },
            _ => true,
        },
    ensures
        final(bar).colors == old(bar).colors,
        match message {
            Message::NewVolume(_) => true,
            _ => final(bar).volume == old(bar).volume,
        },
        state_wf(old(bar).state) ==> state_wf(final(bar).state),
        match message {
            Message::HoverStart => final(bar).state == old(bar).state && res == Effect::Emit(
                Transition::ToLaunch,
            ),
            Message::HoverEnd => final(bar).state is Base && res == Effect::Resize(base_size()),
            Message::StateChange(t) => opened_by(final(bar).state, t, old(bar).colors) && res
                == Effect::ResizeAndFocus(
                state_size(final(bar).state),
                state_focus(final(bar).state),
            ),
            Message::LaunchUpdate(m) => match (old(bar).state, final(bar).state) {
                (BarState::Launch(before), BarState::Launch(after)) => updated_by_search(
                    before,
                    after,
                    m.text(),
                ) && res == Effect::Resize(launch_size(after.list().len() as int)),
                (BarState::Launch(_), _) => false,
                (before, after) => after == before && res == Effect::Nothing,
            },
            Message::TerminalEvent(tm) => final(bar).state == old(bar).state && res == (
            match (old(bar).state, tm) {
                (
                    BarState::Terminal(_),
                    TerminalMessage::TerminalEvent(BackendOutcome::Shutdown),
                ) => Effect::Emit(Transition::ToBase),
                _ => Effect::Nothing,
            }),
            Message::NewVolume(r) => final(bar).state == old(bar).state && res == Effect::Nothing
                && (r.level == crate::base::muted_level() ==> final(bar).volume is None) && (
            r.level != crate::base::muted_level() ==> (final(bar).volume matches Some(v) && v@
                == r.printed@)),
            Message::KeyEvent(key) => match (old(bar).state, final(bar).state) {
                (BarState::Launch(before), BarState::Launch(after)) => exists|answer: Option<
                    Transition,
                >|
                    #[trigger] after_key(before, after, key, answer) && res == match answer {
                        Some(t) => Effect::Emit(t),
                        None => Effect::Nothing,
                    },
                (BarState::Launch(_), _) => false,
                (before, after) => after == before && res == Effect::Nothing,
            },
        },
{
    match message {
        Message::HoverStart => Effect::Emit(Transition::ToLaunch),
        Message::StateChange(transition) => {
            bar.state = BarState::open(transition, &bar.colors);
            let size = bar.state.get_desired_size();
            let focus = match &bar.state {
                BarState::Launch(_) => Focus::CommandInput,
                BarState::Terminal(_) => Focus::Terminal,
                BarState::Base => Focus::Nothing,
            };
            Effect::ResizeAndFocus(size, focus)
        },
        Message::LaunchUpdate(command) => match &mut bar.state {
            BarState::Launch(launch) => Effect::Resize(launch.update(command)),
            _ => Effect::Nothing,
        },
        Message::TerminalEvent(command) => match &bar.state {
            BarState::Terminal(terminal) => match terminal.update(command) {
                Some(t) => Effect::Emit(t),
                None => Effect::Nothing,
            },
            _ => Effect::Nothing,
        },
        Message::HoverEnd => {
            bar.state = BarState::Base;
            Effect::Resize(get_desired_size_base())
        },
        Message::NewVolume(reading) => {
            bar.volume = volume_from_reading(reading);
            Effect::Nothing
        },
        Message::KeyEvent(key) => match bar.state.key_event(key) {
            Some(t) => Effect::Emit(t),
            None => Effect::Nothing,
        },
    }
}

} // verus!
