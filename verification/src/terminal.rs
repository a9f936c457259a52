use vstd::prelude::*;

use crate::color::{color_text, Colors};
use crate::model::{Size, Transition};

verus! {

/// The terminal's color table: one text per slot, as the terminal widget
/// takes them.
pub struct TerminalPalette {
    pub foreground: String,
    pub background: String,
    pub black: String,
    pub red: String,
    pub green: String,
    pub yellow: String,
    pub blue: String,
    pub magenta: String,
    pub cyan: String,
    pub white: String,
    pub bright_black: String,
    pub bright_red: String,
    pub bright_green: String,
    pub bright_yellow: String,
    pub bright_blue: String,
    pub bright_magenta: String,
    pub bright_cyan: String,
    pub bright_white: String,
    pub bright_foreground: Option<String>,
    pub dim_foreground: String,
    pub dim_black: String,
    pub dim_red: String,
    pub dim_green: String,
    pub dim_yellow: String,
    pub dim_blue: String,
    pub dim_magenta: String,
    pub dim_cyan: String,
    pub dim_white: String,
}

impl TerminalPalette {
    /// The terminal colors of a scheme: the eight normal, bright and dim
    /// colors are the same per hue (black is the background, white the
    /// foreground, red `color4`, green `color3`, yellow `color2`, blue
    /// `color5`, magenta the accent, cyan `color1`); no bright foreground.
    pub open spec fn is_palette_of(&self, colors: Colors) -> bool {
        &&& self.foreground@ == color_text(colors.foreground)
        &&& self.background@ == color_text(colors.background)
        &&& self.black@ == color_text(colors.background)
        &&& self.red@ == color_text(colors.color4)
        &&& self.green@ == color_text(colors.color3)
        &&& self.yellow@ == color_text(colors.color2)
        &&& self.blue@ == color_text(colors.color5)
        &&& self.magenta@ == color_text(colors.accent)
        &&& self.cyan@ == color_text(colors.color1)
        &&& self.white@ == color_text(colors.foreground)
        &&& self.bright_black@ == color_text(colors.background)
        &&& self.bright_red@ == color_text(colors.color4)
        &&& self.bright_green@ == color_text(colors.color3)
        &&& self.bright_yellow@ == color_text(colors.color2)
        &&& self.bright_blue@ == color_text(colors.color5)
        &&& self.bright_magenta@ == color_text(colors.accent)
        &&& self.bright_cyan@ == color_text(colors.color1)
        &&& self.bright_white@ == color_text(colors.foreground)
        &&& self.dim_foreground@ == color_text(colors.foreground)
        &&& self.dim_black@ == color_text(colors.background)
        &&& self.dim_red@ == color_text(colors.color4)
        &&& self.dim_green@ == color_text(colors.color3)
        &&& self.dim_yellow@ == color_text(colors.color2)
        &&& self.dim_blue@ == color_text(colors.color5)
        &&& self.dim_magenta@ == color_text(colors.accent)
        &&& self.dim_cyan@ == color_text(colors.color1)
        &&& self.dim_white@ == color_text(colors.foreground)
        &&& self.bright_foreground is None
    }

    /// The terminal colors of a scheme, as `is_palette_of` states them.
    pub fn from_colors(colors: &Colors) -> (res: TerminalPalette)
        ensures
            res.is_palette_of(*colors),
    {
        let background = colors.background.to_hex_string();
        let foreground = colors.foreground.to_hex_string();
        let color1 = colors.color1.to_hex_string();
        let color2 = colors.color2.to_hex_string();
        let color3 = colors.color3.to_hex_string();
        let color4 = colors.color4.to_hex_string();
        let color5 = colors.color5.to_hex_string();
        let accent = colors.accent.to_hex_string();
        TerminalPalette {
            foreground: foreground.clone(),
            background: background.clone(),
            black: background.clone(),
            red: color4.clone(),
            green: color3.clone(),
            yellow: color2.clone(),
            blue: color5.clone(),
            magenta: accent.clone(),
            cyan: color1.clone(),
            white: foreground.clone(),
            bright_black: background.clone(),
            bright_red: color4.clone(),
            bright_green: color3.clone(),
            bright_yellow: color2.clone(),
            bright_blue: color5.clone(),
            bright_magenta: accent.clone(),
            bright_cyan: color1.clone(),
            bright_white: foreground.clone(),
            bright_foreground: None,
            dim_foreground: foreground.clone(),
            dim_black: background.clone(),
            dim_red: color4.clone(),
            dim_green: color3.clone(),
            dim_yellow: color2.clone(),
            dim_blue: color5.clone(),
            dim_magenta: accent.clone(),
            dim_cyan: color1.clone(),
            dim_white: foreground.clone(),
        }
    }
}

/// What the terminal's backend answered to a forwarded call.
#[derive(Clone, Copy, Debug, PartialEq, Eq, Structural)]
pub enum BackendOutcome {
    /// The program in the terminal has exited.
    Shutdown,
    /// Anything else.
    Other,
}

/// An event of the terminal state, once the backend has handled it.
#[derive(Clone, Copy, Debug, PartialEq, Eq, Structural)]
pub enum TerminalMessage {
    TerminalEvent(BackendOutcome),
}

/// A terminal state: the program it runs, its size and its colors.
pub struct TerminalState {
    pub program: String,
    pub size: Size,
    pub palette: TerminalPalette,
}

impl TerminalState {
    /// The settings of a terminal that runs `command` at `size` in the colors of `colors`.
    pub fn new(command: &str, size: Size, colors: &Colors) -> (res: TerminalState)
        ensures
            res.program@ == command@,
            res.size == size,
            res.palette.is_palette_of(*colors),
    {
        let palette = TerminalPalette::from_colors(colors);
        TerminalState { program: command.to_string(), size, palette }
    }

    /// The size the terminal wants: the one it was opened with.
    pub fn get_desired_size(&self) -> (res: Size)
        ensures
            res == self.size,
    {
        self.size
    }

    /// The bar goes back to its base state when the program has exited.
    pub fn update(&self, message: TerminalMessage) -> (res: Option<Transition>)
        ensures
            res == (match message {
                TerminalMessage::TerminalEvent(BackendOutcome::Shutdown) => Some(Transition::ToBase),
                TerminalMessage::TerminalEvent(BackendOutcome::Other) => None,
            }),
    {
        match message {
            TerminalMessage::TerminalEvent(BackendOutcome::Shutdown) => Some(Transition::ToBase),
            TerminalMessage::TerminalEvent(BackendOutcome::Other) => None,
        }
    }
}

/// Each hue of a scheme's terminal palette has one color for its normal,
/// bright and dim slot, taken from the scheme: black the background, red
/// `color4`, green `color3`, yellow `color2`, blue `color5`, magenta the
/// accent, cyan `color1`, white the foreground; the foreground and the dim
/// foreground are the scheme's foreground, the background its background.
pub proof fn lemma_palette_hues(palette: TerminalPalette, colors: Colors)
    requires
        palette.is_palette_of(colors),
    ensures
        palette.black@ == color_text(colors.background),
        palette.bright_black@ == palette.black@,
        palette.dim_black@ == palette.black@,
        palette.red@ == color_text(colors.color4),
        palette.bright_red@ == palette.red@,
        palette.dim_red@ == palette.red@,
        palette.green@ == color_text(colors.color3),
        palette.bright_green@ == palette.green@,
        palette.dim_green@ == palette.green@,
        palette.yellow@ == color_text(colors.color2),
        palette.bright_yellow@ == palette.yellow@,
        palette.dim_yellow@ == palette.yellow@,
        palette.blue@ == color_text(colors.color5),
        palette.bright_blue@ == palette.blue@,
        palette.dim_blue@ == palette.blue@,
        palette.magenta@ == color_text(colors.accent),
        palette.bright_magenta@ == palette.magenta@,
        palette.dim_magenta@ == palette.magenta@,
        palette.cyan@ == color_text(colors.color1),
        palette.bright_cyan@ == palette.cyan@,
        palette.dim_cyan@ == palette.cyan@,
        palette.white@ == color_text(colors.foreground),
        palette.bright_white@ == palette.white@,
        palette.dim_white@ == palette.white@,
        palette.foreground@ == color_text(colors.foreground),
        palette.dim_foreground@ == palette.foreground@,
        palette.background@ == color_text(colors.background),
        palette.bright_foreground is None,
{
}

} // verus!
