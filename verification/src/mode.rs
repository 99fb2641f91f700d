//! What the program is asked to do, as its first command-line argument says.

use vstd::prelude::*;

verus! {

/// The two things the program does.
#[derive(Debug, Clone, PartialEq, Eq)]
pub enum Mode {
    /// Write the example configuration file and stop.
    Generate,
    /// Run the pipeline on the configuration file at `path`.
    Run { path: String },
}

/// A mode, as mathematical values.
pub ghost enum ModeView {
    Generate,
    Run { path: Seq<char> },
}

impl View for Mode {
    type V = ModeView;

    open spec fn view(&self) -> ModeView {
        match self {
            Mode::Generate => ModeView::Generate,
            Mode::Run { path } => ModeView::Run { path: path@ },
        }
    }
}

/// The argument that asks for the example configuration file.
pub open spec fn generate_word() -> Seq<char> {
    "gen"@
}

/// The name of the configuration file in the current directory: where the
/// example is written, and what is read when no path is given.
pub open spec fn default_config_name() -> Seq<char> {
    "uefapi-runner.toml"@
}

/// The mode that a first argument selects: the reserved word asks for the
/// example file, any other argument is the path of the configuration to run,
/// and without an argument the default file is run.
pub open spec fn mode_of(first: Option<Seq<char>>) -> ModeView {
    match first {
        Some(word) => if word == generate_word() {
            ModeView::Generate
        } else {
            ModeView::Run { path: word }
        },
        None => ModeView::Run { path: default_config_name() },
    }
}

/// The first argument of a command line, as mathematical values.
pub open spec fn argument_view(first: Option<String>) -> Option<Seq<char>> {
    match first {
        Some(word) => Some(word@),
        None => None,
    }
}

/// The name of the configuration file in the current directory.
pub fn default_config_file() -> (name: String)
    ensures
        name@ == default_config_name(),
{
    "uefapi-runner.toml".to_string()
}

/// Selects the mode from the first command-line argument, if there is one.
pub fn select_mode(first: Option<String>) -> (mode: Mode)
    ensures
        mode@ == mode_of(argument_view(first)),
{
    match first {
        Some(word) => {
            if word == "gen".to_string() {
                Mode::Generate
            } else {
                Mode::Run { path: word }
            }
        },
        None => Mode::Run { path: default_config_file() },
    }
}

} // verus!
