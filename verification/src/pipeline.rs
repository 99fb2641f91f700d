//! The pipeline's driver: a state machine that is told what happened and says
//! what to do next. The caller performs each action and reports the event that
//! came of it; the machine decides the order of the steps, stops at the first
//! failure and has the staging directory released on every path.

use vstd::prelude::*;
use crate::config::ConfigView;
use crate::config::RunnerConfig;
use crate::emulator::emulator_args;
use crate::emulator::emulator_arguments;
use crate::layout::boot_dir;
use crate::layout::boot_directory;
use crate::layout::build_program;
use crate::layout::build_tool;
use crate::layout::code_image;
use crate::layout::code_image_name;
use crate::layout::vars_image;
use crate::layout::vars_image_name;
use crate::outcome::Failure;
use crate::outcome::Outcome;
use crate::outcome::OutcomeView;
use crate::text::texts;
use crate::words::split_whitespace;
use crate::words::split_words;

verus! {

/// How far a run has come.
#[derive(Debug, Clone, Copy, PartialEq, Eq, Structural)]
pub enum Phase {
    Start,
    ConfigLoaded,
    Built,
    Staged,
    FirmwareVerified,
    Launched,
    Finished,
}

/// How the artifact is placed into the staging directory.
#[derive(Debug, Clone, Copy, PartialEq, Eq, Structural)]
pub enum Transfer {
    /// The artifact is relocated: it no longer exists at its old place.
    Move,
    /// The artifact is duplicated: the file at its old place is kept.
    Copy,
}

/// What the caller reports to the machine.
#[derive(Debug, Clone, PartialEq, Eq)]
pub enum Event {
    /// The configuration file was read and parsed.
    ConfigLoaded(RunnerConfig),
    /// The configuration file could not be read.
    ConfigUnreadable,
    /// The configuration file was read and is no configuration.
    ConfigMalformed,
    /// The build tool could not be started.
    BuildNotStarted,
    /// The build tool ran and exited, with success or without.
    BuildExited { success: bool },
    /// The artifact stands in a fresh staging directory with this root.
    Staged { root: String },
    /// Staging failed; `partial` is the staging directory if one had been made.
    StagingFailed { partial: Option<String> },
    /// The firmware directory was resolved: the paths of the two images in it,
    /// and whether each exists.
    FirmwareFound { code: String, vars: String, code_present: bool, vars_present: bool },
    /// The firmware directory could not be resolved.
    FirmwareUnresolved,
    /// The emulator runs.
    EmulatorStarted,
    /// The emulator could not be started.
    EmulatorNotStarted,
    /// The emulator exited; `exit_code` is absent where it was ended by a signal.
    EmulatorExited { exit_code: Option<i32> },
    /// Waiting for the emulator failed.
    EmulatorLost,
}

/// What the machine asks the caller to do next.
#[derive(Debug, Clone, PartialEq, Eq)]
pub enum Action {
    /// Read the configuration file at `path` and parse it.
    Load { path: String },
    /// Run `program` with `args` in the directory `dir`, its output passed
    /// through, and wait for it.
    Build { program: String, args: Vec<String>, dir: String },
    /// Make a fresh staging directory and `directory` below it, and place the
    /// file at `source` there under `name`.
    Stage { source: String, directory: String, name: String, transfer: Transfer },
    /// Resolve `dir` and look for the two firmware images in it.
    VerifyFirmware { dir: String, code_name: String, vars_name: String },
    /// Start `program` with `args`.
    Launch { program: String, args: Vec<String> },
    /// Wait for the emulator to exit.
    Wait,
    /// The run is over: remove the staging directory `release`, if any, and
    /// report `outcome`.
    Finish { outcome: Outcome, release: Option<String> },
}

/// An optional text, as mathematical values.
pub open spec fn optional_text(text: Option<String>) -> Option<Seq<char>> {
    match text {
        Some(text) => Some(text@),
        None => None,
    }
}

/// An event, as mathematical values.
pub ghost enum EventView {
    ConfigLoaded(ConfigView),
    ConfigUnreadable,
    ConfigMalformed,
    BuildNotStarted,
    BuildExited { success: bool },
    Staged { root: Seq<char> },
    StagingFailed { partial: Option<Seq<char>> },
    FirmwareFound { code: Seq<char>, vars: Seq<char>, code_present: bool, vars_present: bool },
    FirmwareUnresolved,
    EmulatorStarted,
    EmulatorNotStarted,
    EmulatorExited { exit_code: Option<i32> },
    EmulatorLost,
}

impl View for Event {
    type V = EventView;

    open spec fn view(&self) -> EventView {
        match self {
            Event::ConfigLoaded(config) => EventView::ConfigLoaded(config@),
            Event::ConfigUnreadable => EventView::ConfigUnreadable,
            Event::ConfigMalformed => EventView::ConfigMalformed,
            Event::BuildNotStarted => EventView::BuildNotStarted,
            Event::BuildExited { success } => EventView::BuildExited { success: *success },
            Event::Staged { root } => EventView::Staged { root: root@ },
            Event::StagingFailed { partial } => EventView::StagingFailed {
                partial: optional_text(*partial),
            },
            Event::FirmwareFound { code, vars, code_present, vars_present } => {
                EventView::FirmwareFound {
                    code: code@,
                    vars: vars@,
                    code_present: *code_present,
                    vars_present: *vars_present,
                }
            },
            Event::FirmwareUnresolved => EventView::FirmwareUnresolved,
            Event::EmulatorStarted => EventView::EmulatorStarted,
            Event::EmulatorNotStarted => EventView::EmulatorNotStarted,
            Event::EmulatorExited { exit_code } => EventView::EmulatorExited {
                exit_code: *exit_code,
            },
            Event::EmulatorLost => EventView::EmulatorLost,
        }
    }
}

/// An action, as mathematical values.
pub ghost enum ActionView {
    Load { path: Seq<char> },
    Build { program: Seq<char>, args: Seq<Seq<char>>, dir: Seq<char> },
    Stage { source: Seq<char>, directory: Seq<char>, name: Seq<char>, transfer: Transfer },
    VerifyFirmware { dir: Seq<char>, code_name: Seq<char>, vars_name: Seq<char> },
    Launch { program: Seq<char>, args: Seq<Seq<char>> },
    Wait,
    Finish { outcome: OutcomeView, release: Option<Seq<char>> },
}

impl View for Action {
    type V = ActionView;

    open spec fn view(&self) -> ActionView {
        match self {
            Action::Load { path } => ActionView::Load { path: path@ },
            Action::Build { program, args, dir } => ActionView::Build {
                program: program@,
                args: texts(args@),
                dir: dir@,
            },
            Action::Stage { source, directory, name, transfer } => ActionView::Stage {
                source: source@,
                directory: directory@,
                name: name@,
                transfer: *transfer,
            },
            Action::VerifyFirmware { dir, code_name, vars_name } => ActionView::VerifyFirmware {
                dir: dir@,
                code_name: code_name@,
                vars_name: vars_name@,
            },
            Action::Launch { program, args } => ActionView::Launch {
                program: program@,
                args: texts(args@),
            },
            Action::Wait => ActionView::Wait,
            Action::Finish { outcome, release } => ActionView::Finish {
                outcome: outcome@,
                release: optional_text(*release),
            },
        }
    }
}

/// The machine's state, as mathematical values.
pub ghost struct PipelineView {
    /// How far the run has come.
    pub phase: Phase,
    /// The path of the configuration file.
    pub path: Seq<char>,
    /// The configuration, once it is loaded.
    pub config: Option<ConfigView>,
    /// The root of the staging directory, while the run holds one.
    pub staging: Option<Seq<char>>,
    /// How the run ended, once it has.
    pub outcome: Option<OutcomeView>,
}

/// What holds of every state that the machine reaches: the configuration is
/// known from its loading on, a build is recorded only where one was asked
/// for, the staging directory is held from staging until the end and no
/// longer, and the outcome is known exactly at the end.
pub open spec fn consistent(state: PipelineView) -> bool {
    match state.phase {
        Phase::Start => state.config is None && state.staging is None && state.outcome is None,
        Phase::ConfigLoaded => state.config is Some && state.staging is None && state.outcome
            is None,
        Phase::Built => state.config is Some && state.config->0.auto_build && state.staging
            is None && state.outcome is None,
        Phase::Staged | Phase::FirmwareVerified | Phase::Launched => state.config is Some
            && state.staging is Some && state.outcome is None,
        Phase::Finished => state.staging is None && state.outcome is Some,
    }
}

/// The state in which a run on the configuration file at `path` begins.
pub open spec fn initial(path: Seq<char>) -> PipelineView {
    PipelineView { phase: Phase::Start, path, config: None, staging: None, outcome: None }
}

/// The request to build the project: the build tool, with the words of the
/// build command as its arguments, in the project's directory.
pub open spec fn build_request(config: ConfigView) -> ActionView {
    ActionView::Build {
        program: build_tool(),
        args: split_words(config.build_cmd),
        dir: config.project_path,
    }
}

/// How the configuration asks for the artifact to be placed.
pub open spec fn transfer_of(config: ConfigView) -> Transfer {
    if config.move_binary {
        Transfer::Move
    } else {
        Transfer::Copy
    }
}

/// The request to stage the artifact under its configured name in the boot
/// directory.
pub open spec fn stage_request(config: ConfigView) -> ActionView {
    ActionView::Stage {
        source: config.binary_path,
        directory: boot_directory(),
        name: config.efi_name,
        transfer: transfer_of(config),
    }
}

/// The request to look for the two firmware images.
pub open spec fn firmware_request(config: ConfigView) -> ActionView {
    ActionView::VerifyFirmware {
        dir: config.ovmf_path,
        code_name: code_image_name(),
        vars_name: vars_image_name(),
    }
}

/// The request to start the emulator on the staged directory.
pub open spec fn launch_request(
    config: ConfigView,
    code: Seq<char>,
    vars: Seq<char>,
    root: Seq<char>,
) -> ActionView {
    ActionView::Launch {
        program: config.qemu_cmd,
        args: emulator_arguments(code, vars, root, config),
    }
}

/// The end of a run: the final state, and the request to release `release`
/// and report `outcome`.
pub open spec fn finish(state: PipelineView, outcome: OutcomeView, release: Option<Seq<char>>) -> (
    PipelineView,
    ActionView,
) {
    (
        PipelineView {
            phase: Phase::Finished,
            path: state.path,
            config: state.config,
            staging: None,
            outcome: Some(outcome),
        },
        ActionView::Finish { outcome, release },
    )
}

/// The end of a run by a failure on `subject`.
pub open spec fn fail(
    state: PipelineView,
    failure: Failure,
    subject: Seq<char>,
    release: Option<Seq<char>>,
) -> (PipelineView, ActionView) {
    finish(state, OutcomeView::Failed { failure, subject }, release)
}

/// The state after a step that changes nothing but the phase.
pub open spec fn at_phase(state: PipelineView, phase: Phase) -> PipelineView {
    PipelineView { phase, ..state }
}

/// What staging leads to from a state that awaits it.
pub open spec fn after_staging(state: PipelineView, config: ConfigView, event: EventView) -> Option<
    (PipelineView, ActionView),
> {
    match event {
        EventView::Staged { root } => Some(
            (
                PipelineView { phase: Phase::Staged, staging: Some(root), ..state },
                firmware_request(config),
            ),
        ),
        EventView::StagingFailed { partial } => Some(
            fail(state, Failure::StagingIo, config.binary_path, partial),
        ),
        _ => None,
    }
}

/// The machine's rule: the state and the action that follow when `event` is
/// reported in `state`, or `None` where the state does not await that event.
pub open spec fn step(state: PipelineView, event: EventView) -> Option<(PipelineView, ActionView)> {
    match state.phase {
        Phase::Start => match event {
            EventView::ConfigLoaded(config) => Some(
                (
                    PipelineView { phase: Phase::ConfigLoaded, config: Some(config), ..state },
                    if config.auto_build {
                        build_request(config)
                    } else {
                        stage_request(config)
                    },
                ),
            ),
            EventView::ConfigUnreadable => Some(fail(state, Failure::ConfigRead, state.path, None)),
            EventView::ConfigMalformed => Some(fail(state, Failure::ConfigParse, state.path, None)),
            _ => None,
        },
        Phase::ConfigLoaded => match state.config {
            Some(config) => if config.auto_build {
                match event {
                    EventView::BuildExited { success } => if success {
                        Some((at_phase(state, Phase::Built), stage_request(config)))
                    } else {
                        Some(fail(state, Failure::BuildFailed, config.build_cmd, None))
                    },
                    EventView::BuildNotStarted => Some(
                        fail(state, Failure::BuildSpawn, config.build_cmd, None),
                    ),
                    _ => None,
                }
            } else {
                after_staging(state, config, event)
            },
            None => None,
        },
        Phase::Built => match state.config {
            Some(config) => after_staging(state, config, event),
            None => None,
        },
        Phase::Staged => match (state.config, state.staging) {
            (Some(config), Some(root)) => match event {
                EventView::FirmwareFound { code, vars, code_present, vars_present } => if code_present
                    && vars_present {
                    Some(
                        (
                            at_phase(state, Phase::FirmwareVerified),
                            launch_request(config, code, vars, root),
                        ),
                    )
                } else {
                    Some(fail(state, Failure::FirmwareMissing, config.ovmf_path, Some(root)))
                },
                EventView::FirmwareUnresolved => Some(
                    fail(state, Failure::FirmwarePath, config.ovmf_path, Some(root)),
                ),
                _ => None,
            },
            _ => None,
        },
        Phase::FirmwareVerified => match (state.config, state.staging) {
            (Some(config), Some(root)) => match event {
                EventView::EmulatorStarted => Some(
                    (at_phase(state, Phase::Launched), ActionView::Wait),
                ),
                EventView::EmulatorNotStarted => Some(
                    fail(state, Failure::EmulatorSpawn, config.qemu_cmd, Some(root)),
                ),
                _ => None,
            },
            _ => None,
        },
        Phase::Launched => match (state.config, state.staging) {
            (Some(config), Some(root)) => match event {
                EventView::EmulatorExited { exit_code } => Some(
                    finish(state, OutcomeView::Completed { exit_code }, Some(root)),
                ),
                EventView::EmulatorLost => Some(
                    fail(state, Failure::EmulatorWait, config.qemu_cmd, Some(root)),
                ),
                _ => None,
            },
            _ => None,
        },
        Phase::Finished => None,
    }
}

/// The driver of one run.
pub struct Pipeline {
    phase: Phase,
    path: String,
    config: Option<RunnerConfig>,
    staging: Option<String>,
    outcome: Option<Outcome>,
}

/// An optional configuration, as mathematical values.
pub open spec fn optional_config(config: Option<RunnerConfig>) -> Option<ConfigView> {
    match config {
        Some(config) => Some(config@),
        None => None,
    }
}

/// An optional outcome, as mathematical values.
pub open spec fn optional_outcome(outcome: Option<Outcome>) -> Option<OutcomeView> {
    match outcome {
        Some(outcome) => Some(outcome@),
        None => None,
    }
}

/// An optional action, as mathematical values.
pub open spec fn optional_action(action: Option<Action>) -> Option<ActionView> {
    match action {
        Some(action) => Some(action@),
        None => None,
    }
}

impl View for Pipeline {
    type V = PipelineView;

    closed spec fn view(&self) -> PipelineView {
        PipelineView {
            phase: self.phase,
            path: self.path@,
            config: optional_config(self.config),
            staging: optional_text(self.staging),
            outcome: optional_outcome(self.outcome),
        }
    }
}

fn build_action(config: &RunnerConfig) -> (action: Action)
    ensures
        action@ == build_request(config@),
{
    Action::Build {
        program: build_program(),
        args: split_whitespace(config.build_cmd.as_str()),
        dir: config.project_path.clone(),
    }
}

fn stage_action(config: &RunnerConfig) -> (action: Action)
    ensures
        action@ == stage_request(config@),
{
    Action::Stage {
        source: config.binary_path.clone(),
        directory: boot_dir(),
        name: config.efi_name.clone(),
        transfer: if config.move_binary {
            Transfer::Move
        } else {
            Transfer::Copy
        },
    }
}

fn firmware_action(config: &RunnerConfig) -> (action: Action)
    ensures
        action@ == firmware_request(config@),
{
    Action::VerifyFirmware {
        dir: config.ovmf_path.clone(),
        code_name: code_image(),
        vars_name: vars_image(),
    }
}

fn launch_action(config: &RunnerConfig, code: &str, vars: &str, root: &str) -> (action: Action)
    ensures
        action@ == launch_request(config@, code@, vars@, root@),
{
    Action::Launch {
        program: config.qemu_cmd.clone(),
        args: emulator_args(code, vars, root, config),
    }
}

impl Pipeline {
    #[verifier::type_invariant]
    spec fn sound(&self) -> bool {
        consistent(self@)
    }

    /// Begins a run on the configuration file at `path`: the first thing to
    /// do is to load it.
    pub fn start(path: String) -> (begun: (Pipeline, Action))
        ensures
            begun.0@ == initial(path@),
            begun.1@ == (ActionView::Load { path: path@ }),
            consistent(begun.0@),
    {
        let load = Action::Load { path: path.clone() };
        (Pipeline { phase: Phase::Start, path, config: None, staging: None, outcome: None }, load)
    }

    /// How far the run has come.
    pub fn phase(&self) -> (phase: Phase)
        ensures
            phase == self@.phase,
    {
        self.phase
    }

    /// Whether the run is over.
    pub fn is_finished(&self) -> (over: bool)
        ensures
            over == (self@.phase == Phase::Finished),
    {
        match self.phase {
            Phase::Finished => true,
            _ => false,
        }
    }

    /// Whether the run holds a staging directory.
    pub fn holds_staging(&self) -> (held: bool)
        ensures
            held == (self@.staging is Some),
    {
        self.staging.is_some()
    }

    /// How the run ended, once it is over.
    pub fn outcome(&self) -> (outcome: Option<Outcome>)
        ensures
            optional_outcome(outcome) == self@.outcome,
            outcome is Some <==> self@.phase == Phase::Finished,
    {
        proof {
            use_type_invariant(self);
        }
        match &self.outcome {
            Some(Outcome::Completed { exit_code }) => Some(
                Outcome::Completed { exit_code: *exit_code },
            ),
            Some(Outcome::Failed { failure, subject }) => Some(
                Outcome::Failed { failure: *failure, subject: subject.clone() },
            ),
            None => None,
        }
    }

    fn finished(path: String, config: Option<RunnerConfig>, outcome: Outcome, release: Option<
        String,
    >) -> (end: (Pipeline, Option<Action>))
        ensures
            end.0@ == (PipelineView {
                phase: Phase::Finished,
                path: path@,
                config: optional_config(config),
                staging: None,
                outcome: Some(outcome@),
            }),
            optional_action(end.1) == Some(
                ActionView::Finish { outcome: outcome@, release: optional_text(release) },
            ),
    {
        let report = match &outcome {
            Outcome::Completed { exit_code } => Outcome::Completed { exit_code: *exit_code },
            Outcome::Failed { failure, subject } => Outcome::Failed {
                failure: *failure,
                subject: subject.clone(),
            },
        };
        (
            Pipeline { phase: Phase::Finished, path, config, staging: None, outcome: Some(outcome) },
            Some(Action::Finish { outcome: report, release }),
        )
    }

    /// Takes the report of what happened and says what to do next. Where the
    /// state does not await the event, nothing changes and there is nothing
    /// to do; after the end that holds of every event.
    pub fn advance(self, event: Event) -> (next: (Pipeline, Option<Action>))
        ensures
            match step(self@, event@) {
                Some((state, action)) => next.0@ == state && optional_action(next.1) == Some(
                    action,
                ),
                None => next.0@ == self@ && next.1 is None,
            },
            consistent(self@),
            consistent(next.0@),
    {
        proof {
            use_type_invariant(&self);
        }
        let Pipeline { phase, path, config, staging, outcome } = self;
        match (phase, config, staging, event) {
            (Phase::Start, _, _, Event::ConfigLoaded(loaded)) => {
                let action = if loaded.auto_build {
                    build_action(&loaded)
                } else {
                    stage_action(&loaded)
                };
                (
                    Pipeline {
                        phase: Phase::ConfigLoaded,
                        path,
                        config: Some(loaded),
                        staging: None,
                        outcome: None,
                    },
                    Some(action),
                )
            },
            (Phase::Start, config, _, Event::ConfigUnreadable) => {
                let subject = path.clone();
                Self::finished(
                    path,
                    config,
                    Outcome::Failed { failure: Failure::ConfigRead, subject },
                    None,
                )
            },
            (Phase::Start, config, _, Event::ConfigMalformed) => {
                let subject = path.clone();
                Self::finished(
                    path,
                    config,
                    Outcome::Failed { failure: Failure::ConfigParse, subject },
                    None,
                )
            },
            (Phase::ConfigLoaded, Some(config), _, Event::BuildExited { success })
                if config.auto_build => {
                if success {
                    let action = stage_action(&config);
                    (
                        Pipeline {
                            phase: Phase::Built,
                            path,
                            config: Some(config),
                            staging: None,
                            outcome: None,
                        },
                        Some(action),
                    )
                } else {
                    let subject = config.build_cmd.clone();
                    Self::finished(
                        path,
                        Some(config),
                        Outcome::Failed { failure: Failure::BuildFailed, subject },
                        None,
                    )
                }
            },
            (Phase::ConfigLoaded, Some(config), _, Event::BuildNotStarted)
                if config.auto_build => {
                let subject = config.build_cmd.clone();
                Self::finished(
                    path,
                    Some(config),
                    Outcome::Failed { failure: Failure::BuildSpawn, subject },
                    None,
                )
            },
            (Phase::ConfigLoaded, Some(config), _, Event::Staged { root })
                if !config.auto_build => {
                let action = firmware_action(&config);
                (
                    Pipeline {
                        phase: Phase::Staged,
                        path,
                        config: Some(config),
                        staging: Some(root),
                        outcome: None,
                    },
                    Some(action),
                )
            },
            (Phase::ConfigLoaded, Some(config), _, Event::StagingFailed { partial })
                if !config.auto_build => {
                let subject = config.binary_path.clone();
                Self::finished(
                    path,
                    Some(config),
                    Outcome::Failed { failure: Failure::StagingIo, subject },
                    partial,
                )
            },
            (Phase::Built, Some(config), _, Event::Staged { root }) => {
                let action = firmware_action(&config);
                (
                    Pipeline {
                        phase: Phase::Staged,
                        path,
                        config: Some(config),
                        staging: Some(root),
                        outcome: None,
                    },
                    Some(action),
                )
            },
            (Phase::Built, Some(config), _, Event::StagingFailed { partial }) => {
                let subject = config.binary_path.clone();
                Self::finished(
                    path,
                    Some(config),
                    Outcome::Failed { failure: Failure::StagingIo, subject },
                    partial,
                )
            },
            (
                Phase::Staged,
                Some(config),
                Some(root),
                Event::FirmwareFound { code, vars, code_present, vars_present },
            ) => {
                if code_present && vars_present {
                    let action = launch_action(
                        &config,
                        code.as_str(),
                        vars.as_str(),
                        root.as_str(),
                    );
                    (
                        Pipeline {
                            phase: Phase::FirmwareVerified,
                            path,
                            config: Some(config),
                            staging: Some(root),
                            outcome: None,
                        },
                        Some(action),
                    )
                } else {
                    let subject = config.ovmf_path.clone();
                    Self::finished(
                        path,
                        Some(config),
                        Outcome::Failed { failure: Failure::FirmwareMissing, subject },
                        Some(root),
                    )
                }
            },
            (Phase::Staged, Some(config), Some(root), Event::FirmwareUnresolved) => {
                let subject = config.ovmf_path.clone();
                Self::finished(
                    path,
                    Some(config),
                    Outcome::Failed { failure: Failure::FirmwarePath, subject },
                    Some(root),
                )
            },
            (Phase::FirmwareVerified, Some(config), Some(root), Event::EmulatorStarted) => {
                (
                    Pipeline {
                        phase: Phase::Launched,
                        path,
                        config: Some(config),
                        staging: Some(root),
                        outcome: None,
                    },
                    Some(Action::Wait),
                )
            },
            (Phase::FirmwareVerified, Some(config), Some(root), Event::EmulatorNotStarted) => {
                let subject = config.qemu_cmd.clone();
                Self::finished(
                    path,
                    Some(config),
                    Outcome::Failed { failure: Failure::EmulatorSpawn, subject },
                    Some(root),
                )
            },
            (Phase::Launched, Some(config), Some(root), Event::EmulatorExited { exit_code }) => {
                Self::finished(
                    path,
                    Some(config),
                    Outcome::Completed { exit_code },
                    Some(root),
                )
            },
            (Phase::Launched, Some(config), Some(root), Event::EmulatorLost) => {
                let subject = config.qemu_cmd.clone();
                Self::finished(
                    path,
                    Some(config),
                    Outcome::Failed { failure: Failure::EmulatorWait, subject },
                    Some(root),
                )
            },
            (phase, config, staging, _) => {
                (Pipeline { phase, path, config, staging, outcome }, None)
            },
        }
    }
}

} // verus!
