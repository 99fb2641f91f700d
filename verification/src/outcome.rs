//! How a run ends, and what is said of a failure.

use vstd::prelude::*;
use vstd::string::StringExecFns;
use crate::layout::code_image_name;
use crate::layout::vars_image_name;

verus! {

/// The ways in which a run, or writing the example file, fails.
#[derive(Debug, Clone, Copy, PartialEq, Eq, Structural)]
pub enum Failure {
    /// The configuration file is missing or unreadable.
    ConfigRead,
    /// The configuration file does not follow the schema.
    ConfigParse,
    /// The example configuration file could not be written.
    ConfigWrite,
    /// The build tool could not be started.
    BuildSpawn,
    /// The build tool ended without success.
    BuildFailed,
    /// The staging directory could not be made or the artifact not placed in it.
    StagingIo,
    /// The firmware directory could not be resolved.
    FirmwarePath,
    /// One or both firmware images are absent.
    FirmwareMissing,
    /// The emulator could not be started.
    EmulatorSpawn,
    /// Waiting for the emulator failed.
    EmulatorWait,
}

/// How a run ended.
#[derive(Debug, Clone, PartialEq, Eq)]
pub enum Outcome {
    /// The emulator ran and exited; its exit code is reported, whatever it is.
    Completed { exit_code: Option<i32> },
    /// A step failed; `subject` is the path or command that it failed on.
    Failed { failure: Failure, subject: String },
}

/// An outcome, as mathematical values.
pub ghost enum OutcomeView {
    Completed { exit_code: Option<i32> },
    Failed { failure: Failure, subject: Seq<char> },
}

impl View for Outcome {
    type V = OutcomeView;

    open spec fn view(&self) -> OutcomeView {
        match self {
            Outcome::Completed { exit_code } => OutcomeView::Completed { exit_code: *exit_code },
            Outcome::Failed { failure, subject } => OutcomeView::Failed {
                failure: *failure,
                subject: subject@,
            },
        }
    }
}

impl Outcome {
    /// Tells whether the run got as far as the emulator's exit.
    pub fn is_success(&self) -> (ok: bool)
        ensures
            ok == (self@ is Completed),
    {
        match self {
            Outcome::Completed { .. } => true,
            Outcome::Failed { .. } => false,
        }
    }
}

/// What is said of the absence of a firmware image: both expected files by name.
pub open spec fn firmware_hint() -> Seq<char> {
    "OVMF files not found in path, this tool needs "@ + code_image_name() + " and "@
        + vars_image_name() + " to run"@
}

/// What is said of a failure, before the path or command that it concerns.
pub open spec fn failure_text(failure: Failure) -> Seq<char> {
    match failure {
        Failure::ConfigRead => "Failed to read config file"@,
        Failure::ConfigParse => "Failed to parse config file"@,
        Failure::ConfigWrite => "Failed to write example config"@,
        Failure::BuildSpawn => "Failed to run build command"@,
        Failure::BuildFailed => "Build failed"@,
        Failure::StagingIo => "Failed to stage binary"@,
        Failure::FirmwarePath => "Failed to canonicalize OVMF path"@,
        Failure::FirmwareMissing => firmware_hint(),
        Failure::EmulatorSpawn => "Failed to run QEMU"@,
        Failure::EmulatorWait => "Failed to wait for QEMU"@,
    }
}

/// The diagnostic of a failure: what failed, then the path or command.
pub open spec fn diagnostic_text(failure: Failure, subject: Seq<char>) -> Seq<char> {
    failure_text(failure) + ": "@ + subject
}

/// Whether `needle` stands somewhere in `text`.
pub open spec fn mentions(text: Seq<char>, needle: Seq<char>) -> bool {
    exists|at: int|
        0 <= at && at + needle.len() <= text.len() && #[trigger] text.subrange(
            at,
            at + needle.len(),
        ) == needle
}

/// Says what failed.
pub fn describe(failure: Failure) -> (text: String)
    ensures
        text@ == failure_text(failure),
{
    match failure {
        Failure::ConfigRead => "Failed to read config file".to_string(),
        Failure::ConfigParse => "Failed to parse config file".to_string(),
        Failure::ConfigWrite => "Failed to write example config".to_string(),
        Failure::BuildSpawn => "Failed to run build command".to_string(),
        Failure::BuildFailed => "Build failed".to_string(),
        Failure::StagingIo => "Failed to stage binary".to_string(),
        Failure::FirmwarePath => "Failed to canonicalize OVMF path".to_string(),
        Failure::FirmwareMissing => {
            let mut text = "OVMF files not found in path, this tool needs ".to_string();
            text.append("OVMF_CODE.fd");
            text.append(" and ");
            text.append("OVMF_VARS.fd");
            text.append(" to run");
            text
        },
        Failure::EmulatorSpawn => "Failed to run QEMU".to_string(),
        Failure::EmulatorWait => "Failed to wait for QEMU".to_string(),
    }
}

/// The diagnostic of a failure on `subject`, the path or command that it concerns.
pub fn diagnostic(failure: Failure, subject: &str) -> (text: String)
    ensures
        text@ == diagnostic_text(failure, subject@),
{
    let mut text = describe(failure);
    text.append(": ");
    text.append(subject);
    text
}

/// The diagnostic of absent firmware names both files that are expected,
/// whatever the directory.
pub proof fn lemma_missing_firmware_is_named(subject: Seq<char>)
    ensures
        mentions(diagnostic_text(Failure::FirmwareMissing, subject), code_image_name()),
        mentions(diagnostic_text(Failure::FirmwareMissing, subject), vars_image_name()),
{
    let text = diagnostic_text(Failure::FirmwareMissing, subject);
    let lead = "OVMF files not found in path, this tool needs "@;
    let code = code_image_name();
    let vars = vars_image_name();
    let first = lead.len() as int;
    let second = first + code.len() + " and "@.len();
    assert(text.subrange(first, first + code.len()) =~= code);
    assert(text.subrange(second, second + vars.len()) =~= vars);
}

} // verus!
