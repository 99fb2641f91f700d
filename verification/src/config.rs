//! The run configuration: its fields, its mathematical view and the
//! documented example value.

use vstd::prelude::*;

verus! {

/// What a run is configured with. Paths and commands are kept as text.
#[derive(Debug, Hash)]
pub struct RunnerConfig {
    pub project_path: String,
    pub auto_build: bool,
    pub build_cmd: String,
    pub binary_path: String,
    pub efi_name: String,
    pub move_binary: bool,
    pub qemu_cmd: String,
    pub ovmf_path: String,
    pub stdio_serial: bool,
    pub log_serial: bool,
    pub log_path: String,
}

/// A configuration as plain mathematical values.
pub ghost struct ConfigView {
    pub project_path: Seq<char>,
    pub auto_build: bool,
    pub build_cmd: Seq<char>,
    pub binary_path: Seq<char>,
    pub efi_name: Seq<char>,
    pub move_binary: bool,
    pub qemu_cmd: Seq<char>,
    pub ovmf_path: Seq<char>,
    pub stdio_serial: bool,
    pub log_serial: bool,
    pub log_path: Seq<char>,
}

impl View for RunnerConfig {
    type V = ConfigView;

    open spec fn view(&self) -> ConfigView {
        ConfigView {
            project_path: self.project_path@,
            auto_build: self.auto_build,
            build_cmd: self.build_cmd@,
            binary_path: self.binary_path@,
            efi_name: self.efi_name@,
            move_binary: self.move_binary,
            qemu_cmd: self.qemu_cmd@,
            ovmf_path: self.ovmf_path@,
            stdio_serial: self.stdio_serial,
            log_serial: self.log_serial,
            log_path: self.log_path@,
        }
    }
}

impl Clone for RunnerConfig {
    fn clone(&self) -> (copy: RunnerConfig)
        ensures
            copy == *self,
    {
        RunnerConfig {
            project_path: self.project_path.clone(),
            auto_build: self.auto_build,
            build_cmd: self.build_cmd.clone(),
            binary_path: self.binary_path.clone(),
            efi_name: self.efi_name.clone(),
            move_binary: self.move_binary,
            qemu_cmd: self.qemu_cmd.clone(),
            ovmf_path: self.ovmf_path.clone(),
            stdio_serial: self.stdio_serial,
            log_serial: self.log_serial,
            log_path: self.log_path.clone(),
        }
    }
}

impl PartialEq for RunnerConfig {
    fn eq(&self, other: &RunnerConfig) -> (same: bool) {
        self.project_path == other.project_path
            && self.auto_build == other.auto_build
            && self.build_cmd == other.build_cmd
            && self.binary_path == other.binary_path
            && self.efi_name == other.efi_name
            && self.move_binary == other.move_binary
            && self.qemu_cmd == other.qemu_cmd
            && self.ovmf_path == other.ovmf_path
            && self.stdio_serial == other.stdio_serial
            && self.log_serial == other.log_serial
            && self.log_path == other.log_path
    }
}

impl vstd::std_specs::cmp::PartialEqSpecImpl for RunnerConfig {
    open spec fn obeys_eq_spec() -> bool {
        true
    }

    open spec fn eq_spec(&self, other: &RunnerConfig) -> bool {
        self@ == other@
    }
}

impl Eq for RunnerConfig {}

/// What a configuration must satisfy to describe a run: the staged file has a
/// name, and a build that is asked for has a command.
pub open spec fn well_formed(config: ConfigView) -> bool {
    &&& config.efi_name.len() > 0
    &&& config.auto_build ==> config.build_cmd.len() > 0
}

/// Whether a run would consume the artifact without building it again: the
/// binary is moved away and no build is asked for. Such a configuration is
/// accepted; the combination deserves a warning.
pub open spec fn risky(config: ConfigView) -> bool {
    config.move_binary && !config.auto_build
}

impl RunnerConfig {
    /// Tells whether the configuration describes a run.
    pub fn is_well_formed(&self) -> (ok: bool)
        ensures
            ok == well_formed(self@),
    {
        !self.efi_name.as_str().is_empty() && (!self.auto_build
            || !self.build_cmd.as_str().is_empty())
    }

    /// Tells whether the artifact would be moved away without being built again.
    pub fn is_risky(&self) -> (warn: bool)
        ensures
            warn == risky(self@),
    {
        self.move_binary && !self.auto_build
    }
}

/// The documented example configuration, as mathematical values.
pub open spec fn example_view() -> ConfigView {
    ConfigView {
        project_path: "."@,
        auto_build: true,
        build_cmd: "build --target x86_64-unknown-uefi --release"@,
        binary_path: "target/x86_64-unknown-uefi/debug/your_bin_name.efi"@,
        efi_name: "BOOTX64.EFI"@,
        move_binary: true,
        qemu_cmd: "/path_to_qemu/qemu-system-x86_64"@,
        ovmf_path: "/path_to_ovmf_files"@,
        stdio_serial: true,
        log_serial: true,
        log_path: "runner-x86_64-release.log"@,
    }
}

/// Builds the documented example configuration. Every call gives the same value.
pub fn example() -> (config: RunnerConfig)
    ensures
        config@ == example_view(),
        well_formed(config@),
        !risky(config@),
{
    proof {
        reveal_strlit("BOOTX64.EFI");
        reveal_strlit("build --target x86_64-unknown-uefi --release");
    }
    RunnerConfig {
        project_path: ".".to_string(),
        auto_build: true,
        build_cmd: "build --target x86_64-unknown-uefi --release".to_string(),
        binary_path: "target/x86_64-unknown-uefi/debug/your_bin_name.efi".to_string(),
        efi_name: "BOOTX64.EFI".to_string(),
        move_binary: true,
        qemu_cmd: "/path_to_qemu/qemu-system-x86_64".to_string(),
        ovmf_path: "/path_to_ovmf_files".to_string(),
        stdio_serial: true,
        log_serial: true,
        log_path: "runner-x86_64-release.log".to_string(),
    }
}

} // verus!
