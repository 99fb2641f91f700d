use uefapi_runner::config::example;
use uefapi_runner::config::RunnerConfig;
use uefapi_runner::emulator::emulator_args;
use uefapi_runner::layout::boot_dir;
use uefapi_runner::layout::build_program;
use uefapi_runner::layout::code_image;
use uefapi_runner::layout::vars_image;
use uefapi_runner::outcome::describe;
use uefapi_runner::outcome::diagnostic;
use uefapi_runner::outcome::Failure;
use uefapi_runner::outcome::Outcome;

fn config(stdio_serial: bool, log_serial: bool) -> RunnerConfig {
    let mut config = example();
    config.stdio_serial = stdio_serial;
    config.log_serial = log_serial;
    config.log_path = "serial.log".to_string();
    config
}

const MACHINE: [&str; 8] = [
    "-machine",
    "q35",
    "-drive",
    "if=pflash,format=raw,file=/fw/OVMF_CODE.fd",
    "-drive",
    "if=pflash,format=raw,file=/fw/OVMF_VARS.fd",
    "-drive",
    "format=raw,file=fat:rw:/tmp/stage",
];

#[test]
fn arguments_without_console_are_machine_and_drives() {
    let args = emulator_args("/fw/OVMF_CODE.fd", "/fw/OVMF_VARS.fd", "/tmp/stage", &config(false, false));
    assert_eq!(args, MACHINE.to_vec());
}

#[test]
fn log_alone_has_no_effect() {
    let args = emulator_args("/fw/OVMF_CODE.fd", "/fw/OVMF_VARS.fd", "/tmp/stage", &config(false, true));
    assert_eq!(args, MACHINE.to_vec());
}

#[test]
fn console_adds_character_device_and_serial_port() {
    let args = emulator_args("/fw/OVMF_CODE.fd", "/fw/OVMF_VARS.fd", "/tmp/stage", &config(true, false));
    let mut expected = MACHINE.to_vec();
    expected.extend(["-chardev", "stdio,id=char0", "-serial", "chardev:char0"]);
    assert_eq!(args, expected);
}

#[test]
fn console_with_log_attaches_the_log_file() {
    let args = emulator_args("/fw/OVMF_CODE.fd", "/fw/OVMF_VARS.fd", "/tmp/stage", &config(true, true));
    let mut expected = MACHINE.to_vec();
    expected.extend(["-chardev", "stdio,id=char0,logfile=serial.log", "-serial", "chardev:char0"]);
    assert_eq!(args, expected);
}

#[test]
fn paths_are_used_verbatim() {
    let args = emulator_args("a b/code", "", "C:\\stage dir", &config(false, false));
    assert_eq!(args[3], "if=pflash,format=raw,file=a b/code");
    assert_eq!(args[5], "if=pflash,format=raw,file=");
    assert_eq!(args[7], "format=raw,file=fat:rw:C:\\stage dir");
}

#[test]
fn fixed_names() {
    assert_eq!(boot_dir(), "EFI/BOOT");
    assert_eq!(code_image(), "OVMF_CODE.fd");
    assert_eq!(vars_image(), "OVMF_VARS.fd");
    assert_eq!(build_program(), "cargo");
}

#[test]
fn each_failure_has_its_text() {
    assert_eq!(describe(Failure::ConfigRead), "Failed to read config file");
    assert_eq!(describe(Failure::ConfigParse), "Failed to parse config file");
    assert_eq!(describe(Failure::ConfigWrite), "Failed to write example config");
    assert_eq!(describe(Failure::BuildSpawn), "Failed to run build command");
    assert_eq!(describe(Failure::BuildFailed), "Build failed");
    assert_eq!(describe(Failure::StagingIo), "Failed to stage binary");
    assert_eq!(describe(Failure::FirmwarePath), "Failed to canonicalize OVMF path");
    assert_eq!(
        describe(Failure::FirmwareMissing),
        "OVMF files not found in path, this tool needs OVMF_CODE.fd and OVMF_VARS.fd to run"
    );
    assert_eq!(describe(Failure::EmulatorSpawn), "Failed to run QEMU");
    assert_eq!(describe(Failure::EmulatorWait), "Failed to wait for QEMU");
}

#[test]
fn diagnostic_names_the_subject() {
    assert_eq!(diagnostic(Failure::BuildFailed, "build --release"), "Build failed: build --release");
    assert_eq!(diagnostic(Failure::ConfigRead, ""), "Failed to read config file: ");
}

#[test]
fn missing_firmware_diagnostic_names_both_files() {
    let text = diagnostic(Failure::FirmwareMissing, "/fw");
    assert!(text.contains("OVMF_CODE.fd"));
    assert!(text.contains("OVMF_VARS.fd"));
    assert!(text.ends_with(": /fw"));
}

#[test]
fn only_completion_is_success() {
    assert!(Outcome::Completed { exit_code: Some(0) }.is_success());
    assert!(Outcome::Completed { exit_code: Some(3) }.is_success());
    assert!(Outcome::Completed { exit_code: None }.is_success());
    assert!(!Outcome::Failed { failure: Failure::BuildFailed, subject: String::new() }.is_success());
}

#[test]
fn example_is_well_formed_and_not_risky() {
    let config = example();
    assert!(config.is_well_formed());
    assert!(!config.is_risky());
}

#[test]
fn well_formedness_asks_for_a_name_and_a_command() {
    let mut config = example();
    config.efi_name = String::new();
    assert!(!config.is_well_formed());
    let mut config = example();
    config.build_cmd = String::new();
    assert!(!config.is_well_formed());
    config.auto_build = false;
    assert!(config.is_well_formed());
}

#[test]
fn moving_without_building_is_risky() {
    let mut config = example();
    config.auto_build = false;
    assert!(config.is_risky());
    config.move_binary = false;
    assert!(!config.is_risky());
    config.auto_build = true;
    assert!(!config.is_risky());
}

#[test]
fn clone_and_equality_go_by_every_field() {
    let config = example();
    let copy = config.clone();
    assert_eq!(config, copy);
    let mut other = config.clone();
    other.log_path.push('x');
    assert_ne!(config, other);
    let mut other = config.clone();
    other.log_serial = false;
    assert_ne!(config, other);
}
