//! The emulator's command line.

use vstd::prelude::*;
use vstd::string::StringExecFns;
use crate::config::ConfigView;
use crate::config::RunnerConfig;
use crate::text::texts;

verus! {

/// The drive option that maps a firmware image as raw flash.
pub open spec fn flash_drive(image: Seq<char>) -> Seq<char> {
    "if=pflash,format=raw,file="@ + image
}

/// The drive option that exposes a directory as a writable FAT file system.
pub open spec fn fat_drive(root: Seq<char>) -> Seq<char> {
    "format=raw,file=fat:rw:"@ + root
}

/// The character device that connects the serial line to the program's own
/// standard streams and copies its traffic to the log file.
pub open spec fn logged_console(log_path: Seq<char>) -> Seq<char> {
    "stdio,id=char0,logfile="@ + log_path
}

/// The character device that connects the serial line to the program's own
/// standard streams.
pub open spec fn plain_console() -> Seq<char> {
    "stdio,id=char0"@
}

/// The options that are always given: the machine type, the firmware's code
/// and variable images, and the staging directory as a drive.
pub open spec fn machine_arguments(code: Seq<char>, vars: Seq<char>, root: Seq<char>) -> Seq<
    Seq<char>,
> {
    seq![
        "-machine"@,
        "q35"@,
        "-drive"@,
        flash_drive(code),
        "-drive"@,
        flash_drive(vars),
        "-drive"@,
        fat_drive(root),
    ]
}

/// The options for the serial line: none unless the console is asked for; the
/// log file is attached only where both the console and the log are asked for.
pub open spec fn serial_arguments(config: ConfigView) -> Seq<Seq<char>> {
    if !config.stdio_serial {
        Seq::empty()
    } else if config.log_serial {
        seq!["-chardev"@, logged_console(config.log_path), "-serial"@, "chardev:char0"@]
    } else {
        seq!["-chardev"@, plain_console(), "-serial"@, "chardev:char0"@]
    }
}

/// The emulator's arguments, in the order in which they are given.
pub open spec fn emulator_arguments(
    code: Seq<char>,
    vars: Seq<char>,
    root: Seq<char>,
    config: ConfigView,
) -> Seq<Seq<char>> {
    machine_arguments(code, vars, root) + serial_arguments(config)
}

/// `prefix` followed by `rest`.
fn prefixed(prefix: &str, rest: &str) -> (joined: String)
    ensures
        joined@ == prefix@ + rest@,
{
    let mut joined = prefix.to_string();
    joined.append(rest);
    joined
}

/// Assembles the emulator's arguments from the paths of the two firmware
/// images, the staging directory and the configuration's serial settings.
pub fn emulator_args(code: &str, vars: &str, root: &str, config: &RunnerConfig) -> (args: Vec<
    String,
>)
    ensures
        texts(args@) == emulator_arguments(code@, vars@, root@, config@),
{
    let mut args: Vec<String> = Vec::new();
    args.push("-machine".to_string());
    args.push("q35".to_string());
    args.push("-drive".to_string());
    args.push(prefixed("if=pflash,format=raw,file=", code));
    args.push("-drive".to_string());
    args.push(prefixed("if=pflash,format=raw,file=", vars));
    args.push("-drive".to_string());
    args.push(prefixed("format=raw,file=fat:rw:", root));
    assert(texts(args@) =~= machine_arguments(code@, vars@, root@));
    if config.stdio_serial {
        args.push("-chardev".to_string());
        if config.log_serial {
            args.push(prefixed("stdio,id=char0,logfile=", config.log_path.as_str()));
        } else {
            args.push("stdio,id=char0".to_string());
        }
        args.push("-serial".to_string());
        args.push("chardev:char0".to_string());
    }
    assert(texts(args@) =~= emulator_arguments(code@, vars@, root@, config@));
    args
}

} // verus!
