//! Fixed names: the boot-image layout inside the staging directory, the two
//! firmware images, and the build tool.

use vstd::prelude::*;

verus! {

/// The directory of the boot image below the staging directory.
pub open spec fn boot_directory() -> Seq<char> {
    "EFI/BOOT"@
}

/// The file that holds the firmware's code.
pub open spec fn code_image_name() -> Seq<char> {
    "OVMF_CODE.fd"@
}

/// The file that holds the firmware's variable store.
pub open spec fn vars_image_name() -> Seq<char> {
    "OVMF_VARS.fd"@
}

/// The program that builds the project.
pub open spec fn build_tool() -> Seq<char> {
    "cargo"@
}

/// The directory of the boot image below the staging directory.
pub fn boot_dir() -> (name: String)
    ensures
        name@ == boot_directory(),
{
    "EFI/BOOT".to_string()
}

/// The file that holds the firmware's code.
pub fn code_image() -> (name: String)
    ensures
        name@ == code_image_name(),
{
    "OVMF_CODE.fd".to_string()
}

/// The file that holds the firmware's variable store.
pub fn vars_image() -> (name: String)
    ensures
        name@ == vars_image_name(),
{
    "OVMF_VARS.fd".to_string()
}

/// The program that builds the project.
pub fn build_program() -> (name: String)
    ensures
        name@ == build_tool(),
{
    "cargo".to_string()
}

} // verus!
