//! The persisted state layout: the install directory's place under the
//! platform's per-user convention, and the three file names inside it
//! whose presence or absence is the whole persisted state of a run.

use vstd::prelude::*;
use vstd::string::StringExecFns;

use crate::platform::OsType;

verus! {

/// Where the install directory lives, relative to the platform's
/// conventional base directory: directly under the per-user data directory
/// on Windows, under a hidden launcher directory in the home directory on
/// Linux, and under a `minecraft` directory in the home directory on
/// macOS.
pub fn launcher_rel_dir(os: OsType, project_name: &str) -> (r: Vec<String>)
    ensures
        (os is WindowsX64 || os is WindowsX32) ==> r.deep_view() == seq![project_name@],
        os is LinuxX64 ==> r.deep_view() == seq![".minecraftlauncher"@, project_name@],
        os is MacOSX64 ==> r.deep_view() == seq!["minecraft"@, project_name@],
{
    let mut r: Vec<String> = Vec::new();
    match os {
        OsType::WindowsX64 | OsType::WindowsX32 => {
            r.push(project_name.to_owned());
            proof {
                assert(r.deep_view() =~= seq![project_name@]);
            }
        },
        OsType::LinuxX64 => {
            r.push(String::from_str(".minecraftlauncher"));
            r.push(project_name.to_owned());
            proof {
                assert(r.deep_view() =~= seq![".minecraftlauncher"@, project_name@]);
            }
        },
        OsType::MacOSX64 => {
            r.push(String::from_str("minecraft"));
            r.push(project_name.to_owned());
            proof {
                assert(r.deep_view() =~= seq!["minecraft"@, project_name@]);
            }
        },
    }
    r
}

/// The runtime archive's file name inside the install directory.
pub fn archive_file_name() -> (r: &'static str)
    ensures
        r@ == "launcher-jre.zip"@,
{
    "launcher-jre.zip"
}

/// The runtime directory's name inside the install directory.
pub fn runtime_dir_name() -> (r: &'static str)
    ensures
        r@ == "launcher-jre"@,
{
    "launcher-jre"
}

/// The application package's file name inside the install directory.
pub fn launcher_file_name() -> (r: &'static str)
    ensures
        r@ == "Launcher.jar"@,
{
    "Launcher.jar"
}

} // verus!
