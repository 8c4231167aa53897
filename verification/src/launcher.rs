//! The application package: where it comes from and how it is started.
//! The library builds the exact invocation; the surrounding binary spawns
//! the process (and performs the download the `url` names).

use vstd::prelude::*;
use vstd::string::StringExecFns;

verus! {

/// The application package's source: its download URL and the optional
/// `User-Agent` value sent with the request.
pub struct Launcher {
    pub url: String,
    pub user_agent: Option<String>,
}

/// A ready-to-spawn invocation of the runtime on the application package.
pub struct LaunchPlan {
    /// Path pieces of the runtime executable, relative to the runtime
    /// directory.
    pub program: Vec<String>,
    /// The arguments handed to the executable.
    pub args: Vec<String>,
    /// Whether the child must be created detached, surviving the caller
    /// and owning no console (wanted exactly on Windows).
    pub detached: bool,
}

/// The platform-specific name of the runtime executable.
pub open spec fn spec_java_file(windows: bool) -> Seq<char> {
    if windows {
        "java.exe"@
    } else {
        "java"@
    }
}

impl Launcher {
    /// The invocation that runs the application package: the runtime
    /// executable under `bin/` inside the runtime directory, with the
    /// package as its sole `-jar` workload, detached exactly on Windows.
    /// Success of the spawn is the caller's only postcondition; nobody
    /// waits for the child.
    pub fn launch_plan(&self, launcher_path: &str, windows: bool) -> (r: LaunchPlan)
        ensures
            r.program.deep_view() == seq!["bin"@, spec_java_file(windows)],
            r.args.deep_view() == seq!["-jar"@, launcher_path@],
            r.detached == windows,
    {
        let mut program: Vec<String> = Vec::new();
        program.push(String::from_str("bin"));
        if windows {
            program.push(String::from_str("java.exe"));
        } else {
            program.push(String::from_str("java"));
        }
        let mut args: Vec<String> = Vec::new();
        args.push(String::from_str("-jar"));
        args.push(launcher_path.to_owned());
        proof {
            assert(program.deep_view() =~= seq!["bin"@, spec_java_file(windows)]);
            assert(args.deep_view() =~= seq!["-jar"@, launcher_path@]);
        }
        LaunchPlan { program, args, detached: windows }
    }
}

} // verus!
