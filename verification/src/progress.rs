//! Progress narration: each provisioning step is announced to the
//! presentation layer as one event carrying a completion percentage and a
//! human-readable label.  The mapping lives here; the delivery channel and
//! the widgets belong to the surrounding binary.

use vstd::prelude::*;

verus! {

/// One progress event, named after the step it narrates.
#[derive(PartialEq, Eq, Structural, Clone, Copy, Debug)]
pub enum Status {
    RunLauncher,
    VerifyLauncher,
    DownloadLauncher,
    DownloadJre,
    CheckJreArchive,
    ExtractJre,
    CheckJreFolder,
}

impl Status {
    /// The conceptual completion percentage shown for this step, from 0
    /// (starting the runtime download) to 100 (launching the application).
    pub fn percent(&self) -> (r: u8)
        ensures
            r == spec_status_percent(*self),
            r <= 100,
    {
        match self {
            Status::DownloadJre => 0,
            Status::CheckJreArchive => 15,
            Status::ExtractJre => 30,
            Status::CheckJreFolder => 45,
            Status::DownloadLauncher => 60,
            Status::VerifyLauncher => 75,
            Status::RunLauncher => 100,
        }
    }

    /// The human-readable label shown beside the progress bar.
    pub fn label(&self) -> (r: String)
        ensures
            self is DownloadJre ==> r@ == "Download JRE"@,
            self is CheckJreArchive ==> r@ == "Verify JRE Archive"@,
            self is ExtractJre ==> r@ == "Extract JRE Archive"@,
            self is CheckJreFolder ==> r@ == "Verify JRE Folder"@,
            self is DownloadLauncher ==> r@ == "Download Launcher"@,
            self is VerifyLauncher ==> r@ == "Verify Launcher"@,
            self is RunLauncher ==> r@ == "Run Launcher"@,
    {
        match self {
            Status::DownloadJre => "Download JRE".to_owned(),
            Status::CheckJreArchive => "Verify JRE Archive".to_owned(),
            Status::ExtractJre => "Extract JRE Archive".to_owned(),
            Status::CheckJreFolder => "Verify JRE Folder".to_owned(),
            Status::DownloadLauncher => "Download Launcher".to_owned(),
            Status::VerifyLauncher => "Verify Launcher".to_owned(),
            Status::RunLauncher => "Run Launcher".to_owned(),
        }
    }
}

pub open spec fn spec_status_percent(s: Status) -> u8 {
    match s {
        Status::DownloadJre => 0,
        Status::CheckJreArchive => 15,
        Status::ExtractJre => 30,
        Status::CheckJreFolder => 45,
        Status::DownloadLauncher => 60,
        Status::VerifyLauncher => 75,
        Status::RunLauncher => 100,
    }
}

} // verus!
