//! The stage resolver: a pure function from filesystem observations to the
//! next provisioning stage.  Presence or absence of the runtime archive
//! file and the runtime directory is the whole persisted state; deleting
//! the archive is the commit point that marks the runtime as finalized.

use vstd::prelude::*;

verus! {

/// The next provisioning action required, derived purely from filesystem
/// observations; it is recomputed before every step and never stored.
#[derive(PartialEq, Eq, Structural, Clone, Copy, Debug)]
pub enum Stage {
    /// Neither archive nor runtime directory: fetch the runtime archive.
    AcquireRuntime,
    /// Archive present, no runtime directory: check the archive digest
    /// (and, if it holds, extract).
    VerifyRuntimeArchive,
    /// Archive and runtime directory both present: the extraction has not
    /// been committed yet, so check the extracted tree.
    VerifyExtractedRuntime,
    /// No archive but a runtime directory: the runtime is finalized; turn
    /// to the application package.
    AcquireOrLaunchApplication,
    /// Terminal marker: the application has been launched.
    Stable,
}

/// The resolver's decision table.  The archive file's presence is the sole
/// signal of "runtime not yet finalized"; the application package's
/// presence never matters here (it is a separate decision taken inside the
/// `AcquireOrLaunchApplication` stage).
pub open spec fn spec_resolve(
    archive_present: bool,
    runtime_dir_present: bool,
    application_package_present: bool,
) -> Stage {
    if !archive_present && !runtime_dir_present {
        Stage::AcquireRuntime
    } else if !archive_present && runtime_dir_present {
        Stage::AcquireOrLaunchApplication
    } else if archive_present && !runtime_dir_present {
        Stage::VerifyRuntimeArchive
    } else {
        Stage::VerifyExtractedRuntime
    }
}

/// Resolves the next stage from the three filesystem observations.
pub fn get_stage(
    archive_present: bool,
    runtime_dir_present: bool,
    application_package_present: bool,
) -> (r: Stage)
    ensures
        r == spec_resolve(archive_present, runtime_dir_present, application_package_present),
        !archive_present && !runtime_dir_present ==> r == Stage::AcquireRuntime,
        !archive_present && runtime_dir_present ==> r == Stage::AcquireOrLaunchApplication,
        archive_present && !runtime_dir_present ==> r == Stage::VerifyRuntimeArchive,
        archive_present && runtime_dir_present ==> r == Stage::VerifyExtractedRuntime,
{
    if !archive_present {
        if runtime_dir_present {
            Stage::AcquireOrLaunchApplication
        } else {
            Stage::AcquireRuntime
        }
    } else {
        if !runtime_dir_present {
            Stage::VerifyRuntimeArchive
        } else {
            Stage::VerifyExtractedRuntime
        }
    }
}

/// The resolver ignores the application package: its presence or absence
/// never changes the resolved stage.
pub proof fn lemma_resolve_ignores_application_package(
    archive_present: bool,
    runtime_dir_present: bool,
    package_a: bool,
    package_b: bool,
)
    ensures
        spec_resolve(archive_present, runtime_dir_present, package_a)
            == spec_resolve(archive_present, runtime_dir_present, package_b),
{
}

} // verus!
