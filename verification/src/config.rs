//! The run's configuration: plain data, consumed once at startup.  The
//! surrounding binary reads it from its embedded document; the library
//! only ever sees the finished values.

use vstd::prelude::*;

verus! {

/// Everything a run is configured with.
#[derive(Clone)]
pub struct Config {
    pub project: ProjectConfig,
    pub window: WindowConfig,
}

/// What to provision and where to fetch it.
#[derive(Clone)]
pub struct ProjectConfig {
    /// The application's name; it names the install directory.
    pub project_name: String,
    /// The runtime version asked of the release index.
    pub jre_version: String,
    /// Where the application package is downloaded from.
    pub launcher_url: String,
    /// Whether to look for a usable pre-installed runtime first.
    pub check_jre: bool,
    /// An optional `User-Agent` value for services that gate on client
    /// identity.
    pub user_agent: Option<String>,
}

/// How the progress window is styled.
#[derive(Clone)]
pub struct WindowConfig {
    pub window_title: String,
    pub progress_bar_background: String,
    pub progress_bar_color: String,
    pub text_color: String,
}

} // verus!
