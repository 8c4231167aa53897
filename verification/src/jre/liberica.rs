//! The Liberica runtime provider: release-index queries filtered by
//! version, bitness and operating system, and the SHA-1 digest check of a
//! downloaded archive.

use vstd::prelude::*;
use vstd::string::StringExecFns;

use crate::checksum::{check_archive_digest, spec_digest_matches};
use crate::config::ProjectConfig;
use crate::jre::Jre;
use crate::platform::OsType;

verus! {

/// The Liberica provider: a runtime version, queried for one platform.
pub struct LibericaJre {
    pub os_type: OsType,
    pub jre_version: String,
}

pub open spec fn spec_bitness_str(os: OsType) -> Seq<char> {
    if os is WindowsX32 {
        "32"@
    } else {
        "64"@
    }
}

pub open spec fn spec_os_str(os: OsType) -> Seq<char> {
    if os is LinuxX64 {
        "linux"@
    } else if os is MacOSX64 {
        "macos"@
    } else {
        "windows"@
    }
}

/// The release-index query: one release selected by version, feature
/// version, bitness, operating system, architecture, installation type and
/// bundle type, answered as plain text with the requested field.
pub open spec fn spec_liberica_url(os: OsType, version: Seq<char>, field: Seq<char>) -> Seq<char> {
    "https://api.bell-sw.com/v1/liberica/releases?version="@ + version
        + "&version-feature=8&fx=true&bitness="@ + spec_bitness_str(os) + "&os="@ + spec_os_str(os)
        + "&arch=x86&installation-type=archive&bundle-type=jre&output=text&fields="@ + field
}

impl LibericaJre {
    pub fn new(os_type: OsType, config: &ProjectConfig) -> (r: LibericaJre)
        ensures
            r.os_type == os_type,
            r.jre_version == config.jre_version,
    {
        LibericaJre { os_type, jre_version: config.jre_version.clone() }
    }
}

impl Jre for LibericaJre {
    open spec fn spec_query_url(&self, field: Seq<char>) -> Seq<char> {
        spec_liberica_url(self.os_type, self.jre_version@, field)
    }

    open spec fn spec_archive_ok(&self, archive: Seq<u8>, digest: Seq<char>) -> bool {
        spec_digest_matches(archive, digest)
    }

    fn query_url(&self, field: &str) -> (r: String) {
        let mut url = String::from_str("https://api.bell-sw.com/v1/liberica/releases?version=");
        url.append(self.jre_version.as_str());
        url.append("&version-feature=8&fx=true&bitness=");
        match self.os_type {
            OsType::WindowsX32 => url.append("32"),
            _ => url.append("64"),
        }
        url.append("&os=");
        url.append(self.os_type.get_os_type());
        url.append("&arch=x86&installation-type=archive&bundle-type=jre&output=text&fields=");
        url.append(field);
        proof {
            assert(url@ =~= self.spec_query_url(field@));
        }
        url
    }

    fn check_jre_archive(&self, archive: &Vec<u8>, expected_digest: &str) -> (r: bool) {
        check_archive_digest(archive, expected_digest)
    }
}

} // verus!
