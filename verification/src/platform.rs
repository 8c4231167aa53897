//! The platform descriptor: which operating-system family and bitness the
//! running machine has.  It is computed once per run (by the surrounding
//! binary, which alone can query the operating system) and parametrizes
//! the remote release queries and the runtime executable name.

use vstd::prelude::*;

use crate::text::str_eq;

verus! {

/// Operating-system family and bitness of the running machine.
#[derive(PartialEq, Eq, Structural, Hash, Clone, Copy, Debug)]
pub enum OsType {
    LinuxX64,
    MacOSX64,
    WindowsX64,
    WindowsX32,
}

impl OsType {
    pub fn is_windows(&self) -> (r: bool)
        ensures
            r == (self is WindowsX64 || self is WindowsX32),
    {
        match self {
            OsType::WindowsX64 => true,
            OsType::WindowsX32 => true,
            _ => false,
        }
    }

    pub fn is_linux(&self) -> (r: bool)
        ensures
            r == (self is LinuxX64),
    {
        match self {
            OsType::LinuxX64 => true,
            _ => false,
        }
    }

    pub fn is_mac_os(&self) -> (r: bool)
        ensures
            r == (self is MacOSX64),
    {
        match self {
            OsType::MacOSX64 => true,
            _ => false,
        }
    }

    /// The bitness used in remote release queries: 32 only on 32-bit
    /// Windows, 64 everywhere else.
    pub fn get_bitness(&self) -> (r: i32)
        ensures
            r == (if self is WindowsX32 { 32int } else { 64int }),
    {
        match self {
            OsType::LinuxX64 => 64,
            OsType::MacOSX64 => 64,
            OsType::WindowsX64 => 64,
            OsType::WindowsX32 => 32,
        }
    }

    /// The descriptor for an operating-system and architecture name pair,
    /// as the standard library reports them; `None` for any machine the
    /// provisioning does not support.
    pub fn from_names(os: &str, arch: &str) -> (r: Option<OsType>)
        ensures
            r == spec_os_type_from_names(os@, arch@),
    {
        if str_eq(arch, "x86_64") {
            if str_eq(os, "linux") {
                Some(OsType::LinuxX64)
            } else if str_eq(os, "macos") {
                Some(OsType::MacOSX64)
            } else if str_eq(os, "windows") {
                Some(OsType::WindowsX64)
            } else {
                None
            }
        } else if str_eq(arch, "x86") && str_eq(os, "windows") {
            Some(OsType::WindowsX32)
        } else {
            None
        }
    }

    /// The operating-system name used in remote release queries.
    pub fn get_os_type(&self) -> (r: &'static str)
        ensures
            self is LinuxX64 ==> r@ == "linux"@,
            self is MacOSX64 ==> r@ == "macos"@,
            (self is WindowsX64 || self is WindowsX32) ==> r@ == "windows"@,
    {
        match self {
            OsType::LinuxX64 => "linux",
            OsType::MacOSX64 => "macos",
            OsType::WindowsX64 => "windows",
            OsType::WindowsX32 => "windows",
        }
    }
}

/// The supported machines: 64-bit Linux, macOS and Windows on x86_64, and
/// 32-bit Windows on x86.
pub open spec fn spec_os_type_from_names(os: Seq<char>, arch: Seq<char>) -> Option<OsType> {
    if arch == "x86_64"@ {
        if os == "linux"@ {
            Some(OsType::LinuxX64)
        } else if os == "macos"@ {
            Some(OsType::MacOSX64)
        } else if os == "windows"@ {
            Some(OsType::WindowsX64)
        } else {
            None
        }
    } else if arch == "x86"@ && os == "windows"@ {
        Some(OsType::WindowsX32)
    } else {
        None
    }
}

} // verus!
