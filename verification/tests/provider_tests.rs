use jre_bootstrap::config::ProjectConfig;
use jre_bootstrap::jre::{java_home_value, Jre};
use jre_bootstrap::jre::liberica::LibericaJre;
use jre_bootstrap::launcher::{Launcher, LaunchPlan};
use jre_bootstrap::paths::{
    archive_file_name, launcher_file_name, launcher_rel_dir, runtime_dir_name,
};
use jre_bootstrap::platform::OsType;
use jre_bootstrap::text::{contains_sub, find_char, trim_str};

fn config(version: &str) -> ProjectConfig {
    ProjectConfig {
        project_name: "demo".to_string(),
        jre_version: version.to_string(),
        launcher_url: "https://example.invalid/Launcher.jar".to_string(),
        check_jre: false,
        user_agent: None,
    }
}

#[test]
fn liberica_query_urls() {
    let jre = LibericaJre::new(OsType::LinuxX64, &config("8u312+7"));
    assert_eq!(
        jre.query_url("sha1"),
        "https://api.bell-sw.com/v1/liberica/releases?version=8u312+7&version-feature=8&fx=true\
         &bitness=64&os=linux&arch=x86&installation-type=archive&bundle-type=jre&output=text\
         &fields=sha1"
    );
    let jre = LibericaJre::new(OsType::WindowsX32, &config("8u312+7"));
    assert_eq!(
        jre.query_url("downloadUrl"),
        "https://api.bell-sw.com/v1/liberica/releases?version=8u312+7&version-feature=8&fx=true\
         &bitness=32&os=windows&arch=x86&installation-type=archive&bundle-type=jre&output=text\
         &fields=downloadUrl"
    );
    let jre = LibericaJre::new(OsType::MacOSX64, &config("8u402+8"));
    let url = jre.query_url("sha1");
    assert!(url.contains("&os=macos&"));
    assert!(url.contains("?version=8u402+8&"));
}

#[test]
fn archive_digest_check_known_value() {
    // SHA-1 of "abc"
    let jre = LibericaJre::new(OsType::LinuxX64, &config("8"));
    let archive = b"abc".to_vec();
    assert!(jre.check_jre_archive(&archive, "a9993e364706816aba3e25717850c26c9cd0d89d"));
    // hex letter case does not matter
    assert!(jre.check_jre_archive(&archive, "A9993E364706816ABA3E25717850C26C9CD0D89D"));
    // a different digest is a corrupt archive
    assert!(!jre.check_jre_archive(&archive, "a9993e364706816aba3e25717850c26c9cd0d89e"));
    // a malformed digest string never matches
    assert!(!jre.check_jre_archive(&archive, "a9993e"));
    assert!(!jre.check_jre_archive(&archive, ""));
}

#[test]
fn java_home_line_parsing() {
    assert_eq!(
        java_home_value("    java.home = /usr/lib/jvm/java-8 "),
        Some("/usr/lib/jvm/java-8".to_string())
    );
    assert_eq!(java_home_value("java.home=/opt/jre"), Some("/opt/jre".to_string()));
    assert_eq!(java_home_value("java.version = 1.8.0"), None);
    assert_eq!(java_home_value("java.home with no separator"), None);
    assert_eq!(java_home_value(""), None);
}

#[test]
fn text_helpers() {
    assert_eq!(find_char("a=b=c", '='), Some(1));
    assert_eq!(find_char("abc", '='), None);
    assert!(contains_sub("the java.home line", "java.home"));
    assert!(!contains_sub("the java home line", "java.home"));
    assert!(contains_sub("anything", ""));
    assert_eq!(trim_str("  padded\t"), "padded");
    assert_eq!(trim_str("bare"), "bare");
    assert_eq!(trim_str(" \t "), "");
}

#[test]
fn launch_plan_per_platform() {
    let launcher = Launcher {
        url: "https://example.invalid/Launcher.jar".to_string(),
        user_agent: None,
    };
    let plan: LaunchPlan = launcher.launch_plan("/data/demo/Launcher.jar", false);
    assert_eq!(plan.program, vec!["bin".to_string(), "java".to_string()]);
    assert_eq!(plan.args, vec!["-jar".to_string(), "/data/demo/Launcher.jar".to_string()]);
    assert!(!plan.detached);

    let plan = launcher.launch_plan("C:\\data\\demo\\Launcher.jar", true);
    assert_eq!(plan.program, vec!["bin".to_string(), "java.exe".to_string()]);
    assert_eq!(plan.args, vec!["-jar".to_string(), "C:\\data\\demo\\Launcher.jar".to_string()]);
    assert!(plan.detached);
}

#[test]
fn install_directory_layout() {
    assert_eq!(launcher_rel_dir(OsType::WindowsX64, "demo"), vec!["demo".to_string()]);
    assert_eq!(launcher_rel_dir(OsType::WindowsX32, "demo"), vec!["demo".to_string()]);
    assert_eq!(
        launcher_rel_dir(OsType::LinuxX64, "demo"),
        vec![".minecraftlauncher".to_string(), "demo".to_string()]
    );
    assert_eq!(
        launcher_rel_dir(OsType::MacOSX64, "demo"),
        vec!["minecraft".to_string(), "demo".to_string()]
    );
    assert_eq!(archive_file_name(), "launcher-jre.zip");
    assert_eq!(runtime_dir_name(), "launcher-jre");
    assert_eq!(launcher_file_name(), "Launcher.jar");
}

#[test]
fn platform_classification() {
    assert_eq!(OsType::from_names("linux", "x86_64"), Some(OsType::LinuxX64));
    assert_eq!(OsType::from_names("macos", "x86_64"), Some(OsType::MacOSX64));
    assert_eq!(OsType::from_names("windows", "x86_64"), Some(OsType::WindowsX64));
    assert_eq!(OsType::from_names("windows", "x86"), Some(OsType::WindowsX32));
    assert_eq!(OsType::from_names("linux", "aarch64"), None);
    assert_eq!(OsType::from_names("freebsd", "x86_64"), None);
    assert_eq!(OsType::from_names("macos", "x86"), None);
}

#[test]
fn platform_descriptor() {
    assert!(OsType::WindowsX64.is_windows());
    assert!(OsType::WindowsX32.is_windows());
    assert!(!OsType::LinuxX64.is_windows());
    assert!(OsType::LinuxX64.is_linux());
    assert!(!OsType::MacOSX64.is_linux());
    assert!(OsType::MacOSX64.is_mac_os());
    assert_eq!(OsType::LinuxX64.get_bitness(), 64);
    assert_eq!(OsType::MacOSX64.get_bitness(), 64);
    assert_eq!(OsType::WindowsX64.get_bitness(), 64);
    assert_eq!(OsType::WindowsX32.get_bitness(), 32);
    assert_eq!(OsType::LinuxX64.get_os_type(), "linux");
    assert_eq!(OsType::MacOSX64.get_os_type(), "macos");
    assert_eq!(OsType::WindowsX64.get_os_type(), "windows");
    assert_eq!(OsType::WindowsX32.get_os_type(), "windows");
}
