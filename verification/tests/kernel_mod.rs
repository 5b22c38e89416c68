use evdi::{
    check_kernel_mod, KernelModStatus, KernelModVersion, LibVersion, LibVersionSys,
    MOD_VERSION_FILE,
};

fn library() -> LibVersion {
    let sys = LibVersionSys { version_major: 1, version_minor: 9, version_patchlevel: 1 };
    LibVersion::get(&sys, 1, 9)
}

fn module(major: u32, minor: u32, patch: u32) -> KernelModVersion {
    KernelModVersion { major, minor, patch }
}

#[test]
fn get_lib_version_works() {
    let version = library();
    assert_eq!((version.major, version.minor, version.patch), (1, 9, 1));
    assert_eq!((version.compatible_mod_major, version.compatible_mod_minor), (1, 9));
}

#[test]
fn get_mod_version_works() {
    let result = KernelModVersion::get("1.9.1\n");
    assert!(result.is_some());
    assert_eq!(result, Some(module(1, 9, 1)));
}

#[test]
fn is_compatible_with_works() {
    let mod_version = KernelModVersion::get("1.9.1\n").unwrap();
    let lib_version = library();
    assert!(lib_version.is_compatible_with(mod_version));
}

#[test]
fn compatibility_is_by_major_and_minor() {
    assert!(library().is_compatible_with(module(1, 9, 0)));
    assert!(library().is_compatible_with(module(1, 10, 0)));
    assert!(library().is_compatible_with(module(1, u32::MAX, 3)));
    assert!(!library().is_compatible_with(module(1, 8, 99)));
    assert!(!library().is_compatible_with(module(2, 9, 1)));
    assert!(!library().is_compatible_with(module(0, 9, 1)));
}

#[test]
fn kernel_mod_is_checked() {
    assert_eq!(check_kernel_mod(None, &library()), KernelModStatus::NotInstalled);
    assert_eq!(
        check_kernel_mod(Some(module(1, 8, 0)), &library()),
        KernelModStatus::Outdated
    );
    assert_eq!(
        check_kernel_mod(Some(module(1, 9, 0)), &library()),
        KernelModStatus::Compatible
    );
}

#[test]
fn version_is_found_in_text() {
    assert_eq!(KernelModVersion::get("1.9.1"), Some(module(1, 9, 1)));
    assert_eq!(KernelModVersion::get("evdi 12.034.5-rc1"), Some(module(12, 34, 5)));
    assert_eq!(KernelModVersion::get("1.2.x 3.4.5"), Some(module(3, 4, 5)));
    assert_eq!(KernelModVersion::get("1.2.3.4"), Some(module(1, 2, 3)));
    assert_eq!(KernelModVersion::get("1..2.3.4"), Some(module(2, 3, 4)));
    assert_eq!(KernelModVersion::get("\u{fc}1.2.3\u{fc}"), Some(module(1, 2, 3)));
    assert_eq!(KernelModVersion::get("4294967295.0.0"), Some(module(u32::MAX, 0, 0)));
    assert_eq!(KernelModVersion::get("4294967296.0.0"), None);
    assert_eq!(KernelModVersion::get("1.4294967296.0 1.2.3"), None);
    assert_eq!(KernelModVersion::get("1.9"), None);
    assert_eq!(KernelModVersion::get("1.9."), None);
    assert_eq!(KernelModVersion::get("1,9,1"), None);
    assert_eq!(KernelModVersion::get(""), None);
}

#[test]
fn version_round_trips() {
    for (major, minor, patch) in [(0, 0, 0), (1, 9, 1), (10, 200, 3000), (u32::MAX, 1, 2)] {
        let text = format!("{}.{}.{} tail", major, minor, patch);
        assert_eq!(KernelModVersion::get(&text), Some(module(major, minor, patch)));
    }
}

#[test]
fn version_file_of_the_kernel_module() {
    assert_eq!(MOD_VERSION_FILE, "/sys/devices/evdi/version");
}
