//! Asset selection: the major-version tag and the per-OS download table.

use scala_bootstrap::asset::read_major_jdk_version;
use scala_bootstrap::asset::select_asset;
use scala_bootstrap::error::ResolveError;
use scala_bootstrap::Os;

#[test]
fn test_read_major_jdk_version() {
    let release = "21.0.2+13";
    let major_version = read_major_jdk_version(release).unwrap();
    assert_eq!(major_version, "OpenJDK21U");
}

#[test]
fn read_major_jdk_version_rejects_release_without_build() {
    let r = read_major_jdk_version("21.0.2");
    assert!(matches!(r, Err(ResolveError::AssetFormat)));
}

#[test]
fn read_major_jdk_version_rejects_empty() {
    assert!(matches!(read_major_jdk_version(""), Err(ResolveError::AssetFormat)));
}

#[test]
fn read_major_jdk_version_finds_embedded_match() {
    assert_eq!(read_major_jdk_version("jdk-17.0.9+9").unwrap(), "OpenJDK17U");
    assert_eq!(read_major_jdk_version("v9.0.1+11.2").unwrap(), "OpenJDK9U");
}

#[test]
fn select_asset_windows_uses_fixed_url() {
    let plan = select_asset("21.0.2+13", Os::Windows).unwrap();
    assert_eq!(plan.major_version_tag, "OpenJDK21U");
    assert_eq!(plan.operating_system, Os::Windows);
    assert_eq!(
        plan.asset_url,
        "https://github.com/adoptium/temurin21-binaries/releases/download/jdk-21.0.2%2B13/OpenJDK21U-jdk_x64_windows_hotspot_21.0.2_13.msi.exe"
    );
}

#[test]
fn select_asset_unmapped_os_falls_back() {
    let plan = select_asset("21.0.2+13", Os::Linux).unwrap();
    assert_eq!(plan.asset_url, "[filename]");
    assert_eq!(plan.major_version_tag, "OpenJDK21U");
    let plan = select_asset("21.0.2+13", Os::Other).unwrap();
    assert_eq!(plan.asset_url, "[filename]");
}

#[test]
fn select_asset_propagates_format_error() {
    assert!(matches!(select_asset("nightly", Os::Windows), Err(ResolveError::AssetFormat)));
}
