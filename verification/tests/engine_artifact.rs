//! Which prebuilt engine a target fetches, and how it links.

use flt::{engine_artifact, EngineLayout};

const REV: &str = "83675ed27633283e7fc296c8bca22e841224c096";
const BASE: &str = "https://storage.googleapis.com/flutter_infra_release/flutter";

#[test]
fn linux_x64_links_the_linux_x64_embedder() {
    let artifact = engine_artifact("linux", "x86_64", REV).unwrap();
    assert_eq!(artifact.url, format!("{BASE}/{REV}/linux-x64/linux-x64-embedder.zip"));
    assert_eq!(
        artifact.layout,
        EngineLayout::SharedLibrary {
            header: "flutter_embedder.h",
            library: "libflutter_engine.so",
            link_name: "flutter_engine",
        }
    );
}

#[test]
fn linux_arm64_does_not_get_the_x64_engine() {
    let artifact = engine_artifact("linux", "aarch64", REV).unwrap();
    assert_eq!(
        artifact.url,
        format!("{BASE}/{REV}/linux-arm64/linux-arm64-embedder.zip")
    );
}

#[test]
fn windows_x64_links_flutter_engine_dll_through_its_import_library() {
    let artifact = engine_artifact("windows", "x86_64", REV).unwrap();
    assert_eq!(
        artifact.url,
        format!("{BASE}/{REV}/windows-x64/windows-x64-embedder.zip")
    );
    // The zip carries flutter_engine.dll and flutter_engine.dll.lib. MSVC
    // appends `.lib` to the link name, so the name is the DLL's own.
    assert_eq!(
        artifact.layout,
        EngineLayout::SharedLibrary {
            header: "flutter_embedder.h",
            library: "flutter_engine.dll",
            link_name: "flutter_engine.dll",
        }
    );
}

#[test]
fn windows_arm64_gets_the_arm64_engine() {
    let artifact = engine_artifact("windows", "aarch64", REV).unwrap();
    assert_eq!(
        artifact.url,
        format!("{BASE}/{REV}/windows-arm64/windows-arm64-embedder.zip")
    );
}

#[test]
fn both_mac_architectures_use_the_universal_framework() {
    // Only darwin-x64 publishes FlutterEmbedder.framework, and it is a
    // universal binary (x86_64 and arm64); darwin-arm64/ has none.
    for arch in ["x86_64", "aarch64"] {
        let artifact = engine_artifact("macos", arch, REV).unwrap();
        assert_eq!(
            artifact.url,
            format!("{BASE}/{REV}/darwin-x64/FlutterEmbedder.framework.zip"),
            "{arch}"
        );
        assert_eq!(artifact.layout, EngineLayout::Framework, "{arch}");
    }
}

#[test]
fn an_unsupported_target_is_refused_by_name() {
    let error = engine_artifact("freebsd", "x86_64", REV).unwrap_err();
    assert!(error.contains("freebsd"), "{error}");
    let error = engine_artifact("windows", "x86", REV).unwrap_err();
    assert!(error.contains("x86"), "{error}");
}

#[test]
fn an_unsupported_architecture_is_refused_with_the_whole_message() {
    assert_eq!(
        engine_artifact("linux", "riscv64", REV).unwrap_err(),
        "no prebuilt Flutter embedder engine is published for the riscv64 architecture (linux)"
    );
}

#[test]
fn an_unsupported_system_is_refused_with_the_whole_message() {
    assert_eq!(
        engine_artifact("freebsd", "aarch64", REV).unwrap_err(),
        "no prebuilt Flutter embedder engine is published for freebsd; the terminal embedder \
         builds on linux, macos and windows"
    );
}

#[test]
fn the_architecture_is_checked_before_the_system() {
    let error = engine_artifact("freebsd", "x86", REV).unwrap_err();
    assert!(error.contains("the x86 architecture (freebsd)"), "{error}");
}

#[test]
fn the_revision_is_part_of_the_url() {
    let artifact = engine_artifact("linux", "x86_64", "abc").unwrap();
    assert_eq!(artifact.url, format!("{BASE}/abc/linux-x64/linux-x64-embedder.zip"));
    assert_ne!(
        artifact.url,
        engine_artifact("linux", "aarch64", "abc").unwrap().url
    );
}

#[test]
fn names_are_matched_exactly() {
    assert!(engine_artifact("Linux", "x86_64", REV).is_err());
    assert!(engine_artifact("linux", "x86_64 ", REV).is_err());
    assert!(engine_artifact("", "", REV).is_err());
}
