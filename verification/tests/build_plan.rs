//! The decisions made before a bundle is assembled.

use flt::{
    build_plan, engine_file_name, host_platform_name, newest_engine, BuildRefusal,
    EngineCandidate, Engine,
};

#[test]
fn a_release_build_is_refused_before_anything_else() {
    assert_eq!(
        build_plan(Some("windows"), true, "freebsd", "x86"),
        Err(BuildRefusal::ReleaseUnsupported)
    );
    assert_eq!(
        build_plan(None, true, "linux", "x86_64"),
        Err(BuildRefusal::ReleaseUnsupported)
    );
}

#[test]
fn another_platform_than_the_host_is_refused() {
    assert_eq!(
        build_plan(Some("windows"), false, "linux", "x86_64"),
        Err(BuildRefusal::CrossBuild { requested: "windows".to_string(), host: "linux" })
    );
    // Every host that is neither macOS nor Windows counts as Linux.
    assert_eq!(
        build_plan(Some("macos"), false, "freebsd", "x86_64"),
        Err(BuildRefusal::CrossBuild { requested: "macos".to_string(), host: "linux" })
    );
}

#[test]
fn the_host_platform_gives_its_layout() {
    let layout = build_plan(Some("macos"), false, "macos", "aarch64").unwrap();
    assert_eq!(layout.flutter_target_platform, "darwin");
    let layout = build_plan(None, false, "windows", "x86_64").unwrap();
    assert_eq!(layout.executable, "flt.exe");
}

#[test]
fn a_host_without_a_layout_is_refused_with_its_reason() {
    assert_eq!(
        build_plan(Some("linux"), false, "freebsd", "x86_64"),
        Err(BuildRefusal::NoLayout(
            "no terminal bundle for freebsd; dartvel-cli-flt builds on linux, macos and windows"
                .to_string()
        ))
    );
    assert_eq!(
        build_plan(None, false, "linux", "riscv64"),
        Err(BuildRefusal::NoLayout(
            "no terminal bundle for the riscv64 architecture on linux".to_string()
        ))
    );
}

#[test]
fn host_platform_names() {
    assert_eq!(host_platform_name("macos"), "macos");
    assert_eq!(host_platform_name("windows"), "windows");
    assert_eq!(host_platform_name("linux"), "linux");
    assert_eq!(host_platform_name("freebsd"), "linux");
}

#[test]
fn engine_file_names() {
    assert_eq!(engine_file_name(&Engine::Framework), "FlutterEmbedder.framework");
    assert_eq!(
        engine_file_name(&Engine::SharedLibrary("libflutter_engine.so")),
        "libflutter_engine.so"
    );
}

fn candidate(dir_name: &str, exists: bool, modified: Option<i128>) -> EngineCandidate {
    EngineCandidate { dir_name: dir_name.to_string(), exists, modified }
}

#[test]
fn the_newest_engine_output_is_the_one_just_linked() {
    let candidates = vec![
        candidate("flutter-sys-aaa", true, Some(10)),
        candidate("other-crate-bbb", true, Some(99)),
        candidate("flutter-sys-ccc", false, Some(50)),
        candidate("flutter-sys-ddd", true, Some(20)),
        candidate("flutter-sys-eee", true, None),
        candidate("flutter-sys-fff", true, Some(-5)),
    ];
    assert_eq!(newest_engine(&candidates), Some(3));
}

#[test]
fn of_equally_new_outputs_the_last_listed_wins() {
    let candidates = vec![
        candidate("flutter-sys-a", true, Some(7)),
        candidate("flutter-sys-b", true, Some(7)),
        candidate("flutter-sys-c", true, Some(3)),
    ];
    assert_eq!(newest_engine(&candidates), Some(1));
    let candidates = vec![candidate("flutter-sys-a", true, None), candidate("flutter-sys-b", true, None)];
    assert_eq!(newest_engine(&candidates), Some(1));
}

#[test]
fn no_engine_output_is_none() {
    assert_eq!(newest_engine(&vec![]), None);
    let candidates = vec![candidate("flutter-sys", true, Some(1)), candidate("flutter-sys-x", false, Some(2))];
    assert_eq!(newest_engine(&candidates), None);
}
