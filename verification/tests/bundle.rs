//! What a bundle looks like on each host, and its launcher.

use flt::{host_layout, launcher_script, Engine, HostLayout};

#[test]
fn windows_ships_flt_exe_with_the_engine_dll_beside_it() {
    let layout = host_layout("windows", "x86_64").unwrap();
    assert_eq!(layout.flutter_target_platform, "windows-x64");
    assert_eq!(layout.executable, "flt.exe");
    // Windows searches the executable's own directory for a DLL first, so
    // beside it is the one place that needs no search path.
    assert_eq!(layout.engine, Engine::SharedLibrary("flutter_engine.dll"));
    assert_eq!(layout.engine_destination, "flutter_engine.dll");
    assert_eq!(layout.launcher, "run.cmd");
}

#[test]
fn windows_arm64_bundles_for_windows_arm64() {
    let layout = host_layout("windows", "aarch64").unwrap();
    assert_eq!(layout.flutter_target_platform, "windows-arm64");
}

#[test]
fn the_windows_launcher_is_a_batch_file_that_runs_the_bundle() {
    let script = launcher_script(&host_layout("windows", "x86_64").unwrap());
    assert!(script.starts_with("@echo off\r\n"), "{script}");
    assert!(script.contains("\"%here%flt.exe\""), "{script}");
    assert!(script.contains("data\\flutter_assets"), "{script}");
    assert!(script.contains("data\\icudtl.dat"), "{script}");
    assert!(script.contains("%*"), "arguments are passed through: {script}");
    assert!(!script.contains("LD_LIBRARY_PATH"), "{script}");
    // cmd reads a batch file with LF endings, until a label or a goto
    // lands mid-line; CRLF is what it is written for.
    assert!(!script.replace("\r\n", "").contains('\n'), "{script}");
}

#[test]
fn macos_ships_the_framework_under_lib_for_both_architectures() {
    for arch in ["x86_64", "aarch64"] {
        let layout = host_layout("macos", arch).unwrap();
        // `flutter build bundle` names the Mac `darwin`, not darwin-x64.
        assert_eq!(layout.flutter_target_platform, "darwin", "{arch}");
        assert_eq!(layout.executable, "flt", "{arch}");
        assert_eq!(layout.engine, Engine::Framework, "{arch}");
        // Where flt's @executable_path/lib rpath looks.
        assert_eq!(
            layout.engine_destination, "lib/FlutterEmbedder.framework",
            "{arch}"
        );
        assert_eq!(layout.launcher, "run.sh", "{arch}");
    }
}

#[test]
fn the_macos_launcher_does_not_rely_on_a_library_path() {
    // DYLD_LIBRARY_PATH is stripped by SIP from anything launched through
    // /bin/sh, so a launcher that depended on it would fail on a user's
    // machine.
    let script = launcher_script(&host_layout("macos", "aarch64").unwrap());
    assert!(script.starts_with("#!/bin/sh\n"), "{script}");
    assert!(!script.contains("LIBRARY_PATH"), "{script}");
    assert!(script.contains("\"$here/flt\""), "{script}");
}

#[test]
fn linux_keeps_its_layout_and_follows_the_architecture() {
    let layout = host_layout("linux", "x86_64").unwrap();
    assert_eq!(layout.flutter_target_platform, "linux-x64");
    assert_eq!(layout.engine, Engine::SharedLibrary("libflutter_engine.so"));
    assert_eq!(layout.engine_destination, "lib/libflutter_engine.so");
    assert!(launcher_script(&layout).contains("LD_LIBRARY_PATH"));
    assert_eq!(
        host_layout("linux", "aarch64").unwrap().flutter_target_platform,
        "linux-arm64"
    );
}

#[test]
fn an_unsupported_host_is_refused_by_name() {
    assert!(host_layout("freebsd", "x86_64").unwrap_err().contains("freebsd"));
}

#[test]
fn an_unsupported_host_architecture_is_refused_with_the_whole_message() {
    assert_eq!(
        host_layout("linux", "x86").unwrap_err(),
        "no terminal bundle for the x86 architecture on linux"
    );
    assert_eq!(
        host_layout("freebsd", "aarch64").unwrap_err(),
        "no terminal bundle for freebsd; dartvel-cli-flt builds on linux, macos and windows"
    );
}

#[test]
fn the_linux_launcher_is_exactly_the_shell_script() {
    let script = launcher_script(&host_layout("linux", "aarch64").unwrap());
    assert_eq!(
        script,
        "#!/bin/sh\n\
         # Runs the terminal application from this directory.\n\
         here=$(cd \"$(dirname \"$0\")\" && pwd)\n\
         LD_LIBRARY_PATH=\"$here/lib:$LD_LIBRARY_PATH\" \\\n\
         exec \"$here/flt\" \\\n\
         \x20 --assets-dir \"$here/data/flutter_assets\" \\\n\
         \x20 --icu-data-path \"$here/data/icudtl.dat\" \\\n\
         \x20 --log-file \"${FLT_LOG_FILE:-$here/app.log}\" \"$@\"\n"
    );
}

#[test]
fn the_windows_launcher_is_exactly_the_batch_file() {
    let script = launcher_script(&host_layout("windows", "aarch64").unwrap());
    assert_eq!(
        script,
        [
            "@echo off",
            "rem Runs the terminal application from this directory.",
            "setlocal",
            "set \"here=%~dp0\"",
            "if \"%FLT_LOG_FILE%\"==\"\" set \"FLT_LOG_FILE=%here%app.log\"",
            "\"%here%flt.exe\" --assets-dir \"%here%data\\flutter_assets\" \
             --icu-data-path \"%here%data\\icudtl.dat\" --log-file \"%FLT_LOG_FILE%\" %*",
            "exit /b %ERRORLEVEL%",
            "",
        ]
        .join("\r\n")
    );
}

#[test]
fn the_launcher_kind_goes_by_the_launcher_name() {
    let layout = HostLayout {
        flutter_target_platform: "linux-x64",
        executable: "app",
        engine: Engine::Framework,
        engine_destination: "lib/x",
        launcher: "start.cmd",
    };
    let script = launcher_script(&layout);
    assert!(script.starts_with("@echo off\r\n"));
    assert!(script.contains("\"%here%app\""));
    let layout = HostLayout { launcher: "start.cmd.sh", ..layout };
    let script = launcher_script(&layout);
    assert!(script.starts_with("#!/bin/sh\n"));
    assert!(!script.contains("LIBRARY_PATH"));
    assert!(script.contains("\"$here/app\""));
}

#[test]
fn every_windows_launcher_line_ends_with_crlf() {
    for arch in ["x86_64", "aarch64"] {
        let script = launcher_script(&host_layout("windows", arch).unwrap());
        for (i, c) in script.char_indices() {
            if c == '\n' {
                assert_eq!(&script[i - 1..i], "\r");
            }
        }
    }
}
