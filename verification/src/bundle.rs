//! What a distributable terminal bundle looks like on each host.
//!
//! The embedder links a host engine, and each host lays its bundle out
//! differently: the engine goes where that host's loader looks for it.

use vstd::prelude::*;
use crate::engine::{arch_name, engine_arch_name};
use crate::text::{contains_text, lemma_contains_middle, same_text};

verus! {

/// How the engine arrives from the engine build.
#[derive(Debug, PartialEq, Eq)]
pub enum Engine {
    /// A single library file of this name.
    SharedLibrary(&'static str),
    /// `FlutterEmbedder.framework`, a directory with symlinks inside.
    Framework,
}

/// What a bundle looks like on one host.
#[derive(Debug, PartialEq, Eq)]
pub struct HostLayout {
    /// `flutter build bundle --target-platform`.
    pub flutter_target_platform: &'static str,
    /// The embedder binary, and its name in the bundle.
    pub executable: &'static str,
    pub engine: Engine,
    /// Where the engine goes, relative to the bundle root. Each is where the
    /// binary's loader looks: `$ORIGIN/lib` on Linux, `@executable_path/lib`
    /// on macOS, and the executable's own directory on Windows.
    pub engine_destination: &'static str,
    pub launcher: &'static str,
}

/// The hosts a bundle can be built on.
pub open spec fn bundle_os_supported(os: Seq<char>) -> bool {
    os == "linux"@ || os == "macos"@ || os == "windows"@
}

/// `engine` is a shared library of this file name.
pub open spec fn is_shared_engine(engine: Engine, name: Seq<char>) -> bool {
    match engine {
        Engine::SharedLibrary(n) => n@ == name,
        Engine::Framework => false,
    }
}

/// The layout of a bundle built on `os`, for Flutter's architecture name
/// `arch`.
pub open spec fn host_layout_for(os: Seq<char>, arch: Seq<char>, layout: HostLayout) -> bool {
    if os == "linux"@ {
        &&& layout.flutter_target_platform@ == (if arch == "x64"@ {
            "linux-x64"@
        } else {
            "linux-arm64"@
        })
        &&& layout.executable@ == "flt"@
        &&& is_shared_engine(layout.engine, "libflutter_engine.so"@)
        &&& layout.engine_destination@ == "lib/libflutter_engine.so"@
        &&& layout.launcher@ == "run.sh"@
    } else if os == "macos"@ {
        // One universal framework, and a single `darwin` platform for both
        // architectures.
        &&& layout.flutter_target_platform@ == "darwin"@
        &&& layout.executable@ == "flt"@
        &&& layout.engine == Engine::Framework
        &&& layout.engine_destination@ == "lib/FlutterEmbedder.framework"@
        &&& layout.launcher@ == "run.sh"@
    } else {
        &&& layout.flutter_target_platform@ == (if arch == "x64"@ {
            "windows-x64"@
        } else {
            "windows-arm64"@
        })
        &&& layout.executable@ == "flt.exe"@
        &&& is_shared_engine(layout.engine, "flutter_engine.dll"@)
        &&& layout.engine_destination@ == "flutter_engine.dll"@
        &&& layout.launcher@ == "run.cmd"@
    }
}

/// The message with which a host without a bundle layout is refused.
pub open spec fn host_refusal(os: Seq<char>, arch: Seq<char>) -> Seq<char> {
    if engine_arch_name(arch) is None {
        "no terminal bundle for the "@ + arch + " architecture on "@ + os
    } else {
        "no terminal bundle for "@ + os + "; dartvel-cli-flt builds on linux, macos and windows"@
    }
}

/// The bundle layout for `os`/`arch`, spelled as `std::env::consts` spells
/// them. A host with no layout is refused with a message that names it.
pub fn host_layout(os: &str, arch: &str) -> (res: Result<HostLayout, String>)
    ensures
        res is Ok <==> (engine_arch_name(arch@) is Some && bundle_os_supported(os@)),
        match res {
            Ok(layout) => host_layout_for(os@, engine_arch_name(arch@)->0, layout),
            Err(reason) => reason@ == host_refusal(os@, arch@),
        },
{
    let name = match arch_name(arch) {
        Some(n) => n,
        None => {
            let mut reason = String::new();
            reason.append("no terminal bundle for the ");
            reason.append(arch);
            reason.append(" architecture on ");
            reason.append(os);
            return Err(reason);
        },
    };
    let x64 = same_text(name, "x64");
    if same_text(os, "linux") {
        Ok(
            HostLayout {
                flutter_target_platform: if x64 {
                    "linux-x64"
                } else {
                    "linux-arm64"
                },
                executable: "flt",
                engine: Engine::SharedLibrary("libflutter_engine.so"),
                engine_destination: "lib/libflutter_engine.so",
                launcher: "run.sh",
            },
        )
    } else if same_text(os, "macos") {
        Ok(
            HostLayout {
                flutter_target_platform: "darwin",
                executable: "flt",
                engine: Engine::Framework,
                engine_destination: "lib/FlutterEmbedder.framework",
                launcher: "run.sh",
            },
        )
    } else if same_text(os, "windows") {
        Ok(
            HostLayout {
                flutter_target_platform: if x64 {
                    "windows-x64"
                } else {
                    "windows-arm64"
                },
                executable: "flt.exe",
                engine: Engine::SharedLibrary("flutter_engine.dll"),
                engine_destination: "flutter_engine.dll",
                launcher: "run.cmd",
            },
        )
    } else {
        let mut reason = String::new();
        reason.append("no terminal bundle for ");
        reason.append(os);
        reason.append("; dartvel-cli-flt builds on linux, macos and windows");
        Err(reason)
    }
}

/// An unsupported host is refused by name: the message names the operating
/// system, and, where the architecture is the one without a layout, the
/// architecture too.
pub proof fn lemma_host_refusal_names_host(os: Seq<char>, arch: Seq<char>)
    ensures
        contains_text(host_refusal(os, arch), os),
        engine_arch_name(arch) is None ==> contains_text(host_refusal(os, arch), arch),
{
    if engine_arch_name(arch) is None {
        let lead = "no terminal bundle for the "@;
        lemma_contains_middle(lead, arch, " architecture on "@ + os);
        assert(lead + arch + (" architecture on "@ + os) =~= host_refusal(os, arch));
        lemma_contains_middle(lead + arch + " architecture on "@, os, Seq::empty());
        assert(lead + arch + " architecture on "@ + os + Seq::empty() =~= host_refusal(os, arch));
    } else {
        lemma_contains_middle(
            "no terminal bundle for "@,
            os,
            "; dartvel-cli-flt builds on linux, macos and windows"@,
        );
    }
}

/// A Mac bundle is the same for both architectures: one universal framework
/// under `lib`, and the single `darwin` platform.
pub proof fn lemma_macos_bundle_is_universal(arch: Seq<char>, other: Seq<char>, layout: HostLayout)
    ensures
        host_layout_for("macos"@, arch, layout) == host_layout_for("macos"@, other, layout),
{
    reveal_strlit("macos");
    reveal_strlit("linux");
    assert("linux"@[0] != "macos"@[0]);
}

/// Linux and Windows bundles follow the architecture: an arm64 host does not
/// build for the x64 platform.
pub proof fn lemma_bundle_follows_architecture(
    os: Seq<char>,
    x64: HostLayout,
    arm64: HostLayout,
)
    requires
        os == "linux"@ || os == "windows"@,
        host_layout_for(os, engine_arch_name("x86_64"@)->0, x64),
        host_layout_for(os, engine_arch_name("aarch64"@)->0, arm64),
    ensures
        x64.flutter_target_platform@ != arm64.flutter_target_platform@,
{
    reveal_strlit("x86_64");
    reveal_strlit("aarch64");
    reveal_strlit("x64");
    reveal_strlit("arm64");
    reveal_strlit("linux");
    reveal_strlit("windows");
    reveal_strlit("macos");
    reveal_strlit("linux-x64");
    reveal_strlit("linux-arm64");
    reveal_strlit("windows-x64");
    reveal_strlit("windows-arm64");
    assert("aarch64"@.len() != "x86_64"@.len());
    assert("arm64"@.len() != "x64"@.len());
    assert("linux"@[0] != "macos"@[0]);
    assert("windows"@.len() != "macos"@.len());
    assert("windows"@.len() != "linux"@.len());
    assert("linux-x64"@.len() != "linux-arm64"@.len());
    assert("windows-x64"@.len() != "windows-arm64"@.len());
}

/// The bundle table, written out: for each supported host and Cargo
/// architecture, every part of the layout. The engine goes where that host's
/// loader looks for it, whatever the architecture: `lib/` under the binary on
/// Linux and macOS, and beside `flt.exe` at the bundle's root on Windows,
/// the one place Windows searches for a DLL without a search path.
pub proof fn lemma_host_layout_table(os: Seq<char>, arch: Seq<char>, layout: HostLayout)
    requires
        engine_arch_name(arch) is Some,
        bundle_os_supported(os),
        host_layout_for(os, engine_arch_name(arch)->0, layout),
    ensures
        os == "linux"@ ==> {
            &&& arch == "x86_64"@ ==> layout.flutter_target_platform@ == "linux-x64"@
            &&& arch == "aarch64"@ ==> layout.flutter_target_platform@ == "linux-arm64"@
            &&& layout.executable@ == "flt"@
            &&& layout.engine matches Engine::SharedLibrary(name) && name@
                == "libflutter_engine.so"@
            &&& layout.engine_destination@ == "lib/libflutter_engine.so"@
            &&& layout.launcher@ == "run.sh"@
        },
        os == "macos"@ ==> {
            &&& layout.flutter_target_platform@ == "darwin"@
            &&& layout.executable@ == "flt"@
            &&& layout.engine is Framework
            &&& layout.engine_destination@ == "lib/FlutterEmbedder.framework"@
            &&& layout.launcher@ == "run.sh"@
        },
        os == "windows"@ ==> {
            &&& arch == "x86_64"@ ==> layout.flutter_target_platform@ == "windows-x64"@
            &&& arch == "aarch64"@ ==> layout.flutter_target_platform@ == "windows-arm64"@
            &&& layout.executable@ == "flt.exe"@
            &&& layout.engine matches Engine::SharedLibrary(name) && name@
                == "flutter_engine.dll"@
            &&& layout.engine_destination@ == "flutter_engine.dll"@
            &&& layout.launcher@ == "run.cmd"@
        },
{
    reveal_strlit("x86_64");
    reveal_strlit("aarch64");
    reveal_strlit("x64");
    reveal_strlit("arm64");
    reveal_strlit("macos");
    reveal_strlit("linux");
    reveal_strlit("windows");
    assert("aarch64"@.len() != "x86_64"@.len());
    assert("arm64"@.len() != "x64"@.len());
    assert("linux"@[0] != "macos"@[0]);
    assert("windows"@.len() != "macos"@.len());
    assert("windows"@.len() != "linux"@.len());
}

/// On each host, the engine's place in the bundle, the executable and the
/// launcher do not depend on the architecture.
pub proof fn lemma_bundle_places_do_not_depend_on_architecture(
    os: Seq<char>,
    arch: Seq<char>,
    other: Seq<char>,
    layout: HostLayout,
    other_layout: HostLayout,
)
    requires
        engine_arch_name(arch) is Some,
        engine_arch_name(other) is Some,
        bundle_os_supported(os),
        host_layout_for(os, engine_arch_name(arch)->0, layout),
        host_layout_for(os, engine_arch_name(other)->0, other_layout),
    ensures
        layout.engine_destination@ == other_layout.engine_destination@,
        layout.executable@ == other_layout.executable@,
        layout.launcher@ == other_layout.launcher@,
{
    lemma_host_layout_table(os, arch, layout);
    lemma_host_layout_table(os, other, other_layout);
}

} // verus!
