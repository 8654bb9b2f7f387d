//! The prebuilt Flutter embedder engine for a target, as a table.
//!
//! The names are Flutter's, and they are not regular: only `darwin-x64`
//! publishes `FlutterEmbedder.framework`, and it is universal (x86_64 and
//! arm64 in one binary), while Linux and Windows publish one flat zip per
//! architecture.

use vstd::prelude::*;
use crate::text::{contains_text, lemma_contains_middle, same_text};

verus! {

/// How the downloaded archive is laid out and linked.
#[derive(Debug, PartialEq, Eq)]
pub enum EngineLayout {
    /// `FlutterEmbedder.framework`, unzipped into a directory of that name.
    Framework,
    /// A flat zip with a header and a shared library.
    SharedLibrary {
        header: &'static str,
        library: &'static str,
        /// What `cargo:rustc-link-lib` is given.
        link_name: &'static str,
    },
}

/// Where the engine is downloaded from, and how it is laid out.
#[derive(Debug, PartialEq, Eq)]
pub struct EngineArtifact {
    pub url: String,
    pub layout: EngineLayout,
}

/// Where Flutter publishes its engine builds.
pub const BASE: &'static str = "https://storage.googleapis.com/flutter_infra_release/flutter";

/// Flutter's name for a Cargo target architecture, where it publishes one.
pub open spec fn engine_arch_name(arch: Seq<char>) -> Option<Seq<char>> {
    if arch == "x86_64"@ {
        Some("x64"@)
    } else if arch == "aarch64"@ {
        Some("arm64"@)
    } else {
        None
    }
}

/// The target operating systems an engine is published for.
pub open spec fn engine_os_supported(os: Seq<char>) -> bool {
    os == "macos"@ || os == "linux"@ || os == "windows"@
}

/// The download location of the engine for `os` and Flutter's architecture
/// name `arch`, at revision `engine_ref`.
pub open spec fn engine_url(os: Seq<char>, arch: Seq<char>, engine_ref: Seq<char>) -> Seq<char> {
    let dir = BASE@ + "/"@ + engine_ref;
    if os == "macos"@ {
        dir + "/darwin-x64/FlutterEmbedder.framework.zip"@
    } else if os == "linux"@ {
        dir + "/linux-"@ + arch + "/linux-"@ + arch + "-embedder.zip"@
    } else {
        dir + "/windows-"@ + arch + "/windows-"@ + arch + "-embedder.zip"@
    }
}

/// `layout` is a shared library with these three names.
pub open spec fn is_shared_library(
    layout: EngineLayout,
    header: Seq<char>,
    library: Seq<char>,
    link_name: Seq<char>,
) -> bool {
    match layout {
        EngineLayout::SharedLibrary { header: h, library: l, link_name: n } => {
            &&& h@ == header
            &&& l@ == library
            &&& n@ == link_name
        },
        EngineLayout::Framework => false,
    }
}

/// The layout the engine for `os` has.
pub open spec fn engine_layout_for(os: Seq<char>, layout: EngineLayout) -> bool {
    if os == "macos"@ {
        layout == EngineLayout::Framework
    } else if os == "linux"@ {
        is_shared_library(layout, "flutter_embedder.h"@, "libflutter_engine.so"@, "flutter_engine"@)
    } else {
        // The MSVC linker appends `.lib` to a link name, and the import
        // library in the zip is `flutter_engine.dll.lib`.
        is_shared_library(layout, "flutter_embedder.h"@, "flutter_engine.dll"@, "flutter_engine.dll"@)
    }
}

/// The message with which a target without a published engine is refused.
pub open spec fn engine_refusal(os: Seq<char>, arch: Seq<char>) -> Seq<char> {
    if engine_arch_name(arch) is None {
        "no prebuilt Flutter embedder engine is published for the "@ + arch + " architecture ("@
            + os + ")"@
    } else {
        "no prebuilt Flutter embedder engine is published for "@ + os
            + "; the terminal embedder builds on linux, macos and windows"@
    }
}

/// Flutter's architecture name for `arch`, when it publishes one.
pub(crate) fn arch_name(arch: &str) -> (name: Option<&'static str>)
    ensures
        match name {
            Some(n) => engine_arch_name(arch@) == Some(n@),
            None => engine_arch_name(arch@) is None,
        },
{
    if same_text(arch, "x86_64") {
        Some("x64")
    } else if same_text(arch, "aarch64") {
        Some("arm64")
    } else {
        None
    }
}

/// The engine for `target_os`/`target_arch`, spelled as Cargo spells them in
/// `CARGO_CFG_TARGET_OS` and `CARGO_CFG_TARGET_ARCH`, at the engine revision
/// `engine_ref`. A target with no published engine is refused with a message
/// that names what is missing.
pub fn engine_artifact(target_os: &str, target_arch: &str, engine_ref: &str) -> (res: Result<
    EngineArtifact,
    String,
>)
    ensures
        res is Ok <==> (engine_arch_name(target_arch@) is Some && engine_os_supported(target_os@)),
        match res {
            Ok(artifact) => {
                &&& artifact.url@ == engine_url(
                    target_os@,
                    engine_arch_name(target_arch@)->0,
                    engine_ref@,
                )
                &&& engine_layout_for(target_os@, artifact.layout)
            },
            Err(reason) => reason@ == engine_refusal(target_os@, target_arch@),
        },
{
    let arch = match arch_name(target_arch) {
        Some(a) => a,
        None => {
            let mut reason = String::new();
            reason.append("no prebuilt Flutter embedder engine is published for the ");
            reason.append(target_arch);
            reason.append(" architecture (");
            reason.append(target_os);
            reason.append(")");
            return Err(reason);
        },
    };
    let mut url = String::new();
    url.append(BASE);
    url.append("/");
    url.append(engine_ref);
    if same_text(target_os, "macos") {
        url.append("/darwin-x64/FlutterEmbedder.framework.zip");
        Ok(EngineArtifact { url, layout: EngineLayout::Framework })
    } else if same_text(target_os, "linux") {
        url.append("/linux-");
        url.append(arch);
        url.append("/linux-");
        url.append(arch);
        url.append("-embedder.zip");
        Ok(
            EngineArtifact {
                url,
                layout: EngineLayout::SharedLibrary {
                    header: "flutter_embedder.h",
                    library: "libflutter_engine.so",
                    link_name: "flutter_engine",
                },
            },
        )
    } else if same_text(target_os, "windows") {
        url.append("/windows-");
        url.append(arch);
        url.append("/windows-");
        url.append(arch);
        url.append("-embedder.zip");
        Ok(
            EngineArtifact {
                url,
                layout: EngineLayout::SharedLibrary {
                    header: "flutter_embedder.h",
                    library: "flutter_engine.dll",
                    link_name: "flutter_engine.dll",
                },
            },
        )
    } else {
        let mut reason = String::new();
        reason.append("no prebuilt Flutter embedder engine is published for ");
        reason.append(target_os);
        reason.append("; the terminal embedder builds on linux, macos and windows");
        Err(reason)
    }
}

/// A refused target is refused by name: the message names the operating
/// system, and, where the architecture is the one without an engine, the
/// architecture too.
pub proof fn lemma_refusal_names_target(os: Seq<char>, arch: Seq<char>)
    ensures
        contains_text(engine_refusal(os, arch), os),
        engine_arch_name(arch) is None ==> contains_text(engine_refusal(os, arch), arch),
{
    if engine_arch_name(arch) is None {
        let lead = "no prebuilt Flutter embedder engine is published for the "@;
        lemma_contains_middle(lead, arch, " architecture ("@ + os + ")"@);
        assert(lead + arch + (" architecture ("@ + os + ")"@) =~= engine_refusal(os, arch));
        lemma_contains_middle(lead + arch + " architecture ("@, os, ")"@);
    } else {
        lemma_contains_middle(
            "no prebuilt Flutter embedder engine is published for "@,
            os,
            "; the terminal embedder builds on linux, macos and windows"@,
        );
    }
}

/// Both Mac architectures get the one universal framework: the engine for
/// macOS does not depend on the architecture.
pub proof fn lemma_macos_engine_is_universal(arch: Seq<char>, other: Seq<char>, engine_ref: Seq<char>)
    requires
        engine_arch_name(arch) is Some,
        engine_arch_name(other) is Some,
    ensures
        engine_url("macos"@, engine_arch_name(arch)->0, engine_ref) == engine_url(
            "macos"@,
            engine_arch_name(other)->0,
            engine_ref,
        ),
        engine_url("macos"@, engine_arch_name(arch)->0, engine_ref)
            == BASE@ + "/"@ + engine_ref + "/darwin-x64/FlutterEmbedder.framework.zip"@,
{
}

/// Linux and Windows follow the architecture: an arm64 target does not get
/// the x64 engine.
pub proof fn lemma_engine_follows_architecture(os: Seq<char>, engine_ref: Seq<char>)
    requires
        os == "linux"@ || os == "windows"@,
    ensures
        engine_url(os, engine_arch_name("x86_64"@)->0, engine_ref) != engine_url(
            os,
            engine_arch_name("aarch64"@)->0,
            engine_ref,
        ),
{
    reveal_strlit("x86_64");
    reveal_strlit("aarch64");
    reveal_strlit("x64");
    reveal_strlit("arm64");
    reveal_strlit("macos");
    reveal_strlit("linux");
    reveal_strlit("windows");
    assert("linux"@[0] != "macos"@[0]);
    assert("windows"@.len() != "macos"@.len());
    assert(os != "macos"@);
    let dir = BASE@ + "/"@ + engine_ref;
    let lead = if os == "linux"@ {
        dir + "/linux-"@
    } else {
        dir + "/windows-"@
    };
    let tail = if os == "linux"@ {
        "/linux-"@
    } else {
        "/windows-"@
    };
    let end = "-embedder.zip"@;
    let x = lead + "x64"@;
    let y = lead + "arm64"@;
    assert(x[lead.len() as int] == 'x');
    assert(y[lead.len() as int] == 'a');
    assert(engine_url(os, "x64"@, engine_ref) == x + tail + "x64"@ + end);
    assert(engine_url(os, "arm64"@, engine_ref) == y + tail + "arm64"@ + end);
    assert((x + tail + "x64"@ + end)[lead.len() as int] == 'x');
    assert((y + tail + "arm64"@ + end)[lead.len() as int] == 'a');
    assert("aarch64"@.len() != "x86_64"@.len());
    assert(engine_arch_name("aarch64"@) == Some("arm64"@));
}

/// Only the two architectures Flutter publishes an engine for have one:
/// Cargo's `x86_64`, which Flutter calls `x64`, and `aarch64`, which it calls
/// `arm64`. Every other architecture, 32-bit `arm` and `x86` among them, has
/// none.
pub proof fn lemma_published_architectures(arch: Seq<char>)
    ensures
        engine_arch_name(arch) is Some <==> (arch == "x86_64"@ || arch == "aarch64"@),
        arch == "x86_64"@ ==> engine_arch_name(arch) == Some("x64"@),
        arch == "aarch64"@ ==> engine_arch_name(arch) == Some("arm64"@),
{
    reveal_strlit("x86_64");
    reveal_strlit("aarch64");
    assert("aarch64"@.len() != "x86_64"@.len());
}

/// The systems an engine is published for are exactly macOS, Linux and
/// Windows.
pub proof fn lemma_published_systems(os: Seq<char>)
    ensures
        engine_os_supported(os) <==> (os == "macos"@ || os == "linux"@ || os == "windows"@),
{
}

/// The engine table, written out: for each supported system and Cargo
/// architecture, the whole download location and the layout.
pub proof fn lemma_engine_table(
    os: Seq<char>,
    arch: Seq<char>,
    engine_ref: Seq<char>,
    layout: EngineLayout,
)
    requires
        engine_arch_name(arch) is Some,
        engine_os_supported(os),
        engine_layout_for(os, layout),
    ensures
        ({
            let url = engine_url(os, engine_arch_name(arch)->0, engine_ref);
            let dir = "https://storage.googleapis.com/flutter_infra_release/flutter/"@
                + engine_ref;
            &&& os == "macos"@ ==> url == dir + "/darwin-x64/FlutterEmbedder.framework.zip"@
            &&& os == "macos"@ ==> layout is Framework
            &&& os == "linux"@ && arch == "x86_64"@ ==> url == dir
                + "/linux-x64/linux-x64-embedder.zip"@
            &&& os == "linux"@ && arch == "aarch64"@ ==> url == dir
                + "/linux-arm64/linux-arm64-embedder.zip"@
            &&& os == "windows"@ && arch == "x86_64"@ ==> url == dir
                + "/windows-x64/windows-x64-embedder.zip"@
            &&& os == "windows"@ && arch == "aarch64"@ ==> url == dir
                + "/windows-arm64/windows-arm64-embedder.zip"@
            &&& os == "linux"@ ==> (layout matches EngineLayout::SharedLibrary {
                header,
                library,
                link_name,
            } && header@ == "flutter_embedder.h"@ && library@ == "libflutter_engine.so"@
                && link_name@ == "flutter_engine"@)
            &&& os == "windows"@ ==> (layout matches EngineLayout::SharedLibrary {
                header,
                library,
                link_name,
            } && header@ == "flutter_embedder.h"@ && library@ == "flutter_engine.dll"@
                && link_name@ == "flutter_engine.dll"@)
        }),
{
    lemma_published_architectures(arch);
    reveal_strlit("macos");
    reveal_strlit("linux");
    reveal_strlit("windows");
    assert("linux"@[0] != "macos"@[0]);
    assert("windows"@.len() != "macos"@.len());
    assert("windows"@.len() != "linux"@.len());
    reveal_strlit("https://storage.googleapis.com/flutter_infra_release/flutter");
    reveal_strlit("/");
    reveal_strlit("https://storage.googleapis.com/flutter_infra_release/flutter/");
    reveal_strlit("x64");
    reveal_strlit("arm64");
    reveal_strlit("/linux-");
    reveal_strlit("/windows-");
    reveal_strlit("-embedder.zip");
    reveal_strlit("/linux-x64/linux-x64-embedder.zip");
    reveal_strlit("/linux-arm64/linux-arm64-embedder.zip");
    reveal_strlit("/windows-x64/windows-x64-embedder.zip");
    reveal_strlit("/windows-arm64/windows-arm64-embedder.zip");
    let dir = "https://storage.googleapis.com/flutter_infra_release/flutter/"@ + engine_ref;
    assert(BASE@ + "/"@ + engine_ref =~= dir);
    let a = engine_arch_name(arch)->0;
    if os == "linux"@ {
        if arch == "x86_64"@ {
            assert("/linux-"@ + a + "/linux-"@ + a + "-embedder.zip"@
                =~= "/linux-x64/linux-x64-embedder.zip"@);
            assert(engine_url(os, a, engine_ref) =~= dir + ("/linux-"@ + a + "/linux-"@ + a
                + "-embedder.zip"@));
        } else {
            assert("/linux-"@ + a + "/linux-"@ + a + "-embedder.zip"@
                =~= "/linux-arm64/linux-arm64-embedder.zip"@);
            assert(engine_url(os, a, engine_ref) =~= dir + ("/linux-"@ + a + "/linux-"@ + a
                + "-embedder.zip"@));
        }
    } else if os == "windows"@ {
        if arch == "x86_64"@ {
            assert("/windows-"@ + a + "/windows-"@ + a + "-embedder.zip"@
                =~= "/windows-x64/windows-x64-embedder.zip"@);
            assert(engine_url(os, a, engine_ref) =~= dir + ("/windows-"@ + a + "/windows-"@ + a
                + "-embedder.zip"@));
        } else {
            assert("/windows-"@ + a + "/windows-"@ + a + "-embedder.zip"@
                =~= "/windows-arm64/windows-arm64-embedder.zip"@);
            assert(engine_url(os, a, engine_ref) =~= dir + ("/windows-"@ + a + "/windows-"@ + a
                + "-embedder.zip"@));
        }
    } else {
        assert(engine_url(os, a, engine_ref) =~= dir
            + "/darwin-x64/FlutterEmbedder.framework.zip"@);
    }
}

} // verus!
