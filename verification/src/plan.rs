//! The decisions of assembling a distributable bundle, apart from the work:
//! what is refused before anything runs, which engine file is shipped, and
//! which of the engine build outputs is the one just linked.

use vstd::prelude::*;
use crate::bundle::{host_layout, host_layout_for, host_refusal, bundle_os_supported, Engine, HostLayout};
use crate::engine::engine_arch_name;
use crate::text::{has_prefix, owned, same_text, starts_with_text};

verus! {

/// The platform name of the host `os`, as `dartvel build <platform>-cli`
/// spells it: every host that is neither macOS nor Windows counts as Linux.
pub open spec fn host_platform(os: Seq<char>) -> Seq<char> {
    if os == "macos"@ {
        "macos"@
    } else if os == "windows"@ {
        "windows"@
    } else {
        "linux"@
    }
}

/// The platform name of the host `os`, spelled as `std::env::consts::OS`
/// spells it.
pub fn host_platform_name(os: &str) -> (name: &'static str)
    ensures
        name@ == host_platform(os@),
{
    if same_text(os, "macos") {
        "macos"
    } else if same_text(os, "windows") {
        "windows"
    } else {
        "linux"
    }
}

/// Whether `platform`, where one is asked for, is the host `os`.
pub open spec fn asks_for_host(platform: Option<&str>, os: Seq<char>) -> bool {
    match platform {
        Some(p) => p@ == host_platform(os),
        None => true,
    }
}

/// Why a bundle is not built.
#[derive(Debug, PartialEq, Eq)]
pub enum BuildRefusal {
    /// A release build was asked for. The embedder runs the Flutter project
    /// in debug (JIT) mode, and a debug bundle shipped under a release name
    /// would be slower and larger than asked for.
    ReleaseUnsupported,
    /// The platform asked for is not the host: the embedder links a host
    /// engine, and cross-building is not supported.
    CrossBuild { requested: String, host: &'static str },
    /// The host has no bundle layout; the reason names it.
    NoLayout(String),
}

/// Whether a build was asked for that is refused before any work, or else
/// the layout of the bundle to assemble on the host `os`/`arch`. `platform`
/// is the platform asked for, if any; `release` whether a release build was.
pub fn build_plan(platform: Option<&str>, release: bool, os: &str, arch: &str) -> (res: Result<
    HostLayout,
    BuildRefusal,
>)
    ensures
        release ==> res == Err::<HostLayout, BuildRefusal>(BuildRefusal::ReleaseUnsupported),
        !release && !asks_for_host(platform, os@) ==> match res {
            Err(BuildRefusal::CrossBuild { requested, host }) => {
                &&& platform matches Some(p) && requested@ == p@
                &&& host@ == host_platform(os@)
            },
            _ => false,
        },
        !release && asks_for_host(platform, os@) ==> {
            &&& res is Ok <==> (engine_arch_name(arch@) is Some && bundle_os_supported(os@))
            &&& match res {
                Ok(layout) => host_layout_for(os@, engine_arch_name(arch@)->0, layout),
                Err(BuildRefusal::NoLayout(reason)) => reason@ == host_refusal(os@, arch@),
                Err(_) => false,
            }
        },
{
    if release {
        return Err(BuildRefusal::ReleaseUnsupported);
    }
    let host = host_platform_name(os);
    if let Some(p) = platform {
        if !same_text(p, host) {
            return Err(BuildRefusal::CrossBuild { requested: owned(p), host });
        }
    }
    match host_layout(os, arch) {
        Ok(layout) => Ok(layout),
        Err(reason) => Err(BuildRefusal::NoLayout(reason)),
    }
}

/// The name of the engine file or directory that the engine build leaves.
pub open spec fn engine_file(engine: Engine) -> Seq<char> {
    match engine {
        Engine::SharedLibrary(name) => name@,
        Engine::Framework => "FlutterEmbedder.framework"@,
    }
}

/// The name of the engine file or directory that the engine build leaves.
pub fn engine_file_name(engine: &Engine) -> (name: &'static str)
    ensures
        name@ == engine_file(*engine),
{
    match engine {
        Engine::SharedLibrary(name) => name,
        Engine::Framework => "FlutterEmbedder.framework",
    }
}

/// One output directory of the engine build, as found on disk.
#[derive(Debug, PartialEq, Eq)]
pub struct EngineCandidate {
    /// The directory's name under the build directory.
    pub dir_name: String,
    /// Whether the engine is under its `out` directory.
    pub exists: bool,
    /// When that engine was last modified, in nanoseconds from the Unix
    /// epoch, where the file system says.
    pub modified: Option<i128>,
}

/// The engine build's output directories are named after its package.
pub open spec fn is_engine_output(c: EngineCandidate) -> bool {
    has_prefix(c.dir_name@, "flutter-sys-"@) && c.exists
}

/// `a` is no later than `b`, where an unknown time comes before every known
/// one.
pub open spec fn no_later(a: Option<i128>, b: Option<i128>) -> bool {
    match (a, b) {
        (None, _) => true,
        (Some(_), None) => false,
        (Some(x), Some(y)) => x <= y,
    }
}

/// Whether `a` is no later than `b`.
fn is_no_later(a: Option<i128>, b: Option<i128>) -> (yes: bool)
    ensures
        yes == no_later(a, b),
{
    match (a, b) {
        (None, _) => true,
        (Some(_), None) => false,
        (Some(x), Some(y)) => x <= y,
    }
}

/// The newest engine output: the build directory keeps every output it has
/// ever made, so an engine revision change leaves the old one beside the new,
/// and the first one listed is not the one just linked. Of outputs modified
/// at the same time, the one listed last.
pub fn newest_engine(candidates: &Vec<EngineCandidate>) -> (newest: Option<usize>)
    ensures
        match newest {
            Some(i) => {
                &&& i < candidates.len()
                &&& is_engine_output(candidates@[i as int])
                &&& forall|j: int|
                    0 <= j < candidates.len() && is_engine_output(#[trigger] candidates@[j])
                        ==> no_later(candidates@[j].modified, candidates@[i as int].modified)
                &&& forall|j: int|
                    i < j < candidates.len() && is_engine_output(#[trigger] candidates@[j])
                        ==> !no_later(candidates@[i as int].modified, candidates@[j].modified)
            },
            None => forall|j: int|
                0 <= j < candidates.len() ==> !is_engine_output(#[trigger] candidates@[j]),
        },
{
    let mut best: Option<usize> = None;
    let mut k: usize = 0;
    while k < candidates.len()
        invariant
            k <= candidates.len(),
            match best {
                Some(i) => {
                    &&& i < k
                    &&& is_engine_output(candidates@[i as int])
                    &&& forall|j: int|
                        0 <= j < k && is_engine_output(#[trigger] candidates@[j]) ==> no_later(
                            candidates@[j].modified,
                            candidates@[i as int].modified,
                        )
                    &&& forall|j: int|
                        i < j < k && is_engine_output(#[trigger] candidates@[j]) ==> !no_later(
                            candidates@[i as int].modified,
                            candidates@[j].modified,
                        )
                },
                None => forall|j: int| 0 <= j < k ==> !is_engine_output(#[trigger] candidates@[j]),
            },
        decreases candidates.len() - k,
    {
        let c = &candidates[k];
        if starts_with_text(c.dir_name.as_str(), "flutter-sys-") && c.exists {
            match best {
                None => {
                    best = Some(k);
                },
                Some(i) => {
                    if is_no_later(candidates[i].modified, c.modified) {
                        best = Some(k);
                    }
                },
            }
        }
        k = k + 1;
    }
    best
}

/// The platform name of a supported host is its own name, and every other
/// host counts as Linux.
pub proof fn lemma_host_platform_names(os: Seq<char>)
    ensures
        (os == "linux"@ || os == "macos"@ || os == "windows"@) ==> host_platform(os) == os,
        !(os == "linux"@ || os == "macos"@ || os == "windows"@) ==> host_platform(os) == "linux"@,
{
}

/// A platform that is asked for is accepted exactly when it is the host's
/// platform name; any other is refused as a cross build. Asking for none
/// asks for the host.
pub proof fn lemma_only_the_host_is_built_for(platform: &str, os: Seq<char>)
    ensures
        asks_for_host(Some(platform), os) <==> platform@ == host_platform(os),
        asks_for_host(None, os),
{
}

/// Build outputs are compared by the time their engine was last modified, in
/// the order of the numbers; an output whose time is unknown comes before
/// every output whose time is known, and after none.
pub proof fn lemma_time_order(x: i128, y: i128, a: Option<i128>)
    ensures
        no_later(Some(x), Some(y)) <==> x <= y,
        no_later(None, a),
        !no_later(Some(x), None),
{
}

/// The engine build's outputs are the directories named `flutter-sys-...`
/// that hold the engine.
pub proof fn lemma_engine_outputs(c: EngineCandidate)
    ensures
        is_engine_output(c) <==> (c.exists && c.dir_name@.len() >= 12 && c.dir_name@.subrange(
            0,
            12,
        ) == "flutter-sys-"@),
{
    reveal_strlit("flutter-sys-");
}

} // verus!
