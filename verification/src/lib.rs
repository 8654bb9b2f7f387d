//! Build-time decisions for shipping a Flutter application that renders in a
//! terminal: which prebuilt embedder engine a target links, how a bundle is
//! laid out on each host, the launcher written beside the binary, what is
//! refused before a bundle is assembled, and the reading of
//! `flutter --version --machine`.

pub mod text;
pub mod engine;
pub mod bundle;
pub mod launcher;
pub mod json_field;
pub mod plan;

pub use engine::{engine_artifact, EngineArtifact, EngineLayout};
pub use bundle::{host_layout, Engine, HostLayout};
pub use launcher::launcher_script;
pub use json_field::json_string_field;
pub use plan::{
    build_plan, engine_file_name, host_platform_name, newest_engine, BuildRefusal,
    EngineCandidate,
};
