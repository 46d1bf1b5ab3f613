//! Release planning for multi-system packages: reading a release contract, planning builds
//! and publications step by step, and rendering what the package systems need. What holds of
//! the library as a whole is stated and proved in [`laws`].

pub mod brew;
pub mod building;
pub mod channel;
pub mod cli;
pub mod contract;
pub mod digest;
pub mod laws;
pub mod manifest;
pub mod model;
pub mod package;
pub mod path;
pub mod plan;
pub mod publication;
pub mod publish;
pub mod report;
pub mod requirements;
pub mod runner;
pub mod s3;
pub mod scoop;
pub mod sibling;
pub mod system;
pub mod template;
pub mod text;
pub mod textmap;
pub mod version;
