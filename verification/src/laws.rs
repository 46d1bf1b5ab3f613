//! What holds of the library as a whole: laws that relate several of its functions, or that speak
//! of every value one of them may return.

pub mod answers;
pub mod archives;
pub mod artifacts;
pub mod builds;
pub mod commands;
pub mod containers;
pub mod contracts;
pub mod environments;
pub mod files;
pub mod filling;
pub mod invocations;
pub mod keys;
pub mod manifests;
pub mod maps;
pub mod paths;
pub mod publications;
pub mod repositories;
pub mod requirements;
pub mod selection;
pub mod signing;
pub mod sources;
pub mod storage;
pub mod targets;
pub mod templates;
pub mod texts;
pub mod units;
pub mod uploading;
pub mod uploads;
pub mod validity;
pub mod versions;
pub mod views;
pub mod words;
