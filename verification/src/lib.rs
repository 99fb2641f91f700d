//! Decision logic of a runner that builds a UEFI binary, stages it into a
//! boot-image layout and launches an emulator on it.

pub mod config;
pub mod document;
pub mod emulator;
pub mod layout;
pub mod mode;
pub mod outcome;
pub mod pipeline;
pub mod run;
pub mod schema;
pub mod text;
pub mod words;

pub use config::RunnerConfig;
pub use config::example;
