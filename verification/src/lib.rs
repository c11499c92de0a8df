//! The rules of a command line tool that manages FHS environments on NixOS.

pub mod additions;
pub mod build_laws;
pub mod check;
pub mod command_laws;
pub mod effect;
pub mod failure;
pub mod file_laws;
pub mod finish_laws;
pub mod housekeeping;
pub mod nix;
pub mod notice;
pub mod package;
pub mod paths;
pub mod plan;
pub mod process;
pub mod progress;
pub mod question_laws;
pub mod rebuild;
pub mod removals;
pub mod report;
pub mod report_laws;
pub mod run_laws;
pub mod session;
pub mod session_laws;
pub mod site;
pub mod source_laws;
pub mod sources;
pub mod storage;
pub mod storage_laws;
pub mod storing;
pub mod supply;
pub mod telling_laws;
pub mod text;
pub mod text_laws;
pub mod update;
