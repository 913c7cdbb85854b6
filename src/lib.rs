//! Visual-regression checks for UI component catalogs: story discovery,
//! fingerprinting of rendered stories, classification against baselines and
//! the decisions of a check run.

pub mod classify;
pub mod discovery;
pub mod exports;
pub mod fingerprint;
pub mod ignore_file;
pub mod project;
pub mod run;
pub mod story;
pub mod text;

pub use classify::{classify, skipped, BaselineStore, RegressionTestResult, RegressionTestStatus};
pub use discovery::{
    discover, is_story_file, select_story_files, DiscoveryError, IgnoreRules, SourceFile,
};
pub use exports::{stories_in_file, WordClass};
pub use fingerprint::{extract, fingerprint, screenshot_hash, to_hex, ExtractError, RegressionTest};
pub use ignore_file::ignore_patterns;
pub use project::{
    file_exists, home_dir_from, ignore_file_path, manifest_path, open_run, Config, STYLE_PROBE,
};
pub use run::{Action, Event, Phase, Run, RunError};
pub use story::{component_name, Story};
pub use text::chars_of;
