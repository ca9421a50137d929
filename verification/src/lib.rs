//! Build/run supervisor core: layered configuration resolution, change-path
//! relevance filtering, a debounce gate, fail-fast hook scheduling, and the
//! build/run pipeline state machine.
//!
//! Everything here is verified. Process spawning, filesystem watching and
//! other I/O live outside the library and drive these components with plain
//! values.

pub mod config;
pub mod errors;
pub mod gate;
pub mod globs;
pub mod hooks;
pub mod paths;
pub mod pipeline;
pub mod relevance;
pub mod text;

pub use config::{cli_to_config, effective_config, files_mode_config, merge_config, CliArgs, Config, EffectiveConfig};
pub use errors::{ConfigError, HookError, ResolutionError};
pub use gate::{event_is_relevant, EventGate};
pub use globs::build_globset;
pub use hooks::{HookRun, HookListOutcome};
pub use paths::{default_run_argv, exe_name, exe_path, resolve_bin_name};
pub use pipeline::{is_already_supervised, HookPoint, PipelineAction, PipelineEvent, Stage, Supervisor};
pub use relevance::is_relevant_path;
pub use text::norm_ext;
