//! Records exchanged with the user interface: progress events, session
//! settings and status reports.
use vstd::prelude::*;
use crate::session::DEFAULT_MAX_STEPS;

verus! {

/// A progress event of a playtest session.
#[derive(Clone, Debug, PartialEq, Eq)]
pub struct PlaytestEvent {
    /// One of `start`, `connected`, `action`, `observation`, `complete`, `error`.
    pub event_type: String,
    pub message: String,
    pub frame: Option<u32>,
    pub action: Option<String>,
    pub screenshot: Option<String>,
}

/// What a playtest session is asked to do.
#[derive(Clone, Debug, PartialEq, Eq)]
pub struct PlaytestConfig {
    pub objective: String,
    /// The iteration budget; the default applies when absent.
    pub max_duration_secs: Option<u64>,
}

impl PlaytestConfig {
    /// The iteration budget of the control loop: the given duration cut to
    /// its low 32 bits, or the default.
    pub fn max_steps(&self) -> (r: u32)
        ensures
            r == match self.max_duration_secs {
                Some(d) => (d % 0x1_0000_0000) as u32,
                None => DEFAULT_MAX_STEPS,
            },
    {
        match self.max_duration_secs {
            Some(d) => (d % 0x1_0000_0000) as u32,
            None => DEFAULT_MAX_STEPS,
        }
    }
}

/// An event of the coding agent's output stream.
#[derive(Clone, Debug, PartialEq, Eq)]
pub struct AgentEvent {
    pub event_type: String,
    pub content: String,
    pub tool_name: Option<String>,
    pub tool_args: Option<String>,
}

/// Which parts of the inference setup were found.
#[derive(Clone, Debug, PartialEq, Eq)]
pub struct NitrogenStatus {
    pub installed: bool,
    pub checkpoint_exists: bool,
    pub server_running: bool,
    pub sidecar_available: bool,
    pub python_path: Option<String>,
    pub nitrogen_path: Option<String>,
}

/// A file or directory of a project tree.
#[derive(Debug)]
pub struct FileEntry {
    pub name: String,
    pub path: String,
    pub is_dir: bool,
    pub children: Option<Vec<FileEntry>>,
}

/// The application's stored settings.
#[derive(Clone, Debug, PartialEq, Eq, Default)]
pub struct AppSettings {
    pub openrouter_key: Option<String>,
    pub goose_model: Option<String>,
    pub gemini_key: Option<String>,
    pub godot_path: Option<String>,
    pub godot_mcp_installed: Option<bool>,
    pub auto_connect: Option<bool>,
    pub last_project_path: Option<String>,
}

} // verus!
