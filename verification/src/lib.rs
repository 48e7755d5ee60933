//! grouse_core: the verified client logic of the Grouse chat clients.

pub mod text;
pub mod table;
pub mod cache;
pub mod core_state;
pub mod notify;
pub mod peer;
pub mod roam;
pub mod spine;
pub mod transcript;
pub mod transport;
pub mod types;
pub mod unstable;

pub use types::{
    ConfigChoice, ConfigOption, ConnectionStatus, Emission, Item, ItemKind, Message,
    PermissionOption, PermissionOutcome, PermissionRequest, ProjectSummary, Prompt, PromptBlock,
    SendExpect, ServerConfig, SessionSummary, StreamEvent, ToolCall, ToolCallKind,
    TranscriptEvent, TranscriptOp, TranscriptWindow,
};
