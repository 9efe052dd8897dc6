//! File-transfer protocol engine: path sandboxing, a per-path write-lock
//! registry, the client-side chunk producer, the server-side upload session
//! and directory listing filters.

pub mod status;
pub mod listing;
pub mod locks;
pub mod paths;
pub mod producer;
pub mod service;
pub mod upload;

pub use status::{Code, Status};
pub use paths::{
    has_parent_component, is_within, join_path, resolve_in_root, resolve_local, sandbox_target,
    starts_with,
    strip_leading_separators,
};
pub use upload::{Action, Event, SessionState, TransferChunk, UploadSession, UploadTarget};
pub use locks::PathLocks;
pub use listing::{
    gui_entries, local_entries, remote_entries, DirEntry, EntryMeta, GuiDirEntry, LocalDirEntry,
    ScannedEntry,
};
pub use producer::{file_name, local_upload_path, ChunkProducer, CHUNK_SIZE, QUEUE_CAPACITY};
pub use service::{server_url, ClientState, MyFileService, UploadResult};
