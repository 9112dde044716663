//! Live file transfers: an upload progress state machine shared by many
//! concurrent downloads, a registry of running uploads, pacing of downloads
//! that read a file while it is still being written, and the retention rules
//! that decide when an asset is deleted.
//!
//! Everything here is plain, single-owner logic with contracts. The async
//! runtime, the HTTP layer and the file system sit around it and hand it plain
//! values.

pub mod configuration;
pub mod download;
pub mod error;
pub mod file_meta;
pub mod pages;
pub mod progress_tokens;
pub mod qrcode;
pub mod retention_control;
pub mod tapfer_id;
pub mod text;
pub mod upload;
pub mod upload_fsm;
pub mod upload_pool;
pub mod websocket;
