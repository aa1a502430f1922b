//! The decisions of a clipboard history: which clipboard change becomes which record, how a record
//! goes back to the clipboard, and how it is pasted.
//!
//! Nothing here touches the clipboard, the keyboard, the disk or the database. Where such work and
//! decisions alternate, a value holds where the handling stands: its `action` says what is to be
//! done next, and the answer goes into its `step`.

pub mod batch;
pub mod clock;
pub mod commands;
pub mod delays;
pub mod image;
pub mod item;
pub mod json;
pub mod keys;
pub mod listener;
pub mod lock;
pub mod manager;
pub mod paste;
pub mod pasted;
pub mod records;
pub mod request;
pub mod text;
pub mod writing;
