//! Live regex filtering of a command's output: the session state behind an
//! interactive viewer that appends lines as they arrive, keeps a filtered view
//! of them, and tracks a selection with a scrolling preview.

pub mod app;
pub mod filter;
pub mod highlight;
pub mod keys;
pub mod laws;
pub mod logger;
pub mod matcher;
pub mod state;
pub mod text;
pub mod theme;
