//! Interactive browser for database backup snapshots held in an object
//! store: configuration editing with field focus, snapshot listing and
//! selection, and a chunked, cancellable download pipeline with progress
//! and rate reporting.

pub mod browser;
pub mod events;
pub mod models;
pub mod render;
pub mod shims;
pub mod text;
