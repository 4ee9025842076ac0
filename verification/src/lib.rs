//! An append-only growable sequence with a single writer handle and cheap,
//! cloneable read-only views.
//!
//! The writer appends elements one at a time; storage growth is modeled as an
//! in-place extension of the allocation that either succeeds or leaves the
//! state untouched, so a full buffer makes `push` fail rather than relocate
//! anything a view may have observed. Views share the writer's storage and
//! always see a consistent, append-only prefix of what was pushed.
//!
//! The handles are reference-counted and meant for use on the thread that
//! owns the writer; the storage is torn down, each published element dropped
//! exactly once, when the last handle (writer or view) goes away.

mod handles;
pub mod laws;
mod model;
mod raw;
mod sharing;

pub use sharing::CVec;
pub use sharing::CVecView;
pub use model::Model;
pub use raw::CVecRaw;
