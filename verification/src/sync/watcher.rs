//! Events about files of the sync directory.
//!
//! The application watches the directory and hands each change to
//! [`sync_event_for`], which decides the event to broadcast.
use vstd::prelude::*;

verus! {

/// Something that happened to files of the sync directory.
#[derive(Debug, Clone)]
pub enum SyncEvent {
    /// Several files of the directory changed.
    CloudChanged(Vec<String>),
    /// A file was created.
    FileCreated(String),
    /// A file was modified.
    FileModified(String),
    /// A file was deleted.
    FileDeleted(String),
}

/// The kind of change a file system watcher reports.
#[derive(Debug, Clone, Copy, PartialEq, Eq, Structural)]
pub enum WatchEventKind {
    Create,
    Modify,
    Remove,
    /// Access and any other kind of change.
    Other,
}

/// The event to broadcast for a change of kind `kind` to the file at `path`:
/// creations, modifications and removals are reported, other changes are not.
pub fn sync_event_for(kind: WatchEventKind, path: String) -> (r: Option<SyncEvent>)
    ensures
        kind == WatchEventKind::Create ==> (r matches Some(SyncEvent::FileCreated(p)) && p@ == path@),
        kind == WatchEventKind::Modify ==> (r matches Some(SyncEvent::FileModified(p)) && p@ == path@),
        kind == WatchEventKind::Remove ==> (r matches Some(SyncEvent::FileDeleted(p)) && p@ == path@),
        kind == WatchEventKind::Other ==> r is None,
{
    match kind {
        WatchEventKind::Create => Some(SyncEvent::FileCreated(path)),
        WatchEventKind::Modify => Some(SyncEvent::FileModified(path)),
        WatchEventKind::Remove => Some(SyncEvent::FileDeleted(path)),
        WatchEventKind::Other => None,
    }
}

} // verus!
