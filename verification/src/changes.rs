//! What the change tracker reports about a drive: one event for each file or
//! folder that was created or deleted since the last synchronisation.

use vstd::prelude::*;
use crate::path::{parent, parent_of};

verus! {

/// A file or a folder of a drive, as the change tracker knows it.
#[derive(Debug)]
pub struct InnerPath {
    /// The drive that holds the item.
    pub drive_id: String,
    /// The identifier of the item within its drive.
    pub id: String,
    /// The full path of the item.
    pub path: String,
    /// Whether the item was in the trash when the change happened.
    pub trashed: bool,
}

/// An item together with its kind.
#[derive(Debug)]
pub enum Path {
    File(InnerPath),
    Folder(InnerPath),
}

/// One change to a drive.
#[derive(Debug)]
pub enum ChangedPath {
    Created(Path),
    Deleted(Path),
}

/// A change as the rules see it: what happened, to what kind of item, where,
/// and whether the item was in the trash.
pub struct ChangeEvent {
    pub created: bool,
    pub folder: bool,
    pub path: Seq<char>,
    pub trashed: bool,
}

impl Path {
    /// The item itself, whatever its kind.
    pub open spec fn inner(&self) -> InnerPath {
        match *self {
            Path::File(inner) => inner,
            Path::Folder(inner) => inner,
        }
    }

    /// Whether the item was in the trash when the change happened.
    pub fn trashed(&self) -> (trashed: bool)
        ensures
            trashed == self.inner().trashed,
    {
        match self {
            Path::File(inner) => inner.trashed,
            Path::Folder(inner) => inner.trashed,
        }
    }

    /// The folder that a change to this item touches: the item itself where
    /// it is a folder, else the folder that holds it.
    pub fn folder(&self) -> (folder: String)
        ensures
            folder@ == if *self is Folder {
                self.inner().path@
            } else {
                parent_of(self.inner().path@)
            },
    {
        match self {
            Path::File(file) => parent(file.path.as_str()),
            Path::Folder(folder) => folder.path.clone(),
        }
    }
}

impl ChangedPath {
    /// The item that changed.
    pub open spec fn subject(&self) -> Path {
        match *self {
            ChangedPath::Created(path) => path,
            ChangedPath::Deleted(path) => path,
        }
    }
}

impl View for ChangedPath {
    type V = ChangeEvent;

    open spec fn view(&self) -> ChangeEvent {
        ChangeEvent {
            created: *self is Created,
            folder: self.subject() is Folder,
            path: self.subject().inner().path@,
            trashed: self.subject().inner().trashed,
        }
    }
}

/// The events that a list of changes stands for, in the same order.
pub open spec fn events_of(changes: Seq<ChangedPath>) -> Seq<ChangeEvent> {
    changes.map_values(|change: ChangedPath| change@)
}

/// The folder that an event points at: a folder stands for itself, a file for
/// the folder that holds it.
pub open spec fn target(event: ChangeEvent) -> Seq<char> {
    if event.folder {
        event.path
    } else {
        parent_of(event.path)
    }
}

/// Whether the scanner is told about a deletion. The removal of an item that
/// was already in the trash is passed over.
pub open spec fn reported_deletion(event: ChangeEvent) -> bool {
    !event.created && !event.trashed
}

} // verus!
