//! The container session: the snapshot handle a window open yields, the
//! recoverable timeout when the bounded wait expires, and the tracker
//! that gives exactly one container identifier authority at a time.
//!
//! An identifier is meaningful only between its open and its close: it
//! is never reused across transitions, and an action targeting it must
//! be issued before a newer open supersedes it.

use vstd::prelude::*;

use crate::orchestrator::FlowError;
use crate::slots::ItemSlot;

verus! {

/// A snapshot of an open container: its identifier and its slot view.
pub struct ContainerHandle {
    /// The volatile numeric identifier of this open.
    pub id: i32,
    /// The slots of the view at the time of the open.
    pub slots: Vec<ItemSlot>,
}

/// Classifies the outcome of a bounded wait for a window open: the
/// handle when one opened, else the recoverable timeout.
pub fn open_result(opened: Option<ContainerHandle>) -> (r: Result<ContainerHandle, FlowError>)
    ensures
        match r {
            Ok(handle) => opened is Some && handle == opened.unwrap(),
            Err(e) => opened is None && e == FlowError::Timeout,
        },
{
    match opened {
        Some(handle) => Ok(handle),
        None => Err(FlowError::Timeout),
    }
}

/// Which container identifier currently has authority.
///
/// Each handle is exclusively owned by the flow step that opened it
/// until it is released or superseded; no two steps hold overlapping
/// authority over the same identifier.
pub struct SessionTracker {
    /// The identifier with authority, when a container is open.
    pub current: Option<i32>,
}

impl SessionTracker {
    /// A tracker with no open container.
    pub fn new() -> (r: SessionTracker)
        ensures
            r.current is None,
    {
        SessionTracker { current: None }
    }

    /// Notes a window open: the new identifier takes authority and any
    /// earlier one is superseded.
    pub fn note_open(&mut self, id: i32)
        ensures
            final(self).current == Some(id),
    {
        self.current = Some(id);
    }

    /// Notes the window closing: no identifier has authority.
    pub fn note_close(&mut self)
        ensures
            final(self).current is None,
    {
        self.current = None;
    }

    /// Decides whether an action may still target `id`: only while it
    /// is the identifier with authority.
    pub fn is_current(&self, id: i32) -> (b: bool)
        ensures
            b == (self.current == Some(id)),
    {
        match self.current {
            Some(current_id) => current_id == id,
            None => false,
        }
    }
}

/// Once a newer open supersedes an identifier, no action may target it
/// again: authority over distinct identifiers never overlaps.
pub proof fn lemma_superseded_id_loses_authority(tracker: SessionTracker, old_id: i32, new_id: i32)
    requires
        old_id != new_id,
        tracker.current == Some(new_id),
    ensures
        tracker.current != Some(old_id),
{
}

} // verus!
