//! The purchase flow's decisions: after the click on a listing, the
//! remote system is expected to close the container and open a new one
//! with a different identifier as the confirmation screen; the decision
//! read off the awaited open is made here.
//!
//! Reported success means the confirm click was issued against a
//! genuinely new container; it does not confirm the server debited the
//! item rather than losing a race with another buyer. True confirmation
//! would need a follow-up textual acknowledgment, which this flow does
//! not implement.

use vstd::prelude::*;

verus! {

/// The fixed slot of the confirm button in a confirmation container.
pub const CONFIRM_SLOT: usize = 15;

/// What to do once the awaited confirmation container resolves.
#[derive(Clone, Copy, Debug, PartialEq, Eq)]
pub enum PurchaseStep {
    /// The bounded wait expired: a recoverable timeout aborting the
    /// cycle.
    TimedOut,
    /// A container opened: click the confirm slot in it.
    Confirm {
        /// The identifier of the newly opened container.
        container_id: i32,
        /// Whether the identifier actually changed. When it did not,
        /// the anomaly is logged and the flow proceeds anyway.
        id_changed: bool,
    },
}

/// Decides the next purchase step from the awaited container open.
///
/// Container identifiers are single use: the flow never reuses the
/// handle it clicked, only the freshly opened one.
pub fn purchase_decision(initial_id: i32, opened: Option<i32>) -> (r: PurchaseStep)
    ensures
        match r {
            PurchaseStep::TimedOut => opened is None,
            PurchaseStep::Confirm { container_id, id_changed } => {
                &&& opened == Some(container_id)
                &&& id_changed == (container_id != initial_id)
            },
        },
{
    match opened {
        None => PurchaseStep::TimedOut,
        Some(id) => PurchaseStep::Confirm { container_id: id, id_changed: id != initial_id },
    }
}

} // verus!
