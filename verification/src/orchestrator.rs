//! The cycle orchestrator: the repeating scan, buy, list, cooldown state
//! machine, the newly-acquired delta between inventory snapshots, and
//! the backoff floor after a failure.
//!
//! The long-lived loop never terminates on an error: every failure path
//! leads back to the cooldown or backoff state and from there to idle.

use vstd::prelude::*;

verus! {

/// The minimum wait, in milliseconds, the backoff state enforces before
/// the machine returns to idle.
pub const ERROR_BACKOFF_FLOOR_MS: u64 = 3000;

/// The orchestrator's states.
#[derive(Clone, Copy, Debug, PartialEq, Eq)]
pub enum CycleState {
    /// Waiting for the next cycle tick.
    Idle,
    /// Scanning the market container for a qualifying listing.
    Scanning,
    /// Driving the click-and-confirm purchase flow.
    Purchasing,
    /// Re-listing the newly acquired stacks.
    Listing,
    /// Waiting out the inter-cycle delay.
    Cooldown,
    /// Waiting out the backoff floor after an unexpected failure.
    ErrorBackoff,
}

/// The errors a cycle step can raise.
#[derive(Clone, Copy, Debug, PartialEq, Eq)]
pub enum FlowError {
    /// A bounded wait expired; recoverable, aborts the cycle.
    Timeout,
    /// A container identifier failed to change when a transition was
    /// expected; logged, processing continues optimistically.
    ProtocolMismatch,
    /// No free slot during a stack relocation; fatal to the current
    /// cycle only.
    ResourceExhausted,
    /// A slot's content did not change as expected after an action;
    /// the slot is skipped until the next cycle.
    VerificationFailure,
    /// Lore or price text was unparsable; the slot is skipped and the
    /// scan continues.
    ParseFailure,
}

/// The events the orchestrator reacts to.
#[derive(Clone, Copy, Debug, PartialEq, Eq)]
pub enum CycleEvent {
    /// The cycle tick fired.
    Tick,
    /// The scan found a qualifying listing.
    ScanFound,
    /// The scan found nothing under the ceiling.
    ScanEmpty,
    /// The purchase flow reported success.
    PurchaseSucceeded,
    /// The purchase flow reported failure.
    PurchaseFailed,
    /// The listing flow finished its plan.
    ListingDone,
    /// The inter-cycle delay elapsed.
    CooldownOver,
    /// The backoff floor elapsed.
    BackoffOver,
    /// A step raised one of the taxonomy's errors.
    Failed(FlowError),
    /// A failure outside the taxonomy.
    UnexpectedFailure,
}

/// An error on which processing continues in place, merely logged.
pub open spec fn error_continues(e: FlowError) -> bool {
    match e {
        FlowError::ProtocolMismatch => true,
        FlowError::VerificationFailure => true,
        FlowError::ParseFailure => true,
        FlowError::Timeout => false,
        FlowError::ResourceExhausted => false,
    }
}

/// The transition relation of the cycle state machine.
pub open spec fn transition(s: CycleState, e: CycleEvent) -> CycleState {
    match e {
        CycleEvent::Tick => if s is Idle {
            CycleState::Scanning
        } else {
            s
        },
        CycleEvent::ScanFound => if s is Scanning {
            CycleState::Purchasing
        } else {
            s
        },
        CycleEvent::ScanEmpty => if s is Scanning {
            CycleState::Cooldown
        } else {
            s
        },
        CycleEvent::PurchaseSucceeded => if s is Purchasing {
            CycleState::Listing
        } else {
            s
        },
        CycleEvent::PurchaseFailed => if s is Purchasing {
            CycleState::Cooldown
        } else {
            s
        },
        CycleEvent::ListingDone => if s is Listing {
            CycleState::Cooldown
        } else {
            s
        },
        CycleEvent::CooldownOver => if s is Cooldown {
            CycleState::Idle
        } else {
            s
        },
        CycleEvent::BackoffOver => if s is ErrorBackoff {
            CycleState::Idle
        } else {
            s
        },
        CycleEvent::Failed(err) => if error_continues(err) {
            s
        } else {
            CycleState::Cooldown
        },
        CycleEvent::UnexpectedFailure => CycleState::ErrorBackoff,
    }
}

/// Advances the cycle state machine by one event.
pub fn next_state(s: &CycleState, e: &CycleEvent) -> (r: CycleState)
    ensures
        r == transition(*s, *e),
{
    match e {
        CycleEvent::Tick => if matches!(s, CycleState::Idle) {
            CycleState::Scanning
        } else {
            copy_state(s)
        },
        CycleEvent::ScanFound => if matches!(s, CycleState::Scanning) {
            CycleState::Purchasing
        } else {
            copy_state(s)
        },
        CycleEvent::ScanEmpty => if matches!(s, CycleState::Scanning) {
            CycleState::Cooldown
        } else {
            copy_state(s)
        },
        CycleEvent::PurchaseSucceeded => if matches!(s, CycleState::Purchasing) {
            CycleState::Listing
        } else {
            copy_state(s)
        },
        CycleEvent::PurchaseFailed => if matches!(s, CycleState::Purchasing) {
            CycleState::Cooldown
        } else {
            copy_state(s)
        },
        CycleEvent::ListingDone => if matches!(s, CycleState::Listing) {
            CycleState::Cooldown
        } else {
            copy_state(s)
        },
        CycleEvent::CooldownOver => if matches!(s, CycleState::Cooldown) {
            CycleState::Idle
        } else {
            copy_state(s)
        },
        CycleEvent::BackoffOver => if matches!(s, CycleState::ErrorBackoff) {
            CycleState::Idle
        } else {
            copy_state(s)
        },
        CycleEvent::Failed(err) => match err {
            FlowError::ProtocolMismatch => copy_state(s),
            FlowError::VerificationFailure => copy_state(s),
            FlowError::ParseFailure => copy_state(s),
            FlowError::Timeout => CycleState::Cooldown,
            FlowError::ResourceExhausted => CycleState::Cooldown,
        },
        CycleEvent::UnexpectedFailure => CycleState::ErrorBackoff,
    }
}

/// Copies a state value.
fn copy_state(s: &CycleState) -> (r: CycleState)
    ensures
        r == *s,
{
    match s {
        CycleState::Idle => CycleState::Idle,
        CycleState::Scanning => CycleState::Scanning,
        CycleState::Purchasing => CycleState::Purchasing,
        CycleState::Listing => CycleState::Listing,
        CycleState::Cooldown => CycleState::Cooldown,
        CycleState::ErrorBackoff => CycleState::ErrorBackoff,
    }
}

/// A container-open timeout is recoverable: from any state it leads to
/// the cooldown state, from which the machine returns to idle and on to
/// the next cycle's scan, never halting.
pub proof fn lemma_timeout_recovers(s: CycleState)
    ensures
        transition(s, CycleEvent::Failed(FlowError::Timeout)) == CycleState::Cooldown,
        transition(CycleState::Cooldown, CycleEvent::CooldownOver) == CycleState::Idle,
        transition(CycleState::Idle, CycleEvent::Tick) == CycleState::Scanning,
{
}

/// Every unexpected failure leads to the backoff state, and the machine
/// leaves backoff only for idle: the loop never terminates on an error.
pub proof fn lemma_backoff_returns_to_idle(s: CycleState)
    ensures
        transition(s, CycleEvent::UnexpectedFailure) == CycleState::ErrorBackoff,
        transition(CycleState::ErrorBackoff, CycleEvent::BackoffOver) == CycleState::Idle,
{
}

/// The wait after a failed cycle: the configured inter-cycle delay, but
/// never below the backoff floor.
pub fn backoff_delay_ms(configured_delay: u64) -> (r: u64)
    ensures
        r == (if configured_delay > ERROR_BACKOFF_FLOOR_MS {
            configured_delay as int
        } else {
            ERROR_BACKOFF_FLOOR_MS as int
        }),
        r >= ERROR_BACKOFF_FLOOR_MS,
{
    if configured_delay > ERROR_BACKOFF_FLOOR_MS {
        configured_delay
    } else {
        ERROR_BACKOFF_FLOOR_MS
    }
}

/// What one cycle reported.
pub struct CycleResult {
    /// Whether a purchase was made this cycle.
    pub purchased: bool,
    /// How many listings were made this cycle.
    pub listed_count: u32,
}

/// Decides whether a snapshot of slot indices holds `x`.
fn indices_contain(v: &Vec<usize>, x: usize) -> (b: bool)
    ensures
        b == v@.contains(x),
{
    let n = v.len();
    let mut i: usize = 0;
    while i < n
        invariant
            n == v@.len(),
            0 <= i <= n,
            forall|k: int| 0 <= k < i ==> v@[k] != x,
        decreases n - i,
    {
        if v[i] == x {
            return true;
        }
        i += 1;
    }
    proof {
        assert(!v@.contains(x));
    }
    false
}

/// The slots newly holding the traded item: those in the snapshot taken
/// after the purchase that were not in the one taken before, in order.
///
/// Only this delta is handed to the listing flow, so pre-existing stock
/// is never re-listed.
pub fn newly_acquired(before: &Vec<usize>, after: &Vec<usize>) -> (r: Vec<usize>)
    ensures
        r@ == after@.filter(|x: usize| !before@.contains(x)),
{
    let n = after.len();
    let mut out: Vec<usize> = Vec::new();
    let mut i: usize = 0;
    proof {
        reveal(Seq::filter);
        assert(after@.take(0) =~= Seq::<usize>::empty());
    }
    while i < n
        invariant
            n == after@.len(),
            0 <= i <= n,
            out@ == after@.take(i as int).filter(|x: usize| !before@.contains(x)),
        decreases n - i,
    {
        proof {
            reveal(Seq::filter);
            let p = after@.take(i as int);
            let q = after@.take(i + 1);
            assert(q =~= p.push(after@[i as int]));
            assert(q.drop_last() =~= p);
            assert(q.last() == after@[i as int]);
        }
        let x = after[i];
        if !indices_contain(before, x) {
            out.push(x);
        }
        i += 1;
    }
    proof {
        assert(after@.take(n as int) =~= after@);
    }
    out
}

} // verus!
