use std::sync::atomic::AtomicBool;
use std::sync::atomic::Ordering;
use std::sync::Arc;
use vstd::prelude::*;
use vstd::slice::slice_to_vec;

verus! {

/// The pause switch, in the hands of the worker thread.
///
/// The switch is the one piece of state that the worker and the stream's
/// callback share. The callback runs on a real-time thread of the backend
/// and must never wait, so the switch is a lock-free atomic: setting and
/// reading it cannot block. Only this handle can set it, and there is one
/// such handle per switch; the callback gets a `PauseGate`, which can only
/// read.
pub struct PauseFlag {
    flag: Arc<AtomicBool>,
    paused: bool,
}

/// The pause switch, in the hands of the stream's callback: it can be read,
/// not set.
pub struct PauseGate {
    flag: Arc<AtomicBool>,
}

/// Whether a block that arrives while the switch reads `paused` goes on to
/// the sink.
pub open spec fn passes(paused: bool) -> bool {
    !paused
}

/// The fate of one sample block: copied and forwarded while the capture
/// runs, dropped for good while it is paused.
pub open spec fn forwarded<T>(paused: bool, block: Seq<T>) -> Option<Seq<T>> {
    if passes(paused) {
        Some(block)
    } else {
        None
    }
}

/// A decision on a block as contracts speak of it.
pub open spec fn block_view<T>(decision: Option<Vec<T>>) -> Option<Seq<T>> {
    match decision {
        Some(copy) => Some(copy@),
        None => None,
    }
}

/// Decides on one sample block, given what the pause switch read when the
/// block came in. A block that passes is copied into a vector of its own; a
/// block that does not is neither kept nor replayed later.
pub fn forward_block<T: Copy>(paused: bool, block: &[T]) -> (decision: Option<Vec<T>>)
    ensures
        block_view(decision) == forwarded(paused, block@),
{
    if paused {
        None
    } else {
        Some(slice_to_vec(block))
    }
}

impl PauseFlag {
    /// What the switch was last set to.
    pub closed spec fn paused(&self) -> bool {
        self.paused
    }

    /// The reading side of this switch.
    pub closed spec fn reader(&self) -> PauseGate {
        PauseGate { flag: self.flag }
    }

    /// A switch of its own, set to "running".
    pub fn new() -> (flag: PauseFlag)
        ensures
            !flag.paused(),
    {
        PauseFlag { flag: Arc::new(AtomicBool::new(false)), paused: false }
    }

    /// Sets the switch, without waiting. It stays the same switch: the gates
    /// handed out before go on reading it.
    pub fn set(&mut self, paused: bool)
        ensures
            final(self).paused() == paused,
            final(self).reader() == old(self).reader(),
    {
        self.flag.store(paused, Ordering::SeqCst);
        self.paused = paused;
    }

    /// What the switch was last set to.
    pub fn is_paused(&self) -> (paused: bool)
        ensures
            paused == self.paused(),
    {
        self.paused
    }

    /// A handle on the reading side of the switch, for the callback.
    pub fn gate(&self) -> (gate: PauseGate)
        ensures
            gate == self.reader(),
    {
        PauseGate { flag: self.flag.clone() }
    }
}

impl PauseGate {
    /// Reads the switch, without waiting.
    pub fn is_paused(&self) -> (paused: bool) {
        self.flag.load(Ordering::Relaxed)
    }

    /// Decides on one sample block by the switch as it stands. The switch is
    /// consulted a single time per block, so a block comes out whole or not
    /// at all, even if the worker sets the switch at that very moment.
    pub fn filter<T: Copy>(&self, block: &[T]) -> (decision: Option<Vec<T>>)
        ensures
            decision matches Some(copy) ==> copy@ == block@,
    {
        let paused = self.is_paused();
        forward_block(paused, block)
    }
}

} // verus!
