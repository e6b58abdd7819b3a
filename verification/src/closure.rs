//! Closure watcher: the first reaction on the welcome message closes the
//! channel.
//!
//! The watcher waits — without timeout or identity filter — for a single
//! reaction-added event on the welcome message. That first event, and only
//! that one, triggers exactly one delete call against the transport; every
//! later event is ignored. A failed deletion is terminal for the watcher and
//! leaves the channel in its closing state, to be surfaced rather than
//! retried.

use vstd::prelude::*;

verus! {

/// Where the closure watcher stands.
#[derive(Clone, Copy, PartialEq, Eq, Structural, Debug)]
pub enum WatcherState {
    /// Waiting for the first reaction on the welcome message.
    Waiting,
    /// The delete call has been issued; its outcome is pending or has failed.
    Closing,
    /// The channel was deleted.
    Closed,
    /// The delete call failed; terminal, the failure is surfaced.
    Failed,
}

/// A reaction event in this state triggers the delete call.
pub open spec fn watcher_fires(s: WatcherState) -> bool {
    s is Waiting
}

/// The state after one reaction event on the welcome message.
pub open spec fn watcher_on_reaction(s: WatcherState) -> WatcherState {
    if s is Waiting {
        WatcherState::Closing
    } else {
        s
    }
}

/// The watcher has terminated, successfully or not.
pub open spec fn watcher_done(s: WatcherState) -> bool {
    s is Closed || s is Failed
}

/// How many delete calls a run of `n` reaction events triggers from state
/// `s`.
pub open spec fn watcher_fire_count(s: WatcherState, n: nat) -> nat
    decreases n,
{
    if n == 0 {
        0
    } else {
        (if watcher_fires(s) {
            1nat
        } else {
            0nat
        }) + watcher_fire_count(watcher_on_reaction(s), (n - 1) as nat)
    }
}

/// Executable closure watcher.
pub struct ClosureWatcher {
    pub state: WatcherState,
}

impl View for ClosureWatcher {
    type V = WatcherState;

    open spec fn view(&self) -> WatcherState {
        self.state
    }
}

impl ClosureWatcher {
    /// A fresh watcher, waiting for the first reaction.
    pub fn new() -> (w: ClosureWatcher)
        ensures
            w@ is Waiting,
    {
        ClosureWatcher { state: WatcherState::Waiting }
    }

    /// The watcher's current state.
    pub fn state(&self) -> (s: WatcherState)
        ensures
            s == self@,
    {
        self.state
    }

    /// Consume one reaction event on the welcome message. Returns whether
    /// the delete call must be issued now — true exactly on the first event.
    pub fn on_reaction(&mut self) -> (fire: bool)
        ensures
            final(self)@ == watcher_on_reaction(old(self)@),
            fire == watcher_fires(old(self)@),
    {
        match self.state {
            WatcherState::Waiting => {
                self.state = WatcherState::Closing;
                true
            },
            _ => false,
        }
    }

    /// Record that the delete call succeeded: the channel is gone.
    pub fn on_delete_succeeded(&mut self)
        ensures
            final(self)@ == (if old(self)@ is Closing {
                WatcherState::Closed
            } else {
                old(self)@
            }),
    {
        if let WatcherState::Closing = self.state {
            self.state = WatcherState::Closed;
        }
    }

    /// Record that the delete call failed: terminal for the watcher, the
    /// channel stays in its closing state and the error is surfaced.
    pub fn on_delete_failed(&mut self)
        ensures
            final(self)@ == (if old(self)@ is Closing {
                WatcherState::Failed
            } else {
                old(self)@
            }),
    {
        if let WatcherState::Closing = self.state {
            self.state = WatcherState::Failed;
        }
    }

    /// The watcher has terminated.
    pub fn is_done(&self) -> (r: bool)
        ensures
            r == watcher_done(self@),
    {
        match self.state {
            WatcherState::Closed => true,
            WatcherState::Failed => true,
            _ => false,
        }
    }
}

/// A watcher that is no longer waiting never fires again, however many
/// further reaction events arrive.
pub proof fn lemma_watcher_quiescent(s: WatcherState, n: nat)
    requires
        !watcher_fires(s),
    ensures
        watcher_fire_count(s, n) == 0,
    decreases n,
{
    if n > 0 {
        lemma_watcher_quiescent(watcher_on_reaction(s), (n - 1) as nat);
    }
}

/// The first reaction event on the welcome message, and only the first,
/// triggers the delete call: over any run of `n` reaction events from the
/// waiting state, exactly one delete is issued when `n > 0` — by the first
/// event — and none when `n == 0`.
pub proof fn lemma_watcher_single_delete(n: nat)
    ensures
        watcher_fire_count(WatcherState::Waiting, n) == (if n == 0 {
            0nat
        } else {
            1nat
        }),
        n > 0 ==> watcher_fires(WatcherState::Waiting),
{
    if n > 0 {
        lemma_watcher_quiescent(WatcherState::Closing, (n - 1) as nat);
    }
}

} // verus!
