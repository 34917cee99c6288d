//! The decisions of the polling loop, as a state machine.
//!
//! The loop itself lives with the caller: it lists the devices, hands the
//! outcome to [`Controller::on_enumeration`], performs the returned [`Step`],
//! and reports the outcome of a layout switch to [`Controller::on_switch_result`].
use vstd::prelude::*;
use crate::device::{DeviceId, ListedDevice, target_present};
use crate::detector::{EnumerationError, Signal, edge_signal, handle_usb_switch_logic};

verus! {

/// The two keyboard layouts that are switched between.
#[derive(Clone, Copy, Debug, PartialEq, Eq, Structural)]
pub enum Layout {
    /// The layout used while the device is absent.
    LayoutA,
    /// The layout used while the device is present.
    LayoutB,
}

/// The layout that a signal asks for, if any.
pub open spec fn layout_of(s: Signal) -> Option<Layout> {
    match s {
        Signal::SwitchToLayoutA => Some(Layout::LayoutA),
        Signal::SwitchToLayoutB => Some(Layout::LayoutB),
        Signal::NoChange => None,
    }
}

/// The layout that a signal asks for; `NoChange` asks for none.
pub fn layout_for(s: Signal) -> (r: Option<Layout>)
    ensures
        r == layout_of(s),
{
    match s {
        Signal::SwitchToLayoutA => Some(Layout::LayoutA),
        Signal::SwitchToLayoutB => Some(Layout::LayoutB),
        Signal::NoChange => None,
    }
}

/// What the loop has to do next.
#[derive(Clone, Copy, Debug, PartialEq, Eq, Structural)]
pub enum Step {
    /// Wait for the polling interval, then list the devices again.
    Sleep,
    /// List the devices again at once.
    PollAgain,
    /// Apply the layout that the signal asks for, then report the outcome.
    Switch(Signal),
}

/// The state of the polling loop.
#[derive(Clone, Copy, Debug, PartialEq, Eq, Structural)]
pub struct Controller {
    /// The device whose presence is followed.
    pub target: DeviceId,
    /// Whether the device was present at the last successful listing.
    pub connected: bool,
    /// The last signal that was acted upon.
    pub last_applied: Signal,
}

/// The step taken on an observed signal, and the last applied signal after it.
/// A signal equal to the last applied one is ignored; `NoChange` is applied at
/// once, as it needs no switch; an edge asks for a switch and is recorded only
/// once the switch has succeeded.
pub open spec fn reaction(last: Signal, sig: Signal) -> (Step, Signal) {
    if sig == last {
        (Step::Sleep, last)
    } else if sig == Signal::NoChange {
        (Step::Sleep, Signal::NoChange)
    } else {
        (Step::Switch(sig), last)
    }
}

/// The last applied signal once a switch for `sig` has ended.
pub open spec fn after_switch(last: Signal, sig: Signal, succeeded: bool) -> Signal {
    if succeeded {
        sig
    } else {
        last
    }
}

/// The step taken once a switch has ended: a failed switch polls again at once.
pub open spec fn step_after_switch(succeeded: bool) -> Step {
    if succeeded {
        Step::Sleep
    } else {
        Step::PollAgain
    }
}

impl Controller {
    /// A controller that has seen nothing yet: not connected, nothing applied.
    pub fn new(target: DeviceId) -> (c: Controller)
        ensures
            c.target == target,
            !c.connected,
            c.last_applied == Signal::NoChange,
    {
        Controller { target, connected: false, last_applied: Signal::NoChange }
    }

    /// Decides what to do with an observed signal.
    pub fn react(&mut self, sig: Signal) -> (r: Step)
        ensures
            r == reaction(old(self).last_applied, sig).0,
            final(self).last_applied == reaction(old(self).last_applied, sig).1,
            final(self).connected == old(self).connected,
            final(self).target == old(self).target,
    {
        if sig == self.last_applied {
            Step::Sleep
        } else {
            match sig {
                Signal::NoChange => {
                    self.last_applied = Signal::NoChange;
                    Step::Sleep
                },
                _ => Step::Switch(sig),
            }
        }
    }

    /// Takes the outcome of one device enumeration. A failed enumeration
    /// changes nothing and asks for an immediate new listing; a listing runs
    /// the detector and then [`Controller::react`] on its signal.
    pub fn on_enumeration(&mut self, listing: Result<Vec<ListedDevice>, EnumerationError>) -> (r: Step)
        ensures
            final(self).target == old(self).target,
            match listing {
                Err(_) => r == Step::PollAgain && *final(self) == *old(self),
                Ok(devices) => {
                    let sig = edge_signal(target_present(devices@, old(self).target), old(self).connected);
                    &&& final(self).connected == target_present(devices@, old(self).target)
                    &&& r == reaction(old(self).last_applied, sig).0
                    &&& final(self).last_applied == reaction(old(self).last_applied, sig).1
                },
            },
    {
        let mut connected = self.connected;
        match handle_usb_switch_logic(listing, self.target, &mut connected) {
            Err(_) => Step::PollAgain,
            Ok(sig) => {
                self.connected = connected;
                self.react(sig)
            },
        }
    }

    /// Records the outcome of the switch asked for by `Step::Switch(sig)`: on
    /// success `sig` becomes the last applied signal; on failure nothing
    /// changes, so the next observation of `sig` asks for the switch again.
    pub fn on_switch_result(&mut self, sig: Signal, succeeded: bool) -> (r: Step)
        ensures
            r == step_after_switch(succeeded),
            final(self).last_applied == after_switch(old(self).last_applied, sig, succeeded),
            final(self).connected == old(self).connected,
            final(self).target == old(self).target,
    {
        if succeeded {
            self.last_applied = sig;
            Step::Sleep
        } else {
            Step::PollAgain
        }
    }
}

/// The number of switches asked for while the signals `sigs` are observed in
/// turn, starting from the last applied signal `last`, with every switch
/// succeeding; and the last applied signal at the end.
pub open spec fn switches_with_success(last: Signal, sigs: Seq<Signal>) -> (nat, Signal)
    decreases sigs.len(),
{
    if sigs.len() == 0 {
        (0, last)
    } else {
        let prev = switches_with_success(last, sigs.drop_last());
        let (step, next) = reaction(prev.1, sigs.last());
        match step {
            Step::Switch(s) => (prev.0 + 1, after_switch(next, s, true)),
            _ => (prev.0, next),
        }
    }
}

/// A switch is only ever asked for the observed signal, only for an edge, and
/// only when that signal differs from the last applied one.
pub proof fn lemma_switch_only_on_new_edge(last: Signal, sig: Signal)
    ensures
        reaction(last, sig).0 is Switch ==> {
            &&& reaction(last, sig).0 == Step::Switch(sig)
            &&& sig != last
            &&& sig != Signal::NoChange
        },
{
}

/// Debounce: once a switch for an edge has succeeded, observing the same edge
/// again asks for no switch and changes nothing; and however often one signal
/// is observed in a row, with every switch succeeding, at most one switch is
/// asked for (none if it was already the last applied signal).
pub proof fn lemma_debounce(last: Signal, sig: Signal, sigs: Seq<Signal>)
    requires
        forall|i: int| 0 <= i < sigs.len() ==> #[trigger] sigs[i] == sig,
    ensures
        reaction(after_switch(last, sig, true), sig) == (Step::Sleep, sig),
        switches_with_success(last, sigs).0 <= 1,
        last == sig ==> switches_with_success(last, sigs).0 == 0,
        sigs.len() > 0 ==> switches_with_success(last, sigs).1 == sig,
    decreases sigs.len(),
{
    if sigs.len() > 0 {
        let front = sigs.drop_last();
        assert forall|i: int| 0 <= i < front.len() implies #[trigger] front[i] == sig by {
            assert(front[i] == sigs[i]);
        }
        lemma_debounce(last, sig, front);
        assert(sigs.last() == sigs[sigs.len() - 1]);
    }
}

/// Retry: a failed switch for an edge leaves the last applied signal as it was,
/// and the next observation of the same edge asks for the switch again.
pub proof fn lemma_retry_after_failure(last: Signal, sig: Signal)
    requires
        reaction(last, sig).0 == Step::Switch(sig),
    ensures
        after_switch(reaction(last, sig).1, sig, false) == last,
        step_after_switch(false) == Step::PollAgain,
        reaction(after_switch(reaction(last, sig).1, sig, false), sig).0 == Step::Switch(sig),
{
}

} // verus!
