//! The edge-triggered presence detector.
use vstd::prelude::*;
use crate::device::{DeviceId, ListedDevice, contains_target, target_present};

verus! {

/// What one observation of the device listing asks for.
#[derive(Clone, Copy, Debug, PartialEq, Eq, Structural)]
pub enum Signal {
    /// The device was detached since the last observation.
    SwitchToLayoutA,
    /// The device was attached since the last observation.
    SwitchToLayoutB,
    /// Nothing to do: the device is still present, or still absent.
    NoChange,
}

/// The signal that an observation with presence `found` yields when the device
/// was last recorded as `connected`.
pub open spec fn edge_signal(found: bool, connected: bool) -> Signal {
    if found && !connected {
        Signal::SwitchToLayoutB
    } else if !found && connected {
        Signal::SwitchToLayoutA
    } else {
        Signal::NoChange
    }
}

/// Compares one device listing with the recorded connection state, records the
/// new state and returns the edge that was crossed, if any.
pub fn detect(devices: &Vec<ListedDevice>, target: DeviceId, connected: &mut bool) -> (s: Signal)
    ensures
        s == edge_signal(target_present(devices@, target), *old(connected)),
        *final(connected) == target_present(devices@, target),
        s == Signal::SwitchToLayoutB <==> (target_present(devices@, target) && !*old(connected)),
        s == Signal::SwitchToLayoutA <==> (!target_present(devices@, target) && *old(connected)),
        s == Signal::NoChange ==> *final(connected) == *old(connected),
{
    let found = contains_target(devices, target);
    if found && !*connected {
        *connected = true;
        return Signal::SwitchToLayoutB;
    }
    if !found && *connected {
        *connected = false;
        return Signal::SwitchToLayoutA;
    }
    Signal::NoChange
}

/// Why the device listing could not be obtained at all.
#[derive(Clone, Copy, Debug, PartialEq, Eq, Structural)]
pub enum EnumerationError {
    /// The USB backend could not be opened.
    ContextUnavailable,
    /// The backend was opened but refused to list the devices.
    ListingFailed,
}

/// One detection step on the outcome of a device enumeration: a failed
/// enumeration is handed back unchanged and leaves the connection state alone;
/// a listing is passed to [`detect`].
pub fn handle_usb_switch_logic(
    listing: Result<Vec<ListedDevice>, EnumerationError>,
    target: DeviceId,
    connected: &mut bool,
) -> (r: Result<Signal, EnumerationError>)
    ensures
        match listing {
            Err(e) => r == Err::<Signal, EnumerationError>(e) && *final(connected) == *old(connected),
            Ok(devices) => r == Ok::<Signal, EnumerationError>(
                edge_signal(target_present(devices@, target), *old(connected)),
            ) && *final(connected) == target_present(devices@, target),
        },
{
    match listing {
        Err(e) => Err(e),
        Ok(devices) => Ok(detect(&devices, target, connected)),
    }
}

/// The signals and the final connection state produced by feeding the
/// snapshots `snaps`, in order, to the detector, starting from the state `init`.
pub open spec fn observe(snaps: Seq<Seq<ListedDevice>>, target: DeviceId, init: bool) -> (Seq<Signal>, bool)
    decreases snaps.len(),
{
    if snaps.len() == 0 {
        (Seq::empty(), init)
    } else {
        let prev = observe(snaps.drop_last(), target, init);
        let found = target_present(snaps.last(), target);
        (prev.0.push(edge_signal(found, prev.1)), found)
    }
}

/// Whether the device was present in the snapshot before the one at index `i`
/// (for the first snapshot: the initial state).
pub open spec fn present_before(snaps: Seq<Seq<ListedDevice>>, i: int, target: DeviceId, init: bool) -> bool {
    if i == 0 {
        init
    } else {
        target_present(snaps[i - 1], target)
    }
}

/// The state that the most recent edge in `sigs` leaves behind: `true` after
/// `SwitchToLayoutB`, `false` after `SwitchToLayoutA`, `init` when there is none.
pub open spec fn last_edge_state(sigs: Seq<Signal>, init: bool) -> bool
    decreases sigs.len(),
{
    if sigs.len() == 0 {
        init
    } else if sigs.last() == Signal::SwitchToLayoutB {
        true
    } else if sigs.last() == Signal::SwitchToLayoutA {
        false
    } else {
        last_edge_state(sigs.drop_last(), init)
    }
}

/// Each snapshot yields exactly one signal, each signal depends only on the
/// presence in its own snapshot and in the one before, and the final state is
/// the presence in the last snapshot.
pub proof fn lemma_observe(snaps: Seq<Seq<ListedDevice>>, target: DeviceId, init: bool)
    ensures
        observe(snaps, target, init).0.len() == snaps.len(),
        observe(snaps, target, init).1 == (if snaps.len() == 0 {
            init
        } else {
            target_present(snaps.last(), target)
        }),
        forall|i: int|
            0 <= i < snaps.len() ==> #[trigger] observe(snaps, target, init).0[i] == edge_signal(
                target_present(snaps[i], target),
                present_before(snaps, i, target, init),
            ),
    decreases snaps.len(),
{
    if snaps.len() > 0 {
        let front = snaps.drop_last();
        lemma_observe(front, target, init);
        assert forall|i: int| 0 <= i < snaps.len() implies #[trigger] observe(snaps, target, init).0[i]
            == edge_signal(target_present(snaps[i], target), present_before(snaps, i, target, init)) by {
            if i < front.len() {
                assert(front[i] == snaps[i]);
                assert(observe(front, target, init).0[i] == observe(snaps, target, init).0[i]);
                if i > 0 {
                    assert(front[i - 1] == snaps[i - 1]);
                }
            } else if i > 0 {
                assert(front.last() == snaps[i - 1]);
            }
        }
    }
}

/// Edge triggering: over any sequence of snapshots, starting from "absent",
/// `SwitchToLayoutB` comes exactly where the device goes from absent to present,
/// `SwitchToLayoutA` exactly where it goes from present to absent, and every
/// other snapshot yields `NoChange`.
pub proof fn lemma_edge_triggered(snaps: Seq<Seq<ListedDevice>>, target: DeviceId)
    ensures
        observe(snaps, target, false).0.len() == snaps.len(),
        forall|i: int| 0 <= i < snaps.len() ==> {
            let now = target_present(snaps[i], target);
            let before = i > 0 && target_present(snaps[i - 1], target);
            &&& (#[trigger] observe(snaps, target, false).0[i] == Signal::SwitchToLayoutB <==> now && !before)
            &&& (observe(snaps, target, false).0[i] == Signal::SwitchToLayoutA <==> !now && before)
            &&& (observe(snaps, target, false).0[i] == Signal::NoChange <==> now == before)
        },
{
    lemma_observe(snaps, target, false);
}

/// State consistency: after any sequence of detections, the connection state is
/// `true` exactly when the most recent edge signal was `SwitchToLayoutB`, and is
/// the initial state when no edge was signalled.
pub proof fn lemma_state_follows_last_edge(snaps: Seq<Seq<ListedDevice>>, target: DeviceId, init: bool)
    ensures
        observe(snaps, target, init).1 == last_edge_state(observe(snaps, target, init).0, init),
    decreases snaps.len(),
{
    if snaps.len() > 0 {
        let front = snaps.drop_last();
        lemma_state_follows_last_edge(front, target, init);
        let sigs = observe(snaps, target, init).0;
        assert(sigs.drop_last() == observe(front, target, init).0);
    }
}

/// Steady state: while every snapshot holds the device and the state already
/// records it as connected, every detection yields `NoChange` and the state
/// stays `true`.
pub proof fn lemma_steady_present(snaps: Seq<Seq<ListedDevice>>, target: DeviceId)
    requires
        forall|i: int| 0 <= i < snaps.len() ==> target_present(#[trigger] snaps[i], target),
    ensures
        observe(snaps, target, true).1,
        forall|i: int| 0 <= i < snaps.len() ==> #[trigger] observe(snaps, target, true).0[i] == Signal::NoChange,
{
    lemma_observe(snaps, target, true);
    assert forall|i: int| 0 <= i < snaps.len() implies #[trigger] observe(snaps, target, true).0[i] == Signal::NoChange by {
        assert(target_present(snaps[i], target));
        if i > 0 {
            assert(target_present(snaps[i - 1], target));
        }
    }
    if snaps.len() > 0 {
        assert(target_present(snaps[snaps.len() - 1], target));
    }
}

} // verus!
