//! At-most-once-per-episode alert latch.

use vstd::prelude::*;

use crate::threshold::ThresholdTracker;

verus! {

/// The alert latch the control loop consults each tick.
///
/// Two states: idle (`notified == false`) and alerted.  The latch fires an
/// alert when it is idle and a crossing is in progress, and it goes back
/// to idle only when the tracker reports back-to-normal, clearing the
/// tracker's sticky flag in the same step; while it stays alerted no
/// second alert fires, however often the crossing flag flaps.
pub struct NotificationGate {
    /// Whether an alert went out for the crossing episode in progress.
    pub notified: bool,
}

impl NotificationGate {
    /// What one tick does to the latch, given the two tracker flags; the
    /// second component says whether an alert fires on this tick.
    pub open spec fn spec_gate_step(self, changed: bool, back_to_normal: bool) -> (
        NotificationGate,
        bool,
    ) {
        if self.notified && back_to_normal {
            (NotificationGate { notified: false }, false)
        } else if !self.notified && !back_to_normal && changed {
            (NotificationGate { notified: true }, true)
        } else {
            (self, false)
        }
    }

    /// The tracker after the same tick: its sticky flag is cleared
    /// exactly when the latch goes back to idle.
    pub open spec fn spec_tracker_after(self, t: ThresholdTracker) -> ThresholdTracker {
        if self.notified && t.back_to_normal {
            ThresholdTracker { back_to_normal: false, ..t }
        } else {
            t
        }
    }

    /// The latch and the number of alerts fired after a whole sequence of
    /// ticks, each given as the pair `(changed, back_to_normal)` the latch
    /// observed.
    pub open spec fn spec_gate_run(self, flags: Seq<(bool, bool)>) -> (NotificationGate, nat)
        decreases flags.len(),
    {
        if flags.len() == 0 {
            (self, 0)
        } else {
            let stepped = self.spec_gate_step(flags[0].0, flags[0].1);
            let rest = stepped.0.spec_gate_run(flags.drop_first());
            (rest.0, rest.1 + if stepped.1 { 1nat } else { 0nat })
        }
    }

    /// A fresh, idle gate.
    pub fn new() -> (g: NotificationGate)
        ensures
            !g.notified,
    {
        NotificationGate { notified: false }
    }

    /// One tick of the alert policy.  Returns true exactly when the
    /// caller must dispatch an alert now; the latch then holds.  When
    /// the latch is alerted and the tracker reports back-to-normal, both
    /// the latch and the tracker's sticky flag are cleared together, so
    /// the system can neither double-fire nor wedge.
    pub fn step(&mut self, tracker: &mut ThresholdTracker) -> (alert: bool)
        ensures
            (*final(self), alert) == old(self).spec_gate_step(
                old(tracker).changed,
                old(tracker).back_to_normal,
            ),
            *final(tracker) == old(self).spec_tracker_after(*old(tracker)),
            alert ==> !old(self).notified && final(self).notified,
            final(tracker).inv() == old(tracker).inv(),
    {
        if self.notified && tracker.back_to_normal {
            self.notified = false;
            tracker.reset_temperature_back_to_normal();
            false
        } else if !self.notified && !tracker.back_to_normal && tracker.changed {
            self.notified = true;
            true
        } else {
            false
        }
    }
}

/// While the latch is alerted, no tick fires another alert until
/// back-to-normal is observed: over any run whose ticks all report
/// `back_to_normal == false`, an alerted gate stays alerted and fires
/// nothing, however the `changed` flag flaps.
pub proof fn lemma_no_realert_before_normal(g: NotificationGate, flags: Seq<(bool, bool)>)
    requires
        g.notified,
        forall|i: int| 0 <= i < flags.len() ==> !(#[trigger] flags[i]).1,
    ensures
        g.spec_gate_run(flags).0.notified,
        g.spec_gate_run(flags).1 == 0,
    decreases flags.len(),
{
    if flags.len() > 0 {
        let stepped = g.spec_gate_step(flags[0].0, flags[0].1);
        assert(flags.drop_first() =~= flags.subrange(1, flags.len() as int));
        lemma_no_realert_before_normal(stepped.0, flags.drop_first());
    }
}

} // verus!
