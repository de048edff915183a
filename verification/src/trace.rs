//! What holds of a control over a whole sequence of events.

use vstd::prelude::*;
use crate::gesture::{react, DragSettings, GestureModel};
use crate::input::{Bounds, Event, ModifierSet};
use crate::normal::FULL_SCALE;

verus! {

/// One event together with the bounds that the control had when the event
/// arrived.
pub struct Delivery {
    pub event: Event,
    pub bounds: Bounds,
}

/// The state that a control in state `s` reaches by taking `events` in
/// order.
pub open spec fn run(cfg: DragSettings, s: GestureModel, events: Seq<Delivery>) -> GestureModel
    decreases events.len(),
{
    if events.len() == 0 {
        s
    } else {
        react(
            cfg,
            run(cfg, s, events.drop_last()),
            events.last().event,
            events.last().bounds,
        ).state
    }
}

/// The modifier keys that the latest key event of `events` reports, or
/// `initial` where `events` holds no key event.
pub open spec fn latest_modifiers(initial: ModifierSet, events: Seq<Delivery>) -> ModifierSet
    decreases events.len(),
{
    if events.len() == 0 {
        initial
    } else {
        match events.last().event {
            Event::KeyPressed { modifiers } => modifiers,
            Event::KeyReleased { modifiers } => modifiers,
            _ => latest_modifiers(initial, events.drop_last()),
        }
    }
}

/// The value that the latest callback of the run received, or `None`
/// where the run called the callback at no event.
pub open spec fn latest_emitted(cfg: DragSettings, s: GestureModel, events: Seq<Delivery>) -> Option<
    int,
>
    decreases events.len(),
{
    if events.len() == 0 {
        None
    } else {
        let before = run(cfg, s, events.drop_last());
        let r = react(cfg, before, events.last().event, events.last().bounds);
        if r.emitted is Some {
            r.emitted
        } else {
            latest_emitted(cfg, s, events.drop_last())
        }
    }
}

/// The invariant holds after every sequence of events: the committed value
/// lies in the range and is the running total clamped, and the default
/// never changes.
pub proof fn lemma_run_keeps_wf(cfg: DragSettings, s: GestureModel, events: Seq<Delivery>)
    requires
        s.wf(),
    ensures
        run(cfg, s, events).wf(),
        0 <= run(cfg, s, events).committed <= FULL_SCALE,
        run(cfg, s, events).default == s.default,
    decreases events.len(),
{
    if events.len() > 0 {
        lemma_run_keeps_wf(cfg, s, events.drop_last());
    }
}

/// Whatever pointer events come between them, the modifier keys on record
/// are those of the latest key event.
pub proof fn lemma_modifiers_follow_keys(cfg: DragSettings, s: GestureModel, events: Seq<Delivery>)
    ensures
        run(cfg, s, events).modifiers == latest_modifiers(s.modifiers, events),
    decreases events.len(),
{
    if events.len() > 0 {
        lemma_modifiers_follow_keys(cfg, s, events.drop_last());
    }
}

/// The committed value is the one that the change callback received last,
/// and the initial one until the callback is called.
pub proof fn lemma_committed_is_latest_emitted(
    cfg: DragSettings,
    s: GestureModel,
    events: Seq<Delivery>,
)
    ensures
        run(cfg, s, events).committed == match latest_emitted(cfg, s, events) {
            Some(v) => v,
            None => s.committed,
        },
    decreases events.len(),
{
    if events.len() > 0 {
        lemma_committed_is_latest_emitted(cfg, s, events.drop_last());
    }
}

} // verus!
