//! The task-iterator tracing program: load its skeleton into the shared slot
//! and attach the stored skeleton's programs.
use vstd::prelude::*;

use crate::lifecycle::{slot_after, Action, Session, SessionState, Slot};

verus! {

/// The session that loads the iterator skeleton: it asks to open it (with
/// libbpf debug output when `debug` holds), load it, and place it in the
/// shared slot, replacing whatever skeleton the slot held; a failure of any
/// step ends the sequence.
pub fn load(debug: bool) -> (s: Session)
    ensures
        s@ == SessionState::fresh(debug, true, 0, true),
{
    Session::new(debug, true, 0, true)
}

/// The session that loads the iterator skeleton as [`load`]'s does, then
/// asks to attach the programs of the skeleton held in the shared slot; a
/// failed attachment ends the sequence.
pub fn attach(debug: bool) -> (s: Session)
    ensures
        s@ == SessionState::fresh(debug, true, 1, true),
{
    Session::new(debug, true, 1, true)
}

/// The session that runs the iterator program: the one [`attach`] returns.
pub fn run(debug: bool) -> (s: Session)
    ensures
        s@ == SessionState::fresh(debug, true, 1, true),
{
    attach(debug)
}

/// When every step succeeds, loading asks to open the skeleton with the
/// given debug setting, load it, store it in the slot, and then nothing more.
pub proof fn law_load_sequence(debug: bool)
    ensures
        SessionState::fresh(debug, true, 0, true).actions_on_success(4) == seq![
            Action::OpenSkeleton { debug },
            Action::LoadSkeleton,
            Action::StoreSkeleton,
            Action::Finish,
        ],
{
    reveal_with_fuel(SessionState::actions_on_success, 5);
    assert(SessionState::fresh(debug, true, 0, true).actions_on_success(4) =~= seq![
        Action::OpenSkeleton { debug },
        Action::LoadSkeleton,
        Action::StoreSkeleton,
        Action::Finish,
    ]);
}

/// When every step succeeds, running the program asks to open the skeleton
/// with the given debug setting, load it, store it in the slot, attach the
/// stored skeleton, and then nothing more: it does all that loading does and
/// then attaches.
pub proof fn law_run_sequence(debug: bool)
    ensures
        SessionState::fresh(debug, true, 1, true).actions_on_success(5) == seq![
            Action::OpenSkeleton { debug },
            Action::LoadSkeleton,
            Action::StoreSkeleton,
            Action::AttachProgram { index: 0 },
            Action::Finish,
        ],
        SessionState::fresh(debug, true, 1, true).actions_on_success(3) == SessionState::fresh(
            debug,
            true,
            0,
            true,
        ).actions_on_success(3),
{
    reveal_with_fuel(SessionState::actions_on_success, 6);
    assert(SessionState::fresh(debug, true, 1, true).actions_on_success(5) =~= seq![
        Action::OpenSkeleton { debug },
        Action::LoadSkeleton,
        Action::StoreSkeleton,
        Action::AttachProgram { index: 0 },
        Action::Finish,
    ]);
    assert(SessionState::fresh(debug, true, 1, true).actions_on_success(3) =~= SessionState::fresh(
        debug,
        true,
        0,
        true,
    ).actions_on_success(3));
}

/// The shared slot after successive runs of the iterator program, each of
/// which succeeds at every step; run `i` loads `skels[i]` with debug setting
/// `debugs[i]`.
pub open spec fn slot_after_runs<T>(slot: Slot<T>, skels: Seq<T>, debugs: Seq<bool>) -> Slot<T>
    decreases skels.len(),
{
    if skels.len() == 0 || debugs.len() == 0 {
        slot
    } else {
        slot_after_runs(
            slot_after(SessionState::fresh(debugs[0], true, 1, true), slot, seq![true, true, true, true], skels[0]),
            skels.drop_first(),
            debugs.drop_first(),
        )
    }
}

/// A successful load leaves in the slot the skeleton it loaded, not yet
/// attached, whatever the slot held before.
pub proof fn law_load_fills_slot<T>(debug: bool, slot: Slot<T>, loaded: T)
    ensures
        slot_after(SessionState::fresh(debug, true, 0, true), slot, seq![true, true, true], loaded)
            == (Slot { held: Some(loaded), attached: false }),
{
    reveal_with_fuel(slot_after, 4);
    let st0 = SessionState::fresh(debug, true, 0, true);
    let o = seq![true, true, true];
    assert(o.drop_first() =~= seq![true, true]);
    assert(o.drop_first().drop_first() =~= seq![true]);
    assert(o.drop_first().drop_first().drop_first() =~= Seq::<bool>::empty());
}

/// A successful run leaves in the slot the skeleton it loaded, attached,
/// whatever the slot held before.
pub proof fn law_run_fills_slot<T>(debug: bool, slot: Slot<T>, loaded: T)
    ensures
        slot_after(SessionState::fresh(debug, true, 1, true), slot, seq![true, true, true, true], loaded)
            == (Slot { held: Some(loaded), attached: true }),
{
    reveal_with_fuel(slot_after, 5);
    let o = seq![true, true, true, true];
    assert(o.drop_first() =~= seq![true, true, true]);
    assert(o.drop_first().drop_first() =~= seq![true, true]);
    assert(o.drop_first().drop_first().drop_first() =~= seq![true]);
    assert(o.drop_first().drop_first().drop_first().drop_first() =~= Seq::<bool>::empty());
}

/// After any number (at least one) of successful runs, the slot holds only
/// the skeleton of the last run, attached: each run replaces the skeleton the
/// slot held.
pub proof fn law_successive_runs_keep_last<T>(slot: Slot<T>, skels: Seq<T>, debugs: Seq<bool>)
    requires
        skels.len() > 0,
        debugs.len() == skels.len(),
    ensures
        slot_after_runs(slot, skels, debugs) == (Slot { held: Some(skels.last()), attached: true }),
    decreases skels.len(),
{
    law_run_fills_slot(debugs[0], slot, skels[0]);
    let next = slot_after(SessionState::fresh(debugs[0], true, 1, true), slot, seq![true, true, true, true], skels[0]);
    if skels.len() == 1 {
        assert(slot_after_runs(next, skels.drop_first(), debugs.drop_first()) == next);
    } else {
        law_successive_runs_keep_last(next, skels.drop_first(), debugs.drop_first());
        assert(skels.drop_first().last() == skels.last());
    }
}

} // verus!
