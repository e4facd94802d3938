//! The open / load / attach sequence of a BPF skeleton, as a state machine.
//!
//! Every demo program drives the same sequence: open the skeleton (with or
//! without libbpf debug output), load it into the kernel, optionally keep the
//! loaded skeleton in a shared slot, and attach its programs. The kernel work
//! is done by the caller; a [`Session`] says which step comes next and what a
//! step's outcome means for the rest of the sequence.
use vstd::prelude::*;

verus! {

/// A step of the sequence, named when it is the one that failed.
#[derive(Clone, Copy, Debug, PartialEq, Eq, Structural)]
pub enum Step {
    Open,
    Load,
    Store,
    Attach,
}

/// Where a session stands.
#[derive(Clone, Copy, Debug, PartialEq, Eq, Structural)]
pub enum Stage {
    /// The skeleton is still to be opened.
    Open,
    /// The opened skeleton is still to be loaded.
    Load,
    /// The loaded skeleton is still to be placed in the shared slot.
    Store,
    /// The attachment numbered by the value carried (counting from zero) is
    /// still to be made.
    Attach(u8),
    /// Every step is done.
    Finished,
    /// A step whose failure ends the sequence has failed.
    Aborted(Step),
}

/// What the caller is asked to do next.
#[derive(Clone, Copy, Debug, PartialEq, Eq, Structural)]
pub enum Action {
    /// Open the skeleton, with libbpf debug output when `debug` holds.
    OpenSkeleton { debug: bool },
    /// Load the opened skeleton into the kernel.
    LoadSkeleton,
    /// Place the loaded skeleton in the shared slot, replacing what was there.
    StoreSkeleton,
    /// Make attachment number `index` of the loaded skeleton.
    AttachProgram { index: u8 },
    /// Nothing is left to do.
    Finish,
    /// Give up: `step` failed.
    Abort { step: Step },
}

/// The whole state of a session.
#[derive(Clone, Copy, Debug, PartialEq, Eq, Structural)]
pub struct SessionState {
    /// Whether the skeleton is opened with libbpf debug output.
    pub debug: bool,
    /// Whether the loaded skeleton is kept in the shared slot.
    pub keep: bool,
    /// How many attachments follow the load.
    pub attachments: u8,
    /// Whether a failed attachment ends the sequence (otherwise it is passed
    /// over).
    pub attach_required: bool,
    /// Where the session stands.
    pub stage: Stage,
    /// Whether a loaded skeleton exists.
    pub loaded: bool,
}

impl SessionState {
    /// The state of a session that has not started yet.
    pub open spec fn fresh(debug: bool, keep: bool, attachments: u8, attach_required: bool) -> Self {
        SessionState { debug, keep, attachments, attach_required, stage: Stage::Open, loaded: false }
    }

    /// The states a session can be in.
    pub open spec fn wf(self) -> bool {
        &&& (self.stage matches Stage::Attach(i) ==> i < self.attachments && self.loaded)
        &&& (self.stage is Store ==> self.keep && self.loaded)
        &&& (self.stage is Open || self.stage is Load ==> !self.loaded)
    }

    /// Whether the sequence is over.
    pub open spec fn terminal(self) -> bool {
        self.stage is Finished || self.stage is Aborted
    }

    /// The stage that follows a loaded (and, if kept, stored) skeleton.
    pub open spec fn first_attach(self) -> Stage {
        if self.attachments > 0 {
            Stage::Attach(0)
        } else {
            Stage::Finished
        }
    }

    /// What the caller is asked to do in this state.
    pub open spec fn action(self) -> Action {
        match self.stage {
            Stage::Open => Action::OpenSkeleton { debug: self.debug },
            Stage::Load => Action::LoadSkeleton,
            Stage::Store => Action::StoreSkeleton,
            Stage::Attach(i) => Action::AttachProgram { index: i },
            Stage::Finished => Action::Finish,
            Stage::Aborted(step) => Action::Abort { step },
        }
    }

    /// The state after the requested action succeeded (`ok`) or failed.
    pub open spec fn advance(self, ok: bool) -> Self {
        match self.stage {
            Stage::Open => if ok {
                SessionState { stage: Stage::Load, ..self }
            } else {
                SessionState { stage: Stage::Aborted(Step::Open), ..self }
            },
            Stage::Load => if ok {
                if self.keep {
                    SessionState { stage: Stage::Store, loaded: true, ..self }
                } else {
                    SessionState { stage: self.first_attach(), loaded: true, ..self }
                }
            } else {
                SessionState { stage: Stage::Aborted(Step::Load), ..self }
            },
            Stage::Store => if ok {
                SessionState { stage: self.first_attach(), ..self }
            } else {
                SessionState { stage: Stage::Aborted(Step::Store), ..self }
            },
            Stage::Attach(i) => if ok || !self.attach_required {
                if i + 1 < self.attachments {
                    SessionState { stage: Stage::Attach((i + 1) as u8), ..self }
                } else {
                    SessionState { stage: Stage::Finished, ..self }
                }
            } else {
                SessionState { stage: Stage::Aborted(Step::Attach), ..self }
            },
            Stage::Finished => self,
            Stage::Aborted(_) => self,
        }
    }

    /// The state after the outcomes `outcomes`, in order.
    pub open spec fn after(self, outcomes: Seq<bool>) -> Self
        decreases outcomes.len(),
    {
        if outcomes.len() == 0 {
            self
        } else {
            self.advance(outcomes[0]).after(outcomes.drop_first())
        }
    }

    /// The actions asked for while every one of `n` steps succeeds.
    pub open spec fn actions_on_success(self, n: nat) -> Seq<Action>
        decreases n,
    {
        if n == 0 {
            Seq::empty()
        } else {
            seq![self.action()] + self.advance(true).actions_on_success((n - 1) as nat)
        }
    }

    /// An upper bound on the steps left before the sequence is over.
    pub open spec fn remaining(self) -> nat {
        let kept: nat = if self.keep { 1 } else { 0 };
        match self.stage {
            Stage::Open => 2 + kept + self.attachments as nat,
            Stage::Load => 1 + kept + self.attachments as nat,
            Stage::Store => 1 + self.attachments as nat,
            Stage::Attach(i) => (self.attachments - i) as nat,
            Stage::Finished => 0,
            Stage::Aborted(_) => 0,
        }
    }
}

/// A running open / load / attach sequence.
pub struct Session {
    state: SessionState,
}

impl View for Session {
    type V = SessionState;

    closed spec fn view(&self) -> SessionState {
        self.state
    }
}

impl Session {
    #[verifier::type_invariant]
    closed spec fn inv(self) -> bool {
        self.state.wf()
    }

    /// A session for a skeleton with `attachments` attachments after the
    /// load; when `keep` holds the loaded skeleton is first placed in the
    /// shared slot, and when `attach_required` holds a failed attachment ends
    /// the sequence.
    pub fn new(debug: bool, keep: bool, attachments: u8, attach_required: bool) -> (s: Session)
        ensures
            s@ == SessionState::fresh(debug, keep, attachments, attach_required),
            s@.debug == debug,
            s@.keep == keep,
            s@.attachments == attachments,
            s@.attach_required == attach_required,
            s@.stage == Stage::Open,
            !s@.loaded,
    {
        Session { state: SessionState { debug, keep, attachments, attach_required, stage: Stage::Open, loaded: false } }
    }

    /// What the caller is asked to do next.
    pub fn action(&self) -> (a: Action)
        ensures
            a == self@.action(),
            self@.stage == Stage::Open ==> a == (Action::OpenSkeleton { debug: self@.debug }),
            self@.stage == Stage::Load ==> a == Action::LoadSkeleton,
            self@.stage == Stage::Store ==> a == Action::StoreSkeleton,
            self@.stage matches Stage::Attach(i) ==> a == (Action::AttachProgram { index: i }),
            self@.stage == Stage::Finished ==> a == Action::Finish,
            self@.stage matches Stage::Aborted(step) ==> a == (Action::Abort { step }),
    {
        match self.state.stage {
            Stage::Open => Action::OpenSkeleton { debug: self.state.debug },
            Stage::Load => Action::LoadSkeleton,
            Stage::Store => Action::StoreSkeleton,
            Stage::Attach(i) => Action::AttachProgram { index: i },
            Stage::Finished => Action::Finish,
            Stage::Aborted(step) => Action::Abort { step },
        }
    }

    /// Records whether the requested action succeeded.
    pub fn advance(&mut self, ok: bool)
        ensures
            final(self)@ == old(self)@.advance(ok),
            final(self)@.debug == old(self)@.debug,
            final(self)@.keep == old(self)@.keep,
            final(self)@.attachments == old(self)@.attachments,
            final(self)@.attach_required == old(self)@.attach_required,
            old(self)@.stage is Attach && !old(self)@.attach_required ==> final(self)@
                == old(self)@.advance(true),
    {
        proof {
            use_type_invariant(&*self);
        }
        let st = self.state;
        let next = match st.stage {
            Stage::Open => if ok {
                SessionState { stage: Stage::Load, ..st }
            } else {
                SessionState { stage: Stage::Aborted(Step::Open), ..st }
            },
            Stage::Load => if ok {
                if st.keep {
                    SessionState { stage: Stage::Store, loaded: true, ..st }
                } else {
                    SessionState { stage: first_attach(st.attachments), loaded: true, ..st }
                }
            } else {
                SessionState { stage: Stage::Aborted(Step::Load), ..st }
            },
            Stage::Store => if ok {
                SessionState { stage: first_attach(st.attachments), ..st }
            } else {
                SessionState { stage: Stage::Aborted(Step::Store), ..st }
            },
            Stage::Attach(i) => if ok || !st.attach_required {
                if i + 1 < st.attachments {
                    SessionState { stage: Stage::Attach(i + 1), ..st }
                } else {
                    SessionState { stage: Stage::Finished, ..st }
                }
            } else {
                SessionState { stage: Stage::Aborted(Step::Attach), ..st }
            },
            Stage::Finished => st,
            Stage::Aborted(_) => st,
        };
        proof {
            lemma_advance_keeps_wf(st, ok);
        }
        self.state = next;
    }
}

fn first_attach(attachments: u8) -> (stage: Stage)
    ensures
        stage == (if attachments > 0 { Stage::Attach(0) } else { Stage::Finished }),
{
    if attachments > 0 {
        Stage::Attach(0)
    } else {
        Stage::Finished
    }
}

/// The shared slot in which sessions that keep their skeleton leave it: the
/// skeleton it holds, if any, and whether that skeleton's programs are
/// attached.
pub struct Slot<T> {
    pub held: Option<T>,
    pub attached: bool,
}

impl<T> Slot<T> {
    /// An empty slot.
    pub fn new() -> (s: Slot<T>)
        ensures
            s.held is None,
            !s.attached,
    {
        Slot { held: None, attached: false }
    }

    /// The slot after `item` is placed in it: whatever it held before is
    /// gone, and the new skeleton is not attached yet.
    pub open spec fn stored(self, item: T) -> Slot<T> {
        Slot { held: Some(item), attached: false }
    }

    /// The slot after an attachment of the skeleton it holds succeeded
    /// (`ok`) or failed; an empty slot has nothing to attach.
    pub open spec fn after_attach(self, ok: bool) -> Slot<T> {
        if ok && self.held is Some {
            Slot { held: self.held, attached: true }
        } else {
            self
        }
    }
}

/// What one step of the session in state `st`, with outcome `ok`, does to the
/// shared slot, when the skeleton that session loaded is `loaded`.
pub open spec fn slot_effect<T>(st: SessionState, ok: bool, slot: Slot<T>, loaded: T) -> Slot<T> {
    match st.stage {
        Stage::Store => if ok {
            slot.stored(loaded)
        } else {
            slot
        },
        Stage::Attach(_) => if st.keep {
            slot.after_attach(ok)
        } else {
            slot
        },
        _ => slot,
    }
}

/// The slot after the session in state `st` meets the outcomes `outcomes`,
/// having loaded the skeleton `loaded`.
pub open spec fn slot_after<T>(st: SessionState, slot: Slot<T>, outcomes: Seq<bool>, loaded: T) -> Slot<T>
    decreases outcomes.len(),
{
    if outcomes.len() == 0 {
        slot
    } else {
        slot_after(
            st.advance(outcomes[0]),
            slot_effect(st, outcomes[0], slot, loaded),
            outcomes.drop_first(),
            loaded,
        )
    }
}

impl Session {
    /// Places the loaded skeleton `skel` in the shared slot, as the session
    /// asks, and records the success. Returns what the slot held before; it
    /// is replaced, and dropping it releases its attachments.
    pub fn store<T>(&mut self, slot: &mut Slot<T>, skel: T) -> (replaced: Option<T>)
        requires
            old(self)@.action() == Action::StoreSkeleton,
        ensures
            final(self)@ == old(self)@.advance(true),
            *final(slot) == slot_effect(old(self)@, true, *old(slot), skel),
            final(slot).held == Some(skel),
            !final(slot).attached,
            replaced == old(slot).held,
    {
        let replaced = slot.held.take();
        slot.held = Some(skel);
        slot.attached = false;
        self.advance(true);
        replaced
    }

    /// Records the outcome of attaching the skeleton held in the shared slot,
    /// as a session that keeps its skeleton asks. An empty slot has nothing to
    /// attach, which counts as done.
    pub fn record_slot_attach<T>(&mut self, slot: &mut Slot<T>, ok: bool)
        requires
            old(self)@.action() is AttachProgram,
            old(self)@.keep,
        ensures
            final(self)@ == old(self)@.advance(ok || old(slot).held is None),
            *final(slot) == old(slot).after_attach(ok),
            final(slot).held == old(slot).held,
            !ok ==> *final(slot) == *old(slot),
            ok && old(slot).held is Some ==> final(slot).attached,
    {
        if ok && slot.held.is_some() {
            slot.attached = true;
        }
        let done = ok || slot.held.is_none();
        self.advance(done);
    }
}

/// Every state a session reaches is one of the states it can be in.
pub proof fn lemma_advance_keeps_wf(st: SessionState, ok: bool)
    requires
        st.wf(),
    ensures
        st.advance(ok).wf(),
{
}

/// Once the sequence is over, no outcome changes the state: a finished or
/// aborted session asks for nothing more.
pub proof fn law_terminal_absorbs(st: SessionState, ok: bool)
    requires
        st.terminal(),
    ensures
        st.advance(ok) == st,
{
}

/// A failed step ends the sequence with that step named, except a failed
/// attachment of a session whose attachments are not required, which is
/// passed over.
pub proof fn law_failure_aborts(st: SessionState)
    requires
        st.wf(),
        !st.terminal(),
    ensures
        st.stage is Attach && !st.attach_required ==> !(st.advance(false).stage is Aborted),
        !(st.stage is Attach && !st.attach_required) ==> st.advance(false).stage == Stage::Aborted(
            match st.stage {
                Stage::Open => Step::Open,
                Stage::Load => Step::Load,
                Stage::Store => Step::Store,
                _ => Step::Attach,
            },
        ),
{
}

/// Every step of a running session brings it closer to its end.
pub proof fn law_progress(st: SessionState, ok: bool)
    requires
        st.wf(),
        !st.terminal(),
    ensures
        st.advance(ok).remaining() < st.remaining(),
{
}

/// Outcomes after the end leave the state as it is.
proof fn lemma_after_terminal(st: SessionState, outcomes: Seq<bool>)
    requires
        st.terminal(),
    ensures
        st.after(outcomes) == st,
    decreases outcomes.len(),
{
    if outcomes.len() > 0 {
        lemma_after_terminal(st.advance(outcomes[0]), outcomes.drop_first());
    }
}

/// Whatever the outcomes, a session is over after at most `remaining()`
/// steps, and it stays in a state it can be in all the way.
pub proof fn law_terminates(st: SessionState, outcomes: Seq<bool>)
    requires
        st.wf(),
        outcomes.len() >= st.remaining(),
    ensures
        st.after(outcomes).terminal(),
        st.after(outcomes).wf(),
    decreases outcomes.len(),
{
    if st.terminal() {
        lemma_after_terminal(st, outcomes);
    } else {
        law_progress(st, outcomes[0]);
        lemma_advance_keeps_wf(st, outcomes[0]);
        law_terminates(st.advance(outcomes[0]), outcomes.drop_first());
    }
}

/// Every state reachable from a fresh session is one it can be in: in
/// particular an attachment is only ever asked for once a loaded skeleton
/// exists (and, for a kept skeleton, has been placed in the slot), and the
/// slot is only written by sessions that keep their skeleton.
pub proof fn law_reachable_wf(debug: bool, keep: bool, attachments: u8, attach_required: bool, outcomes: Seq<bool>)
    ensures
        SessionState::fresh(debug, keep, attachments, attach_required).after(outcomes).wf(),
{
    lemma_after_keeps_wf(SessionState::fresh(debug, keep, attachments, attach_required), outcomes);
}

proof fn lemma_after_keeps_wf(st: SessionState, outcomes: Seq<bool>)
    requires
        st.wf(),
    ensures
        st.after(outcomes).wf(),
    decreases outcomes.len(),
{
    if outcomes.len() > 0 {
        lemma_advance_keeps_wf(st, outcomes[0]);
        lemma_after_keeps_wf(st.advance(outcomes[0]), outcomes.drop_first());
    }
}

/// When every step succeeds a session that has not aborted finishes.
pub proof fn law_success_finishes(st: SessionState, n: nat)
    requires
        st.wf(),
        !(st.stage is Aborted),
        n >= st.remaining(),
    ensures
        st.after(Seq::new(n, |i: int| true)).stage == Stage::Finished,
    decreases n,
{
    let all = Seq::new(n, |i: int| true);
    if st.terminal() {
        lemma_after_terminal(st, all);
    } else {
        assert(all.drop_first() =~= Seq::new((n - 1) as nat, |i: int| true));
        lemma_advance_keeps_wf(st, true);
        law_success_finishes(st.advance(true), (n - 1) as nat);
    }
}

/// A fresh session keeps every setting it was given, whatever the others:
/// the debug setting, whether it keeps its skeleton, how many attachments it
/// makes and whether they are required; it starts at the open step with
/// nothing loaded, and asks first to open the skeleton with its own debug
/// setting.
pub proof fn law_fresh_keeps_settings(debug: bool, keep: bool, attachments: u8, attach_required: bool)
    ensures
        SessionState::fresh(debug, keep, attachments, attach_required).debug == debug,
        SessionState::fresh(debug, keep, attachments, attach_required).keep == keep,
        SessionState::fresh(debug, keep, attachments, attach_required).attachments == attachments,
        SessionState::fresh(debug, keep, attachments, attach_required).attach_required
            == attach_required,
        SessionState::fresh(debug, keep, attachments, attach_required).stage == Stage::Open,
        !SessionState::fresh(debug, keep, attachments, attach_required).loaded,
        SessionState::fresh(debug, keep, attachments, attach_required).action()
            == (Action::OpenSkeleton { debug }),
{
}

/// A session that does not keep its skeleton and has attachments asks for
/// attachment 0 right after a successful open and load, whether or not its
/// attachments are required.
pub proof fn law_first_attachment_follows_load(debug: bool, attachments: u8, attach_required: bool)
    requires
        attachments > 0,
    ensures
        SessionState::fresh(debug, false, attachments, attach_required).after(seq![true, true]).action()
            == (Action::AttachProgram { index: 0 }),
{
    let o = seq![true, true];
    assert(o.drop_first() =~= seq![true]);
    assert(o.drop_first().drop_first() =~= Seq::<bool>::empty());
    reveal_with_fuel(SessionState::after, 3);
}

/// A step never changes a session's settings: only where it stands and
/// whether a skeleton is loaded.
pub proof fn law_advance_keeps_settings(st: SessionState, ok: bool)
    ensures
        st.advance(ok).debug == st.debug,
        st.advance(ok).keep == st.keep,
        st.advance(ok).attachments == st.attachments,
        st.advance(ok).attach_required == st.attach_required,
{
}

/// What each successful step leads to: open to load; load to the slot when
/// the skeleton is kept, else to the first attachment (or the end when there
/// is none), with a skeleton now loaded; the slot to the first attachment (or
/// the end); attachment `i` to attachment `i + 1`, or to the end after the
/// last one.
pub proof fn law_success_moves_on(st: SessionState)
    ensures
        st.stage == Stage::Open ==> st.advance(true).stage == Stage::Load,
        st.stage == Stage::Load && st.keep ==> st.advance(true).stage == Stage::Store
            && st.advance(true).loaded,
        st.stage == Stage::Load && !st.keep && st.attachments > 0 ==> st.advance(true).stage
            == Stage::Attach(0) && st.advance(true).loaded,
        st.stage == Stage::Load && !st.keep && st.attachments == 0 ==> st.advance(true).stage
            == Stage::Finished,
        st.stage == Stage::Store && st.attachments > 0 ==> st.advance(true).stage == Stage::Attach(0),
        st.stage == Stage::Store && st.attachments == 0 ==> st.advance(true).stage == Stage::Finished,
        st.stage matches Stage::Attach(i) ==> (i + 1 < st.attachments ==> st.advance(true).stage
            == Stage::Attach((i + 1) as u8)),
        st.stage matches Stage::Attach(i) ==> (i + 1 >= st.attachments ==> st.advance(true).stage
            == Stage::Finished),
{
}

/// The outcome of an attachment that is not required does not matter: a
/// failed one is passed over exactly as a successful one, so every later
/// attachment is still asked for.
pub proof fn law_optional_attachment_outcome_ignored(st: SessionState)
    requires
        st.stage is Attach,
        !st.attach_required,
    ensures
        st.advance(false) == st.advance(true),
        st.stage matches Stage::Attach(i) ==> (i + 1 < st.attachments ==> st.advance(false).stage
            == Stage::Attach((i + 1) as u8)),
{
}

/// The open request carries the session's own debug setting, and each other
/// stage asks for its own step.
pub proof fn law_action_of_stage(st: SessionState)
    ensures
        st.stage == Stage::Open ==> st.action() == (Action::OpenSkeleton { debug: st.debug }),
        st.stage == Stage::Load ==> st.action() == Action::LoadSkeleton,
        st.stage == Stage::Store ==> st.action() == Action::StoreSkeleton,
        st.stage matches Stage::Attach(i) ==> st.action() == (Action::AttachProgram { index: i }),
        st.stage == Stage::Finished ==> st.action() == Action::Finish,
        st.stage matches Stage::Aborted(step) ==> st.action() == (Action::Abort { step }),
{
}

/// Attaching never takes a skeleton out of the slot or puts one in: a failed
/// attachment leaves the slot exactly as it was, and a successful one marks
/// the held skeleton attached.
pub proof fn law_attach_keeps_slot_contents<T>(slot: Slot<T>, ok: bool)
    ensures
        slot.after_attach(ok).held == slot.held,
        slot.after_attach(false) == slot,
        slot.held is Some ==> slot.after_attach(true).attached,
{
}

/// Storing puts the new skeleton in the slot, unattached, whatever the slot
/// held before.
pub proof fn law_store_replaces<T>(slot: Slot<T>, item: T)
    ensures
        slot.stored(item).held == Some(item),
        !slot.stored(item).attached,
{
}

} // verus!
