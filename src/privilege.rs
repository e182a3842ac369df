use vstd::prelude::*;

verus! {

/// An effective user and group identity.
#[derive(Clone, Copy, Debug, PartialEq, Eq, Structural)]
pub struct Identity {
    pub uid: u32,
    pub gid: u32,
}

/// One change of the process's effective identity.
#[derive(Clone, Copy, Debug, PartialEq, Eq, Structural)]
pub enum IdChange {
    EffectiveUid(u32),
    EffectiveGid(u32),
}

/// The identity after the change `c` took effect on `id`.
pub open spec fn apply_change(id: Identity, c: IdChange) -> Identity {
    match c {
        IdChange::EffectiveUid(u) => Identity { uid: u, gid: id.gid },
        IdChange::EffectiveGid(g) => Identity { uid: id.uid, gid: g },
    }
}

/// The identity after the changes `cs`, applied in order, took effect.
pub open spec fn apply_changes(id: Identity, cs: Seq<IdChange>) -> Identity
    decreases cs.len(),
{
    if cs.len() == 0 {
        id
    } else {
        apply_change(apply_changes(id, cs.drop_last()), cs.last())
    }
}

/// The changes that take the process to the real user's identity: the
/// user id first, then the group id.
pub open spec fn lowering_of(user: Identity) -> Seq<IdChange> {
    seq![IdChange::EffectiveUid(user.uid), IdChange::EffectiveGid(user.gid)]
}

/// The changes that give back a saved identity.
pub open spec fn restoring_of(saved: Identity) -> Seq<IdChange> {
    seq![IdChange::EffectiveUid(saved.uid), IdChange::EffectiveGid(saved.gid)]
}

/// The guard's round trip: when all lowering changes take effect the operation
/// runs as the real user; and whatever prefix of them took effect before one
/// failed, the restoring changes give back exactly the identity held before.
pub proof fn lemma_guard_round_trip(saved: Identity, user: Identity, applied: int)
    requires
        0 <= applied <= 2,
    ensures
        apply_changes(saved, lowering_of(user)) == user,
        apply_changes(
            apply_changes(saved, lowering_of(user).take(applied)),
            restoring_of(saved),
        ) == saved,
{
    reveal_with_fuel(apply_changes, 3);
    let low = lowering_of(user);
    let res = restoring_of(saved);
    assert(low.drop_last() =~= seq![IdChange::EffectiveUid(user.uid)]);
    assert(res.drop_last() =~= seq![IdChange::EffectiveUid(saved.uid)]);
    assert(seq![IdChange::EffectiveUid(user.uid)].drop_last() =~= Seq::<IdChange>::empty());
    assert(seq![IdChange::EffectiveUid(saved.uid)].drop_last() =~= Seq::<IdChange>::empty());
    assert(apply_changes(saved, low) == user);
    if applied == 0 {
        assert(low.take(applied) =~= Seq::<IdChange>::empty());
    } else if applied == 1 {
        assert(low.take(applied) =~= seq![IdChange::EffectiveUid(user.uid)]);
    } else {
        assert(low.take(applied) =~= low);
    }
    let mid = apply_changes(saved, low.take(applied));
    assert(apply_changes(mid, res) == saved);
}

/// What the guard asks its caller to do next.
#[derive(Clone, Copy, Debug, PartialEq, Eq, Structural)]
pub enum GuardStep {
    /// Lower the effective identity by this change, then report whether it took effect.
    Lower(IdChange),
    /// Run the guarded operation, then advance.
    RunOperation,
    /// Restore part of the saved identity by this change, then advance.
    Restore(IdChange),
    /// Nothing is left to do.
    Finished,
}

/// The stages of a guarded operation: 0 and 1 lower the identity (user id,
/// then group id), 2 runs the operation, 3 and 4 restore the saved identity
/// (user id, then group id), 5 is the end.
pub const GUARD_FINISHED: usize = 5;

/// The stage after `stage`, given whether its step succeeded. A failed
/// lowering change skips the operation and goes straight to restoring; every
/// later stage moves on whatever happened, and the end stays the end.
pub open spec fn next_stage(stage: usize, ok: bool) -> usize {
    if stage < 2 && !ok {
        3
    } else if stage < GUARD_FINISHED {
        (stage + 1) as usize
    } else {
        stage
    }
}

/// A privilege guard in progress: it lowers the effective identity to the
/// real user's, runs one operation only if that fully succeeded, and then
/// always restores the identity saved before.
#[derive(Clone, Copy, Debug, PartialEq, Eq, Structural)]
pub struct PrivilegeGuard {
    pub saved: Identity,
    pub user: Identity,
    pub stage: usize,
}

impl PrivilegeGuard {
    /// The step that a guard in this state asks for.
    pub open spec fn step_spec(self) -> GuardStep {
        if self.stage < 2 {
            GuardStep::Lower(lowering_of(self.user)[self.stage as int])
        } else if self.stage == 2 {
            GuardStep::RunOperation
        } else if self.stage < GUARD_FINISHED {
            GuardStep::Restore(restoring_of(self.saved)[self.stage - 3])
        } else {
            GuardStep::Finished
        }
    }

    /// A guard that has done nothing yet, for a process whose effective
    /// identity is `saved` and whose real user is `user`.
    pub fn new(saved: Identity, user: Identity) -> (r: PrivilegeGuard)
        ensures
            r.saved == saved,
            r.user == user,
            r.stage == 0,
    {
        PrivilegeGuard { saved, user, stage: 0 }
    }

    /// The step to take now.
    pub fn step(&self) -> (r: GuardStep)
        ensures
            r == self.step_spec(),
    {
        if self.stage == 0 {
            GuardStep::Lower(IdChange::EffectiveUid(self.user.uid))
        } else if self.stage == 1 {
            GuardStep::Lower(IdChange::EffectiveGid(self.user.gid))
        } else if self.stage == 2 {
            GuardStep::RunOperation
        } else if self.stage == 3 {
            GuardStep::Restore(IdChange::EffectiveUid(self.saved.uid))
        } else if self.stage == 4 {
            GuardStep::Restore(IdChange::EffectiveGid(self.saved.gid))
        } else {
            GuardStep::Finished
        }
    }

    /// Records the outcome of the current step and moves on.
    pub fn advance(&mut self, ok: bool)
        ensures
            final(self).saved == old(self).saved,
            final(self).user == old(self).user,
            final(self).stage == next_stage(old(self).stage, ok),
    {
        if self.stage < 2 && !ok {
            self.stage = 3;
        } else if self.stage < GUARD_FINISHED {
            self.stage = self.stage + 1;
        }
    }
}

/// The operation is reached only through two lowering changes that both took
/// effect; restoring is reached from every stage before it, whatever the
/// outcomes; and the end is reached within five steps of any stage.
pub proof fn lemma_guard_steps(stage: usize, ok: bool)
    ensures
        next_stage(stage, ok) == 2 ==> stage == 1 && ok,
        next_stage(stage, ok) == 1 ==> stage == 0 && ok,
        stage < GUARD_FINISHED ==> next_stage(stage, ok) > stage,
        stage <= GUARD_FINISHED ==> next_stage(stage, ok) <= GUARD_FINISHED,
        stage <= 2 && !ok ==> next_stage(stage, ok) == 3,
{
}

} // verus!
