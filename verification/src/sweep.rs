//! The per-tick sweep over all follower instances.
//!
//! The host hands the sweep a snapshot of target state taken at the
//! start of the tick: one sample per target, keyed by identifier.  Each
//! instance is advanced against that snapshot independently; an
//! instance whose target is not in the snapshot is left untouched and
//! reported, never silently skipped and never allowed to abort the
//! rest of the sweep.

use vstd::prelude::*;
use vstd::pervasive::VecAdditionalExecFns;
use crate::vec3::V3;
use crate::spring::DT_MAX;
use crate::spring::SemiImplicitEulerConstraint;
use crate::spring::TickStatus;
use crate::spring::integrate_spec;
use crate::spring::v3_ok;

verus! {

/// One entry of the host's start-of-tick snapshot: a target's
/// position and, when the host tracks it, its velocity.
#[derive(Clone, Copy, Debug)]
pub struct TargetSample {
    /// The target's identifier.
    pub id: u64,
    /// The target's position at the start of the tick.
    pub pos: V3,
    /// The target's velocity, when tracked directly.
    pub vel: Option<V3>,
}

/// A snapshot is keyed by identifier: no two samples share one.
pub open spec fn snapshot_keyed(targets: Seq<TargetSample>) -> bool {
    forall|j1: int, j2: int|
        0 <= j1 < targets.len() && 0 <= j2 < targets.len() && j1 != j2
            ==> targets[j1].id != targets[j2].id
}

/// Every sampled position lies in the working range.
pub open spec fn snapshot_in_range(targets: Seq<TargetSample>) -> bool {
    forall|j: int| 0 <= j < targets.len() ==> v3_ok(#[trigger] targets[j].pos)
}

/// Some sample in the snapshot carries this identifier.
pub open spec fn resolves(targets: Seq<TargetSample>, id: u64) -> bool {
    exists|j: int| 0 <= j < targets.len() && targets[j].id == id
}

/// Finds the sample carrying `id`, if the snapshot has one.
pub fn lookup_target(targets: &Vec<TargetSample>, id: u64) -> (r: Option<usize>)
    ensures
        match r {
            Some(j) => j < targets@.len() && targets@[j as int].id == id,
            None => !resolves(targets@, id),
        },
{
    let n: usize = targets.len();
    let mut j: usize = 0;
    while j < n
        invariant
            j <= n,
            n == targets@.len(),
            forall|k: int| 0 <= k < j ==> targets@[k].id != id,
        decreases n - j,
    {
        if targets[j].id == id {
            return Some(j);
        }
        j = j + 1;
    }
    None
}

/// Advances every instance by one tick against the snapshot, and
/// reports, instance by instance, how its tick ended.  An instance
/// whose target is not in the snapshot is left untouched and reported
/// as `MissingTarget`; every other instance is advanced exactly as
/// `integrate_spec` of the sample carrying its target says, the other
/// instances' outcomes unaffected.
pub fn update_sie_constraints(
    constraints: &mut Vec<SemiImplicitEulerConstraint>,
    dt: i64,
    targets: &Vec<TargetSample>,
) -> (r: Vec<TickStatus>)
    requires
        forall|i: int| 0 <= i < old(constraints)@.len() ==> (#[trigger] old(constraints)@[i]).wf(),
        0 <= dt <= DT_MAX,
        snapshot_keyed(targets@),
        snapshot_in_range(targets@),
    ensures
        r@.len() == old(constraints)@.len(),
        final(constraints)@.len() == old(constraints)@.len(),
        forall|i: int| 0 <= i < old(constraints)@.len() ==> (#[trigger] final(constraints)@[i]).wf(),
        forall|i: int|
            0 <= i < old(constraints)@.len() && !resolves(targets@, old(constraints)@[i].target)
                ==> final(constraints)@[i] == old(constraints)@[i]
                    && r@[i] == TickStatus::MissingTarget,
        forall|i: int, j: int|
            0 <= i < old(constraints)@.len() && 0 <= j < targets@.len()
                && targets@[j].id == (#[trigger] old(constraints)@[i]).target
                ==> final(constraints)@[i]
                        == (#[trigger] integrate_spec(old(constraints)@[i], dt as int,
                                targets@[j].pos, targets@[j].vel)).0
                    && r@[i] == integrate_spec(old(constraints)@[i], dt as int,
                                targets@[j].pos, targets@[j].vel).1,
{
    let ghost cs0 = constraints@;
    let n: usize = constraints.len();
    let mut statuses: Vec<TickStatus> = Vec::new();
    let mut i: usize = 0;
    while i < n
        invariant
            i <= n,
            n == cs0.len(),
            constraints@.len() == cs0.len(),
            statuses@.len() == i,
            forall|k: int| 0 <= k < cs0.len() ==> (#[trigger] cs0[k]).wf(),
            0 <= dt <= DT_MAX,
            snapshot_keyed(targets@),
            snapshot_in_range(targets@),
            forall|k: int| i <= k < cs0.len() ==> constraints@[k] == cs0[k],
            forall|k: int| 0 <= k < cs0.len() ==> (#[trigger] constraints@[k]).wf(),
            forall|k: int|
                0 <= k < i && !resolves(targets@, cs0[k].target)
                    ==> constraints@[k] == cs0[k] && statuses@[k] == TickStatus::MissingTarget,
            forall|k: int, j: int|
                0 <= k < i && 0 <= j < targets@.len() && targets@[j].id == (#[trigger] cs0[k]).target
                    ==> constraints@[k]
                            == (#[trigger] integrate_spec(cs0[k], dt as int, targets@[j].pos, targets@[j].vel)).0
                        && statuses@[k] == integrate_spec(cs0[k], dt as int, targets@[j].pos, targets@[j].vel).1,
        decreases n - i,
    {
        let mut c = constraints[i];
        let status = match lookup_target(targets, c.target) {
            Some(j) => {
                let s = targets[j];
                c.integrate(dt, s.pos, s.vel)
            },
            None => TickStatus::MissingTarget,
        };
        constraints.set(i, c);
        statuses.push(status);
        i = i + 1;
    }
    statuses
}

/// Reads out, in order, the position of every follower, for the host
/// to apply to whatever representation it maintains.
pub fn pos_from_sie_constraints(constraints: &Vec<SemiImplicitEulerConstraint>) -> (r: Vec<V3>)
    ensures
        r@.len() == constraints@.len(),
        forall|i: int| 0 <= i < constraints@.len() ==> r@[i] == (#[trigger] constraints@[i]).current_pos,
{
    let n: usize = constraints.len();
    let mut out: Vec<V3> = Vec::new();
    let mut i: usize = 0;
    while i < n
        invariant
            i <= n,
            n == constraints@.len(),
            out@.len() == i,
            forall|k: int| 0 <= k < i ==> out@[k] == (#[trigger] constraints@[k]).current_pos,
        decreases n - i,
    {
        out.push(constraints[i].current_pos);
        i = i + 1;
    }
    out
}

} // verus!
