//! Deciding whether the completed stages satisfy a declared flow.

use vstd::prelude::*;
use crate::stage::{contains_stage, stages, AuthFlow, AuthType, Stage};

verus! {

/// A flow is satisfied when each of its stages is among the completed ones,
/// in whatever order they were completed.
pub open spec fn flow_satisfied(flow: Seq<Stage>, completed: Set<Stage>) -> bool {
    flow.to_set().subset_of(completed)
}

/// A session is satisfied when at least one of its flows is.
pub open spec fn satisfied(flows: Seq<Seq<Stage>>, completed: Set<Stage>) -> bool {
    exists|f: int| 0 <= f < flows.len() && flow_satisfied(#[trigger] flows[f], completed)
}

/// The views of a sequence of flows, in order.
pub open spec fn flow_views(v: Seq<AuthFlow>) -> Seq<Seq<Stage>> {
    v.map_values(|f: AuthFlow| f@)
}

/// Whether every stage of `flow` occurs in `completed`.
pub fn is_flow_satisfied(flow: &AuthFlow, completed: &Vec<AuthType>) -> (r: bool)
    ensures
        r == flow_satisfied(flow@, stages(completed@).to_set()),
{
    let ghost done = stages(completed@).to_set();
    let mut i: usize = 0;
    while i < flow.stages.len()
        invariant
            0 <= i <= flow.stages.len(),
            done == stages(completed@).to_set(),
            forall|k: int| 0 <= k < i ==> done.contains(#[trigger] flow@[k]),
        decreases flow.stages.len() - i,
    {
        if !contains_stage(completed, &flow.stages[i]) {
            assert(flow@[i as int] == flow.stages@[i as int]@);
            assert(flow@.to_set().contains(flow@[i as int]));
            return false;
        }
        assert(flow@[i as int] == flow.stages@[i as int]@);
        i += 1;
    }
    assert(flow@.to_set().subset_of(done)) by {
        assert forall|s: Stage| flow@.to_set().contains(s) implies done.contains(s) by {
            let k = choose|k: int| 0 <= k < flow@.len() && flow@[k] == s;
            assert(done.contains(flow@[k]));
        }
    }
    true
}

/// Whether some flow of `flows` is satisfied by the stages in `completed`.
///
/// With no flows the answer is `false`; a flow without stages is satisfied
/// by anything.
pub fn is_satisfied(flows: &Vec<AuthFlow>, completed: &Vec<AuthType>) -> (r: bool)
    ensures
        r == satisfied(flow_views(flows@), stages(completed@).to_set()),
{
    let ghost done = stages(completed@).to_set();
    let mut i: usize = 0;
    while i < flows.len()
        invariant
            0 <= i <= flows.len(),
            done == stages(completed@).to_set(),
            forall|k: int| 0 <= k < i ==> !flow_satisfied(#[trigger] flow_views(flows@)[k], done),
        decreases flows.len() - i,
    {
        if is_flow_satisfied(&flows[i], completed) {
            assert(flow_views(flows@)[i as int] == flows@[i as int]@);
            return true;
        }
        assert(flow_views(flows@)[i as int] == flows@[i as int]@);
        i += 1;
    }
    false
}

/// With no flows declared nothing is ever satisfied.
pub proof fn lemma_no_flows(completed: Set<Stage>)
    ensures
        !satisfied(Seq::empty(), completed),
{
}

/// A flow without stages is satisfied whatever has been completed, and so is
/// any list of flows that holds one.
pub proof fn lemma_empty_flow(flows: Seq<Seq<Stage>>, f: int, completed: Set<Stage>)
    requires
        0 <= f < flows.len(),
        flows[f].len() == 0,
    ensures
        flow_satisfied(flows[f], completed),
        satisfied(flows, completed),
{
    assert(flows[f].to_set() =~= Set::empty());
}

/// Completing more stages never turns a satisfied session into an unsatisfied
/// one.
pub proof fn lemma_satisfied_monotonic(
    flows: Seq<Seq<Stage>>,
    before: Set<Stage>,
    after: Set<Stage>,
)
    requires
        before.subset_of(after),
        satisfied(flows, before),
    ensures
        satisfied(flows, after),
{
    let f = choose|f: int| 0 <= f < flows.len() && flow_satisfied(#[trigger] flows[f], before);
    assert(flow_satisfied(flows[f], after));
}

} // verus!
