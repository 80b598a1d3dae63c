//! What holds of every handle across the operations it offers.
use vstd::prelude::*;

use vstd::std_specs::cmp::PartialEqSpec;

use crate::layout::{label_view, GPUBindGroupLayout, LayoutModel};

verus! {

/// Along any run of operations on one handle, the entries and the identity
/// stay those it had at the start, and once it is invalid it stays invalid.
pub proof fn lemma_run_keeps_shape(run: Seq<LayoutModel>)
    requires
        run.len() > 0,
        forall|i: int| 0 <= i < run.len() - 1 ==> #[trigger] run[i].steps_to(run[i + 1]),
    ensures
        forall|j: int|
            0 <= j < run.len() ==> {
                &&& (#[trigger] run[j]).entries == run[0].entries
                &&& run[j].id == run[0].id
                &&& run[j].channel == run[0].channel
                &&& !run[0].valid ==> !run[j].valid
            },
    decreases run.len(),
{
    if run.len() > 1 {
        let prefix = run.drop_last();
        assert forall|i: int| 0 <= i < prefix.len() - 1 implies #[trigger] prefix[i].steps_to(
            prefix[i + 1],
        ) by {
            assert(run[i].steps_to(run[i + 1]));
        }
        lemma_run_keeps_shape(prefix);
        assert forall|j: int| 0 <= j < run.len() implies {
            &&& (#[trigger] run[j]).entries == run[0].entries
            &&& run[j].id == run[0].id
            &&& run[j].channel == run[0].channel
            &&& !run[0].valid ==> !run[j].valid
        } by {
            if j < run.len() - 1 {
                assert(run[j] == prefix[j]);
            } else {
                let k = j - 1;
                assert(prefix[k] == run[k]);
                assert(run[k].steps_to(run[k + 1]));
                assert(k + 1 == j);
            }
        }
    }
}

/// Reading the label back after setting it gives what was set, `None`
/// included.
pub proof fn lemma_label_round_trip(m: LayoutModel, value: Option<String>)
    ensures
        m.with_label(label_view(value)).label == label_view(value),
        value is None ==> m.with_label(label_view(value)).label is None,
{
}

/// Two handles with different identities are distinct, whatever entries
/// they declare.
pub proof fn lemma_identity_not_entries(a: GPUBindGroupLayout, b: GPUBindGroupLayout)
    requires
        a@.entries == b@.entries,
        a@.id != b@.id,
    ensures
        !a.eq_spec(&b),
        !a@.same_resource(b@),
{
}

} // verus!
