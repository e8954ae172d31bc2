//! The instance repository: the records of all instance directories under
//! one root, in order of name.

use vstd::prelude::*;
use crate::instance::parsed;
use crate::instance::Instance;
use crate::instance::InstanceConfig;
use crate::instance::InstanceView;
use crate::instance::MMCPack;
use crate::sort::lemma_sort_keeps_items;
use crate::sort::sort_instances;
use crate::sort::sorted_from;
use crate::sort_mode::SortMode;

verus! {

/// What was found in one subdirectory of the root.
#[derive(Debug)]
pub struct Candidate {
    /// The subdirectory.
    pub path: String,
    /// Its primary configuration, or `None` where the file is missing,
    /// cannot be read or is malformed.
    pub config: Option<InstanceConfig>,
    /// Its component manifest, or `None` likewise.
    pub pack: Option<MMCPack>,
}

/// The records that `candidates` give when read at the time `now_ms`, in
/// the order of `candidates`. A candidate that gives no record is passed
/// over.
pub open spec fn found(candidates: Seq<Candidate>, now_ms: int) -> Seq<InstanceView>
    decreases candidates.len(),
{
    if candidates.len() == 0 {
        Seq::empty()
    } else {
        let rest = found(candidates.drop_last(), now_ms);
        let last = candidates.last();
        match parsed(last.path@, last.config, last.pack, now_ms) {
            Some(record) => rest.push(record),
            None => rest,
        }
    }
}

/// What a list of instances holds, as plain values.
pub open spec fn views(instances: Seq<Instance>) -> Seq<InstanceView> {
    instances.map_values(|inst: Instance| inst@)
}

/// Makes the records of `candidates`, in their order.
pub fn collect_instances(candidates: Vec<Candidate>, now_ms: u128) -> (r: Vec<Instance>)
    ensures
        views(r@) == found(candidates@, now_ms as int),
        forall|i: int| 0 <= i < r@.len() ==> (#[trigger] r@[i])@.wf(),
{
    let mut out: Vec<Instance> = Vec::new();
    let ghost all = candidates@;
    assert(all.take(0) =~= Seq::<Candidate>::empty());
    assert(views(out@) =~= Seq::<InstanceView>::empty());
    for candidate in it: candidates.into_iter()
        invariant
            it.seq() == all,
            views(out@) == found(all.take(it.index() as int), now_ms as int),
            forall|i: int| 0 <= i < out@.len() ==> (#[trigger] out@[i])@.wf(),
    {
        let ghost before = out@;
        proof {
            let upto = all.take(it.index() + 1);
            assert(upto.drop_last() =~= all.take(it.index() as int));
            assert(upto.last() == candidate);
        }
        match Instance::parse(candidate.path, candidate.config, candidate.pack, now_ms) {
            Some(inst) => {
                out.push(inst);
                assert(views(out@) =~= views(before).push(inst@));
            },
            None => {},
        }
    }
    assert(all.take(all.len() as int) =~= all);
    out
}

/// Makes the records of `candidates` and puts them in order of name;
/// records of one name stay in the order of their candidates. With no
/// candidates, as when the root does not exist, the result is empty.
pub fn load_instances(candidates: Vec<Candidate>, now_ms: u128) -> (r: Vec<Instance>)
    ensures
        exists|unsorted: Seq<Instance>|
            views(unsorted) == found(candidates@, now_ms as int) && sorted_from(
                SortMode::Name,
                unsorted,
                r@,
            ),
        forall|i: int| 0 <= i < r@.len() ==> (#[trigger] r@[i])@.wf(),
        candidates@.len() == 0 ==> r@.len() == 0,
{
    let mut instances = collect_instances(candidates, now_ms);
    let ghost unsorted = instances@;
    sort_instances(&mut instances, SortMode::Name);
    proof {
        lemma_sort_keeps_items(SortMode::Name, unsorted, instances@);
        assert(views(unsorted).len() == unsorted.len());
    }
    instances
}

} // verus!
