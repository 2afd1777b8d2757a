//! Concurrent spec-harvesting pipeline: the verified aggregation half.
//!
//! The driver launches one `spec` operation per catalog entry concurrently
//! and waits for all of them; each entry's failure is captured in its own
//! slot and never aborts a sibling. This module holds everything about the
//! batch that is independent of the scheduler: bounding the catalog to a
//! prefix, pairing every definition with its outcome in input order — never
//! fewer slots, never reordered — and rendering the successful slots into
//! connector fragments in that same order, so downstream generation is
//! deterministic.

use crate::codegen::{binding_source, create_objects, struct_name_of, struct_name_spec};
use crate::errors::OpError;
use vstd::prelude::*;
use vstd::string::StringExecFns;

verus! {

/// How many catalog entries a bulk harvest takes by default.
pub const DEFAULT_CATALOG_BOUND: usize = 5;

/// One catalog entry describing a connector.
#[derive(Debug, Clone)]
pub struct ConnectorDefinition {
    /// Human label of the connector.
    pub name: String,
    /// Image repository the connector is packaged under.
    pub docker_repository: String,
    /// Image tag to run.
    pub docker_image_tag: String,
    /// What kind of source the connector exposes.
    pub source_type: String,
    /// Where the connector is documented.
    pub documentation_url: String,
}

/// The image reference (`repository:tag`) a definition names.
pub open spec fn image_ref_spec(d: ConnectorDefinition) -> Seq<char> {
    d.docker_repository@ + ":"@ + d.docker_image_tag@
}

/// Builds the `repository:tag` image reference of a definition.
pub fn image_ref(def: &ConnectorDefinition) -> (r: String)
    ensures
        r@ == image_ref_spec(*def),
{
    let mut out = def.docker_repository.clone();
    out.append(":");
    out.append(def.docker_image_tag.as_str());
    out
}

/// Truncates a catalog to its first `bound` entries, keeping their order;
/// a shorter catalog is kept whole.
pub fn bounded_prefix(defs: &mut Vec<ConnectorDefinition>, bound: usize)
    ensures
        bound <= old(defs)@.len() ==> final(defs)@ == old(defs)@.subrange(0, bound as int),
        bound > old(defs)@.len() ==> final(defs)@ == old(defs)@,
{
    defs.truncate(bound);
}

/// One definition paired with what harvesting it produced: the spec
/// payload, or the captured failure of that entry alone.
pub struct HarvestSlot {
    /// The catalog entry the slot answers for.
    pub def: ConnectorDefinition,
    /// Its harvested payload or captured error.
    pub outcome: Result<String, OpError>,
}

/// Pairs every definition with its outcome, slot `i` answering for entry
/// `i`: exactly one slot per definition, in input order — never fewer,
/// never reordered.
pub fn pair_results(defs: Vec<ConnectorDefinition>, outcomes: Vec<Result<String, OpError>>) -> (r:
    Vec<HarvestSlot>)
    requires
        defs@.len() == outcomes@.len(),
    ensures
        r@.len() == defs@.len(),
        forall|i: int|
            0 <= i < r@.len() ==> (#[trigger] r@[i]).def == defs@[i] && r@[i].outcome
                == outcomes@[i],
{
    let ghost odefs = defs@;
    let ghost oouts = outcomes@;
    let mut defs = defs;
    let mut outcomes = outcomes;
    let mut slots: Vec<HarvestSlot> = Vec::new();
    while defs.len() > 0
        invariant
            defs@.len() == outcomes@.len(),
            slots@.len() + defs@.len() == odefs.len(),
            odefs.len() == oouts.len(),
            defs@ == odefs.subrange(slots@.len() as int, odefs.len() as int),
            outcomes@ == oouts.subrange(slots@.len() as int, oouts.len() as int),
            forall|i: int|
                0 <= i < slots@.len() ==> (#[trigger] slots@[i]).def == odefs[i]
                    && slots@[i].outcome == oouts[i],
        decreases defs.len(),
    {
        let ghost done = slots@.len() as int;
        let d = defs.remove(0);
        let o = outcomes.remove(0);
        proof {
            assert(d == odefs[done]);
            assert(o == oouts[done]);
            assert(defs@ =~= odefs.subrange(done + 1, odefs.len() as int));
            assert(outcomes@ =~= oouts.subrange(done + 1, oouts.len() as int));
        }
        slots.push(HarvestSlot { def: d, outcome: o });
    }
    slots
}

/// The fragment one slot contributes: the connector's generated binding and
/// a separating line break for a harvested payload, nothing for a captured
/// failure.
pub open spec fn slot_text(s: HarvestSlot) -> Seq<char> {
    match s.outcome {
        Ok(payload) => binding_source(
            struct_name_spec(s.def.name@),
            image_ref_spec(s.def),
            payload@,
        ) + "\n"@,
        Err(_) => Seq::empty(),
    }
}

/// The fragments of the first `n` slots, concatenated in slot order.
pub open spec fn rendered_upto(slots: Seq<HarvestSlot>, n: int) -> Seq<char>
    decreases n,
{
    if n <= 0 {
        Seq::empty()
    } else {
        rendered_upto(slots, n - 1) + slot_text(slots[n - 1])
    }
}

/// Renders every successful slot into its connector fragment, in slot
/// order; failed slots contribute nothing and abort nothing.
pub fn render_sources(slots: &Vec<HarvestSlot>) -> (r: String)
    ensures
        r@ == rendered_upto(slots@, slots@.len() as int),
{
    let mut out = String::new();
    let mut i: usize = 0;
    while i < slots.len()
        invariant
            0 <= i <= slots@.len(),
            out@ == rendered_upto(slots@, i as int),
        decreases slots.len() - i,
    {
        let slot = &slots[i];
        match &slot.outcome {
            Ok(payload) => {
                let name = struct_name_of(slot.def.name.as_str());
                let img = image_ref(&slot.def);
                let fragment = create_objects(name.as_str(), img.as_str(), payload.as_str());
                out.append(fragment.as_str());
                out.append("\n");
                proof {
                    assert(out@ =~= rendered_upto(slots@, i as int + 1));
                }
            },
            Err(_) => {
                proof {
                    assert(out@ + Seq::<char>::empty() =~= out@);
                }
            },
        }
        i = i + 1;
    }
    out
}

} // verus!
