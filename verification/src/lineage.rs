//! The lineage of a run: every produced object carries the id of its
//! source, so the chain can be walked back from the plan handed to
//! execution to the raw item that seeded the run.
use vstd::prelude::*;

use crate::adapters::{
    brief_of, decision_worthy, json_array, new_decision_of, rendered_links,
    new_plan_of, sensing_kind_of, sensing_link_of, sensing_of, source_brief_of,
};
use crate::artifacts::{
    ActionPacketModel, ActorModel, DecisionModel, LoweredPlanModel, RawItemKind, RawItemModel, SensingTargetModel,
};
use crate::pipeline::{enriched, matured, project_of};
use crate::text::{first_sensing_reference, joined};

verus! {

/// `needle` occurs in `hay` as a contiguous piece.
pub open spec fn occurs_in(needle: Seq<char>, hay: Seq<char>) -> bool {
    exists|k: int|
        0 <= k && k + needle.len() <= hay.len() && #[trigger] hay.subrange(k, k + needle.len())
            == needle
}

proof fn lemma_occurs_in_middle(x: Seq<char>, a: Seq<char>, b: Seq<char>, c: Seq<char>)
    requires
        occurs_in(x, b),
    ensures
        occurs_in(x, a + b + c),
{
    let k = choose|k: int|
        0 <= k && k + x.len() <= b.len() && #[trigger] b.subrange(k, k + x.len()) == x;
    let hay = a + b + c;
    assert(hay.subrange(a.len() + k, a.len() + k + x.len()) =~= b.subrange(k, k + x.len()));
}

proof fn lemma_occurs_in_itself(x: Seq<char>)
    ensures
        occurs_in(x, x),
{
    let k: int = 0;
    assert(x.subrange(k, k + x.len()) =~= x);
}

proof fn lemma_occurs_in_transitive(x: Seq<char>, y: Seq<char>, z: Seq<char>)
    requires
        occurs_in(x, y),
        occurs_in(y, z),
    ensures
        occurs_in(x, z),
{
    let j = choose|k: int| 0 <= k && k + x.len() <= y.len() && #[trigger] y.subrange(k, k + x.len()) == x;
    let l = choose|k: int| 0 <= k && k + y.len() <= z.len() && #[trigger] z.subrange(k, k + y.len()) == y;
    assert(z.subrange(l + j, l + j + x.len()) =~= y.subrange(j, j + x.len()));
}

proof fn lemma_item_occurs_in_joined(items: Seq<Seq<char>>, sep: Seq<char>, i: int)
    requires
        0 <= i < items.len(),
    ensures
        occurs_in(items[i], joined(items, sep)),
    decreases items.len(),
{
    lemma_occurs_in_itself(items[i]);
    if items.len() == 1 {
    } else if i == items.len() - 1 {
        let a = joined(items.drop_last(), sep) + sep;
        lemma_occurs_in_middle(items[i], a, items.last(), Seq::empty());
        assert(a + items.last() + Seq::<char>::empty() =~= joined(items, sep));
    } else {
        lemma_item_occurs_in_joined(items.drop_last(), sep, i);
        lemma_occurs_in_middle(
            items[i],
            Seq::empty(),
            joined(items.drop_last(), sep),
            sep + items.last(),
        );
        assert(Seq::<char>::empty() + joined(items.drop_last(), sep) + (sep + items.last())
            =~= joined(items, sep));
    }
}

/// Raw material becomes a decision only through an insight (an event) or a
/// hypothesis (a text); a document, a reference or a binary stops at
/// sensemaking.
pub proof fn law_decision_worthy_raw_kinds(kind: RawItemKind)
    ensures
        decision_worthy(sensing_kind_of(kind)) <==> (kind == RawItemKind::Event || kind
            == RawItemKind::Text),
{
}

/// Walking back from a proposed decision: its sensemaking link names the
/// sensing item it was promoted from, and that item's provenance link names
/// the raw item it was derived from.
pub proof fn law_decision_walks_back_to_raw(
    raw: RawItemModel,
    sensing_id: Seq<char>,
    actor: ActorModel,
)
    ensures
        first_sensing_reference(new_decision_of(sensing_of(raw, sensing_id), actor).links) == Some(
            sensing_id,
        ),
        sensing_link_of(raw, sensing_id).item == sensing_id,
        sensing_link_of(raw, sensing_id).target == (SensingTargetModel::RawItem { id: raw.id }),
{
    let links = new_decision_of(sensing_of(raw, sensing_id), actor).links;
    assert(links.len() == 1);
}

/// The brief handed to planning, once the planner-owned fields are filled
/// in, still carries the ids of the decisions it was built from, in order.
pub proof fn law_brief_carries_decisions(ids: Seq<Seq<char>>)
    ensures
        enriched(brief_of(ids)).decisions_made == ids,
{
}

/// Maturing a packet and shaping its project keeps every provenance link of
/// the packet: the project handed to execution carries them all.
pub proof fn law_project_carries_packet_links(packet: ActionPacketModel)
    ensures
        project_of(matured(packet)).linked_decisions == packet.linked_decisions,
        project_of(matured(packet)).linked_knowledge == packet.linked_knowledge,
        project_of(matured(packet)).linked_rejected == packet.linked_rejected,
{
}

/// The source brief of a plan shaped for execution carries each of the
/// plan's decision links, as the link's JSON text.
pub proof fn law_source_brief_carries_decision_links(plan: LoweredPlanModel, i: int)
    requires
        0 <= i < plan.linked_decisions.len(),
    ensures
        occurs_in(plan.linked_decisions[i].rendered, source_brief_of(plan)),
{
    let items = rendered_links(plan.linked_decisions);
    assert(items[i] == plan.linked_decisions[i].rendered);
    lemma_item_occurs_in_joined(items, ","@, i);
    lemma_occurs_in_middle(items[i], "["@, joined(items, ","@), "]"@);
    let rest = ",\"linked_knowledge\":"@ + json_array(rendered_links(plan.linked_knowledge))
        + ",\"linked_rejected\":"@ + json_array(rendered_links(plan.linked_rejected)) + "}"@;
    lemma_occurs_in_middle(items[i], "{\"linked_decisions\":"@, json_array(items), rest);
    assert("{\"linked_decisions\":"@ + json_array(items) + rest =~= source_brief_of(plan));
}

/// The source brief of a plan shaped for execution carries the id of each
/// of the plan's decision links, wherever the link's JSON text carries it.
pub proof fn law_source_brief_carries_decision_ids(plan: LoweredPlanModel, i: int)
    requires
        0 <= i < plan.linked_decisions.len(),
        occurs_in(plan.linked_decisions[i].id, plan.linked_decisions[i].rendered),
    ensures
        occurs_in(plan.linked_decisions[i].id, source_brief_of(plan)),
{
    law_source_brief_carries_decision_links(plan, i);
    lemma_occurs_in_transitive(
        plan.linked_decisions[i].id,
        plan.linked_decisions[i].rendered,
        source_brief_of(plan),
    );
}

/// The end-to-end walk from the plan handed to execution back to the
/// decision. The actions layer's own work is outside this library, so the
/// walk is stated for a run in which that layer kept its links: the packet
/// it planned links to the decision (at position `i`), the plan it lowered
/// from the packet's project carries that project's decision links, and the
/// JSON text of the link carries its id. Then the plan shaped for execution
/// carries the decision's id in its source brief.
pub proof fn law_plan_walks_back_to_decision(
    packet: ActionPacketModel,
    lowered: LoweredPlanModel,
    project_id: Seq<char>,
    decision: DecisionModel,
    i: int,
)
    requires
        0 <= i < packet.linked_decisions.len(),
        packet.linked_decisions[i].id == decision.id,
        occurs_in(packet.linked_decisions[i].id, packet.linked_decisions[i].rendered),
        lowered.linked_decisions == project_of(matured(packet)).linked_decisions,
    ensures
        new_plan_of(lowered, project_id).source_brief matches Some(brief) && occurs_in(
            decision.id,
            brief,
        ),
{
    law_project_carries_packet_links(packet);
    law_source_brief_carries_decision_ids(lowered, i);
}

} // verus!
