//! The hop adapters: pure mappings between the artifacts of adjacent
//! layers. Each hop keeps the id of its source in what it produces.
use vstd::prelude::*;

use crate::text::joined;
use crate::artifacts::{
    provenance, texts, Actor, ActorModel, Decider, DeciderKind, DeciderModel, Decision,
    DecisionLink, DecisionLinkModel, LinkKind, LoweredPlan, LoweredPlanModel, NewDecision,
    NewDecisionModel, NewPlan, NewPlanModel, OwnerKind, PlanBrief, PlanBriefModel, PlanOwner,
    PlanOwnerModel, ProvenanceLink, ProvenanceLinkModel, RawItem, RawItemKind, RawItemModel,
    SensingItem, SensingItemKind, SensingItemModel, SensingLink, SensingLinkModel, SensingTarget,
    SensingTargetModel,
};

verus! {

// ------------------------------------------------ intake -> sensemaking

/// The sensing kind that a raw item of the given kind becomes.
pub open spec fn sensing_kind_of(kind: RawItemKind) -> SensingItemKind {
    match kind {
        RawItemKind::Event => SensingItemKind::Insight,
        RawItemKind::Text => SensingItemKind::Hypothesis,
        RawItemKind::Document => SensingItemKind::Knowledge,
        RawItemKind::Reference => SensingItemKind::Knowledge,
        RawItemKind::Binary => SensingItemKind::ResearchGap,
    }
}

/// The sensing item derived from `raw` under the minted id `id`.
pub open spec fn sensing_of(raw: RawItemModel, id: Seq<char>) -> SensingItemModel {
    SensingItemModel {
        id: id,
        kind: sensing_kind_of(raw.kind),
        body: raw.body,
        source_ref: raw.source,
    }
}

/// The provenance link from the sensing item `id` back to `raw`.
pub open spec fn sensing_link_of(raw: RawItemModel, id: Seq<char>) -> SensingLinkModel {
    SensingLinkModel {
        item: id,
        target: SensingTargetModel::RawItem { id: raw.id },
        kind: LinkKind::DerivedFrom,
    }
}

pub(crate) fn sensing_kind_for(kind: RawItemKind) -> (r: SensingItemKind)
    ensures
        r == sensing_kind_of(kind),
{
    match kind {
        RawItemKind::Event => SensingItemKind::Insight,
        RawItemKind::Text => SensingItemKind::Hypothesis,
        RawItemKind::Document => SensingItemKind::Knowledge,
        RawItemKind::Reference => SensingItemKind::Knowledge,
        RawItemKind::Binary => SensingItemKind::ResearchGap,
    }
}

/// Hop 1: a raw intake item becomes a sensing item, under the id that was
/// minted for it, together with the link that points back at the raw item.
pub fn sensing_from_raw(raw: &RawItem, sensing_id: String) -> (r: (SensingItem, SensingLink))
    ensures
        r.0@ == sensing_of(raw@, sensing_id@),
        r.1@ == sensing_link_of(raw@, sensing_id@),
{
    let kind = sensing_kind_for(raw.kind);
    let link = SensingLink {
        item: sensing_id.clone(),
        target: SensingTarget::RawItem { id: raw.id.clone() },
        kind: LinkKind::DerivedFrom,
    };
    let item = SensingItem {
        id: sensing_id,
        kind,
        body: raw.body.clone(),
        source_ref: raw.source.clone(),
    };
    (item, link)
}

// --------------------------------------------- sensemaking -> decisions

/// Only insights and hypotheses are worth a decision.
pub open spec fn decision_worthy(kind: SensingItemKind) -> bool {
    kind == SensingItemKind::Insight || kind == SensingItemKind::Hypothesis
}

pub(crate) fn is_decision_worthy(kind: SensingItemKind) -> (r: bool)
    ensures
        r == decision_worthy(kind),
{
    match kind {
        SensingItemKind::Insight => true,
        SensingItemKind::Hypothesis => true,
        _ => false,
    }
}

/// The decider recorded for an execution-side actor.
pub open spec fn decider_of(actor: ActorModel) -> DeciderModel {
    match actor {
        ActorModel::User => DeciderModel { kind: DeciderKind::User, id: "user"@ },
        ActorModel::Agent { name } => DeciderModel { kind: DeciderKind::Agent, id: name },
    }
}

fn dec_actor_from(a: &Actor) -> (r: Decider)
    ensures
        r@ == decider_of(a@),
{
    match a {
        Actor::User => Decider { kind: DeciderKind::User, id: String::from_str("user") },
        Actor::Agent { name } => Decider { kind: DeciderKind::Agent, id: name.clone() },
    }
}

/// The rationale recorded for a decision promoted from the sensing item `id`.
pub open spec fn rationale_of(id: Seq<char>) -> Seq<char> {
    "Promoted from sensing item "@ + id
}

/// The decision proposed from a decision-worthy sensing item.
pub open spec fn new_decision_of(sensing: SensingItemModel, actor: ActorModel) -> NewDecisionModel {
    NewDecisionModel {
        statement: sensing.body,
        decided_by: decider_of(actor),
        rationale: rationale_of(sensing.id),
        consequences: Seq::empty(),
        revisit_when: Seq::empty(),
        links: seq![DecisionLinkModel::Sensemaking { reference: sensing.id }],
    }
}

/// Hop 2: a decision-worthy sensing item becomes a proposed decision,
/// decided by `actor` and linked back to the sensing item; any other item
/// yields none.
pub fn decision_from_sensing(sensing: &SensingItem, actor: &Actor) -> (r: Option<NewDecision>)
    ensures
        match r {
            Some(d) => decision_worthy(sensing.kind) && d@ == new_decision_of(sensing@, actor@),
            None => !decision_worthy(sensing.kind),
        },
        r matches Some(d) ==> d.statement@ == sensing.body@ && d@.links == seq![
            DecisionLinkModel::Sensemaking { reference: sensing.id@ },
        ],
{
    if !is_decision_worthy(sensing.kind) {
        return None;
    }
    let mut rationale = String::from_str("Promoted from sensing item ");
    rationale.append(sensing.id.as_str());
    let mut links: Vec<DecisionLink> = Vec::new();
    links.push(DecisionLink::Sensemaking { reference: sensing.id.clone() });
    let d = NewDecision {
        statement: sensing.body.clone(),
        decided_by: dec_actor_from(actor),
        rationale,
        consequences: Vec::new(),
        revisit_when: String::new(),
        links,
    };
    assert(d@.links =~= seq![DecisionLinkModel::Sensemaking { reference: sensing.id@ }]);
    assert(d@.consequences =~= Seq::<Seq<char>>::empty());
    Some(d)
}

// ------------------------------------------------ decisions -> planning

/// The ids of a list of decisions.
pub open spec fn decision_ids(decisions: Seq<Decision>) -> Seq<Seq<char>> {
    decisions.map_values(|d: Decision| d.id@)
}

/// A brief that carries only the ids of the decisions it comes from; every
/// other field is left empty for the planner.
pub open spec fn brief_of(ids: Seq<Seq<char>>) -> PlanBriefModel {
    PlanBriefModel {
        goal: Seq::empty(),
        why_now: None,
        in_scope: Seq::empty(),
        out_of_scope: Seq::empty(),
        completion_criteria: Seq::empty(),
        daruma_target: Seq::empty(),
        risks: Seq::empty(),
        constraints: Seq::empty(),
        knowledge_base: Seq::empty(),
        rejected_alternatives: Seq::empty(),
        dependencies: Seq::empty(),
        required_artifacts: Seq::empty(),
        decisions_made: ids,
    }
}

/// Hop 3: decisions become a plan brief that records their ids in order.
pub fn brief_from_decisions(decisions: &[Decision]) -> (r: PlanBrief)
    ensures
        r@ == brief_of(decision_ids(decisions@)),
{
    let mut ids: Vec<String> = Vec::new();
    let n: usize = decisions.len();
    for i in 0..n
        invariant
            n == decisions@.len(),
            ids@.len() == i,
            forall|j: int| 0 <= j < i ==> ids@[j] == decisions@[j].id,
    {
        ids.push(decisions[i].id.clone());
    }
    assert(texts(ids@) =~= decision_ids(decisions@));
    let r = PlanBrief {
        goal: String::new(),
        why_now: None,
        in_scope: Vec::new(),
        out_of_scope: Vec::new(),
        completion_criteria: Vec::new(),
        daruma_target: String::new(),
        risks: Vec::new(),
        constraints: Vec::new(),
        knowledge_base: Vec::new(),
        rejected_alternatives: Vec::new(),
        dependencies: Vec::new(),
        required_artifacts: Vec::new(),
        decisions_made: ids,
    };
    assert(r@ =~= brief_of(decision_ids(decisions@)));
    r
}

// ------------------------------------------------- actions -> execution

/// The execution-side actor that owns a lowered plan.
pub open spec fn owner_of(owner: PlanOwnerModel) -> ActorModel {
    match owner.kind {
        OwnerKind::User => ActorModel::User,
        OwnerKind::Agent => ActorModel::Agent { name: owner.id },
    }
}

fn ta_actor_owner(a: &PlanOwner) -> (r: Actor)
    ensures
        r@ == owner_of(a@),
{
    match a.kind {
        OwnerKind::User => Actor::User,
        OwnerKind::Agent => Actor::Agent { name: a.id.clone() },
    }
}

/// A JSON array of the given JSON values, in compact form.
pub open spec fn json_array(items: Seq<Seq<char>>) -> Seq<char> {
    "["@ + joined(items, ","@) + "]"@
}

/// The JSON text of each link of a list.
pub open spec fn rendered_links(links: Seq<ProvenanceLinkModel>) -> Seq<Seq<char>> {
    links.map_values(|l: ProvenanceLinkModel| l.rendered)
}

/// The provenance of a lowered plan as a compact JSON object whose keys,
/// in order, hold its decision, knowledge and rejected-alternative links.
pub open spec fn source_brief_of(plan: LoweredPlanModel) -> Seq<char> {
    "{\"linked_decisions\":"@ + json_array(rendered_links(plan.linked_decisions))
        + ",\"linked_knowledge\":"@ + json_array(rendered_links(plan.linked_knowledge))
        + ",\"linked_rejected\":"@ + json_array(rendered_links(plan.linked_rejected)) + "}"@
}

/// The execution-side plan for a lowered plan, in the project `project_id`.
pub open spec fn new_plan_of(plan: LoweredPlanModel, project_id: Seq<char>) -> NewPlanModel {
    NewPlanModel {
        project_id: project_id,
        title: plan.title,
        owner: owner_of(plan.owner),
        description: None,
        goal: plan.goal,
        success_criteria: plan.success_criteria,
        parent_plan_id: None,
        source_brief: Some(source_brief_of(plan)),
    }
}

fn json_array_text(links: &Vec<ProvenanceLink>) -> (r: String)
    ensures
        r@ == json_array(rendered_links(provenance(links@))),
{
    let ghost items = rendered_links(provenance(links@));
    let mut r = String::from_str("[");
    let n: usize = links.len();
    for i in 0..n
        invariant
            n == links@.len(),
            items == rendered_links(provenance(links@)),
            r@ == "["@ + joined(items.take(i as int), ","@),
    {
        if i > 0 {
            r.append(",");
        }
        r.append(links[i].rendered.as_str());
        assert(items.take(i + 1).drop_last() =~= items.take(i as int));
        assert(items.take(1) =~= seq![items[0]]);
    }
    assert(items.take(n as int) =~= items);
    r.append("]");
    r
}

/// Shaping a plan for the execution layer: the plan joins the project
/// `project_id`, keeps its title, goal and criteria, passes to the owner's
/// execution-side actor, and carries the packet's provenance links, as JSON,
/// in `source_brief`.
pub fn lower_new_plan(src: LoweredPlan, project_id: String) -> (r: NewPlan)
    ensures
        r@ == new_plan_of(src@, project_id@),
{
    let mut brief = String::from_str("{\"linked_decisions\":");
    let decisions = json_array_text(&src.linked_decisions);
    brief.append(decisions.as_str());
    brief.append(",\"linked_knowledge\":");
    let knowledge = json_array_text(&src.linked_knowledge);
    brief.append(knowledge.as_str());
    brief.append(",\"linked_rejected\":");
    let rejected = json_array_text(&src.linked_rejected);
    brief.append(rejected.as_str());
    brief.append("}");
    let owner = ta_actor_owner(&src.owner);
    NewPlan {
        project_id,
        title: src.title,
        owner,
        description: None,
        goal: src.goal,
        success_criteria: src.success_criteria,
        parent_plan_id: None,
        source_brief: Some(brief),
    }
}

} // verus!
