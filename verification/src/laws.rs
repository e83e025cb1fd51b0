//! What each hop and each piece of content the pipeline fills in produces,
//! stated field by field over all inputs.
use vstd::prelude::*;

use crate::adapters::{
    brief_of, decision_ids, new_decision_of, new_plan_of, sensing_kind_of, sensing_link_of, sensing_of,
};
use crate::artifacts::{
    ActionPacketModel, ActorModel, Decision, DeciderKind, DeciderModel, DecisionLinkModel, DecisionModel,
    LinkKind, LoweredPlanModel, OwnerKind, PlanBriefModel, ProvenanceLinkModel, RawItemKind,
    RawItemModel, SensingItemKind, SensingItemModel, SensingTargetModel, TaskCandidateModel,
};
use crate::pipeline::{brief_for, enriched, matured, project_of};
use crate::text::{
    clipped, first_sensing_reference, joined, link_ids, trim_end, trim_start, trimmed, white_space,
};

verus! {

/// Each raw kind becomes its sensing kind: an event an insight, a text a
/// hypothesis, a document or a reference knowledge, a binary a research gap.
pub proof fn law_sensing_kinds(kind: RawItemKind)
    ensures
        kind == RawItemKind::Event ==> sensing_kind_of(kind) == SensingItemKind::Insight,
        kind == RawItemKind::Text ==> sensing_kind_of(kind) == SensingItemKind::Hypothesis,
        kind == RawItemKind::Document ==> sensing_kind_of(kind) == SensingItemKind::Knowledge,
        kind == RawItemKind::Reference ==> sensing_kind_of(kind) == SensingItemKind::Knowledge,
        kind == RawItemKind::Binary ==> sensing_kind_of(kind) == SensingItemKind::ResearchGap,
{
}

/// The sensing item derived from a raw item has the minted id, the raw
/// item's body and source, and the kind of the raw item's kind; its link
/// goes from that id to the raw item, as derived from it.
pub proof fn law_sensing_item(raw: RawItemModel, id: Seq<char>)
    ensures
        sensing_of(raw, id).id == id,
        sensing_of(raw, id).body == raw.body,
        sensing_of(raw, id).source_ref == raw.source,
        sensing_of(raw, id).kind == sensing_kind_of(raw.kind),
        sensing_link_of(raw, id).item == id,
        sensing_link_of(raw, id).target == (SensingTargetModel::RawItem { id: raw.id }),
        sensing_link_of(raw, id).kind == LinkKind::DerivedFrom,
{
}

/// A proposed decision states the sensing item's body unchanged, is decided
/// by the actor (the user as `user`, an agent under its name), gives as its
/// rationale that it was promoted from the sensing item, has no
/// consequences and no revisit condition, and links to the sensing item
/// alone.
pub proof fn law_proposed_decision(sensing: SensingItemModel, actor: ActorModel)
    ensures
        new_decision_of(sensing, actor).statement == sensing.body,
        new_decision_of(sensing, actor).rationale == "Promoted from sensing item "@ + sensing.id,
        new_decision_of(sensing, actor).consequences.len() == 0,
        new_decision_of(sensing, actor).revisit_when.len() == 0,
        new_decision_of(sensing, actor).links.len() == 1,
        new_decision_of(sensing, actor).links[0] == (DecisionLinkModel::Sensemaking {
            reference: sensing.id,
        }),
        actor is User ==> new_decision_of(sensing, actor).decided_by == (DeciderModel {
            kind: DeciderKind::User,
            id: "user"@,
        }),
        actor matches ActorModel::Agent { name } ==> new_decision_of(sensing, actor).decided_by
            == (DeciderModel { kind: DeciderKind::Agent, id: name }),
{
}

/// A brief built from decisions carries their ids, in order, and nothing
/// else.
pub proof fn law_brief_from_ids(ids: Seq<Seq<char>>)
    ensures
        brief_of(ids).decisions_made == ids,
        brief_of(ids).goal.len() == 0,
        brief_of(ids).why_now is None,
        brief_of(ids).in_scope.len() == 0,
        brief_of(ids).out_of_scope.len() == 0,
        brief_of(ids).completion_criteria.len() == 0,
        brief_of(ids).daruma_target.len() == 0,
        brief_of(ids).risks.len() == 0,
        brief_of(ids).constraints.len() == 0,
        brief_of(ids).knowledge_base.len() == 0,
        brief_of(ids).rejected_alternatives.len() == 0,
        brief_of(ids).dependencies.len() == 0,
        brief_of(ids).required_artifacts.len() == 0,
{
}

/// Filling in the planner-owned fields sets every one of them, whatever the
/// brief holds; only the goal is kept where one is already set, and the
/// decisions are kept.
pub proof fn law_enrich_fills_planner_fields(b: PlanBriefModel)
    ensures
        b.goal.len() == 0 ==> enriched(b).goal == "Ship the lineage-traceable pipeline"@,
        b.goal.len() != 0 ==> enriched(b).goal == b.goal,
        enriched(b).why_now == Some("Prove Meisei object lineage end to end"@),
        enriched(b).in_scope == seq!["Wire the five OSS layers end to end"@],
        enriched(b).out_of_scope == seq!["Persisting to a real Daruma store"@],
        enriched(b).completion_criteria == seq!["cargo test green; lineage roundtrips"@],
        enriched(b).daruma_target == "meisei pipeline plan"@,
        enriched(b).risks == seq!["Provenance lost at a layer boundary"@],
        enriched(b).constraints == seq!["No new business logic in the orchestrator"@],
        enriched(b).knowledge_base == seq!["Meisei maturity pipeline canon"@],
        enriched(b).rejected_alternatives == seq!["Mocking the chain instead of running it"@],
        enriched(b).dependencies == seq!["intake/sensemaking/decisions/planning/actions OSS"@],
        enriched(b).required_artifacts == seq!["lineage test"@],
        enriched(b).decisions_made == b.decisions_made,
{
}

/// The brief a run hands to planning for a promoted decision has the
/// default goal, every planner field filled in, and that decision's id as
/// its one decision.
pub proof fn law_brief_for_decision(d: DecisionModel)
    ensures
        brief_for(d).goal == "Ship the lineage-traceable pipeline"@,
        brief_for(d).why_now == Some("Prove Meisei object lineage end to end"@),
        brief_for(d).in_scope == seq!["Wire the five OSS layers end to end"@],
        brief_for(d).out_of_scope == seq!["Persisting to a real Daruma store"@],
        brief_for(d).completion_criteria == seq!["cargo test green; lineage roundtrips"@],
        brief_for(d).daruma_target == "meisei pipeline plan"@,
        brief_for(d).risks == seq!["Provenance lost at a layer boundary"@],
        brief_for(d).constraints == seq!["No new business logic in the orchestrator"@],
        brief_for(d).knowledge_base == seq!["Meisei maturity pipeline canon"@],
        brief_for(d).rejected_alternatives == seq!["Mocking the chain instead of running it"@],
        brief_for(d).dependencies == seq!["intake/sensemaking/decisions/planning/actions OSS"@],
        brief_for(d).required_artifacts == seq!["lineage test"@],
        brief_for(d).decisions_made == seq![d.id],
{
}

/// Maturing a packet replaces only its execution-only fields; the goal, the
/// reason, the completion criteria and every provenance link are kept.
pub proof fn law_mature_keeps_planned_fields(p: ActionPacketModel)
    ensures
        matured(p).goal == p.goal,
        matured(p).why == p.why,
        matured(p).completion_criteria == p.completion_criteria,
        matured(p).linked_decisions == p.linked_decisions,
        matured(p).linked_knowledge == p.linked_knowledge,
        matured(p).linked_rejected == p.linked_rejected,
        matured(p).expected_artifacts == seq!["NewPlan lowered for Daruma"@],
        matured(p).before_start == seq!["brief is ready"@],
        matured(p).before_complete == seq!["cargo test green"@],
{
}

/// The project shaped from a packet is titled `Meisei pipeline`, takes the
/// packet's goal as its goal and plan title and the packet's completion
/// criteria as its success criteria, has one task whose description is the
/// packet's reason, and carries all of the packet's links.
pub proof fn law_project_from_packet(p: ActionPacketModel)
    ensures
        project_of(p).project_title == "Meisei pipeline"@,
        project_of(p).plan_title == p.goal,
        project_of(p).goal == p.goal,
        project_of(p).success_criteria == p.completion_criteria,
        project_of(p).tasks.len() == 1,
        project_of(p).tasks[0] == (TaskCandidateModel {
            title: "Run the lineage test"@,
            description: p.why,
        }),
        project_of(p).linked_decisions == p.linked_decisions,
        project_of(p).linked_knowledge == p.linked_knowledge,
        project_of(p).linked_rejected == p.linked_rejected,
        project_of(matured(p)).success_criteria == p.completion_criteria,
        project_of(matured(p)).goal == p.goal,
{
}

/// The JSON text of each link of a list, in order.
pub open spec fn link_texts(links: Seq<ProvenanceLinkModel>) -> Seq<Seq<char>> {
    Seq::new(links.len(), |i: int| links[i].rendered)
}

/// The plan shaped for execution joins the given project, keeps the lowered
/// plan's title, goal and success criteria, has no description and no
/// parent, is owned by the user or by the agent of the owner's id, and its
/// source brief is the JSON object whose three arrays hold, in order, the
/// JSON text of exactly the plan's decision, knowledge and rejected links.
pub proof fn law_lowered_plan(plan: LoweredPlanModel, project_id: Seq<char>)
    ensures
        new_plan_of(plan, project_id).project_id == project_id,
        new_plan_of(plan, project_id).title == plan.title,
        new_plan_of(plan, project_id).goal == plan.goal,
        new_plan_of(plan, project_id).success_criteria == plan.success_criteria,
        new_plan_of(plan, project_id).description is None,
        new_plan_of(plan, project_id).parent_plan_id is None,
        plan.owner.kind == OwnerKind::User ==> new_plan_of(plan, project_id).owner is User,
        plan.owner.kind == OwnerKind::Agent ==> new_plan_of(plan, project_id).owner == (
        ActorModel::Agent { name: plan.owner.id }),
        new_plan_of(plan, project_id).source_brief == Some(
            "{\"linked_decisions\":"@ + "["@ + joined(link_texts(plan.linked_decisions), ","@)
                + "]"@ + ",\"linked_knowledge\":"@ + "["@ + joined(
                link_texts(plan.linked_knowledge),
                ","@,
            ) + "]"@ + ",\"linked_rejected\":"@ + "["@ + joined(
                link_texts(plan.linked_rejected),
                ","@,
            ) + "]"@ + "}"@,
        ),
{
    let d = link_texts(plan.linked_decisions);
    let k = link_texts(plan.linked_knowledge);
    let r = link_texts(plan.linked_rejected);
    assert(d =~= plan.linked_decisions.map_values(|l: ProvenanceLinkModel| l.rendered));
    assert(k =~= plan.linked_knowledge.map_values(|l: ProvenanceLinkModel| l.rendered));
    assert(r =~= plan.linked_rejected.map_values(|l: ProvenanceLinkModel| l.rendered));
    let s = new_plan_of(plan, project_id).source_brief->0;
    assert(s =~= "{\"linked_decisions\":"@ + "["@ + joined(d, ","@) + "]"@ + ",\"linked_knowledge\":"@
        + "["@ + joined(k, ","@) + "]"@ + ",\"linked_rejected\":"@ + "["@ + joined(r, ","@) + "]"@
        + "}"@);
}

/// Text is already trimmed when it is empty or starts and ends with a
/// character that is not whitespace.
proof fn lemma_trimmed_fixed(x: Seq<char>)
    requires
        x.len() == 0 || (!white_space(x[0]) && !white_space(x.last())),
    ensures
        trimmed(x) == x,
{
}

/// What `trim_start` leaves is a suffix that is empty or starts with a
/// character that is not whitespace.
proof fn lemma_trim_start_shape(s: Seq<char>)
    ensures
        trim_start(s).len() <= s.len(),
        trim_start(s) == s.subrange(s.len() - trim_start(s).len(), s.len() as int),
        trim_start(s).len() == 0 || !white_space(trim_start(s)[0]),
        forall|j: int| 0 <= j < s.len() - trim_start(s).len() ==> white_space(#[trigger] s[j]),
    decreases s.len(),
{
    if s.len() > 0 && white_space(s[0]) {
        lemma_trim_start_shape(s.drop_first());
        assert forall|j: int| 0 <= j < s.len() - trim_start(s).len() implies white_space(
            #[trigger] s[j],
        ) by {
            if j > 0 {
                assert(s[j] == s.drop_first()[j - 1]);
            }
        }
        assert(s.drop_first().subrange(
            s.drop_first().len() - trim_start(s).len(),
            s.drop_first().len() as int,
        ) =~= s.subrange(s.len() - trim_start(s).len(), s.len() as int));
    } else {
        assert(s.subrange(0, s.len() as int) =~= s);
    }
}

/// What `trim_end` leaves is a prefix that is empty or ends with a
/// character that is not whitespace.
proof fn lemma_trim_end_shape(s: Seq<char>)
    ensures
        trim_end(s).len() <= s.len(),
        trim_end(s) == s.take(trim_end(s).len() as int),
        trim_end(s).len() == 0 || !white_space(trim_end(s).last()),
        forall|j: int| trim_end(s).len() <= j < s.len() ==> white_space(#[trigger] s[j]),
    decreases s.len(),
{
    if s.len() > 0 && white_space(s.last()) {
        lemma_trim_end_shape(s.drop_last());
        assert forall|j: int| trim_end(s).len() <= j < s.len() implies white_space(
            #[trigger] s[j],
        ) by {
            if j < s.len() - 1 {
                assert(s[j] == s.drop_last()[j]);
            }
        }
        assert(s.drop_last().take(trim_end(s).len() as int) =~= s.take(
            trim_end(s).len() as int,
        ));
    } else {
        assert(s.take(s.len() as int) =~= s);
    }
}

/// Trimmed text is empty, or starts and ends with a character that is not
/// whitespace.
proof fn lemma_trimmed_shape(s: Seq<char>)
    ensures
        trimmed(s).len() == 0 || (!white_space(trimmed(s)[0]) && !white_space(
            trimmed(s).last(),
        )),
{
    lemma_trim_start_shape(s);
    lemma_trim_end_shape(trim_start(s));
    let t = trim_start(s);
    if trimmed(s).len() > 0 {
        assert(trimmed(s)[0] == t.take(trimmed(s).len() as int)[0]);
    }
}

/// Clipping clipped text changes nothing.
pub proof fn law_clip_idempotent(s: Seq<char>)
    ensures
        clipped(clipped(s)) == clipped(s),
{
    let t = trimmed(s);
    lemma_trimmed_shape(s);
    if t.len() <= 60 {
        lemma_trimmed_fixed(t);
    } else {
        reveal_strlit("...");
        let u = t.take(57) + "..."@;
        assert(u[0] == t[0]);
        assert(u.last() == '.');
        assert(!white_space('.'));
        lemma_trimmed_fixed(u);
    }
}


/// `s` trims to its piece from `a` to `b`: everything before `a` and from
/// `b` on is whitespace, and the piece is empty or starts and ends with a
/// character that is not whitespace.
pub open spec fn trims_to(s: Seq<char>, a: int, b: int) -> bool {
    &&& 0 <= a <= b <= s.len()
    &&& forall|j: int| 0 <= j < a ==> white_space(#[trigger] s[j])
    &&& forall|j: int| b <= j < s.len() ==> white_space(#[trigger] s[j])
    &&& a < b ==> !white_space(s[a]) && !white_space(s[b - 1])
}

/// Trimming removes exactly the whitespace at both ends: the trimmed text is
/// the piece of the text that is left when the leading and trailing
/// whitespace is cut off.
pub proof fn law_trimmed_cuts_end_whitespace(s: Seq<char>)
    ensures
        exists|a: int, b: int| #[trigger] trims_to(s, a, b) && trimmed(s) == s.subrange(a, b),
{
    lemma_trim_start_shape(s);
    let t = trim_start(s);
    lemma_trim_end_shape(t);
    let a = s.len() - t.len();
    let b = a + trim_end(t).len();
    assert(trimmed(s) =~= s.subrange(a, b));
    assert forall|j: int| b <= j < s.len() implies white_space(#[trigger] s[j]) by {
        assert(s[j] == t[j - a]);
    }
    if a < b {
        assert(s[a] == trimmed(s)[0]);
        assert(s[b - 1] == trimmed(s).last());
    }
    assert(trims_to(s, a, b));
}

/// Clipping keeps trimmed text of at most sixty characters; longer text
/// becomes its first fifty-seven characters followed by three dots, sixty
/// characters in all.
pub proof fn law_clipped(s: Seq<char>)
    ensures
        trimmed(s).len() <= 60 ==> clipped(s) == trimmed(s),
        trimmed(s).len() > 60 ==> clipped(s).len() == 60 && clipped(s).take(57) == trimmed(
            s,
        ).take(57) && clipped(s).subrange(57, 60) == seq!['.', '.', '.'],
{
    reveal_strlit("...");
    if trimmed(s).len() > 60 {
        assert(clipped(s).take(57) =~= trimmed(s).take(57));
        assert(clipped(s).subrange(57, 60) =~= seq!['.', '.', '.']);
    }
}

/// Joining nothing gives nothing, joining one text gives that text, and
/// joining one more text adds the separator and that text.
pub proof fn law_joined(items: Seq<Seq<char>>, sep: Seq<char>, x: Seq<char>)
    ensures
        items.len() == 0 ==> joined(items, sep).len() == 0,
        items.len() == 1 ==> joined(items, sep) == items[0],
        items.len() > 0 ==> joined(items.push(x), sep) == joined(items, sep) + sep + x,
{
    assert(items.push(x).drop_last() =~= items);
}

/// The reference found for a decision's links is that of its first
/// sensemaking link, every link before it linking elsewhere; none is found
/// exactly when no link is a sensemaking link.
pub proof fn law_first_sensing_reference(links: Seq<DecisionLinkModel>)
    ensures
        first_sensing_reference(links) matches Some(r) ==> exists|i: int|
            0 <= i < links.len() && #[trigger] links[i] == (DecisionLinkModel::Sensemaking {
                reference: r,
            }) && forall|j: int| 0 <= j < i ==> links[j] is Other,
        first_sensing_reference(links) is None ==> forall|i: int|
            0 <= i < links.len() ==> #[trigger] links[i] is Other,
    decreases links.len(),
{
    if links.len() > 0 {
        law_first_sensing_reference(links.drop_first());
        match links[0] {
            DecisionLinkModel::Sensemaking { reference } => {
                assert(links[0] == (DecisionLinkModel::Sensemaking { reference }));
            },
            DecisionLinkModel::Other => {
                if let Some(r) = first_sensing_reference(links) {
                    let i = choose|i: int|
                        0 <= i < links.drop_first().len() && #[trigger] links.drop_first()[i]
                            == (DecisionLinkModel::Sensemaking { reference: r }) && forall|j: int|
                            0 <= j < i ==> links.drop_first()[j] is Other;
                    assert(links[i + 1] == links.drop_first()[i]);
                    assert forall|j: int| 0 <= j < i + 1 implies links[j] is Other by {
                        if j > 0 {
                            assert(links[j] == links.drop_first()[j - 1]);
                        }
                    }
                } else {
                    assert forall|i: int| 0 <= i < links.len() implies #[trigger] links[i] is Other by {
                        if i > 0 {
                            assert(links[i] == links.drop_first()[i - 1]);
                        }
                    }
                }
            },
        }
    }
}

/// The ids listed for a packet's links are the links' ids, in order.
pub proof fn law_link_ids(links: Seq<ProvenanceLinkModel>)
    ensures
        link_ids(links).len() == links.len(),
        forall|i: int| 0 <= i < links.len() ==> #[trigger] link_ids(links)[i] == links[i].id,
{
}

/// The ids recorded for decisions are the decisions' ids, in order.
pub proof fn law_decision_ids(decisions: Seq<Decision>)
    ensures
        decision_ids(decisions).len() == decisions.len(),
        forall|i: int|
            0 <= i < decisions.len() ==> #[trigger] decision_ids(decisions)[i] == decisions[i].id@,
{
}

} // verus!
