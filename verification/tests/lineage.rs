//! Run the whole maturity pipeline through its steps, with the layers' own
//! work done by small stand-ins, and check that the object lineage can be
//! walked backwards from the plan to the originating raw item.

use meisei_pipeline::adapters::{lower_new_plan, sensing_from_raw};
use meisei_pipeline::artifacts::{
    ActionPacket, Actor, Decision, LoweredPlan, OwnerKind, PlanBrief, PlanOwner, ProvenanceLink,
    RawItem, RawItemKind, SensingTarget,
};
use meisei_pipeline::pipeline::{advance_run, begin_run, RunAction, RunEvent, RunState};
use meisei_pipeline::text::sensing_reference;
use meisei_pipeline::{PipelineError, PipelineRun};

fn raw_item(id: &str, kind: RawItemKind, source: &str, body: &str) -> RawItem {
    RawItem { id: id.to_string(), kind, body: body.to_string(), source: source.to_string() }
}

fn link(id: &str) -> ProvenanceLink {
    let mut m = serde_json::Map::new();
    m.insert("id".to_string(), serde_json::Value::String(id.to_string()));
    ProvenanceLink {
        id: id.to_string(),
        rendered: serde_json::to_string(&serde_json::Value::Object(m)).unwrap(),
    }
}

/// A planning stand-in: one packet per brief, linked to every decision the
/// brief was built from.
fn plan_packet(brief: &PlanBrief) -> ActionPacket {
    ActionPacket {
        goal: brief.goal.clone(),
        why: brief.why_now.clone().unwrap_or_default(),
        completion_criteria: brief.completion_criteria.clone(),
        linked_decisions: brief.decisions_made.iter().map(|d| link(d)).collect(),
        linked_knowledge: Vec::new(),
        linked_rejected: Vec::new(),
        expected_artifacts: Vec::new(),
        before_start: Vec::new(),
        before_complete: Vec::new(),
    }
}

/// Drive a run to its end, doing each layer's work with a stand-in.
fn drive(raw: RawItem, actor: Actor) -> Result<PipelineRun, PipelineError> {
    let (mut state, mut action) = begin_run(raw, actor);
    loop {
        let event = match action {
            RunAction::MintSensing { .. } => RunEvent::SensingMinted { id: "si_7".to_string() },
            RunAction::PromoteDecision(d) => RunEvent::DecisionPromoted(Ok(Decision {
                id: "de_3".to_string(),
                links: d.links,
            })),
            RunAction::PlanActions(brief) => RunEvent::PacketPlanned(plan_packet(&brief)),
            RunAction::CheckHandoff { .. } => RunEvent::HandoffChecked(Ok(())),
            RunAction::LowerPlan(project) => RunEvent::PlanLowered {
                plan: LoweredPlan {
                    title: project.plan_title,
                    owner: PlanOwner { kind: OwnerKind::User, id: "user".to_string() },
                    goal: project.goal,
                    success_criteria: project.success_criteria,
                    linked_decisions: project.linked_decisions,
                    linked_knowledge: project.linked_knowledge,
                    linked_rejected: project.linked_rejected,
                },
                project_id: "pr_1".to_string(),
            },
            RunAction::Finish(run) => return Ok(run),
            RunAction::Stop(e) => return Err(e),
        };
        assert!(state.accepts(&event));
        let (next, next_action) = advance_run(state, event);
        state = next;
        action = next_action;
    }
}

#[test]
fn lineage_traces_newplan_back_to_raw_item() {
    // An `Event` raw item maps to an insight, a sensing kind that promotes
    // to a decision: the spine of the lineage traced here.
    let raw = raw_item(
        "ri_1",
        RawItemKind::Event,
        "webhook://gh/push",
        "Read latency spiked after the cache eviction change",
    );
    let raw_id = raw.id.clone();

    let PipelineRun { raw, sensing, decision, brief, packet, plan } =
        drive(raw, Actor::User).expect("the Event/Insight item must mature into a plan");

    assert!(!plan.title.is_empty(), "pipeline must lower a real NewPlan");
    assert_eq!(raw.id, raw_id, "the seed RawItem is preserved");

    // Plan / packet -> decision.
    assert!(
        packet.linked_decisions.iter().any(|l| l.id == decision.id),
        "ActionPacket.linked_decisions must contain the source Decision id"
    );
    assert!(
        brief.decisions_made.iter().any(|id| *id == decision.id),
        "PlanBrief.decisions_made must carry the Decision id"
    );
    assert!(
        plan.source_brief.as_deref().is_some_and(|b| b.contains(&decision.id)),
        "NewPlan.source_brief must carry the Decision id across the boundary"
    );

    // Decision -> sensing item.
    let recovered_si_id = sensing_reference(&decision)
        .expect("Decision.links must hold a Sensemaking provenance link");
    assert_eq!(recovered_si_id, sensing.id);

    // Sensing item -> raw item: the link produced alongside the sensing item
    // targets the originating raw item.
    let (_re_sensing, sensing_link) = sensing_from_raw(&raw, sensing.id.clone());
    let recovered_raw_id = match sensing_link.target {
        SensingTarget::RawItem { id } => id,
    };
    assert_eq!(recovered_raw_id, raw_id);
}

#[test]
fn non_decision_worthy_input_stops_at_sensemaking() {
    // A `Document` maps to knowledge, which is not decision-worthy: the run
    // stops cleanly instead of forcing a decision out of it.
    let raw = raw_item("ri_2", RawItemKind::Document, "cli://test", "API reference for the storage layer");

    match drive(raw, Actor::User) {
        Err(PipelineError::NotDecisionWorthy) => {}
        Err(e) => panic!("expected NotDecisionWorthy, got {e:?}"),
        Ok(_) => panic!("knowledge must not promote to a decision"),
    }
}

#[test]
fn finished_run_keeps_each_hop() {
    let raw = raw_item("ri_9", RawItemKind::Text, "cli://meisei", "Caching helps");
    let run = drive(raw, Actor::Agent { name: "planner".to_string() }).unwrap();
    assert_eq!(run.sensing.id, "si_7");
    assert_eq!(run.sensing.body, "Caching helps");
    assert_eq!(run.sensing.source_ref, "cli://meisei");
    assert_eq!(run.brief.decisions_made, vec!["de_3".to_string()]);
    assert_eq!(run.brief.goal, "Ship the lineage-traceable pipeline");
    assert_eq!(run.packet.expected_artifacts, vec!["NewPlan lowered for Daruma".to_string()]);
    assert_eq!(run.plan.project_id, "pr_1");
    assert_eq!(
        run.plan.source_brief.as_deref(),
        Some("{\"linked_decisions\":[{\"id\":\"de_3\"}],\"linked_knowledge\":[],\"linked_rejected\":[]}")
    );
}

#[test]
fn run_state_accepts_only_the_awaited_outcome() {
    let raw = raw_item("ri_3", RawItemKind::Event, "cli://x", "x");
    let (state, _) = begin_run(raw, Actor::User);
    assert!(state.accepts(&RunEvent::SensingMinted { id: "si".to_string() }));
    assert!(!state.accepts(&RunEvent::HandoffChecked(Ok(()))));
    assert!(!RunState::Ended.accepts(&RunEvent::SensingMinted { id: "si".to_string() }));
}

#[test]
fn source_brief_carries_every_decision_id() {
    let plan = LoweredPlan {
        title: "t".to_string(),
        owner: PlanOwner { kind: OwnerKind::User, id: "user".to_string() },
        goal: "g".to_string(),
        success_criteria: Vec::new(),
        linked_decisions: vec![link("de_1"), link("de_2"), link("de_3")],
        linked_knowledge: vec![link("kn_1")],
        linked_rejected: Vec::new(),
    };
    let lowered = lower_new_plan(plan, "pr_2".to_string());
    let brief = lowered.source_brief.unwrap();
    for id in ["de_1", "de_2", "de_3", "kn_1"] {
        assert!(brief.contains(id));
    }
}
