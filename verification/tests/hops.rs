use meisei_pipeline::adapters::{
    brief_from_decisions, decision_from_sensing, lower_new_plan, sensing_from_raw,
};
use meisei_pipeline::artifacts::{
    ActionPacket, Actor, Decider, DeciderKind, Decision, DecisionLink, Gate, LinkKind,
    LoweredPlan, OwnerKind, PlanOwner, ProvenanceLink, RawItem, RawItemKind, SensingItem,
    SensingItemKind, SensingTarget,
};
use meisei_pipeline::pipeline::{enrich_brief, mature, project_from_packet};

fn raw(kind: RawItemKind) -> RawItem {
    RawItem {
        id: "ri_1".to_string(),
        kind,
        body: "body text".to_string(),
        source: "webhook://gh/push".to_string(),
    }
}

fn sensing(kind: SensingItemKind) -> SensingItem {
    SensingItem {
        id: "si_1".to_string(),
        kind,
        body: "Read latency spiked".to_string(),
        source_ref: "cli://x".to_string(),
    }
}

fn json_link(id: &str) -> ProvenanceLink {
    let mut m = serde_json::Map::new();
    m.insert("id".to_string(), serde_json::Value::String(id.to_string()));
    ProvenanceLink {
        id: id.to_string(),
        rendered: serde_json::to_string(&serde_json::Value::Object(m)).unwrap(),
    }
}

#[test]
fn raw_kinds_map_to_sensing_kinds() {
    let cases = [
        (RawItemKind::Event, SensingItemKind::Insight),
        (RawItemKind::Text, SensingItemKind::Hypothesis),
        (RawItemKind::Document, SensingItemKind::Knowledge),
        (RawItemKind::Reference, SensingItemKind::Knowledge),
        (RawItemKind::Binary, SensingItemKind::ResearchGap),
    ];
    for (raw_kind, sensing_kind) in cases {
        let (item, _) = sensing_from_raw(&raw(raw_kind), "si_5".to_string());
        assert_eq!(item.kind, sensing_kind);
    }
}

#[test]
fn sensing_item_and_link_come_from_the_raw_item() {
    let (item, link) = sensing_from_raw(&raw(RawItemKind::Event), "si_5".to_string());
    assert_eq!(item.id, "si_5");
    assert_eq!(item.body, "body text");
    assert_eq!(item.source_ref, "webhook://gh/push");
    assert_eq!(link.item, "si_5");
    assert_eq!(link.kind, LinkKind::DerivedFrom);
    match link.target {
        SensingTarget::RawItem { id } => assert_eq!(id, "ri_1"),
    }
}

#[test]
fn only_event_and_text_promote_to_a_decision() {
    for (kind, promotes) in [
        (RawItemKind::Event, true),
        (RawItemKind::Text, true),
        (RawItemKind::Document, false),
        (RawItemKind::Reference, false),
        (RawItemKind::Binary, false),
    ] {
        let (item, _) = sensing_from_raw(&raw(kind), "si_2".to_string());
        assert_eq!(decision_from_sensing(&item, &Actor::User).is_some(), promotes);
    }
    for kind in [SensingItemKind::Question, SensingItemKind::Risk] {
        assert!(decision_from_sensing(&sensing(kind), &Actor::User).is_none());
    }
}

#[test]
fn proposed_decision_links_back_to_sensing() {
    let d = decision_from_sensing(&sensing(SensingItemKind::Insight), &Actor::User).unwrap();
    assert_eq!(d.statement, "Read latency spiked");
    assert_eq!(d.rationale, "Promoted from sensing item si_1");
    assert_eq!(d.decided_by.kind, DeciderKind::User);
    assert_eq!(d.decided_by.id, "user");
    assert!(d.consequences.is_empty());
    assert!(d.revisit_when.is_empty());
    assert_eq!(d.links.len(), 1);
    match &d.links[0] {
        DecisionLink::Sensemaking { reference } => assert_eq!(reference, "si_1"),
        DecisionLink::Other => panic!("expected a sensemaking link"),
    }
}

#[test]
fn agent_decides_under_its_name() {
    let agent = Actor::Agent { name: "scout".to_string() };
    let d = decision_from_sensing(&sensing(SensingItemKind::Hypothesis), &agent).unwrap();
    let Decider { kind, id } = d.decided_by;
    assert_eq!(kind, DeciderKind::Agent);
    assert_eq!(id, "scout");
}

#[test]
fn brief_records_decision_ids_in_order() {
    let ds = vec![
        Decision { id: "de_1".to_string(), links: Vec::new() },
        Decision { id: "de_2".to_string(), links: vec![DecisionLink::Other] },
    ];
    let b = brief_from_decisions(&ds);
    assert_eq!(b.decisions_made, vec!["de_1".to_string(), "de_2".to_string()]);
    assert!(b.goal.is_empty());
    assert!(b.why_now.is_none());
    assert!(b.in_scope.is_empty() && b.risks.is_empty() && b.required_artifacts.is_empty());
    assert!(b.daruma_target.is_empty());
}

#[test]
fn enrich_brief_fills_planner_fields() {
    let ds = vec![Decision { id: "de_1".to_string(), links: Vec::new() }];
    let b = enrich_brief(brief_from_decisions(&ds));
    assert_eq!(b.goal, "Ship the lineage-traceable pipeline");
    assert_eq!(b.in_scope, vec!["Wire the five OSS layers end to end".to_string()]);
    assert_eq!(b.completion_criteria, vec!["cargo test green; lineage roundtrips".to_string()]);
    assert_eq!(b.daruma_target, "meisei pipeline plan");
    assert_eq!(b.why_now.as_deref(), Some("Prove Meisei object lineage end to end"));
    assert_eq!(b.risks, vec!["Provenance lost at a layer boundary".to_string()]);
    assert_eq!(b.constraints, vec!["No new business logic in the orchestrator".to_string()]);
    assert_eq!(b.knowledge_base, vec!["Meisei maturity pipeline canon".to_string()]);
    assert_eq!(b.rejected_alternatives, vec!["Mocking the chain instead of running it".to_string()]);
    assert_eq!(b.out_of_scope, vec!["Persisting to a real Daruma store".to_string()]);
    assert_eq!(b.dependencies, vec!["intake/sensemaking/decisions/planning/actions OSS".to_string()]);
    assert_eq!(b.required_artifacts, vec!["lineage test".to_string()]);
    assert_eq!(b.decisions_made, vec!["de_1".to_string()]);
}

#[test]
fn enrich_brief_keeps_a_goal_already_set() {
    let mut b = brief_from_decisions(&[]);
    b.goal = "Cut read latency".to_string();
    let b = enrich_brief(b);
    assert_eq!(b.goal, "Cut read latency");
    assert!(b.decisions_made.is_empty());
}

fn packet() -> ActionPacket {
    ActionPacket {
        goal: "Cut read latency".to_string(),
        why: "Users wait".to_string(),
        completion_criteria: vec!["p99 < 10ms".to_string()],
        linked_decisions: vec![json_link("de_1")],
        linked_knowledge: vec![json_link("kn_1")],
        linked_rejected: vec![json_link("rj_1"), json_link("rj_2")],
        expected_artifacts: vec!["old".to_string()],
        before_start: Vec::new(),
        before_complete: vec![Gate { rule: "old rule".to_string() }],
    }
}

#[test]
fn mature_fills_execution_fields_only() {
    let p = mature(packet());
    assert_eq!(p.expected_artifacts, vec!["NewPlan lowered for Daruma".to_string()]);
    assert_eq!(p.before_start.len(), 1);
    assert_eq!(p.before_start[0].rule, "brief is ready");
    assert_eq!(p.before_complete.len(), 1);
    assert_eq!(p.before_complete[0].rule, "cargo test green");
    assert_eq!(p.goal, "Cut read latency");
    assert_eq!(p.linked_decisions[0].id, "de_1");
    assert_eq!(p.linked_rejected.len(), 2);
}

#[test]
fn project_from_packet_keeps_provenance() {
    let p = packet();
    let pr = project_from_packet(&p);
    assert_eq!(pr.project_title, "Meisei pipeline");
    assert_eq!(pr.plan_title, "Cut read latency");
    assert_eq!(pr.goal, "Cut read latency");
    assert_eq!(pr.success_criteria, vec!["p99 < 10ms".to_string()]);
    assert_eq!(pr.tasks.len(), 1);
    assert_eq!(pr.tasks[0].title, "Run the lineage test");
    assert_eq!(pr.tasks[0].description, "Users wait");
    let ids = |v: &Vec<ProvenanceLink>| v.iter().map(|l| l.id.clone()).collect::<Vec<_>>();
    assert_eq!(ids(&pr.linked_decisions), vec!["de_1"]);
    assert_eq!(ids(&pr.linked_knowledge), vec!["kn_1"]);
    assert_eq!(ids(&pr.linked_rejected), vec!["rj_1", "rj_2"]);
}

fn lowered(kind: OwnerKind) -> LoweredPlan {
    LoweredPlan {
        title: "Cut read latency".to_string(),
        owner: PlanOwner { kind, id: "planner".to_string() },
        goal: "p99".to_string(),
        success_criteria: vec!["a".to_string(), "b".to_string()],
        linked_decisions: vec![json_link("de_1"), json_link("de \"2\"")],
        linked_knowledge: Vec::new(),
        linked_rejected: vec![json_link("rj_1")],
    }
}

#[test]
fn lower_new_plan_renders_provenance_as_serde_json_does() {
    let plan = lower_new_plan(lowered(OwnerKind::User), "pr_9".to_string());
    let as_value = |l: &ProvenanceLink| serde_json::from_str::<serde_json::Value>(&l.rendered).unwrap();
    let src = lowered(OwnerKind::User);
    let mut obj = serde_json::Map::new();
    obj.insert(
        "linked_decisions".to_string(),
        serde_json::Value::Array(src.linked_decisions.iter().map(as_value).collect()),
    );
    obj.insert(
        "linked_knowledge".to_string(),
        serde_json::Value::Array(src.linked_knowledge.iter().map(as_value).collect()),
    );
    obj.insert(
        "linked_rejected".to_string(),
        serde_json::Value::Array(src.linked_rejected.iter().map(as_value).collect()),
    );
    let expected = serde_json::to_string(&serde_json::Value::Object(obj)).unwrap();
    assert_eq!(plan.source_brief.as_deref(), Some(expected.as_str()));
    assert!(expected.contains("de_1"));
}

#[test]
fn lower_new_plan_shapes_the_plan() {
    let plan = lower_new_plan(lowered(OwnerKind::User), "pr_9".to_string());
    assert_eq!(plan.project_id, "pr_9");
    assert_eq!(plan.title, "Cut read latency");
    assert_eq!(plan.goal, "p99");
    assert_eq!(plan.success_criteria, vec!["a".to_string(), "b".to_string()]);
    assert!(plan.description.is_none());
    assert!(plan.parent_plan_id.is_none());
    assert!(matches!(plan.owner, Actor::User));
    let agent_plan = lower_new_plan(lowered(OwnerKind::Agent), "pr_9".to_string());
    match agent_plan.owner {
        Actor::Agent { name } => assert_eq!(name, "planner"),
        Actor::User => panic!("expected the agent owner"),
    }
}

#[test]
fn lower_new_plan_with_no_links() {
    let mut src = lowered(OwnerKind::User);
    src.linked_decisions.clear();
    src.linked_rejected.clear();
    let plan = lower_new_plan(src, "pr_0".to_string());
    assert_eq!(
        plan.source_brief.as_deref(),
        Some("{\"linked_decisions\":[],\"linked_knowledge\":[],\"linked_rejected\":[]}")
    );
}

#[test]
fn source_brief_reads_back_as_the_object_of_the_links() {
    let src = lowered(OwnerKind::Agent);
    let as_value = |l: &ProvenanceLink| serde_json::from_str::<serde_json::Value>(&l.rendered).unwrap();
    let mut expected = serde_json::Map::new();
    expected.insert(
        "linked_decisions".to_string(),
        serde_json::Value::Array(src.linked_decisions.iter().map(as_value).collect()),
    );
    expected.insert(
        "linked_knowledge".to_string(),
        serde_json::Value::Array(src.linked_knowledge.iter().map(as_value).collect()),
    );
    expected.insert(
        "linked_rejected".to_string(),
        serde_json::Value::Array(src.linked_rejected.iter().map(as_value).collect()),
    );
    let plan = lower_new_plan(src, "pr_4".to_string());
    let read_back: serde_json::Value = serde_json::from_str(&plan.source_brief.unwrap()).unwrap();
    assert_eq!(read_back, serde_json::Value::Object(expected));
}
