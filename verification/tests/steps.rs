use meisei_pipeline::artifacts::{
    ActionPacket, Actor, Decision, DecisionLink, RawItem, RawItemKind, SensingItemKind,
};
use meisei_pipeline::pipeline::{advance_run, begin_run, RunAction, RunEvent, RunState};
use meisei_pipeline::PipelineError;

fn raw(kind: RawItemKind) -> RawItem {
    RawItem {
        id: "ri_1".to_string(),
        kind,
        body: "Read latency spiked".to_string(),
        source: "cli://meisei".to_string(),
    }
}

fn to_decision(kind: RawItemKind) -> RunState {
    let (state, action) = begin_run(raw(kind), Actor::User);
    match action {
        RunAction::MintSensing { kind, body, source_ref } => {
            assert_eq!(kind, SensingItemKind::Insight);
            assert_eq!(body, "Read latency spiked");
            assert_eq!(source_ref, "cli://meisei");
        }
        _ => panic!("a run starts by minting a sensing item"),
    }
    let (state, action) = advance_run(state, RunEvent::SensingMinted { id: "si_1".to_string() });
    match action {
        RunAction::PromoteDecision(d) => {
            assert_eq!(d.rationale, "Promoted from sensing item si_1");
        }
        _ => panic!("an insight is proposed as a decision"),
    }
    state
}

#[test]
fn refused_decision_stops_as_immature() {
    let state = to_decision(RawItemKind::Event);
    let (state, action) =
        advance_run(state, RunEvent::DecisionPromoted(Err("MissingRationale".to_string())));
    assert!(matches!(state, RunState::Ended));
    match action {
        RunAction::Stop(PipelineError::Immature(m)) => assert_eq!(m, "decision: MissingRationale"),
        _ => panic!("expected an immature stop"),
    }
}

fn packet() -> ActionPacket {
    ActionPacket {
        goal: "g".to_string(),
        why: "w".to_string(),
        completion_criteria: Vec::new(),
        linked_decisions: Vec::new(),
        linked_knowledge: Vec::new(),
        linked_rejected: Vec::new(),
        expected_artifacts: Vec::new(),
        before_start: Vec::new(),
        before_complete: Vec::new(),
    }
}

#[test]
fn gate_refusal_is_never_forced() {
    let state = to_decision(RawItemKind::Event);
    let decision = Decision {
        id: "de_1".to_string(),
        links: vec![DecisionLink::Sensemaking { reference: "si_1".to_string() }],
    };
    let (state, action) = advance_run(state, RunEvent::DecisionPromoted(Ok(decision)));
    match action {
        RunAction::PlanActions(b) => assert_eq!(b.decisions_made, vec!["de_1".to_string()]),
        _ => panic!("a promoted decision is planned"),
    }
    let (state, action) = advance_run(state, RunEvent::PacketPlanned(packet()));
    match action {
        RunAction::CheckHandoff { packet, project } => {
            assert_eq!(packet.expected_artifacts, vec!["NewPlan lowered for Daruma".to_string()]);
            assert_eq!(project.goal, "g");
        }
        _ => panic!("a planned packet goes through the maturity check"),
    }
    let (state, action) = advance_run(
        state,
        RunEvent::HandoffChecked(Err("packet is not mature: before_start is empty".to_string())),
    );
    assert!(matches!(state, RunState::Ended));
    match action {
        RunAction::Stop(PipelineError::Immature(m)) => {
            assert_eq!(m, "packet is not mature: before_start is empty")
        }
        _ => panic!("a refused packet stops the run"),
    }
}

#[test]
fn passed_gate_asks_to_lower_the_project() {
    let state = to_decision(RawItemKind::Event);
    let decision = Decision { id: "de_1".to_string(), links: Vec::new() };
    let (state, _) = advance_run(state, RunEvent::DecisionPromoted(Ok(decision)));
    let (state, _) = advance_run(state, RunEvent::PacketPlanned(packet()));
    let (state, action) = advance_run(state, RunEvent::HandoffChecked(Ok(())));
    assert!(matches!(state, RunState::AwaitingPlan { .. }));
    match action {
        RunAction::LowerPlan(project) => assert_eq!(project.project_title, "Meisei pipeline"),
        _ => panic!("a passed packet is lowered"),
    }
}
