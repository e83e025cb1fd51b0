//! One run of the maturity pipeline: raw item -> sensing item -> decision
//! -> plan brief -> action packet -> plan for execution.
//!
//! The work each layer does for itself (minting a sensing item, promoting a
//! decision, planning actions, checking the maturity gate, lowering a plan)
//! is done by whoever drives the run. The decisions of the run are made
//! here: [`begin_run`] and [`advance_run`] take the state of the run and the
//! outcome of the last piece of layer work, and say what to do next, until
//! the run finishes with a [`PipelineRun`] or stops with a
//! [`PipelineError`].
use vstd::prelude::*;

use crate::adapters::{
    brief_from_decisions, brief_of, decision_from_sensing, decision_worthy, lower_new_plan,
    new_decision_of, new_plan_of, sensing_from_raw, sensing_kind_for, sensing_kind_of, sensing_of,
};
use crate::artifacts::{
    copy_links, copy_texts, texts, ActionPacket, ActionPacketModel, Actor, Decision,
    DecisionModel, Gate, HandoffProject, HandoffProjectModel, LoweredPlan, NewDecision, NewPlan,
    NewPlanModel, PlanBrief, PlanBriefModel, RawItem, RawItemModel, SensingItem,
    SensingItemKind, SensingItemModel, TaskCandidate, TaskCandidateModel,
};

verus! {

/// Why a run of the pipeline stopped before it reached execution. Both are
/// legitimate outcomes of the pipeline.
#[derive(Debug)]
pub enum PipelineError {
    /// The sensing item is not decision-worthy (a question, a risk, a piece
    /// of knowledge, ...) and so yields no decision.
    NotDecisionWorthy,
    /// An artifact failed a maturity check on the way.
    Immature(String),
}

/// Everything one run produced, kept together so that the lineage can be
/// walked from the final plan back to the raw item that seeded the run.
pub struct PipelineRun {
    /// The raw intake item that seeded the run.
    pub raw: RawItem,
    /// The sensing item derived from `raw`.
    pub sensing: SensingItem,
    /// The decision promoted from `sensing`.
    pub decision: Decision,
    /// The plan brief built from `decision`.
    pub brief: PlanBrief,
    /// The mature action packet planned from `brief`.
    pub packet: ActionPacket,
    /// The plan shaped for the execution layer.
    pub plan: NewPlan,
}

#[verifier::ext_equal]
pub struct PipelineRunModel {
    pub raw: RawItemModel,
    pub sensing: SensingItemModel,
    pub decision: DecisionModel,
    pub brief: PlanBriefModel,
    pub packet: ActionPacketModel,
    pub plan: NewPlanModel,
}

impl View for PipelineRun {
    type V = PipelineRunModel;

    open spec fn view(&self) -> PipelineRunModel {
        PipelineRunModel {
            raw: self.raw@,
            sensing: self.sensing@,
            decision: self.decision@,
            brief: self.brief@,
            packet: self.packet@,
            plan: self.plan@,
        }
    }
}

// ------------------------------------------------------ planner content

/// The brief with the planner-owned fields filled in: the goal only where it
/// is empty, every other planner field replaced, and the decisions it was
/// built from kept.
pub open spec fn enriched(b: PlanBriefModel) -> PlanBriefModel {
    PlanBriefModel {
        goal: if b.goal.len() == 0 {
            "Ship the lineage-traceable pipeline"@
        } else {
            b.goal
        },
        why_now: Some("Prove Meisei object lineage end to end"@),
        in_scope: seq!["Wire the five OSS layers end to end"@],
        out_of_scope: seq!["Persisting to a real Daruma store"@],
        completion_criteria: seq!["cargo test green; lineage roundtrips"@],
        daruma_target: "meisei pipeline plan"@,
        risks: seq!["Provenance lost at a layer boundary"@],
        constraints: seq!["No new business logic in the orchestrator"@],
        knowledge_base: seq!["Meisei maturity pipeline canon"@],
        rejected_alternatives: seq!["Mocking the chain instead of running it"@],
        dependencies: seq!["intake/sensemaking/decisions/planning/actions OSS"@],
        required_artifacts: seq!["lineage test"@],
        decisions_made: b.decisions_made,
    }
}

/// A list holding the single text `s`.
fn one_text(s: &str) -> (r: Vec<String>)
    ensures
        texts(r@) == seq![s@],
{
    let mut r: Vec<String> = Vec::new();
    r.push(String::from_str(s));
    assert(texts(r@) =~= seq![s@]);
    r
}

/// Deterministic content for the brief fields that the planner owns,
/// keeping the decisions the brief was built from.
pub fn enrich_brief(brief: PlanBrief) -> (r: PlanBrief)
    ensures
        r@ == enriched(brief@),
        r@.completion_criteria == seq!["cargo test green; lineage roundtrips"@],
        r@.why_now == Some("Prove Meisei object lineage end to end"@),
        r@.decisions_made == brief@.decisions_made,
{
    let ghost before = brief@;
    let mut brief = brief;
    if brief.goal.as_str().is_empty() {
        brief.goal = String::from_str("Ship the lineage-traceable pipeline");
    }
    brief.in_scope = one_text("Wire the five OSS layers end to end");
    brief.completion_criteria = one_text("cargo test green; lineage roundtrips");
    brief.daruma_target = String::from_str("meisei pipeline plan");
    brief.why_now = Some(String::from_str("Prove Meisei object lineage end to end"));
    brief.risks = one_text("Provenance lost at a layer boundary");
    brief.constraints = one_text("No new business logic in the orchestrator");
    brief.knowledge_base = one_text("Meisei maturity pipeline canon");
    brief.rejected_alternatives = one_text("Mocking the chain instead of running it");
    brief.out_of_scope = one_text("Persisting to a real Daruma store");
    brief.dependencies = one_text("intake/sensemaking/decisions/planning/actions OSS");
    brief.required_artifacts = one_text("lineage test");
    assert(brief@ =~= enriched(before));
    brief
}

/// The packet with its execution-only fields filled in: what it is
/// expected to produce and the gates before it starts and completes.
pub open spec fn matured(p: ActionPacketModel) -> ActionPacketModel {
    ActionPacketModel {
        expected_artifacts: seq!["NewPlan lowered for Daruma"@],
        before_start: seq!["brief is ready"@],
        before_complete: seq!["cargo test green"@],
        ..p
    }
}

/// A list holding the single gate with rule `rule`.
fn one_gate(rule: &str) -> (r: Vec<Gate>)
    ensures
        r@.len() == 1,
        r@[0]@ == rule@,
{
    let mut r: Vec<Gate> = Vec::new();
    r.push(Gate { rule: String::from_str(rule) });
    r
}

/// Deterministic content for the execution-only packet fields; every other
/// field, the provenance links among them, is kept.
pub fn mature(packet: ActionPacket) -> (r: ActionPacket)
    ensures
        r@ == matured(packet@),
        r@.goal == packet@.goal,
        r@.why == packet@.why,
        r@.completion_criteria == packet@.completion_criteria,
{
    let ghost before = packet@;
    let mut packet = packet;
    packet.expected_artifacts = one_text("NewPlan lowered for Daruma");
    packet.before_start = one_gate("brief is ready");
    packet.before_complete = one_gate("cargo test green");
    assert(packet@.before_start =~= seq!["brief is ready"@]);
    assert(packet@.before_complete =~= seq!["cargo test green"@]);
    assert(packet@ =~= matured(before));
    packet
}

/// The one project shaped from a packet: its goal, criteria and reason, and
/// all of its provenance links.
pub open spec fn project_of(p: ActionPacketModel) -> HandoffProjectModel {
    HandoffProjectModel {
        project_title: "Meisei pipeline"@,
        plan_title: p.goal,
        goal: p.goal,
        success_criteria: p.completion_criteria,
        tasks: seq![TaskCandidateModel { title: "Run the lineage test"@, description: p.why }],
        linked_decisions: p.linked_decisions,
        linked_knowledge: p.linked_knowledge,
        linked_rejected: p.linked_rejected,
    }
}

/// Shape the project handed to execution from a packet. Its provenance links
/// ride along, so that lineage survives the actions/execution boundary.
pub fn project_from_packet(packet: &ActionPacket) -> (r: HandoffProject)
    ensures
        r@ == project_of(packet@),
{
    let mut tasks: Vec<TaskCandidate> = Vec::new();
    tasks.push(
        TaskCandidate {
            title: String::from_str("Run the lineage test"),
            description: packet.why.clone(),
        },
    );
    let r = HandoffProject {
        project_title: String::from_str("Meisei pipeline"),
        plan_title: packet.goal.clone(),
        goal: packet.goal.clone(),
        success_criteria: copy_texts(&packet.completion_criteria),
        tasks,
        linked_decisions: copy_links(&packet.linked_decisions),
        linked_knowledge: copy_links(&packet.linked_knowledge),
        linked_rejected: copy_links(&packet.linked_rejected),
    };
    assert(r@.tasks =~= project_of(packet@).tasks);
    assert(r@ =~= project_of(packet@));
    r
}

// ---------------------------------------------------------------- a run

/// Where a run stands: what it has produced so far, and which piece of
/// layer work it waits for.
pub enum RunState {
    /// Waiting for a sensing item to be minted for `raw`.
    AwaitingSensing { raw: RawItem, actor: Actor },
    /// Waiting for the proposed decision to be promoted.
    AwaitingDecision { raw: RawItem, sensing: SensingItem },
    /// Waiting for the actions layer to plan a packet from `brief`.
    AwaitingPacket { raw: RawItem, sensing: SensingItem, decision: Decision, brief: PlanBrief },
    /// Waiting for the maturity gate to judge `packet` and `project`.
    AwaitingHandoff {
        raw: RawItem,
        sensing: SensingItem,
        decision: Decision,
        brief: PlanBrief,
        packet: ActionPacket,
        project: HandoffProject,
    },
    /// Waiting for the actions layer to lower the project into a plan.
    AwaitingPlan {
        raw: RawItem,
        sensing: SensingItem,
        decision: Decision,
        brief: PlanBrief,
        packet: ActionPacket,
    },
    /// The run has finished or stopped.
    Ended,
}

/// The outcome of the piece of layer work a run asked for.
pub enum RunEvent {
    /// A sensing item was minted with this id.
    SensingMinted { id: String },
    /// The proposed decision was promoted, or refused with this description
    /// of the refusal.
    DecisionPromoted(Result<Decision, String>),
    /// The actions layer planned this packet from the brief.
    PacketPlanned(ActionPacket),
    /// The maturity gate let the packet through, or refused it with this
    /// message.
    HandoffChecked(Result<(), String>),
    /// The actions layer lowered the project into this plan, and the project
    /// on the execution side was minted with this id.
    PlanLowered { plan: LoweredPlan, project_id: String },
}

/// What a run asks for next.
pub enum RunAction {
    /// Mint a sensing item of this kind and body, sourced from this
    /// external reference.
    MintSensing { kind: SensingItemKind, body: String, source_ref: String },
    /// Promote this proposed decision.
    PromoteDecision(NewDecision),
    /// Plan an action packet from this brief.
    PlanActions(PlanBrief),
    /// Put this packet, with this one project, through the maturity gate.
    CheckHandoff { packet: ActionPacket, project: HandoffProject },
    /// Lower this project into a plan.
    LowerPlan(HandoffProject),
    /// The run is complete.
    Finish(PipelineRun),
    /// The run stops here.
    Stop(PipelineError),
}

/// `sensing` is the sensing item derived from `raw` (under its own id).
pub open spec fn derived_from(sensing: SensingItemModel, raw: RawItemModel) -> bool {
    sensing == sensing_of(raw, sensing.id)
}

/// The brief handed to planning for one promoted decision.
pub open spec fn brief_for(decision: DecisionModel) -> PlanBriefModel {
    enriched(brief_of(seq![decision.id]))
}

/// The packet's execution-only fields are filled in.
pub open spec fn is_mature(packet: ActionPacketModel) -> bool {
    packet == matured(packet)
}

/// What a finished run records of its own lineage: the sensing item is
/// derived from the raw item, the brief carries the id of the decision, and
/// the packet is mature.
pub open spec fn traces_back(run: PipelineRunModel) -> bool {
    &&& derived_from(run.sensing, run.raw)
    &&& run.brief == brief_for(run.decision)
    &&& is_mature(run.packet)
}

impl RunState {
    /// The raw item that seeded the run, while it runs.
    pub open spec fn seed(&self) -> Option<RawItemModel> {
        match self {
            RunState::AwaitingSensing { raw, .. } => Some(raw@),
            RunState::AwaitingDecision { raw, .. } => Some(raw@),
            RunState::AwaitingPacket { raw, .. } => Some(raw@),
            RunState::AwaitingHandoff { raw, .. } => Some(raw@),
            RunState::AwaitingPlan { raw, .. } => Some(raw@),
            RunState::Ended => None,
        }
    }

    /// What the run has produced so far traces back to its seed.
    pub open spec fn consistent(&self) -> bool {
        match self {
            RunState::AwaitingSensing { .. } => true,
            RunState::AwaitingDecision { raw, sensing } => derived_from(sensing@, raw@),
            RunState::AwaitingPacket { raw, sensing, decision, brief } => {
                &&& derived_from(sensing@, raw@)
                &&& brief@ == brief_for(decision@)
            },
            RunState::AwaitingHandoff { raw, sensing, decision, brief, packet, project } => {
                &&& derived_from(sensing@, raw@)
                &&& brief@ == brief_for(decision@)
                &&& is_mature(packet@)
                &&& project@ == project_of(packet@)
            },
            RunState::AwaitingPlan { raw, sensing, decision, brief, packet } => {
                &&& derived_from(sensing@, raw@)
                &&& brief@ == brief_for(decision@)
                &&& is_mature(packet@)
            },
            RunState::Ended => true,
        }
    }

    /// The run waits for exactly this kind of outcome.
    pub open spec fn expects(&self, event: &RunEvent) -> bool {
        match self {
            RunState::AwaitingSensing { .. } => event is SensingMinted,
            RunState::AwaitingDecision { .. } => event is DecisionPromoted,
            RunState::AwaitingPacket { .. } => event is PacketPlanned,
            RunState::AwaitingHandoff { .. } => event is HandoffChecked,
            RunState::AwaitingPlan { .. } => event is PlanLowered,
            RunState::Ended => false,
        }
    }

    /// Whether the run waits for this kind of outcome.
    pub fn accepts(&self, event: &RunEvent) -> (r: bool)
        ensures
            r == self.expects(event),
    {
        match self {
            RunState::AwaitingSensing { .. } => matches!(event, RunEvent::SensingMinted { .. }),
            RunState::AwaitingDecision { .. } => matches!(event, RunEvent::DecisionPromoted(_)),
            RunState::AwaitingPacket { .. } => matches!(event, RunEvent::PacketPlanned(_)),
            RunState::AwaitingHandoff { .. } => matches!(event, RunEvent::HandoffChecked(_)),
            RunState::AwaitingPlan { .. } => matches!(event, RunEvent::PlanLowered { .. }),
            RunState::Ended => false,
        }
    }
}

/// Start a run on `raw`, with `actor` recorded as the decider: first, a
/// sensing item is minted from the raw item.
pub fn begin_run(raw: RawItem, actor: Actor) -> (r: (RunState, RunAction))
    ensures
        r.0 == (RunState::AwaitingSensing { raw, actor }),
        r.1 matches RunAction::MintSensing { kind, body, source_ref } && kind == sensing_kind_of(
            raw.kind,
        ) && body@ == raw.body@ && source_ref@ == raw.source@,
        r.0.consistent(),
        r.0.seed() == Some(raw@),
{
    let kind = sensing_kind_for(raw.kind);
    let body = raw.body.clone();
    let source_ref = raw.source.clone();
    (RunState::AwaitingSensing { raw, actor }, RunAction::MintSensing { kind, body, source_ref })
}

/// Take one step of a run: given the outcome of the layer work it waited
/// for, say what it waits for next, or how it ends.
///
/// - A decision-worthy sensing item is proposed as a decision; any other
///   stops the run cleanly with `NotDecisionWorthy`.
/// - A promoted decision yields the brief for planning; a refused one stops
///   the run as immature, with `decision: ` before the refusal.
/// - A planned packet is matured and shaped into one project for the maturity check.
/// - The maturity check guards the crossing into execution: a refused packet
///   stops the run as immature with the check's message, never forced through.
/// - A lowered plan is shaped for execution and the run finishes.
pub fn advance_run(state: RunState, event: RunEvent) -> (r: (RunState, RunAction))
    requires
        state.expects(&event),
    ensures
        match state {
            RunState::AwaitingSensing { raw, actor } => event matches RunEvent::SensingMinted { id }
                && if decision_worthy(sensing_kind_of(raw.kind)) {
                &&& r.0 matches RunState::AwaitingDecision { raw: raw2, sensing: s2 } && raw2
                    == raw && s2@ == sensing_of(raw@, id@)
                &&& r.1 matches RunAction::PromoteDecision(d) && d@ == new_decision_of(
                    sensing_of(raw@, id@),
                    actor@,
                )
            } else {
                &&& r.0 is Ended
                &&& r.1 matches RunAction::Stop(e) && e is NotDecisionWorthy
            },
            RunState::AwaitingDecision { raw, sensing } => event matches RunEvent::DecisionPromoted(
                res,
            ) && match res {
                Ok(decision) => {
                    &&& r.0 matches RunState::AwaitingPacket {
                        raw: raw2,
                        sensing: s2,
                        decision: d2,
                        brief: b2,
                    } && raw2 == raw && s2 == sensing && d2 == decision && b2@ == brief_for(
                        decision@,
                    )
                    &&& r.1 matches RunAction::PlanActions(b) && b@ == brief_for(decision@)
                },
                Err(refusal) => {
                    &&& r.0 is Ended
                    &&& r.1 matches RunAction::Stop(e) && e matches PipelineError::Immature(m)
                        && m@ == "decision: "@ + refusal@
                },
            },
            RunState::AwaitingPacket { raw, sensing, decision, brief } => event matches RunEvent::PacketPlanned(p) && {
                &&& r.0 matches RunState::AwaitingHandoff {
                    raw: raw2,
                    sensing: s2,
                    decision: d2,
                    brief: b2,
                    packet: p2,
                    project: pr2,
                } && raw2 == raw && s2 == sensing && d2 == decision && b2 == brief && p2@
                    == matured(p@) && pr2@ == project_of(matured(p@))
                &&& r.1 matches RunAction::CheckHandoff { packet: p3, project: pr3 } && p3@
                    == matured(p@) && pr3@ == project_of(matured(p@))
            },
            RunState::AwaitingHandoff { raw, sensing, decision, brief, packet, project } => event matches RunEvent::HandoffChecked(res) && match res {
                Ok(_) => {
                    &&& r.0 == (RunState::AwaitingPlan { raw, sensing, decision, brief, packet })
                    &&& r.1 == RunAction::LowerPlan(project)
                },
                Err(message) => {
                    &&& r.0 is Ended
                    &&& r.1 == RunAction::Stop(PipelineError::Immature(message))
                },
            },
            RunState::AwaitingPlan { raw, sensing, decision, brief, packet } => event matches RunEvent::PlanLowered { plan, project_id } && {
                &&& r.0 is Ended
                &&& r.1 matches RunAction::Finish(run) && run.raw == raw && run.sensing == sensing
                    && run.decision == decision && run.brief == brief && run.packet == packet
                    && run.plan@ == new_plan_of(plan@, project_id@)
            },
            RunState::Ended => false,
        },
        state.consistent() ==> r.0.consistent(),
        state.consistent() ==> (r.1 matches RunAction::Finish(run) ==> traces_back(run@)),
        !(r.0 is Ended) ==> r.0.seed() == state.seed(),
        r.1 matches RunAction::Finish(run) ==> state.seed() == Some(run.raw@),
{
    match state {
        RunState::AwaitingSensing { raw, actor } => {
            let id = match event {
                RunEvent::SensingMinted { id } => id,
                _ => {
                    proof {
                        assert(false);
                    }
                    return (RunState::Ended, RunAction::Stop(PipelineError::NotDecisionWorthy));
                },
            };
            let (sensing, _link) = sensing_from_raw(&raw, id);
            match decision_from_sensing(&sensing, &actor) {
                Some(proposed) => (
                    RunState::AwaitingDecision { raw, sensing },
                    RunAction::PromoteDecision(proposed),
                ),
                None => (RunState::Ended, RunAction::Stop(PipelineError::NotDecisionWorthy)),
            }
        },
        RunState::AwaitingDecision { raw, sensing } => {
            let res = match event {
                RunEvent::DecisionPromoted(res) => res,
                _ => {
                    proof {
                        assert(false);
                    }
                    return (RunState::Ended, RunAction::Stop(PipelineError::NotDecisionWorthy));
                },
            };
            match res {
                Ok(decision) => {
                    let mut decisions: Vec<Decision> = Vec::new();
                    decisions.push(decision);
                    let made = brief_from_decisions(decisions.as_slice());
                    let brief = enrich_brief(made);
                    let decision = match decisions.pop() {
                        Some(d) => d,
                        None => {
                            proof {
                                assert(false);
                            }
                            return (
                                RunState::Ended,
                                RunAction::Stop(PipelineError::NotDecisionWorthy),
                            );
                        },
                    };
                    let planned = brief.duplicate();
                    (
                        RunState::AwaitingPacket { raw, sensing, decision, brief },
                        RunAction::PlanActions(planned),
                    )
                },
                Err(refusal) => {
                    let mut message = String::from_str("decision: ");
                    message.append(refusal.as_str());
                    (RunState::Ended, RunAction::Stop(PipelineError::Immature(message)))
                },
            }
        },
        RunState::AwaitingPacket { raw, sensing, decision, brief } => {
            let planned = match event {
                RunEvent::PacketPlanned(p) => p,
                _ => {
                    proof {
                        assert(false);
                    }
                    return (RunState::Ended, RunAction::Stop(PipelineError::NotDecisionWorthy));
                },
            };
            let packet = mature(planned);
            let project = project_from_packet(&packet);
            let gated_packet = packet.duplicate();
            let gated_project = project.duplicate();
            (
                RunState::AwaitingHandoff { raw, sensing, decision, brief, packet, project },
                RunAction::CheckHandoff { packet: gated_packet, project: gated_project },
            )
        },
        RunState::AwaitingHandoff { raw, sensing, decision, brief, packet, project } => {
            let res = match event {
                RunEvent::HandoffChecked(res) => res,
                _ => {
                    proof {
                        assert(false);
                    }
                    return (RunState::Ended, RunAction::Stop(PipelineError::NotDecisionWorthy));
                },
            };
            match res {
                Ok(()) => (
                    RunState::AwaitingPlan { raw, sensing, decision, brief, packet },
                    RunAction::LowerPlan(project),
                ),
                Err(message) => (RunState::Ended, RunAction::Stop(PipelineError::Immature(message))),
            }
        },
        RunState::AwaitingPlan { raw, sensing, decision, brief, packet } => {
            let (lowered, project_id) = match event {
                RunEvent::PlanLowered { plan, project_id } => (plan, project_id),
                _ => {
                    proof {
                        assert(false);
                    }
                    return (RunState::Ended, RunAction::Stop(PipelineError::NotDecisionWorthy));
                },
            };
            let plan = lower_new_plan(lowered, project_id);
            (
                RunState::Ended,
                RunAction::Finish(PipelineRun { raw, sensing, decision, brief, packet, plan }),
            )
        },
        RunState::Ended => {
            proof {
                assert(false);
            }
            (RunState::Ended, RunAction::Stop(PipelineError::NotDecisionWorthy))
        },
    }
}

} // verus!
