//! The artifacts that travel through the maturity pipeline, one family per
//! layer, held as plain values: what the hops read and what they write.
//!
//! Every type has a view (`@`) into a mathematical model in which text is a
//! `Seq<char>` and lists are `Seq`s; the contracts of the hops are stated
//! over those models.
use vstd::prelude::*;

verus! {

/// The text held by each string of a list.
pub open spec fn texts(v: Seq<String>) -> Seq<Seq<char>> {
    v.map_values(|s: String| s@)
}

// ---------------------------------------------------------------- intake

/// What kind of raw material an intake item is.
#[derive(Clone, Copy, Debug, PartialEq, Eq, Structural)]
pub enum RawItemKind {
    Event,
    Text,
    Document,
    Reference,
    Binary,
}

/// A raw intake scrap: the single entry point for raw material.
pub struct RawItem {
    /// The item's id, in its textual form.
    pub id: String,
    pub kind: RawItemKind,
    pub body: String,
    /// Where the material came from (a URI such as `webhook://gh/push`).
    pub source: String,
}

#[verifier::ext_equal]
pub struct RawItemModel {
    pub id: Seq<char>,
    pub kind: RawItemKind,
    pub body: Seq<char>,
    pub source: Seq<char>,
}

impl View for RawItem {
    type V = RawItemModel;

    open spec fn view(&self) -> RawItemModel {
        RawItemModel { id: self.id@, kind: self.kind, body: self.body@, source: self.source@ }
    }
}

// ----------------------------------------------------------- sensemaking

/// What a sensing item claims to be.
#[derive(Clone, Copy, Debug, PartialEq, Eq, Structural)]
pub enum SensingItemKind {
    Insight,
    Hypothesis,
    Knowledge,
    ResearchGap,
    Question,
    Risk,
}

/// A unit of understanding derived from raw material.
pub struct SensingItem {
    /// The id minted for the item when it was created.
    pub id: String,
    pub kind: SensingItemKind,
    pub body: String,
    /// The external reference the item is sourced from.
    pub source_ref: String,
}

#[verifier::ext_equal]
pub struct SensingItemModel {
    pub id: Seq<char>,
    pub kind: SensingItemKind,
    pub body: Seq<char>,
    pub source_ref: Seq<char>,
}

impl View for SensingItem {
    type V = SensingItemModel;

    open spec fn view(&self) -> SensingItemModel {
        SensingItemModel {
            id: self.id@,
            kind: self.kind,
            body: self.body@,
            source_ref: self.source_ref@,
        }
    }
}

/// What a sensing link points at.
pub enum SensingTarget {
    /// The raw intake item with this id.
    RawItem { id: String },
}

#[verifier::ext_equal]
pub enum SensingTargetModel {
    RawItem { id: Seq<char> },
}

impl View for SensingTarget {
    type V = SensingTargetModel;

    open spec fn view(&self) -> SensingTargetModel {
        match self {
            SensingTarget::RawItem { id } => SensingTargetModel::RawItem { id: id@ },
        }
    }
}

/// How a sensing item relates to the target of a link.
#[derive(Clone, Copy, Debug, PartialEq, Eq, Structural)]
pub enum LinkKind {
    DerivedFrom,
}

/// A provenance link from a sensing item to where it came from.
pub struct SensingLink {
    /// The id of the sensing item the link starts at.
    pub item: String,
    pub target: SensingTarget,
    pub kind: LinkKind,
}

#[verifier::ext_equal]
pub struct SensingLinkModel {
    pub item: Seq<char>,
    pub target: SensingTargetModel,
    pub kind: LinkKind,
}

impl View for SensingLink {
    type V = SensingLinkModel;

    open spec fn view(&self) -> SensingLinkModel {
        SensingLinkModel { item: self.item@, target: self.target@, kind: self.kind }
    }
}

// ------------------------------------------------------------- execution

/// Who acts on the execution side: the user, or a named agent.
pub enum Actor {
    User,
    Agent { name: String },
}

#[verifier::ext_equal]
pub enum ActorModel {
    User,
    Agent { name: Seq<char> },
}

impl View for Actor {
    type V = ActorModel;

    open spec fn view(&self) -> ActorModel {
        match self {
            Actor::User => ActorModel::User,
            Actor::Agent { name } => ActorModel::Agent { name: name@ },
        }
    }
}

/// A plan handed to the execution layer.
pub struct NewPlan {
    pub project_id: String,
    pub title: String,
    pub owner: Actor,
    pub description: Option<String>,
    pub goal: String,
    pub success_criteria: Vec<String>,
    pub parent_plan_id: Option<String>,
    /// The provenance links of the plan, as a JSON object.
    pub source_brief: Option<String>,
}

/// The text held by an optional string.
pub open spec fn opt_text(o: Option<String>) -> Option<Seq<char>> {
    match o {
        Some(s) => Some(s@),
        None => None,
    }
}

#[verifier::ext_equal]
pub struct NewPlanModel {
    pub project_id: Seq<char>,
    pub title: Seq<char>,
    pub owner: ActorModel,
    pub description: Option<Seq<char>>,
    pub goal: Seq<char>,
    pub success_criteria: Seq<Seq<char>>,
    pub parent_plan_id: Option<Seq<char>>,
    pub source_brief: Option<Seq<char>>,
}

impl View for NewPlan {
    type V = NewPlanModel;

    open spec fn view(&self) -> NewPlanModel {
        NewPlanModel {
            project_id: self.project_id@,
            title: self.title@,
            owner: self.owner@,
            description: opt_text(self.description),
            goal: self.goal@,
            success_criteria: texts(self.success_criteria@),
            parent_plan_id: opt_text(self.parent_plan_id),
            source_brief: opt_text(self.source_brief),
        }
    }
}

// ------------------------------------------------------------- decisions

/// Whether the decider is a person or an agent.
#[derive(Clone, Copy, Debug, PartialEq, Eq, Structural)]
pub enum DeciderKind {
    User,
    Agent,
}

/// Who made a decision.
pub struct Decider {
    pub kind: DeciderKind,
    pub id: String,
}

#[verifier::ext_equal]
pub struct DeciderModel {
    pub kind: DeciderKind,
    pub id: Seq<char>,
}

impl View for Decider {
    type V = DeciderModel;

    open spec fn view(&self) -> DeciderModel {
        DeciderModel { kind: self.kind, id: self.id@ }
    }
}

/// A provenance link of a decision.
pub enum DecisionLink {
    /// The sensing item, by id, that the decision was promoted from.
    Sensemaking { reference: String },
    /// A link to anything other than a sensing item.
    Other,
}

#[verifier::ext_equal]
pub enum DecisionLinkModel {
    Sensemaking { reference: Seq<char> },
    Other,
}

impl View for DecisionLink {
    type V = DecisionLinkModel;

    open spec fn view(&self) -> DecisionLinkModel {
        match self {
            DecisionLink::Sensemaking { reference } => DecisionLinkModel::Sensemaking {
                reference: reference@,
            },
            DecisionLink::Other => DecisionLinkModel::Other,
        }
    }
}

/// The links of a decision, each by its view.
pub open spec fn decision_links(v: Seq<DecisionLink>) -> Seq<DecisionLinkModel> {
    v.map_values(|l: DecisionLink| l@)
}

/// A decision proposed for promotion; its id and time are minted when it
/// is promoted.
pub struct NewDecision {
    pub statement: String,
    pub decided_by: Decider,
    pub rationale: String,
    pub consequences: Vec<String>,
    pub revisit_when: String,
    pub links: Vec<DecisionLink>,
}

#[verifier::ext_equal]
pub struct NewDecisionModel {
    pub statement: Seq<char>,
    pub decided_by: DeciderModel,
    pub rationale: Seq<char>,
    pub consequences: Seq<Seq<char>>,
    pub revisit_when: Seq<char>,
    pub links: Seq<DecisionLinkModel>,
}

impl View for NewDecision {
    type V = NewDecisionModel;

    open spec fn view(&self) -> NewDecisionModel {
        NewDecisionModel {
            statement: self.statement@,
            decided_by: self.decided_by@,
            rationale: self.rationale@,
            consequences: texts(self.consequences@),
            revisit_when: self.revisit_when@,
            links: decision_links(self.links@),
        }
    }
}

/// A promoted decision: its minted id and its provenance links.
pub struct Decision {
    pub id: String,
    pub links: Vec<DecisionLink>,
}

#[verifier::ext_equal]
pub struct DecisionModel {
    pub id: Seq<char>,
    pub links: Seq<DecisionLinkModel>,
}

impl View for Decision {
    type V = DecisionModel;

    open spec fn view(&self) -> DecisionModel {
        DecisionModel { id: self.id@, links: decision_links(self.links@) }
    }
}

// -------------------------------------------------------------- planning

/// A plan brief: what the planning layer works from.
pub struct PlanBrief {
    pub goal: String,
    pub why_now: Option<String>,
    pub in_scope: Vec<String>,
    pub out_of_scope: Vec<String>,
    pub completion_criteria: Vec<String>,
    pub daruma_target: String,
    pub risks: Vec<String>,
    pub constraints: Vec<String>,
    pub knowledge_base: Vec<String>,
    pub rejected_alternatives: Vec<String>,
    pub dependencies: Vec<String>,
    pub required_artifacts: Vec<String>,
    /// The ids of the decisions the brief was built from.
    pub decisions_made: Vec<String>,
}

#[verifier::ext_equal]
pub struct PlanBriefModel {
    pub goal: Seq<char>,
    pub why_now: Option<Seq<char>>,
    pub in_scope: Seq<Seq<char>>,
    pub out_of_scope: Seq<Seq<char>>,
    pub completion_criteria: Seq<Seq<char>>,
    pub daruma_target: Seq<char>,
    pub risks: Seq<Seq<char>>,
    pub constraints: Seq<Seq<char>>,
    pub knowledge_base: Seq<Seq<char>>,
    pub rejected_alternatives: Seq<Seq<char>>,
    pub dependencies: Seq<Seq<char>>,
    pub required_artifacts: Seq<Seq<char>>,
    pub decisions_made: Seq<Seq<char>>,
}

impl View for PlanBrief {
    type V = PlanBriefModel;

    open spec fn view(&self) -> PlanBriefModel {
        PlanBriefModel {
            goal: self.goal@,
            why_now: opt_text(self.why_now),
            in_scope: texts(self.in_scope@),
            out_of_scope: texts(self.out_of_scope@),
            completion_criteria: texts(self.completion_criteria@),
            daruma_target: self.daruma_target@,
            risks: texts(self.risks@),
            constraints: texts(self.constraints@),
            knowledge_base: texts(self.knowledge_base@),
            rejected_alternatives: texts(self.rejected_alternatives@),
            dependencies: texts(self.dependencies@),
            required_artifacts: texts(self.required_artifacts@),
            decisions_made: texts(self.decisions_made@),
        }
    }
}

// --------------------------------------------------------------- actions

/// A provenance link carried by an action packet: the id of the artifact it
/// points at, and the whole link as JSON text.
pub struct ProvenanceLink {
    pub id: String,
    pub rendered: String,
}

#[verifier::ext_equal]
pub struct ProvenanceLinkModel {
    pub id: Seq<char>,
    pub rendered: Seq<char>,
}

impl View for ProvenanceLink {
    type V = ProvenanceLinkModel;

    open spec fn view(&self) -> ProvenanceLinkModel {
        ProvenanceLinkModel { id: self.id@, rendered: self.rendered@ }
    }
}

/// Each link of a list, by its view.
pub open spec fn provenance(v: Seq<ProvenanceLink>) -> Seq<ProvenanceLinkModel> {
    v.map_values(|l: ProvenanceLink| l@)
}

/// A gate an action must pass; its view is its rule.
pub struct Gate {
    pub rule: String,
}

impl View for Gate {
    type V = Seq<char>;

    open spec fn view(&self) -> Seq<char> {
        self.rule@
    }
}

/// The rule of each gate of a list.
pub open spec fn gate_rules(v: Seq<Gate>) -> Seq<Seq<char>> {
    v.map_values(|g: Gate| g@)
}

/// An action packet: the maturity boundary before execution.
pub struct ActionPacket {
    pub goal: String,
    pub why: String,
    pub completion_criteria: Vec<String>,
    pub linked_decisions: Vec<ProvenanceLink>,
    pub linked_knowledge: Vec<ProvenanceLink>,
    pub linked_rejected: Vec<ProvenanceLink>,
    pub expected_artifacts: Vec<String>,
    pub before_start: Vec<Gate>,
    pub before_complete: Vec<Gate>,
}

#[verifier::ext_equal]
pub struct ActionPacketModel {
    pub goal: Seq<char>,
    pub why: Seq<char>,
    pub completion_criteria: Seq<Seq<char>>,
    pub linked_decisions: Seq<ProvenanceLinkModel>,
    pub linked_knowledge: Seq<ProvenanceLinkModel>,
    pub linked_rejected: Seq<ProvenanceLinkModel>,
    pub expected_artifacts: Seq<Seq<char>>,
    pub before_start: Seq<Seq<char>>,
    pub before_complete: Seq<Seq<char>>,
}

impl View for ActionPacket {
    type V = ActionPacketModel;

    open spec fn view(&self) -> ActionPacketModel {
        ActionPacketModel {
            goal: self.goal@,
            why: self.why@,
            completion_criteria: texts(self.completion_criteria@),
            linked_decisions: provenance(self.linked_decisions@),
            linked_knowledge: provenance(self.linked_knowledge@),
            linked_rejected: provenance(self.linked_rejected@),
            expected_artifacts: texts(self.expected_artifacts@),
            before_start: gate_rules(self.before_start@),
            before_complete: gate_rules(self.before_complete@),
        }
    }
}

/// A task proposed for the execution layer.
pub struct TaskCandidate {
    pub title: String,
    pub description: String,
}

#[verifier::ext_equal]
pub struct TaskCandidateModel {
    pub title: Seq<char>,
    pub description: Seq<char>,
}

impl View for TaskCandidate {
    type V = TaskCandidateModel;

    open spec fn view(&self) -> TaskCandidateModel {
        TaskCandidateModel { title: self.title@, description: self.description@ }
    }
}

/// Each task of a list, by its view.
pub open spec fn task_models(v: Seq<TaskCandidate>) -> Seq<TaskCandidateModel> {
    v.map_values(|t: TaskCandidate| t@)
}

/// One project handed across the actions/execution boundary.
pub struct HandoffProject {
    pub project_title: String,
    pub plan_title: String,
    pub goal: String,
    pub success_criteria: Vec<String>,
    pub tasks: Vec<TaskCandidate>,
    pub linked_decisions: Vec<ProvenanceLink>,
    pub linked_knowledge: Vec<ProvenanceLink>,
    pub linked_rejected: Vec<ProvenanceLink>,
}

#[verifier::ext_equal]
pub struct HandoffProjectModel {
    pub project_title: Seq<char>,
    pub plan_title: Seq<char>,
    pub goal: Seq<char>,
    pub success_criteria: Seq<Seq<char>>,
    pub tasks: Seq<TaskCandidateModel>,
    pub linked_decisions: Seq<ProvenanceLinkModel>,
    pub linked_knowledge: Seq<ProvenanceLinkModel>,
    pub linked_rejected: Seq<ProvenanceLinkModel>,
}

impl View for HandoffProject {
    type V = HandoffProjectModel;

    open spec fn view(&self) -> HandoffProjectModel {
        HandoffProjectModel {
            project_title: self.project_title@,
            plan_title: self.plan_title@,
            goal: self.goal@,
            success_criteria: texts(self.success_criteria@),
            tasks: task_models(self.tasks@),
            linked_decisions: provenance(self.linked_decisions@),
            linked_knowledge: provenance(self.linked_knowledge@),
            linked_rejected: provenance(self.linked_rejected@),
        }
    }
}

/// Whether the owner of a lowered plan is the user or an agent.
#[derive(Clone, Copy, Debug, PartialEq, Eq, Structural)]
pub enum OwnerKind {
    User,
    Agent,
}

/// The owner of a plan lowered by the actions layer.
pub struct PlanOwner {
    pub kind: OwnerKind,
    pub id: String,
}

#[verifier::ext_equal]
pub struct PlanOwnerModel {
    pub kind: OwnerKind,
    pub id: Seq<char>,
}

impl View for PlanOwner {
    type V = PlanOwnerModel;

    open spec fn view(&self) -> PlanOwnerModel {
        PlanOwnerModel { kind: self.kind, id: self.id@ }
    }
}

/// The plan the actions layer lowers from a handoff project, before it is
/// shaped for the execution layer.
pub struct LoweredPlan {
    pub title: String,
    pub owner: PlanOwner,
    pub goal: String,
    pub success_criteria: Vec<String>,
    pub linked_decisions: Vec<ProvenanceLink>,
    pub linked_knowledge: Vec<ProvenanceLink>,
    pub linked_rejected: Vec<ProvenanceLink>,
}

#[verifier::ext_equal]
pub struct LoweredPlanModel {
    pub title: Seq<char>,
    pub owner: PlanOwnerModel,
    pub goal: Seq<char>,
    pub success_criteria: Seq<Seq<char>>,
    pub linked_decisions: Seq<ProvenanceLinkModel>,
    pub linked_knowledge: Seq<ProvenanceLinkModel>,
    pub linked_rejected: Seq<ProvenanceLinkModel>,
}

impl View for LoweredPlan {
    type V = LoweredPlanModel;

    open spec fn view(&self) -> LoweredPlanModel {
        LoweredPlanModel {
            title: self.title@,
            owner: self.owner@,
            goal: self.goal@,
            success_criteria: texts(self.success_criteria@),
            linked_decisions: provenance(self.linked_decisions@),
            linked_knowledge: provenance(self.linked_knowledge@),
            linked_rejected: provenance(self.linked_rejected@),
        }
    }
}

// ---------------------------------------------------------------- copies

/// A copy of a list of strings.
pub fn copy_texts(v: &Vec<String>) -> (r: Vec<String>)
    ensures
        r@ == v@,
{
    let mut r: Vec<String> = Vec::new();
    let n: usize = v.len();
    for i in 0..n
        invariant
            n == v@.len(),
            r@ == v@.take(i as int),
    {
        r.push(v[i].clone());
        assert(r@ =~= v@.take(i + 1));
    }
    assert(r@ =~= v@);
    r
}

/// A copy of a list of provenance links.
pub fn copy_links(v: &Vec<ProvenanceLink>) -> (r: Vec<ProvenanceLink>)
    ensures
        r@ == v@,
{
    let mut r: Vec<ProvenanceLink> = Vec::new();
    let n: usize = v.len();
    for i in 0..n
        invariant
            n == v@.len(),
            r@ == v@.take(i as int),
    {
        let l = ProvenanceLink { id: v[i].id.clone(), rendered: v[i].rendered.clone() };
        r.push(l);
        assert(r@ =~= v@.take(i + 1));
    }
    assert(r@ =~= v@);
    r
}

/// A copy of a list of gates.
pub fn copy_gates(v: &Vec<Gate>) -> (r: Vec<Gate>)
    ensures
        r@ == v@,
{
    let mut r: Vec<Gate> = Vec::new();
    let n: usize = v.len();
    for i in 0..n
        invariant
            n == v@.len(),
            r@ == v@.take(i as int),
    {
        r.push(Gate { rule: v[i].rule.clone() });
        assert(r@ =~= v@.take(i + 1));
    }
    assert(r@ =~= v@);
    r
}

/// A copy of a list of tasks.
pub fn copy_tasks(v: &Vec<TaskCandidate>) -> (r: Vec<TaskCandidate>)
    ensures
        r@ == v@,
{
    let mut r: Vec<TaskCandidate> = Vec::new();
    let n: usize = v.len();
    for i in 0..n
        invariant
            n == v@.len(),
            r@ == v@.take(i as int),
    {
        r.push(TaskCandidate { title: v[i].title.clone(), description: v[i].description.clone() });
        assert(r@ =~= v@.take(i + 1));
    }
    assert(r@ =~= v@);
    r
}

/// A copy of an optional string.
pub fn copy_opt_text(o: &Option<String>) -> (r: Option<String>)
    ensures
        r == *o,
{
    match o {
        Some(s) => Some(s.clone()),
        None => None,
    }
}

impl PlanBrief {
    /// A copy of the brief.
    pub fn duplicate(&self) -> (r: PlanBrief)
        ensures
            r@ == self@,
    {
        PlanBrief {
            goal: self.goal.clone(),
            why_now: copy_opt_text(&self.why_now),
            in_scope: copy_texts(&self.in_scope),
            out_of_scope: copy_texts(&self.out_of_scope),
            completion_criteria: copy_texts(&self.completion_criteria),
            daruma_target: self.daruma_target.clone(),
            risks: copy_texts(&self.risks),
            constraints: copy_texts(&self.constraints),
            knowledge_base: copy_texts(&self.knowledge_base),
            rejected_alternatives: copy_texts(&self.rejected_alternatives),
            dependencies: copy_texts(&self.dependencies),
            required_artifacts: copy_texts(&self.required_artifacts),
            decisions_made: copy_texts(&self.decisions_made),
        }
    }
}

impl ActionPacket {
    /// A copy of the packet.
    pub fn duplicate(&self) -> (r: ActionPacket)
        ensures
            r@ == self@,
    {
        ActionPacket {
            goal: self.goal.clone(),
            why: self.why.clone(),
            completion_criteria: copy_texts(&self.completion_criteria),
            linked_decisions: copy_links(&self.linked_decisions),
            linked_knowledge: copy_links(&self.linked_knowledge),
            linked_rejected: copy_links(&self.linked_rejected),
            expected_artifacts: copy_texts(&self.expected_artifacts),
            before_start: copy_gates(&self.before_start),
            before_complete: copy_gates(&self.before_complete),
        }
    }
}

impl HandoffProject {
    /// A copy of the project.
    pub fn duplicate(&self) -> (r: HandoffProject)
        ensures
            r@ == self@,
    {
        HandoffProject {
            project_title: self.project_title.clone(),
            plan_title: self.plan_title.clone(),
            goal: self.goal.clone(),
            success_criteria: copy_texts(&self.success_criteria),
            tasks: copy_tasks(&self.tasks),
            linked_decisions: copy_links(&self.linked_decisions),
            linked_knowledge: copy_links(&self.linked_knowledge),
            linked_rejected: copy_links(&self.linked_rejected),
        }
    }
}

} // verus!
