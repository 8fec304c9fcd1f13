//! The checks of an agent or team: its references, and what its goals and
//! plans demand of it.

use crate::concept::{first_position, has_identity, position, Identified, ModelConcept};
use crate::error::{
    finding, finding_pair, findings, report, report_all, ErrorType, ModelError, ModelErrorView,
};
use crate::identifier::Identifier;
use crate::model::Model;
use crate::order::{gathered, put, Keyed, Ordered};
use crate::references::{
    check_duplicates, check_references, duplicate_findings, reference_findings, Reference, Wording,
};
use crate::schema::{Agent, AgentGoal, AgentType, Goal, MessagePerm, Plan, Role, Task, TaskType};
use crate::text::{decimal, index_to_string, join2, join3, join4, join5, join7};
use crate::validate::Checked;
use crate::workspace::ProjectWorkspace;
use vstd::prelude::*;
use vstd::string::StringExecFns;

verus! {

impl AgentType {
    /// Teams are the records of the team collection; all others are agents.
    pub open spec fn spec_of(concept: ModelConcept) -> AgentType {
        if concept == ModelConcept::Team {
            AgentType::Team
        } else {
            AgentType::Agent
        }
    }

    /// The kind of the records of a collection.
    pub fn of(concept: ModelConcept) -> (r: AgentType)
        ensures
            r == AgentType::spec_of(concept),
    {
        match concept {
            ModelConcept::Team => AgentType::Team,
            _ => AgentType::Agent,
        }
    }

    /// The name of the kind as sentences write it.
    pub open spec fn spec_name(self) -> Seq<char> {
        match self {
            AgentType::Team => "Team"@,
            AgentType::Agent => "Agent"@,
        }
    }

    /// The name of the kind as sentences write it.
    pub fn name(self) -> (r: &'static str)
        ensures
            r@ == self.spec_name(),
    {
        match self {
            AgentType::Team => "Team",
            AgentType::Agent => "Agent",
        }
    }

    /// The name of the kind as paths write it.
    pub open spec fn spec_lower(self) -> Seq<char> {
        match self {
            AgentType::Team => "team"@,
            AgentType::Agent => "agent"@,
        }
    }

    /// The name of the kind as paths write it.
    pub fn lower(self) -> (r: &'static str)
        ensures
            r@ == self.spec_lower(),
    {
        match self {
            AgentType::Team => "team",
            AgentType::Agent => "agent",
        }
    }

    /// The name of the kind in lower case.
    pub fn to_string(&self) -> (r: String)
        ensures
            r@ == self.spec_lower(),
    {
        String::from_str(self.lower())
    }
}

/// The findings on one list of references of an agent: first those on
/// entries that are unset or do not resolve, then those on entries that
/// stand twice.
pub open spec fn list_findings<T: Identified>(
    items: Seq<T>,
    kind: Reference,
    model: Model,
    key: Seq<char>,
    machine_key: Seq<char>,
    wording: Wording,
    owner_kind: Seq<char>,
    owner_name: Seq<char>,
    told_as: Seq<char>,
) -> Seq<ModelErrorView> {
    reference_findings(items, kind, model, key, machine_key, wording, items.len() as int)
        + duplicate_findings(
        items,
        key,
        machine_key,
        owner_kind,
        owner_name,
        told_as,
        items.len() as int,
    )
}

fn check_list<T: Identified>(
    items: &Vec<T>,
    kind: Reference,
    model: &Model,
    key: &str,
    machine_key: &str,
    wording: Wording,
    owner_kind: &str,
    owner_name: &str,
    told_as: &str,
) -> (r: Vec<ModelError>)
    ensures
        findings(r@) == list_findings(
            items@,
            kind,
            *model,
            key@,
            machine_key@,
            wording,
            owner_kind@,
            owner_name@,
            told_as@,
        ),
{
    let mut errors = check_references(items, kind, model, key, machine_key, wording);
    report_all(
        &mut errors,
        check_duplicates(items, key, machine_key, owner_kind, owner_name, told_as),
    );
    errors
}

/// The identifiers of a list of belief grants.
pub open spec fn grant_ids(grants: Seq<MessagePerm>) -> Seq<Identifier> {
    Seq::new(grants.len(), |k: int| grants[k].id)
}

/// The beliefs that the first `n` roles of a module grant to an agent that
/// holds the roles `held`.
pub open spec fn granted_beliefs(roles: Seq<Role>, held: Seq<Identifier>, n: int) -> Seq<
    Identifier,
>
    decreases n,
{
    if n <= 0 {
        Seq::empty()
    } else {
        granted_beliefs(roles, held, n - 1) + if has_identity(held, roles[n - 1].id.uuid@) {
            grant_ids(roles[n - 1].messages@)
        } else {
            Seq::empty()
        }
    }
}

/// The action handlers of the services that the first `n` service
/// references name.
pub open spec fn service_handlers(model: Model, services: Seq<Identifier>, n: int) -> Seq<
    Identifier,
>
    decreases n,
{
    if n <= 0 {
        Seq::empty()
    } else {
        service_handlers(model, services, n - 1) + if model.spec_find_service(services[n - 1]) {
            model.services@[first_position(
                model.services@,
                services[n - 1].uuid@,
            )].action_handlers@
        } else {
            Seq::empty()
        }
    }
}

/// The action that a task performs: that of an action task which names one.
pub open spec fn task_action(task: Task) -> Option<Identifier> {
    if task.task_type == TaskType::action {
        task.action
    } else {
        None
    }
}

/// A reference together with its position in the list it stands in.
#[derive(Debug)]
pub struct Placed {
    pub id: Identifier,
    pub at: usize,
}

impl Clone for Placed {
    fn clone(&self) -> (r: Self)
        ensures
            r == *self,
    {
        Placed { id: self.id.clone(), at: self.at }
    }
}

/// A placed reference is ordered by the qualified name of the reference.
impl Ordered for Placed {
    open spec fn spec_key(&self) -> Seq<char> {
        self.id.spec_qualified_name()
    }
}

impl Keyed for Placed {
    fn key(&self) -> (r: String) {
        self.id.qualified_name()
    }
}

/// Those of the first `n` of `wanted` whose identity none of `held` has,
/// each with its position.
pub open spec fn lacking(wanted: Seq<Identifier>, held: Seq<Identifier>, n: int) -> Seq<Placed>
    decreases n,
{
    if n <= 0 {
        Seq::empty()
    } else if !has_identity(held, wanted[n - 1].uuid@) {
        lacking(wanted, held, n - 1).push(Placed { id: wanted[n - 1], at: (n - 1) as usize })
    } else {
        lacking(wanted, held, n - 1)
    }
}

/// The actions that the first `n` of `tasks` perform and whose identity
/// none of `held` has, each with the position of its task.
pub open spec fn lacking_actions(tasks: Seq<Task>, held: Seq<Identifier>, n: int) -> Seq<Placed>
    decreases n,
{
    if n <= 0 {
        Seq::empty()
    } else {
        match task_action(tasks[n - 1]) {
            Some(action) => if !has_identity(held, action.uuid@) {
                lacking_actions(tasks, held, n - 1).push(
                    Placed { id: action, at: (n - 1) as usize },
                )
            } else {
                lacking_actions(tasks, held, n - 1)
            },
            None => lacking_actions(tasks, held, n - 1),
        }
    }
}

/// What is lacking in the order in which it is reported: that of the
/// qualified names. Of several references with one qualified name, the
/// first in its list stands for all.
pub open spec fn in_report_order(items: Seq<Placed>) -> Seq<Placed> {
    gathered(items, items.len() as int)
}

impl Agent {
    /// The path of the record by name: the collection, then the qualified
    /// name.
    pub open spec fn spec_path(&self, concept: ModelConcept) -> Seq<char> {
        AgentType::spec_of(concept).spec_lower() + "s."@ + self.id.spec_qualified_name()
    }

    /// The path of the record by position.
    pub open spec fn spec_machine_path(&self, concept: ModelConcept, index: int) -> Seq<char> {
        AgentType::spec_of(concept).spec_lower() + "s."@ + decimal(index as nat)
    }

    /// The findings on the eight lists of references, list by list.
    pub open spec fn spec_reference_findings(
        &self,
        concept: ModelConcept,
        model: Model,
        index: int,
    ) -> Seq<ModelErrorView> {
        let path = self.spec_path(concept);
        let machine_path = self.spec_machine_path(concept, index);
        let kind = AgentType::spec_of(concept).spec_name();
        let name = self.id.spec_qualified_name();
        list_findings(
            self.action_handlers@,
            Reference::Action,
            model,
            path + ".action_handlers"@,
            machine_path + ".action_handlers"@,
            Wording { unset: "Action", missing: "Action", place: "messages" },
            kind,
            name,
            "action_handlers"@,
        ) + list_findings(
            self.beliefs@,
            Reference::Message,
            model,
            path + ".beliefs"@,
            machine_path + ".beliefs"@,
            Wording { unset: "Belief", missing: "Belief", place: "messages" },
            kind,
            name,
            "beliefsets"@,
        ) + list_findings(
            self.message_handlers@,
            Reference::Message,
            model,
            path + ".message_handlers"@,
            machine_path + ".message_handlers"@,
            Wording { unset: "Message", missing: "Message", place: "messages" },
            kind,
            name,
            "message_handlers"@,
        ) + list_findings(
            self.goals@,
            Reference::Goal,
            model,
            path + ".goals"@,
            machine_path + ".goals"@,
            Wording { unset: "Goal", missing: "Message", place: "messages" },
            kind,
            name,
            "goals"@,
        ) + list_findings(
            self.plans@,
            Reference::Plan,
            model,
            path + ".plans"@,
            machine_path + ".plans"@,
            Wording { unset: "Plan", missing: "Plan", place: "plans" },
            kind,
            name,
            "plans"@,
        ) + list_findings(
            self.resources@,
            Reference::Resource,
            model,
            path + ".resources"@,
            machine_path + ".resources"@,
            Wording { unset: "Resource", missing: "Resource", place: "resources" },
            kind,
            name,
            "resources"@,
        ) + list_findings(
            self.roles@,
            Reference::Role,
            model,
            path + ".roles"@,
            machine_path + ".roles"@,
            Wording { unset: "Role", missing: "Role", place: "roles" },
            kind,
            name,
            "roles"@,
        ) + list_findings(
            self.services@,
            Reference::Service,
            model,
            path + ".services"@,
            machine_path + ".services"@,
            Wording { unset: "Service", missing: "Service", place: "services" },
            kind,
            name,
            "services"@,
        )
    }

    /// The beliefs that the agent holds: its own, then those that its roles
    /// grant.
    pub open spec fn spec_held_beliefs(&self, model: Model) -> Seq<Identifier> {
        self.beliefs@ + granted_beliefs(model.roles@, self.roles@, model.roles@.len() as int)
    }

    /// The actions that the agent handles: those of its services, then its
    /// own.
    pub open spec fn spec_handled_actions(&self, model: Model) -> Seq<Identifier> {
        service_handlers(model, self.services@, self.services@.len() as int)
            + self.action_handlers@
    }

    /// The finding on the startup tactic of the agent's goal at `j`, where
    /// one is set and the module declares none such.
    pub open spec fn spec_tactic_findings(
        &self,
        concept: ModelConcept,
        model: Model,
        index: int,
        j: int,
    ) -> Seq<ModelErrorView> {
        let pursued = self.goals@[j];
        if pursued.startup_tactic.name@.len() > 0 && !model.spec_find_tactic(
            pursued.startup_tactic,
        ) {
            seq![
                finding(
                    self.spec_path(concept) + ".goals."@ + pursued.id.spec_qualified_name()
                        + ".startup_tactic."@ + pursued.startup_tactic.spec_qualified_name(),
                    self.spec_machine_path(concept, index) + ".goals."@ + decimal(j as nat)
                        + ".startup_tactic"@,
                    ErrorType::TacticNotFound,
                    "Goal '"@ + pursued.id.spec_qualified_name() + "' startup tactic '"@
                        + pursued.startup_tactic.spec_qualified_name() + "' does not exist."@,
                ),
            ]
        } else {
            Seq::empty()
        }
    }

    /// The beliefs of the goal at `i` of the module that the agent does
    /// not hold, in the order in which they are reported.
    pub open spec fn spec_missing_beliefs(&self, model: Model, i: int) -> Seq<Placed> {
        in_report_order(
            lacking(
                model.goals@[i].query_messages@,
                self.spec_held_beliefs(model),
                model.goals@[i].query_messages@.len() as int,
            ),
        )
    }

    /// The finding on the missing belief at `k` of the goal at `i` of the
    /// module, which the agent pursues as its goal at `j`: the agent must
    /// hold the belief.
    pub open spec fn spec_belief_finding(
        &self,
        concept: ModelConcept,
        model: Model,
        index: int,
        i: int,
        j: int,
        k: int,
    ) -> Seq<ModelErrorView> {
        let pursued = self.goals@[j];
        let belief = self.spec_missing_beliefs(model, i)[k];
        seq![
            finding_pair(
                self.spec_path(concept) + ".goals."@ + pursued.id.spec_qualified_name(),
                "goals."@ + pursued.id.spec_qualified_name() + ".beliefsets."@
                    + belief.id.spec_qualified_name(),
                self.spec_machine_path(concept, index) + ".goals."@ + decimal(j as nat),
                "goals."@ + decimal(i as nat) + ".beliefsets."@ + decimal(belief.at as nat),
                ErrorType::BeliefsetInGoalNotInAgent,
                "Goal "@ + pursued.id.spec_qualified_name() + " with beliefset "@
                    + belief.id.spec_qualified_name()
                    + " cannot be found in agent or agent roles."@,
            ),
        ]
    }

    /// The findings on the first `n` missing beliefs of the goal at `i`.
    pub open spec fn spec_belief_findings(
        &self,
        concept: ModelConcept,
        model: Model,
        index: int,
        i: int,
        j: int,
        n: int,
    ) -> Seq<ModelErrorView>
        decreases n,
    {
        if n <= 0 {
            Seq::empty()
        } else {
            self.spec_belief_findings(concept, model, index, i, j, n - 1)
                + self.spec_belief_finding(concept, model, index, i, j, n - 1)
        }
    }

    /// The findings on the goal at `i` of the module as the agent's goal at
    /// `j`: none unless the two are the same goal; else that on the startup
    /// tactic, then those on the beliefs of the goal that the agent does not
    /// hold, in the order of their qualified names.
    pub open spec fn spec_pursuit_findings(
        &self,
        concept: ModelConcept,
        model: Model,
        index: int,
        i: int,
        j: int,
    ) -> Seq<ModelErrorView> {
        if model.goals@[i].id.uuid@ == self.goals@[j].id.uuid@ {
            self.spec_tactic_findings(concept, model, index, j) + self.spec_belief_findings(
                concept,
                model,
                index,
                i,
                j,
                self.spec_missing_beliefs(model, i).len() as int,
            )
        } else {
            Seq::empty()
        }
    }

    /// The findings on the goal at `i` of the module against the first `n`
    /// goals of the agent.
    pub open spec fn spec_goal_row(
        &self,
        concept: ModelConcept,
        model: Model,
        index: int,
        i: int,
        n: int,
    ) -> Seq<ModelErrorView>
        decreases n,
    {
        if n <= 0 {
            Seq::empty()
        } else {
            self.spec_goal_row(concept, model, index, i, n - 1) + self.spec_pursuit_findings(
                concept,
                model,
                index,
                i,
                n - 1,
            )
        }
    }

    /// The findings on startup tactics and beliefs for the first `n` goals
    /// of the module.
    pub open spec fn spec_goal_findings(
        &self,
        concept: ModelConcept,
        model: Model,
        index: int,
        n: int,
    ) -> Seq<ModelErrorView>
        decreases n,
    {
        if n <= 0 {
            Seq::empty()
        } else {
            self.spec_goal_findings(concept, model, index, n - 1) + self.spec_goal_row(
                concept,
                model,
                index,
                n - 1,
                self.goals@.len() as int,
            )
        }
    }

    /// The actions of the plan at `i` of the module that the agent does
    /// not handle, in the order in which they are reported.
    pub open spec fn spec_missing_actions(&self, model: Model, i: int) -> Seq<Placed> {
        in_report_order(
            lacking_actions(
                model.plans@[i].tasks@,
                self.spec_handled_actions(model),
                model.plans@[i].tasks@.len() as int,
            ),
        )
    }

    /// The finding on the missing action at `k` of the plan at `i` of the
    /// module, which the agent lists as its plan at `j`: the agent must
    /// handle the action. The finding names the task that performs it.
    pub open spec fn spec_action_finding(
        &self,
        concept: ModelConcept,
        model: Model,
        index: int,
        i: int,
        j: int,
        k: int,
    ) -> Seq<ModelErrorView> {
        let plan = self.plans@[j];
        let action = self.spec_missing_actions(model, i)[k];
        seq![
            finding_pair(
                self.spec_path(concept) + ".plans."@ + plan.spec_qualified_name(),
                "plans."@ + plan.spec_qualified_name() + ".tasks."@
                    + action.id.spec_qualified_name(),
                self.spec_machine_path(concept, index) + ".plans."@ + decimal(j as nat),
                "plans."@ + decimal(i as nat) + ".tasks."@ + decimal(action.at as nat),
                ErrorType::ActionHandlersNotInAgent,
                "Plan "@ + plan.spec_qualified_name() + " with action "@
                    + action.id.spec_qualified_name() + " cannot be found in "@
                    + AgentType::spec_of(concept).spec_name() + " "@
                    + self.id.spec_qualified_name() + " Action Handlers."@,
            ),
        ]
    }

    /// The findings on the first `n` missing actions of the plan at `i`.
    pub open spec fn spec_action_findings(
        &self,
        concept: ModelConcept,
        model: Model,
        index: int,
        i: int,
        j: int,
        n: int,
    ) -> Seq<ModelErrorView>
        decreases n,
    {
        if n <= 0 {
            Seq::empty()
        } else {
            self.spec_action_findings(concept, model, index, i, j, n - 1)
                + self.spec_action_finding(concept, model, index, i, j, n - 1)
        }
    }

    /// The findings on the plan at `i` of the module against the first `n`
    /// plans of the agent.
    pub open spec fn spec_plan_row(
        &self,
        concept: ModelConcept,
        model: Model,
        index: int,
        i: int,
        n: int,
    ) -> Seq<ModelErrorView>
        decreases n,
    {
        if n <= 0 {
            Seq::empty()
        } else {
            self.spec_plan_row(concept, model, index, i, n - 1) + if model.plans@[i].id.uuid@
                == self.plans@[n - 1].uuid@ {
                self.spec_action_findings(
                    concept,
                    model,
                    index,
                    i,
                    n - 1,
                    self.spec_missing_actions(model, i).len() as int,
                )
            } else {
                Seq::empty()
            }
        }
    }

    /// The findings on unhandled actions for the first `n` plans of the
    /// module.
    pub open spec fn spec_plan_findings(
        &self,
        concept: ModelConcept,
        model: Model,
        index: int,
        n: int,
    ) -> Seq<ModelErrorView>
        decreases n,
    {
        if n <= 0 {
            Seq::empty()
        } else {
            self.spec_plan_findings(concept, model, index, n - 1) + self.spec_plan_row(
                concept,
                model,
                index,
                n - 1,
                self.plans@.len() as int,
            )
        }
    }

    /// The resources of the goal at `i` of the module that the agent does
    /// not own, in the order in which they are reported.
    pub open spec fn spec_missing_resources(&self, model: Model, i: int) -> Seq<Placed> {
        in_report_order(
            lacking(
                model.goals@[i].resources@,
                self.resources@,
                model.goals@[i].resources@.len() as int,
            ),
        )
    }

    /// The finding on the missing resource at `k` of the goal at `i` of the
    /// module, which the agent pursues as its goal at `j`: the agent must
    /// own the resource.
    pub open spec fn spec_resource_finding(
        &self,
        concept: ModelConcept,
        model: Model,
        index: int,
        i: int,
        j: int,
        k: int,
    ) -> Seq<ModelErrorView> {
        let goal = model.goals@[i];
        let resource = self.spec_missing_resources(model, i)[k];
        seq![
            finding_pair(
                self.spec_path(concept) + ".goals."@ + goal.id.spec_qualified_name(),
                "goals."@ + goal.id.spec_qualified_name() + ".resources."@
                    + resource.id.spec_qualified_name(),
                self.spec_machine_path(concept, index) + ".goals."@ + decimal(j as nat),
                "goals."@ + decimal(i as nat) + ".resources."@ + decimal(resource.at as nat),
                ErrorType::AgentGoalNoResource,
                "Goal "@ + goal.id.spec_qualified_name() + " with resource "@
                    + resource.id.spec_qualified_name() + " cannot be found in "@
                    + AgentType::spec_of(concept).spec_name() + " "@
                    + self.id.spec_qualified_name() + " Resources."@,
            ),
        ]
    }

    /// The findings on the first `n` missing resources of the goal at `i`.
    pub open spec fn spec_resource_findings(
        &self,
        concept: ModelConcept,
        model: Model,
        index: int,
        i: int,
        j: int,
        n: int,
    ) -> Seq<ModelErrorView>
        decreases n,
    {
        if n <= 0 {
            Seq::empty()
        } else {
            self.spec_resource_findings(concept, model, index, i, j, n - 1)
                + self.spec_resource_finding(concept, model, index, i, j, n - 1)
        }
    }

    /// The findings on the agent's goal at `j` against the first `n` goals
    /// of the module.
    pub open spec fn spec_resource_row(
        &self,
        concept: ModelConcept,
        model: Model,
        index: int,
        j: int,
        n: int,
    ) -> Seq<ModelErrorView>
        decreases n,
    {
        if n <= 0 {
            Seq::empty()
        } else {
            self.spec_resource_row(concept, model, index, j, n - 1) + if model.goals@[n
                - 1].id.uuid@ == self.goals@[j].id.uuid@ {
                self.spec_resource_findings(
                    concept,
                    model,
                    index,
                    n - 1,
                    j,
                    self.spec_missing_resources(model, n - 1).len() as int,
                )
            } else {
                Seq::empty()
            }
        }
    }

    /// The findings on missing resources for the first `n` goals of the
    /// agent.
    pub open spec fn spec_requirement_findings(
        &self,
        concept: ModelConcept,
        model: Model,
        index: int,
        n: int,
    ) -> Seq<ModelErrorView>
        decreases n,
    {
        if n <= 0 {
            Seq::empty()
        } else {
            self.spec_requirement_findings(concept, model, index, n - 1) + self.spec_resource_row(
                concept,
                model,
                index,
                n - 1,
                model.goals@.len() as int,
            )
        }
    }
}

/// The action that a task performs, where it is an action task that names
/// one.
fn action_of(task: &Task) -> (r: Option<&Identifier>)
    ensures
        r is Some <==> task_action(*task) is Some,
        r is Some ==> *r->0 == task_action(*task)->0,
{
    match task.task_type {
        TaskType::action => task.action.as_ref(),
        _ => None,
    }
}

/// Those of `wanted` whose identity none of `held` has, each with its
/// position.
fn find_lacking(wanted: &Vec<Identifier>, held: &Vec<Identifier>) -> (r: Vec<Placed>)
    ensures
        r@ == lacking(wanted@, held@, wanted@.len() as int),
{
    let mut missing: Vec<Placed> = Vec::new();
    let mut k: usize = 0;
    assert(missing@ =~= lacking(wanted@, held@, 0));
    while k < wanted.len()
        invariant
            k <= wanted@.len(),
            missing@ == lacking(wanted@, held@, k as int),
        decreases wanted@.len() - k,
    {
        if position(held, &wanted[k]).is_none() {
            missing.push(Placed { id: wanted[k].clone(), at: k });
        }
        k = k + 1;
    }
    missing
}

/// The actions that `tasks` perform and whose identity none of `held` has,
/// each with the position of its task.
fn find_lacking_actions(tasks: &Vec<Task>, held: &Vec<Identifier>) -> (r: Vec<Placed>)
    ensures
        r@ == lacking_actions(tasks@, held@, tasks@.len() as int),
{
    let mut missing: Vec<Placed> = Vec::new();
    let mut k: usize = 0;
    assert(missing@ =~= lacking_actions(tasks@, held@, 0));
    while k < tasks.len()
        invariant
            k <= tasks@.len(),
            missing@ == lacking_actions(tasks@, held@, k as int),
        decreases tasks@.len() - k,
    {
        if let Some(action) = action_of(&tasks[k]) {
            if position(held, action).is_none() {
                missing.push(Placed { id: action.clone(), at: k });
            }
        }
        k = k + 1;
    }
    missing
}

/// Puts what is lacking in the order in which it is reported.
fn report_order(items: &Vec<Placed>) -> (r: Vec<Placed>)
    ensures
        r@ == in_report_order(items@),
{
    let mut ordered: Vec<Placed> = Vec::new();
    let mut k: usize = 0;
    assert(ordered@ =~= gathered(items@, 0));
    while k < items.len()
        invariant
            k <= items@.len(),
            ordered@ == gathered(items@, k as int),
        decreases items@.len() - k,
    {
        put(&mut ordered, items[k].clone());
        k = k + 1;
    }
    ordered
}

impl Agent {
    fn path(&self, concept: ModelConcept) -> (r: String)
        ensures
            r@ == self.spec_path(concept),
    {
        let name = self.id.qualified_name();
        join3(AgentType::of(concept).lower(), "s.", name.as_str())
    }

    fn machine_path(&self, concept: ModelConcept, index: usize) -> (r: String)
        ensures
            r@ == self.spec_machine_path(concept, index as int),
    {
        let at = index_to_string(index);
        join3(AgentType::of(concept).lower(), "s.", at.as_str())
    }

    /// Checks the eight lists of references.
    fn check_reference_lists(&self, concept: ModelConcept, model: &Model, index: usize) -> (r: Vec<
        ModelError,
    >)
        ensures
            findings(r@) == self.spec_reference_findings(concept, *model, index as int),
    {
        let path = self.path(concept);
        let machine_path = self.machine_path(concept, index);
        let kind = AgentType::of(concept).name();
        let name = self.id.qualified_name();
        let mut errors = check_list(
            &self.action_handlers,
            Reference::Action,
            model,
            join2(path.as_str(), ".action_handlers").as_str(),
            join2(machine_path.as_str(), ".action_handlers").as_str(),
            Wording { unset: "Action", missing: "Action", place: "messages" },
            kind,
            name.as_str(),
            "action_handlers",
        );
        report_all(
            &mut errors,
            check_list(
                &self.beliefs,
                Reference::Message,
                model,
                join2(path.as_str(), ".beliefs").as_str(),
                join2(machine_path.as_str(), ".beliefs").as_str(),
                Wording { unset: "Belief", missing: "Belief", place: "messages" },
                kind,
                name.as_str(),
                "beliefsets",
            ),
        );
        report_all(
            &mut errors,
            check_list(
                &self.message_handlers,
                Reference::Message,
                model,
                join2(path.as_str(), ".message_handlers").as_str(),
                join2(machine_path.as_str(), ".message_handlers").as_str(),
                Wording { unset: "Message", missing: "Message", place: "messages" },
                kind,
                name.as_str(),
                "message_handlers",
            ),
        );
        report_all(
            &mut errors,
            check_list(
                &self.goals,
                Reference::Goal,
                model,
                join2(path.as_str(), ".goals").as_str(),
                join2(machine_path.as_str(), ".goals").as_str(),
                Wording { unset: "Goal", missing: "Message", place: "messages" },
                kind,
                name.as_str(),
                "goals",
            ),
        );
        report_all(
            &mut errors,
            check_list(
                &self.plans,
                Reference::Plan,
                model,
                join2(path.as_str(), ".plans").as_str(),
                join2(machine_path.as_str(), ".plans").as_str(),
                Wording { unset: "Plan", missing: "Plan", place: "plans" },
                kind,
                name.as_str(),
                "plans",
            ),
        );
        report_all(
            &mut errors,
            check_list(
                &self.resources,
                Reference::Resource,
                model,
                join2(path.as_str(), ".resources").as_str(),
                join2(machine_path.as_str(), ".resources").as_str(),
                Wording { unset: "Resource", missing: "Resource", place: "resources" },
                kind,
                name.as_str(),
                "resources",
            ),
        );
        report_all(
            &mut errors,
            check_list(
                &self.roles,
                Reference::Role,
                model,
                join2(path.as_str(), ".roles").as_str(),
                join2(machine_path.as_str(), ".roles").as_str(),
                Wording { unset: "Role", missing: "Role", place: "roles" },
                kind,
                name.as_str(),
                "roles",
            ),
        );
        report_all(
            &mut errors,
            check_list(
                &self.services,
                Reference::Service,
                model,
                join2(path.as_str(), ".services").as_str(),
                join2(machine_path.as_str(), ".services").as_str(),
                Wording { unset: "Service", missing: "Service", place: "services" },
                kind,
                name.as_str(),
                "services",
            ),
        );
        errors
    }

    /// The beliefs that the agent holds: its own, then those that the roles
    /// it holds grant, in the order in which `model` declares the roles.
    pub fn held_beliefs(&self, model: &Model) -> (r: Vec<Identifier>)
        ensures
            r@ == self.spec_held_beliefs(*model),
    {
        let mut held = self.beliefs.clone();
        assert(held@ =~= self.beliefs@ + granted_beliefs(model.roles@, self.roles@, 0));
        let mut i: usize = 0;
        while i < model.roles.len()
            invariant
                i <= model.roles@.len(),
                held@ == self.beliefs@ + granted_beliefs(model.roles@, self.roles@, i as int),
            decreases model.roles@.len() - i,
        {
            let role = &model.roles[i];
            let ghost before = held@;
            if position(&self.roles, &role.id).is_some() {
                let mut k: usize = 0;
                while k < role.messages.len()
                    invariant
                        k <= role.messages@.len(),
                        held@ == before + grant_ids(role.messages@).take(k as int),
                    decreases role.messages@.len() - k,
                {
                    held.push(role.messages[k].id.clone());
                    assert(grant_ids(role.messages@).take(k + 1) =~= grant_ids(
                        role.messages@,
                    ).take(k as int).push(role.messages@[k as int].id));
                    k = k + 1;
                }
                assert(grant_ids(role.messages@).take(role.messages@.len() as int) =~= grant_ids(
                    role.messages@,
                ));
            }
            assert(held@ =~= self.beliefs@ + granted_beliefs(
                model.roles@,
                self.roles@,
                i + 1,
            ));
            i = i + 1;
        }
        held
    }

    /// The actions that the agent handles: those of the services it names,
    /// then its own.
    pub fn handled_actions(&self, model: &Model) -> (r: Vec<Identifier>)
        ensures
            r@ == self.spec_handled_actions(*model),
    {
        let mut handled: Vec<Identifier> = Vec::new();
        let mut i: usize = 0;
        assert(handled@ =~= service_handlers(*model, self.services@, 0));
        while i < self.services.len()
            invariant
                i <= self.services@.len(),
                handled@ == service_handlers(*model, self.services@, i as int),
            decreases self.services@.len() - i,
        {
            let ghost before = handled@;
            if let Some(service) = model.get_service(&self.services[i]) {
                let mut more = service.action_handlers.clone();
                handled.append(&mut more);
                assert(handled@ =~= before + service.action_handlers@);
            }
            assert(handled@ =~= service_handlers(*model, self.services@, i + 1));
            i = i + 1;
        }
        let mut own = self.action_handlers.clone();
        handled.append(&mut own);
        assert(handled@ =~= self.spec_handled_actions(*model));
        handled
    }

    /// Checks the goal at `i` of the module as the agent's goal at `j`.
    #[verifier::loop_isolation(false)]
    fn check_pursuit(
        &self,
        concept: ModelConcept,
        model: &Model,
        index: usize,
        i: usize,
        j: usize,
        held: &Vec<Identifier>,
    ) -> (r: Vec<ModelError>)
        requires
            i < model.goals@.len(),
            j < self.goals@.len(),
            held@ == self.spec_held_beliefs(*model),
        ensures
            findings(r@) == self.spec_pursuit_findings(concept, *model, index as int, i as int, j as int),
    {
        let mut errors: Vec<ModelError> = Vec::new();
        assert(findings(errors@) =~= Seq::empty());
        let goal = &model.goals[i];
        let pursued = &self.goals[j];
        if !(&goal.id == &pursued.id) {
            return errors;
        }
        let path = self.path(concept);
        let machine_path = self.machine_path(concept, index);
        let pursued_name = pursued.id.qualified_name();
        let at_i = index_to_string(i);
        let at_j = index_to_string(j);
        if !pursued.startup_tactic.name.as_str().is_empty() && !model.find_tactic(
            &pursued.startup_tactic,
        ) {
            let tactic_name = pursued.startup_tactic.qualified_name();
            report(
                &mut errors,
                ModelError::at(
                    join5(
                        path.as_str(),
                        ".goals.",
                        pursued_name.as_str(),
                        ".startup_tactic.",
                        tactic_name.as_str(),
                    ),
                    join4(machine_path.as_str(), ".goals.", at_j.as_str(), ".startup_tactic"),
                    ErrorType::TacticNotFound,
                    join5(
                        "Goal '",
                        pursued_name.as_str(),
                        "' startup tactic '",
                        tactic_name.as_str(),
                        "' does not exist.",
                    ),
                ),
            );
        }
        assert(findings(errors@) =~= self.spec_tactic_findings(
            concept,
            *model,
            index as int,
            j as int,
        ) + self.spec_belief_findings(concept, *model, index as int, i as int, j as int, 0));
        let missing = report_order(&find_lacking(&goal.query_messages, held));
        let mut k: usize = 0;
        while k < missing.len()
            invariant
                k <= missing@.len(),
                missing@ == self.spec_missing_beliefs(*model, i as int),
                findings(errors@) == self.spec_tactic_findings(
                    concept,
                    *model,
                    index as int,
                    j as int,
                ) + self.spec_belief_findings(
                    concept,
                    *model,
                    index as int,
                    i as int,
                    j as int,
                    k as int,
                ),
            decreases missing@.len() - k,
        {
            let ghost before = findings(errors@);
            let belief_name = missing[k].id.qualified_name();
            let at_k = index_to_string(missing[k].at);
            report(
                &mut errors,
                ModelError::between(
                    join3(path.as_str(), ".goals.", pursued_name.as_str()),
                    join4("goals.", pursued_name.as_str(), ".beliefsets.", belief_name.as_str()),
                    join3(machine_path.as_str(), ".goals.", at_j.as_str()),
                    join4("goals.", at_i.as_str(), ".beliefsets.", at_k.as_str()),
                    ErrorType::BeliefsetInGoalNotInAgent,
                    join5(
                        "Goal ",
                        pursued_name.as_str(),
                        " with beliefset ",
                        belief_name.as_str(),
                        " cannot be found in agent or agent roles.",
                    ),
                ),
            );
            assert(findings(errors@) =~= before + self.spec_belief_finding(
                concept,
                *model,
                index as int,
                i as int,
                j as int,
                k as int,
            ));
            k = k + 1;
        }
        errors
    }

    /// Checks the startup tactics and the beliefs of the goals that the
    /// agent pursues.
    #[verifier::loop_isolation(false)]
    fn check_goals(&self, concept: ModelConcept, model: &Model, index: usize) -> (r: Vec<
        ModelError,
    >)
        ensures
            findings(r@) == self.spec_goal_findings(
                concept,
                *model,
                index as int,
                model.goals@.len() as int,
            ),
    {
        let held = self.held_beliefs(model);
        let mut errors: Vec<ModelError> = Vec::new();
        assert(findings(errors@) =~= Seq::empty());
        let mut i: usize = 0;
        while i < model.goals.len()
            invariant
                i <= model.goals@.len(),
                findings(errors@) == self.spec_goal_findings(
                    concept,
                    *model,
                    index as int,
                    i as int,
                ),
            decreases model.goals@.len() - i,
        {
            let ghost before = findings(errors@);
            let mut j: usize = 0;
            assert(findings(errors@) =~= before + self.spec_goal_row(
                concept,
                *model,
                index as int,
                i as int,
                0,
            ));
            while j < self.goals.len()
                invariant
                    j <= self.goals@.len(),
                    findings(errors@) == before + self.spec_goal_row(
                        concept,
                        *model,
                        index as int,
                        i as int,
                        j as int,
                    ),
                decreases self.goals@.len() - j,
            {
                let ghost row = findings(errors@);
                report_all(&mut errors, self.check_pursuit(concept, model, index, i, j, &held));
                assert(findings(errors@) =~= before + self.spec_goal_row(
                    concept,
                    *model,
                    index as int,
                    i as int,
                    j + 1,
                ));
                j = j + 1;
            }
            i = i + 1;
        }
        errors
    }

    /// Checks the tasks of the plan at `i` of the module, which is the
    /// agent's plan at `j`.
    #[verifier::loop_isolation(false)]
    fn check_plan_actions(
        &self,
        concept: ModelConcept,
        model: &Model,
        index: usize,
        i: usize,
        j: usize,
        handled: &Vec<Identifier>,
    ) -> (r: Vec<ModelError>)
        requires
            i < model.plans@.len(),
            j < self.plans@.len(),
            handled@ == self.spec_handled_actions(*model),
        ensures
            findings(r@) == self.spec_action_findings(
                concept,
                *model,
                index as int,
                i as int,
                j as int,
                self.spec_missing_actions(*model, i as int).len() as int,
            ),
    {
        let mut errors: Vec<ModelError> = Vec::new();
        assert(findings(errors@) =~= Seq::empty());
        let tasks = &model.plans[i].tasks;
        let plan = &self.plans[j];
        let path = self.path(concept);
        let machine_path = self.machine_path(concept, index);
        let plan_name = plan.qualified_name();
        let name = self.id.qualified_name();
        let at_i = index_to_string(i);
        let at_j = index_to_string(j);
        let missing = report_order(&find_lacking_actions(tasks, handled));
        let mut k: usize = 0;
        while k < missing.len()
            invariant
                k <= missing@.len(),
                missing@ == self.spec_missing_actions(*model, i as int),
                findings(errors@) == self.spec_action_findings(
                    concept,
                    *model,
                    index as int,
                    i as int,
                    j as int,
                    k as int,
                ),
            decreases missing@.len() - k,
        {
            let ghost before = findings(errors@);
            let action_name = missing[k].id.qualified_name();
            let at_k = index_to_string(missing[k].at);
            let mut text = join7(
                "Plan ",
                plan_name.as_str(),
                " with action ",
                action_name.as_str(),
                " cannot be found in ",
                AgentType::of(concept).name(),
                " ",
            );
            text.append(name.as_str());
            text.append(" Action Handlers.");
            report(
                &mut errors,
                ModelError::between(
                    join3(path.as_str(), ".plans.", plan_name.as_str()),
                    join4("plans.", plan_name.as_str(), ".tasks.", action_name.as_str()),
                    join3(machine_path.as_str(), ".plans.", at_j.as_str()),
                    join4("plans.", at_i.as_str(), ".tasks.", at_k.as_str()),
                    ErrorType::ActionHandlersNotInAgent,
                    text,
                ),
            );
            assert(findings(errors@) =~= before + self.spec_action_finding(
                concept,
                *model,
                index as int,
                i as int,
                j as int,
                k as int,
            ));
            k = k + 1;
        }
        errors
    }

    /// Checks that the agent handles the actions of the plans it lists.
    #[verifier::loop_isolation(false)]
    fn check_plans(&self, concept: ModelConcept, model: &Model, index: usize) -> (r: Vec<
        ModelError,
    >)
        ensures
            findings(r@) == self.spec_plan_findings(
                concept,
                *model,
                index as int,
                model.plans@.len() as int,
            ),
    {
        let handled = self.handled_actions(model);
        let mut errors: Vec<ModelError> = Vec::new();
        assert(findings(errors@) =~= Seq::empty());
        let mut i: usize = 0;
        while i < model.plans.len()
            invariant
                i <= model.plans@.len(),
                findings(errors@) == self.spec_plan_findings(
                    concept,
                    *model,
                    index as int,
                    i as int,
                ),
            decreases model.plans@.len() - i,
        {
            let ghost before = findings(errors@);
            let mut j: usize = 0;
            assert(findings(errors@) =~= before + self.spec_plan_row(
                concept,
                *model,
                index as int,
                i as int,
                0,
            ));
            while j < self.plans.len()
                invariant
                    j <= self.plans@.len(),
                    findings(errors@) == before + self.spec_plan_row(
                        concept,
                        *model,
                        index as int,
                        i as int,
                        j as int,
                    ),
                decreases self.plans@.len() - j,
            {
                if &model.plans[i].id == &self.plans[j] {
                    report_all(
                        &mut errors,
                        self.check_plan_actions(concept, model, index, i, j, &handled),
                    );
                }
                assert(findings(errors@) =~= before + self.spec_plan_row(
                    concept,
                    *model,
                    index as int,
                    i as int,
                    j + 1,
                ));
                j = j + 1;
            }
            i = i + 1;
        }
        errors
    }

    /// Checks the resources of the goal at `i` of the module, which is the
    /// agent's goal at `j`.
    #[verifier::loop_isolation(false)]
    fn check_goal_resources(
        &self,
        concept: ModelConcept,
        model: &Model,
        index: usize,
        i: usize,
        j: usize,
    ) -> (r: Vec<ModelError>)
        requires
            i < model.goals@.len(),
            j < self.goals@.len(),
        ensures
            findings(r@) == self.spec_resource_findings(
                concept,
                *model,
                index as int,
                i as int,
                j as int,
                self.spec_missing_resources(*model, i as int).len() as int,
            ),
    {
        let mut errors: Vec<ModelError> = Vec::new();
        assert(findings(errors@) =~= Seq::empty());
        let goal = &model.goals[i];
        let path = self.path(concept);
        let machine_path = self.machine_path(concept, index);
        let goal_name = goal.id.qualified_name();
        let name = self.id.qualified_name();
        let at_i = index_to_string(i);
        let at_j = index_to_string(j);
        let missing = report_order(&find_lacking(&goal.resources, &self.resources));
        let mut k: usize = 0;
        while k < missing.len()
            invariant
                k <= missing@.len(),
                missing@ == self.spec_missing_resources(*model, i as int),
                findings(errors@) == self.spec_resource_findings(
                    concept,
                    *model,
                    index as int,
                    i as int,
                    j as int,
                    k as int,
                ),
            decreases missing@.len() - k,
        {
            let ghost before = findings(errors@);
            let resource_name = missing[k].id.qualified_name();
            let at_k = index_to_string(missing[k].at);
            let mut text = join7(
                "Goal ",
                goal_name.as_str(),
                " with resource ",
                resource_name.as_str(),
                " cannot be found in ",
                AgentType::of(concept).name(),
                " ",
            );
            text.append(name.as_str());
            text.append(" Resources.");
            report(
                &mut errors,
                ModelError::between(
                    join3(path.as_str(), ".goals.", goal_name.as_str()),
                    join4("goals.", goal_name.as_str(), ".resources.", resource_name.as_str()),
                    join3(machine_path.as_str(), ".goals.", at_j.as_str()),
                    join4("goals.", at_i.as_str(), ".resources.", at_k.as_str()),
                    ErrorType::AgentGoalNoResource,
                    text,
                ),
            );
            assert(findings(errors@) =~= before + self.spec_resource_finding(
                concept,
                *model,
                index as int,
                i as int,
                j as int,
                k as int,
            ));
            k = k + 1;
        }
        errors
    }

    /// Checks that the agent owns the resources of the goals it pursues.
    #[verifier::loop_isolation(false)]
    fn check_requirements(&self, concept: ModelConcept, model: &Model, index: usize) -> (r: Vec<
        ModelError,
    >)
        ensures
            findings(r@) == self.spec_requirement_findings(
                concept,
                *model,
                index as int,
                self.goals@.len() as int,
            ),
    {
        let mut errors: Vec<ModelError> = Vec::new();
        assert(findings(errors@) =~= Seq::empty());
        let mut j: usize = 0;
        while j < self.goals.len()
            invariant
                j <= self.goals@.len(),
                findings(errors@) == self.spec_requirement_findings(
                    concept,
                    *model,
                    index as int,
                    j as int,
                ),
            decreases self.goals@.len() - j,
        {
            let ghost before = findings(errors@);
            let mut i: usize = 0;
            assert(findings(errors@) =~= before + self.spec_resource_row(
                concept,
                *model,
                index as int,
                j as int,
                0,
            ));
            while i < model.goals.len()
                invariant
                    i <= model.goals@.len(),
                    findings(errors@) == before + self.spec_resource_row(
                        concept,
                        *model,
                        index as int,
                        j as int,
                        i as int,
                    ),
                decreases model.goals@.len() - i,
            {
                if &model.goals[i].id == &self.goals[j].id {
                    report_all(
                        &mut errors,
                        self.check_goal_resources(concept, model, index, i, j),
                    );
                }
                assert(findings(errors@) =~= before + self.spec_resource_row(
                    concept,
                    *model,
                    index as int,
                    j as int,
                    i + 1,
                ));
                i = i + 1;
            }
            j = j + 1;
        }
        errors
    }
}

impl Checked for Agent {
    /// The findings on an agent or team: those on its lists of references;
    /// then, for every goal it pursues, those on the startup tactic and on
    /// beliefs that it does not hold; then those on actions of its plans
    /// that it does not handle; then those on resources of its goals that
    /// it does not own.
    open spec fn spec_verify(
        &self,
        concept: ModelConcept,
        model: Model,
        workspace: Seq<Model>,
        index: int,
    ) -> Seq<ModelErrorView> {
        self.spec_reference_findings(concept, model, index) + self.spec_goal_findings(
            concept,
            model,
            index,
            model.goals@.len() as int,
        ) + self.spec_plan_findings(concept, model, index, model.plans@.len() as int)
            + self.spec_requirement_findings(concept, model, index, self.goals@.len() as int)
    }

    fn verify(
        &self,
        concept: ModelConcept,
        model: &Model,
        workspace: &ProjectWorkspace,
        index: usize,
    ) -> (r: Vec<ModelError>) {
        let mut errors = self.check_reference_lists(concept, model, index);
        report_all(&mut errors, self.check_goals(concept, model, index));
        report_all(&mut errors, self.check_plans(concept, model, index));
        report_all(&mut errors, self.check_requirements(concept, model, index));
        errors
    }
}

/// The goals among the first `n` that the agent pursues from the start.
pub open spec fn startup_goals(goals: Seq<AgentGoal>, n: int) -> Seq<Identifier>
    decreases n,
{
    if n <= 0 {
        Seq::empty()
    } else if goals[n - 1].startup_goal {
        startup_goals(goals, n - 1).push(goals[n - 1].id)
    } else {
        startup_goals(goals, n - 1)
    }
}

/// The startup tactics that are set among the first `n` goals.
pub open spec fn startup_tactics(goals: Seq<AgentGoal>, n: int) -> Seq<Identifier>
    decreases n,
{
    if n <= 0 {
        Seq::empty()
    } else if goals[n - 1].startup_tactic.name@.len() > 0 {
        startup_tactics(goals, n - 1).push(goals[n - 1].startup_tactic)
    } else {
        startup_tactics(goals, n - 1)
    }
}

impl Agent {
    /// The goals that the agent pursues from the start, in the order of its
    /// goals.
    pub fn desires(&self) -> (r: Vec<Identifier>)
        ensures
            r@ == startup_goals(self.goals@, self.goals@.len() as int),
    {
        let mut result: Vec<Identifier> = Vec::new();
        let mut i: usize = 0;
        assert(result@ =~= startup_goals(self.goals@, 0));
        while i < self.goals.len()
            invariant
                i <= self.goals@.len(),
                result@ == startup_goals(self.goals@, i as int),
            decreases self.goals@.len() - i,
        {
            if self.goals[i].startup_goal {
                result.push(self.goals[i].id.clone());
            }
            i = i + 1;
        }
        result
    }

    /// Whether the agent pursues a goal from the start.
    pub fn has_desires(&self) -> (r: bool)
        ensures
            r == (startup_goals(self.goals@, self.goals@.len() as int).len() > 0),
            r == exists|i: int| 0 <= i < self.goals@.len() && (#[trigger] self.goals@[i]).startup_goal,
    {
        let mut i: usize = 0;
        assert(startup_goals(self.goals@, 0) =~= Seq::empty());
        while i < self.goals.len()
            invariant
                i <= self.goals@.len(),
                startup_goals(self.goals@, i as int).len() == 0,
                forall|k: int| 0 <= k < i ==> !(#[trigger] self.goals@[k]).startup_goal,
            decreases self.goals@.len() - i,
        {
            if self.goals[i].startup_goal {
                proof {
                    lemma_startup_goals_grow(self.goals@, i + 1, self.goals@.len() as int);
                }
                return true;
            }
            i = i + 1;
        }
        false
    }

    /// The startup tactics that are set, in the order of the agent's
    /// goals.
    pub fn tactics(&self) -> (r: Vec<Identifier>)
        ensures
            r@ == startup_tactics(self.goals@, self.goals@.len() as int),
    {
        let mut result: Vec<Identifier> = Vec::new();
        let mut i: usize = 0;
        assert(result@ =~= startup_tactics(self.goals@, 0));
        while i < self.goals.len()
            invariant
                i <= self.goals@.len(),
                result@ == startup_tactics(self.goals@, i as int),
            decreases self.goals@.len() - i,
        {
            if !self.goals[i].startup_tactic.name.as_str().is_empty() {
                result.push(self.goals[i].startup_tactic.clone());
            }
            i = i + 1;
        }
        result
    }

    /// Whether a startup tactic is set for one of the agent's goals.
    pub fn has_tactics(&self) -> (r: bool)
        ensures
            r == (startup_tactics(self.goals@, self.goals@.len() as int).len() > 0),
            r == exists|i: int|
                0 <= i < self.goals@.len() && (#[trigger] self.goals@[i]).startup_tactic.name@.len()
                    > 0,
    {
        let mut i: usize = 0;
        assert(startup_tactics(self.goals@, 0) =~= Seq::empty());
        while i < self.goals.len()
            invariant
                i <= self.goals@.len(),
                startup_tactics(self.goals@, i as int).len() == 0,
                forall|k: int|
                    0 <= k < i ==> (#[trigger] self.goals@[k]).startup_tactic.name@.len() == 0,
            decreases self.goals@.len() - i,
        {
            if !self.goals[i].startup_tactic.name.as_str().is_empty() {
                proof {
                    lemma_startup_tactics_grow(self.goals@, i + 1, self.goals@.len() as int);
                }
                return true;
            }
            i = i + 1;
        }
        false
    }
}

proof fn lemma_startup_goals_grow(goals: Seq<AgentGoal>, from: int, to: int)
    requires
        0 <= from <= to,
    ensures
        startup_goals(goals, from).len() <= startup_goals(goals, to).len(),
    decreases to - from,
{
    if from < to {
        lemma_startup_goals_grow(goals, from, to - 1);
    }
}

proof fn lemma_startup_tactics_grow(goals: Seq<AgentGoal>, from: int, to: int)
    requires
        0 <= from <= to,
    ensures
        startup_tactics(goals, from).len() <= startup_tactics(goals, to).len(),
    decreases to - from,
{
    if from < to {
        lemma_startup_tactics_grow(goals, from, to - 1);
    }
}

} // verus!
