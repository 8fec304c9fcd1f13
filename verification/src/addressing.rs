//! Every finding says where it is: by position always, and by name as
//! often as by position, unless what it is about has no name.

use crate::agent::list_findings;
use crate::concept::{Identified, ModelConcept, Named};
use crate::error::ModelErrorView;
use crate::identifier::Identifier;
use crate::model::Model;
use crate::references::{
    duplicate_findings, duplicate_findings_at, reference_findings, reference_findings_at,
    repeated_name_findings, Reference, Wording,
};
use crate::schema::{
    Action, Agent, AgentType, Enum, Event, Goal, Message, Plan, Resource, Role, Service, Tactic,
};
use crate::text::decimal;
use crate::validate::{
    concept_findings, declaration_findings, declarations, Checked, Declaration,
};
use vstd::prelude::*;

verus! {

/// Whether a finding addresses what it is about: one location or two, each
/// by position, and by name as many, or none for what has no name.
pub open spec fn addressed(error: ModelErrorView) -> bool {
    &&& 1 <= error.machine_keys.len() <= 2
    &&& error.keys.len() == error.machine_keys.len() || (error.keys.len() == 0
        && error.machine_keys.len() == 1)
}

/// Whether every finding of a list addresses what it is about.
pub open spec fn all_addressed(errors: Seq<ModelErrorView>) -> bool {
    forall|i: int| 0 <= i < errors.len() ==> addressed(#[trigger] errors[i])
}

proof fn lemma_add(first: Seq<ModelErrorView>, second: Seq<ModelErrorView>)
    requires
        all_addressed(first),
        all_addressed(second),
    ensures
        all_addressed(first + second),
{
    assert forall|i: int| 0 <= i < (first + second).len() implies addressed(
        #[trigger] (first + second)[i],
    ) by {
        if i < first.len() {
            assert((first + second)[i] == first[i]);
        } else {
            assert((first + second)[i] == second[i - first.len()]);
        }
    }
}

proof fn lemma_references<T: Identified>(
    items: Seq<T>,
    kind: Reference,
    model: Model,
    key: Seq<char>,
    machine_key: Seq<char>,
    wording: Wording,
    n: int,
)
    ensures
        all_addressed(reference_findings(items, kind, model, key, machine_key, wording, n)),
    decreases n,
{
    if n > 0 {
        lemma_references(items, kind, model, key, machine_key, wording, n - 1);
        let at = reference_findings_at(items, kind, model, key, machine_key, wording, n - 1);
        assert(all_addressed(at));
        lemma_add(reference_findings(items, kind, model, key, machine_key, wording, n - 1), at);
    }
}

proof fn lemma_duplicates<T: Identified>(
    items: Seq<T>,
    field_id: Seq<char>,
    machine_id: Seq<char>,
    object_type: Seq<char>,
    object_name: Seq<char>,
    field_name: Seq<char>,
    n: int,
)
    ensures
        all_addressed(
            duplicate_findings(
                items,
                field_id,
                machine_id,
                object_type,
                object_name,
                field_name,
                n,
            ),
        ),
    decreases n,
{
    if n > 0 {
        lemma_duplicates(items, field_id, machine_id, object_type, object_name, field_name, n - 1);
        let at = duplicate_findings_at(
            items,
            field_id,
            machine_id,
            object_type,
            object_name,
            field_name,
            n - 1,
        );
        assert(all_addressed(at));
        lemma_add(
            duplicate_findings(
                items,
                field_id,
                machine_id,
                object_type,
                object_name,
                field_name,
                n - 1,
            ),
            at,
        );
    }
}

proof fn lemma_list<T: Identified>(
    items: Seq<T>,
    kind: Reference,
    model: Model,
    key: Seq<char>,
    machine_key: Seq<char>,
    wording: Wording,
    owner_kind: Seq<char>,
    owner_name: Seq<char>,
    told_as: Seq<char>,
)
    ensures
        all_addressed(
            list_findings(
                items,
                kind,
                model,
                key,
                machine_key,
                wording,
                owner_kind,
                owner_name,
                told_as,
            ),
        ),
{
    lemma_references(items, kind, model, key, machine_key, wording, items.len() as int);
    lemma_duplicates(
        items,
        key,
        machine_key,
        owner_kind,
        owner_name,
        told_as,
        items.len() as int,
    );
    lemma_add(
        reference_findings(items, kind, model, key, machine_key, wording, items.len() as int),
        duplicate_findings(
            items,
            key,
            machine_key,
            owner_kind,
            owner_name,
            told_as,
            items.len() as int,
        ),
    );
}

proof fn lemma_agent_references(agent: Agent, concept: ModelConcept, model: Model, index: int)
    ensures
        all_addressed(agent.spec_reference_findings(concept, model, index)),
{
    let path = agent.spec_path(concept);
    let machine_path = agent.spec_machine_path(concept, index);
    let kind = AgentType::spec_of(concept).spec_name();
    let name = agent.id.spec_qualified_name();
    let a = list_findings(
        agent.action_handlers@,
        Reference::Action,
        model,
        path + ".action_handlers"@,
        machine_path + ".action_handlers"@,
        Wording { unset: "Action", missing: "Action", place: "messages" },
        kind,
        name,
        "action_handlers"@,
    );
    let b = list_findings(
        agent.beliefs@,
        Reference::Message,
        model,
        path + ".beliefs"@,
        machine_path + ".beliefs"@,
        Wording { unset: "Belief", missing: "Belief", place: "messages" },
        kind,
        name,
        "beliefsets"@,
    );
    let c = list_findings(
        agent.message_handlers@,
        Reference::Message,
        model,
        path + ".message_handlers"@,
        machine_path + ".message_handlers"@,
        Wording { unset: "Message", missing: "Message", place: "messages" },
        kind,
        name,
        "message_handlers"@,
    );
    let d = list_findings(
        agent.goals@,
        Reference::Goal,
        model,
        path + ".goals"@,
        machine_path + ".goals"@,
        Wording { unset: "Goal", missing: "Message", place: "messages" },
        kind,
        name,
        "goals"@,
    );
    let e = list_findings(
        agent.plans@,
        Reference::Plan,
        model,
        path + ".plans"@,
        machine_path + ".plans"@,
        Wording { unset: "Plan", missing: "Plan", place: "plans" },
        kind,
        name,
        "plans"@,
    );
    let f = list_findings(
        agent.resources@,
        Reference::Resource,
        model,
        path + ".resources"@,
        machine_path + ".resources"@,
        Wording { unset: "Resource", missing: "Resource", place: "resources" },
        kind,
        name,
        "resources"@,
    );
    let g = list_findings(
        agent.roles@,
        Reference::Role,
        model,
        path + ".roles"@,
        machine_path + ".roles"@,
        Wording { unset: "Role", missing: "Role", place: "roles" },
        kind,
        name,
        "roles"@,
    );
    let h = list_findings(
        agent.services@,
        Reference::Service,
        model,
        path + ".services"@,
        machine_path + ".services"@,
        Wording { unset: "Service", missing: "Service", place: "services" },
        kind,
        name,
        "services"@,
    );
    lemma_list(
        agent.action_handlers@,
        Reference::Action,
        model,
        path + ".action_handlers"@,
        machine_path + ".action_handlers"@,
        Wording { unset: "Action", missing: "Action", place: "messages" },
        kind,
        name,
        "action_handlers"@,
    );
    lemma_list(
        agent.beliefs@,
        Reference::Message,
        model,
        path + ".beliefs"@,
        machine_path + ".beliefs"@,
        Wording { unset: "Belief", missing: "Belief", place: "messages" },
        kind,
        name,
        "beliefsets"@,
    );
    lemma_list(
        agent.message_handlers@,
        Reference::Message,
        model,
        path + ".message_handlers"@,
        machine_path + ".message_handlers"@,
        Wording { unset: "Message", missing: "Message", place: "messages" },
        kind,
        name,
        "message_handlers"@,
    );
    lemma_list(
        agent.goals@,
        Reference::Goal,
        model,
        path + ".goals"@,
        machine_path + ".goals"@,
        Wording { unset: "Goal", missing: "Message", place: "messages" },
        kind,
        name,
        "goals"@,
    );
    lemma_list(
        agent.plans@,
        Reference::Plan,
        model,
        path + ".plans"@,
        machine_path + ".plans"@,
        Wording { unset: "Plan", missing: "Plan", place: "plans" },
        kind,
        name,
        "plans"@,
    );
    lemma_list(
        agent.resources@,
        Reference::Resource,
        model,
        path + ".resources"@,
        machine_path + ".resources"@,
        Wording { unset: "Resource", missing: "Resource", place: "resources" },
        kind,
        name,
        "resources"@,
    );
    lemma_list(
        agent.roles@,
        Reference::Role,
        model,
        path + ".roles"@,
        machine_path + ".roles"@,
        Wording { unset: "Role", missing: "Role", place: "roles" },
        kind,
        name,
        "roles"@,
    );
    lemma_list(
        agent.services@,
        Reference::Service,
        model,
        path + ".services"@,
        machine_path + ".services"@,
        Wording { unset: "Service", missing: "Service", place: "services" },
        kind,
        name,
        "services"@,
    );
    lemma_add(a, b);
    lemma_add(a + b, c);
    lemma_add(a + b + c, d);
    lemma_add(a + b + c + d, e);
    lemma_add(a + b + c + d + e, f);
    lemma_add(a + b + c + d + e + f, g);
    lemma_add(a + b + c + d + e + f + g, h);
}

proof fn lemma_agent_beliefs(
    agent: Agent,
    concept: ModelConcept,
    model: Model,
    index: int,
    i: int,
    j: int,
    n: int,
)
    ensures
        all_addressed(agent.spec_belief_findings(concept, model, index, i, j, n)),
    decreases n,
{
    if n > 0 {
        lemma_agent_beliefs(agent, concept, model, index, i, j, n - 1);
        assert(all_addressed(agent.spec_belief_finding(concept, model, index, i, j, n - 1)));
        lemma_add(
            agent.spec_belief_findings(concept, model, index, i, j, n - 1),
            agent.spec_belief_finding(concept, model, index, i, j, n - 1),
        );
    }
}

proof fn lemma_agent_goal_row(
    agent: Agent,
    concept: ModelConcept,
    model: Model,
    index: int,
    i: int,
    n: int,
)
    ensures
        all_addressed(agent.spec_goal_row(concept, model, index, i, n)),
    decreases n,
{
    if n > 0 {
        lemma_agent_goal_row(agent, concept, model, index, i, n - 1);
        lemma_agent_beliefs(
            agent,
            concept,
            model,
            index,
            i,
            n - 1,
            agent.spec_missing_beliefs(model, i).len() as int,
        );
        assert(all_addressed(agent.spec_tactic_findings(concept, model, index, n - 1)));
        lemma_add(
            agent.spec_tactic_findings(concept, model, index, n - 1),
            agent.spec_belief_findings(
                concept,
                model,
                index,
                i,
                n - 1,
                agent.spec_missing_beliefs(model, i).len() as int,
            ),
        );
        lemma_add(
            agent.spec_goal_row(concept, model, index, i, n - 1),
            agent.spec_pursuit_findings(concept, model, index, i, n - 1),
        );
    }
}

proof fn lemma_agent_goals(agent: Agent, concept: ModelConcept, model: Model, index: int, n: int)
    ensures
        all_addressed(agent.spec_goal_findings(concept, model, index, n)),
    decreases n,
{
    if n > 0 {
        lemma_agent_goals(agent, concept, model, index, n - 1);
        lemma_agent_goal_row(agent, concept, model, index, n - 1, agent.goals@.len() as int);
        lemma_add(
            agent.spec_goal_findings(concept, model, index, n - 1),
            agent.spec_goal_row(concept, model, index, n - 1, agent.goals@.len() as int),
        );
    }
}

proof fn lemma_agent_actions(
    agent: Agent,
    concept: ModelConcept,
    model: Model,
    index: int,
    i: int,
    j: int,
    n: int,
)
    ensures
        all_addressed(agent.spec_action_findings(concept, model, index, i, j, n)),
    decreases n,
{
    if n > 0 {
        lemma_agent_actions(agent, concept, model, index, i, j, n - 1);
        assert(all_addressed(agent.spec_action_finding(concept, model, index, i, j, n - 1)));
        lemma_add(
            agent.spec_action_findings(concept, model, index, i, j, n - 1),
            agent.spec_action_finding(concept, model, index, i, j, n - 1),
        );
    }
}

proof fn lemma_agent_plan_row(
    agent: Agent,
    concept: ModelConcept,
    model: Model,
    index: int,
    i: int,
    n: int,
)
    ensures
        all_addressed(agent.spec_plan_row(concept, model, index, i, n)),
    decreases n,
{
    if n > 0 {
        lemma_agent_plan_row(agent, concept, model, index, i, n - 1);
        lemma_agent_actions(
            agent,
            concept,
            model,
            index,
            i,
            n - 1,
            agent.spec_missing_actions(model, i).len() as int,
        );
        let row = if model.plans@[i].id.uuid@ == agent.plans@[n - 1].uuid@ {
            agent.spec_action_findings(
                concept,
                model,
                index,
                i,
                n - 1,
                agent.spec_missing_actions(model, i).len() as int,
            )
        } else {
            Seq::empty()
        };
        lemma_add(agent.spec_plan_row(concept, model, index, i, n - 1), row);
    }
}

proof fn lemma_agent_plans(agent: Agent, concept: ModelConcept, model: Model, index: int, n: int)
    ensures
        all_addressed(agent.spec_plan_findings(concept, model, index, n)),
    decreases n,
{
    if n > 0 {
        lemma_agent_plans(agent, concept, model, index, n - 1);
        lemma_agent_plan_row(agent, concept, model, index, n - 1, agent.plans@.len() as int);
        lemma_add(
            agent.spec_plan_findings(concept, model, index, n - 1),
            agent.spec_plan_row(concept, model, index, n - 1, agent.plans@.len() as int),
        );
    }
}

proof fn lemma_agent_resources(
    agent: Agent,
    concept: ModelConcept,
    model: Model,
    index: int,
    i: int,
    j: int,
    n: int,
)
    ensures
        all_addressed(agent.spec_resource_findings(concept, model, index, i, j, n)),
    decreases n,
{
    if n > 0 {
        lemma_agent_resources(agent, concept, model, index, i, j, n - 1);
        assert(all_addressed(agent.spec_resource_finding(concept, model, index, i, j, n - 1)));
        lemma_add(
            agent.spec_resource_findings(concept, model, index, i, j, n - 1),
            agent.spec_resource_finding(concept, model, index, i, j, n - 1),
        );
    }
}

proof fn lemma_agent_resource_row(
    agent: Agent,
    concept: ModelConcept,
    model: Model,
    index: int,
    j: int,
    n: int,
)
    ensures
        all_addressed(agent.spec_resource_row(concept, model, index, j, n)),
    decreases n,
{
    if n > 0 {
        lemma_agent_resource_row(agent, concept, model, index, j, n - 1);
        lemma_agent_resources(
            agent,
            concept,
            model,
            index,
            n - 1,
            j,
            agent.spec_missing_resources(model, n - 1).len() as int,
        );
        let row = if model.goals@[n - 1].id.uuid@ == agent.goals@[j].id.uuid@ {
            agent.spec_resource_findings(
                concept,
                model,
                index,
                n - 1,
                j,
                agent.spec_missing_resources(model, n - 1).len() as int,
            )
        } else {
            Seq::empty()
        };
        lemma_add(agent.spec_resource_row(concept, model, index, j, n - 1), row);
    }
}

proof fn lemma_agent_requirements(
    agent: Agent,
    concept: ModelConcept,
    model: Model,
    index: int,
    n: int,
)
    ensures
        all_addressed(agent.spec_requirement_findings(concept, model, index, n)),
    decreases n,
{
    if n > 0 {
        lemma_agent_requirements(agent, concept, model, index, n - 1);
        lemma_agent_resource_row(agent, concept, model, index, n - 1, model.goals@.len() as int);
        lemma_add(
            agent.spec_requirement_findings(concept, model, index, n - 1),
            agent.spec_resource_row(concept, model, index, n - 1, model.goals@.len() as int),
        );
    }
}

proof fn lemma_agent(
    agent: Agent,
    concept: ModelConcept,
    model: Model,
    workspace: Seq<Model>,
    index: int,
)
    ensures
        all_addressed(agent.spec_verify(concept, model, workspace, index)),
{
    let a = agent.spec_reference_findings(concept, model, index);
    let b = agent.spec_goal_findings(concept, model, index, model.goals@.len() as int);
    let c = agent.spec_plan_findings(concept, model, index, model.plans@.len() as int);
    let d = agent.spec_requirement_findings(concept, model, index, agent.goals@.len() as int);
    lemma_agent_references(agent, concept, model, index);
    lemma_agent_goals(agent, concept, model, index, model.goals@.len() as int);
    lemma_agent_plans(agent, concept, model, index, model.plans@.len() as int);
    lemma_agent_requirements(agent, concept, model, index, agent.goals@.len() as int);
    lemma_add(a, b);
    lemma_add(a + b, c);
    lemma_add(a + b + c, d);
}

proof fn lemma_goal(goal: Goal, concept: ModelConcept, model: Model, workspace: Seq<Model>, index: int)
    ensures
        all_addressed(goal.spec_verify(concept, model, workspace, index)),
{
    let name = goal.id.spec_qualified_name();
    let at = decimal(index as nat);
    let a = reference_findings(
        goal.query_messages@,
        Reference::Message,
        model,
        "goals."@ + name + ".query_messages"@,
        "goals."@ + at + ".query_messages"@,
        Wording { unset: "Message", missing: "Message", place: "messages" },
        goal.query_messages@.len() as int,
    );
    let b = goal.spec_message_findings(model, index);
    let c = duplicate_findings(
        goal.query_messages@,
        "goals."@ + name + ".query_messages"@,
        "goals."@ + at + ".query_messages"@,
        "goals"@,
        name,
        "query_messages"@,
        goal.query_messages@.len() as int,
    );
    let d = reference_findings(
        goal.resources@,
        Reference::Resource,
        model,
        "goals."@ + name + ".resources"@,
        "goals."@ + at + ".resources"@,
        Wording { unset: "Resource", missing: "Resource", place: "resources" },
        goal.resources@.len() as int,
    );
    let e = duplicate_findings(
        goal.resources@,
        "goals."@ + name + ".resources"@,
        "goals."@ + at + ".resources"@,
        "goals"@,
        name,
        "resources"@,
        goal.resources@.len() as int,
    );
    lemma_references(
        goal.query_messages@,
        Reference::Message,
        model,
        "goals."@ + name + ".query_messages"@,
        "goals."@ + at + ".query_messages"@,
        Wording { unset: "Message", missing: "Message", place: "messages" },
        goal.query_messages@.len() as int,
    );
    assert(all_addressed(b));
    lemma_duplicates(
        goal.query_messages@,
        "goals."@ + name + ".query_messages"@,
        "goals."@ + at + ".query_messages"@,
        "goals"@,
        name,
        "query_messages"@,
        goal.query_messages@.len() as int,
    );
    lemma_references(
        goal.resources@,
        Reference::Resource,
        model,
        "goals."@ + name + ".resources"@,
        "goals."@ + at + ".resources"@,
        Wording { unset: "Resource", missing: "Resource", place: "resources" },
        goal.resources@.len() as int,
    );
    lemma_duplicates(
        goal.resources@,
        "goals."@ + name + ".resources"@,
        "goals."@ + at + ".resources"@,
        "goals"@,
        name,
        "resources"@,
        goal.resources@.len() as int,
    );
    lemma_add(a, b);
    lemma_add(a + b, c);
    lemma_add(a + b + c, d);
    lemma_add(a + b + c + d, e);
    assert(all_addressed(goal.spec_coverage_findings(model, index)));
    lemma_add(a + b + c + d + e, goal.spec_coverage_findings(model, index));
}

proof fn lemma_plan_task(plan: Plan, model: Model, index: int, i: int)
    ensures
        all_addressed(plan.spec_task_findings(model, index, i)),
{
    let task = plan.tasks@[i];
    assert(all_addressed(plan.spec_task_id_findings(index, i)));
    assert(all_addressed(plan.spec_mappings_findings(index, i, "Action task "@)));
    assert(all_addressed(plan.spec_mappings_findings(index, i, "Goal task "@)));
    let action = plan.spec_action_task_findings(model, index, i);
    assert(forall|k: int| 0 <= k < action.len() ==> addressed(#[trigger] action[k]));
    match task.goal {
        Some(goal) => {
            assert(all_addressed(plan.spec_sub_goal_findings(model, index, i, goal)));
        },
        None => {},
    }
    let goal = plan.spec_goal_task_findings(model, index, i);
    assert(forall|k: int| 0 <= k < goal.len() ==> addressed(#[trigger] goal[k]));
    let all = plan.spec_task_findings(model, index, i);
    assert(forall|k: int| 0 <= k < all.len() ==> addressed(#[trigger] all[k]));
}

proof fn lemma_plan_tasks(plan: Plan, model: Model, index: int, n: int)
    ensures
        all_addressed(plan.spec_tasks_findings(model, index, n)),
    decreases n,
{
    if n > 0 {
        lemma_plan_tasks(plan, model, index, n - 1);
        lemma_plan_task(plan, model, index, n - 1);
        lemma_add(
            plan.spec_tasks_findings(model, index, n - 1),
            plan.spec_task_findings(model, index, n - 1),
        );
    }
}

proof fn lemma_plan(plan: Plan, concept: ModelConcept, model: Model, workspace: Seq<Model>, index: int)
    ensures
        all_addressed(plan.spec_verify(concept, model, workspace, index)),
{
    let name = plan.id.spec_qualified_name();
    let at = decimal(index as nat);
    let a = reference_findings(
        plan.query_messages@,
        Reference::Message,
        model,
        "plans."@ + name + ".query_messages"@,
        "plans."@ + at + ".query_messages"@,
        Wording { unset: "Query message", missing: "Query message", place: "messages" },
        plan.query_messages@.len() as int,
    );
    let b = plan.spec_handles_findings(model, index);
    let c = plan.spec_tasks_findings(model, index, plan.tasks@.len() as int);
    let d = duplicate_findings(
        plan.query_messages@,
        "plans."@ + name + ".beliefsets"@,
        "plans."@ + at + ".beliefsets"@,
        "plans"@,
        name,
        "beliefsets"@,
        plan.query_messages@.len() as int,
    );
    lemma_references(
        plan.query_messages@,
        Reference::Message,
        model,
        "plans."@ + name + ".query_messages"@,
        "plans."@ + at + ".query_messages"@,
        Wording { unset: "Query message", missing: "Query message", place: "messages" },
        plan.query_messages@.len() as int,
    );
    assert(all_addressed(b));
    lemma_plan_tasks(plan, model, index, plan.tasks@.len() as int);
    lemma_duplicates(
        plan.query_messages@,
        "plans."@ + name + ".beliefsets"@,
        "plans."@ + at + ".beliefsets"@,
        "plans"@,
        name,
        "beliefsets"@,
        plan.query_messages@.len() as int,
    );
    lemma_add(a, b);
    lemma_add(a + b, c);
    lemma_add(a + b + c, d);
}

proof fn lemma_role_grants(role: Role, model: Model, index: int, n: int)
    ensures
        all_addressed(role.spec_grants_findings(model, index, n)),
    decreases n,
{
    if n > 0 {
        lemma_role_grants(role, model, index, n - 1);
        let at = reference_findings_at(
            role.messages@,
            Reference::Message,
            model,
            role.spec_grants_key(),
            role.spec_grants_machine_key(index),
            Wording { unset: "Message", missing: "Message", place: "messages" },
            n - 1,
        );
        assert(all_addressed(at));
        assert(all_addressed(role.spec_repeated_grant(index, n - 1)));
        lemma_add(at, role.spec_repeated_grant(index, n - 1));
        lemma_add(
            role.spec_grants_findings(model, index, n - 1),
            role.spec_grant_findings(model, index, n - 1),
        );
    }
}

proof fn lemma_role(role: Role, concept: ModelConcept, model: Model, workspace: Seq<Model>, index: int)
    ensures
        all_addressed(role.spec_verify(concept, model, workspace, index)),
{
    let name = role.id.spec_qualified_name();
    let at = decimal(index as nat);
    let a = role.spec_grants_findings(model, index, role.messages@.len() as int);
    let b = reference_findings(
        role.goals@,
        Reference::Goal,
        model,
        "roles."@ + name + ".goals"@,
        "roles."@ + at + ".goals"@,
        Wording { unset: "Goal", missing: "Message", place: "messages" },
        role.goals@.len() as int,
    );
    let c = duplicate_findings(
        role.goals@,
        "roles."@ + name + ".goals"@,
        "roles."@ + at + ".goals"@,
        "roles"@,
        name,
        "goals"@,
        role.goals@.len() as int,
    );
    lemma_role_grants(role, model, index, role.messages@.len() as int);
    lemma_references(
        role.goals@,
        Reference::Goal,
        model,
        "roles."@ + name + ".goals"@,
        "roles."@ + at + ".goals"@,
        Wording { unset: "Goal", missing: "Message", place: "messages" },
        role.goals@.len() as int,
    );
    lemma_duplicates(
        role.goals@,
        "roles."@ + name + ".goals"@,
        "roles."@ + at + ".goals"@,
        "roles"@,
        name,
        "goals"@,
        role.goals@.len() as int,
    );
    lemma_add(a, b);
    lemma_add(a + b, c);
}

proof fn lemma_tactic_plans(tactic: Tactic, model: Model, index: int, n: int)
    ensures
        all_addressed(tactic.spec_plans_findings(model, index, n)),
    decreases n,
{
    if n > 0 {
        lemma_tactic_plans(tactic, model, index, n - 1);
        assert(all_addressed(tactic.spec_plan_findings(model, index, n - 1)));
        lemma_add(
            tactic.spec_plans_findings(model, index, n - 1),
            tactic.spec_plan_findings(model, index, n - 1),
        );
    }
}

proof fn lemma_tactic(
    tactic: Tactic,
    concept: ModelConcept,
    model: Model,
    workspace: Seq<Model>,
    index: int,
)
    ensures
        all_addressed(tactic.spec_verify(concept, model, workspace, index)),
{
    let a = tactic.spec_goal_findings(model, index);
    let b = tactic.spec_plans_findings(model, index, tactic.plan_list@.len() as int);
    let c = tactic.spec_loop_findings(index);
    let d = duplicate_findings(
        tactic.plan_list@,
        tactic.spec_plans_key(),
        tactic.spec_plans_machine_key(index),
        "tactics"@,
        tactic.id.spec_qualified_name(),
        "plans"@,
        tactic.plan_list@.len() as int,
    );
    assert(all_addressed(a));
    lemma_tactic_plans(tactic, model, index, tactic.plan_list@.len() as int);
    assert(all_addressed(c));
    lemma_duplicates(
        tactic.plan_list@,
        tactic.spec_plans_key(),
        tactic.spec_plans_machine_key(index),
        "tactics"@,
        tactic.id.spec_qualified_name(),
        "plans"@,
        tactic.plan_list@.len() as int,
    );
    lemma_add(a, b);
    lemma_add(a + b, c);
    lemma_add(a + b + c, d);
}

proof fn lemma_action(
    action: Action,
    concept: ModelConcept,
    model: Model,
    workspace: Seq<Model>,
    index: int,
)
    ensures
        all_addressed(action.spec_verify(concept, model, workspace, index)),
{
    let a = action.spec_message_findings(model, index, action.request, "request"@);
    let b = action.spec_message_findings(model, index, action.reply, "reply"@);
    assert(all_addressed(a));
    assert(all_addressed(b));
    lemma_add(a, b);
}

proof fn lemma_repeated_name<T: Named>(
    items: Seq<T>,
    key: Seq<char>,
    machine_key: Seq<char>,
    text: Seq<char>,
    i: int,
)
    ensures
        all_addressed(repeated_name_findings(items, key, machine_key, text, i)),
{
}

proof fn lemma_message_fields(message: Message, workspace: Seq<Model>, index: int, n: int)
    ensures
        all_addressed(message.spec_fields_findings(workspace, index, n)),
    decreases n,
{
    if n > 0 {
        lemma_message_fields(message, workspace, index, n - 1);
        let repeated = repeated_name_findings(
            message.fields@,
            message.spec_fields_key(),
            message.spec_fields_machine_key(index),
            "Duplicate fields with name "@ + message.fields@[n - 1].name@ + " in Message "@
                + message.id.spec_qualified_name() + "."@,
            n - 1,
        );
        lemma_repeated_name(
            message.fields@,
            message.spec_fields_key(),
            message.spec_fields_machine_key(index),
            "Duplicate fields with name "@ + message.fields@[n - 1].name@ + " in Message "@
                + message.id.spec_qualified_name() + "."@,
            n - 1,
        );
        let typed = message.spec_type_findings(workspace, index, n - 1);
        assert(all_addressed(typed)) by {
            assert(forall|k: int| 0 <= k < typed.len() ==> addressed(#[trigger] typed[k]));
        }
        lemma_add(repeated, typed);
        lemma_add(
            message.spec_fields_findings(workspace, index, n - 1),
            message.spec_field_findings(workspace, index, n - 1),
        );
    }
}

proof fn lemma_enum_fields(enumeration: Enum, index: int, n: int)
    ensures
        all_addressed(enumeration.spec_fields_findings(index, n)),
    decreases n,
{
    if n > 0 {
        lemma_enum_fields(enumeration, index, n - 1);
        let repeated = repeated_name_findings(
            enumeration.fields@,
            enumeration.spec_fields_key(),
            enumeration.spec_fields_machine_key(index),
            "Duplicate fields with name "@ + enumeration.fields@[n - 1].name@ + " in Enum "@
                + enumeration.id.spec_qualified_name() + "."@,
            n - 1,
        );
        assert(all_addressed(repeated));
        assert(all_addressed(enumeration.spec_repeated_value(index, n - 1)));
        lemma_add(repeated, enumeration.spec_repeated_value(index, n - 1));
        lemma_add(
            enumeration.spec_fields_findings(index, n - 1),
            enumeration.spec_field_findings(index, n - 1),
        );
    }
}

proof fn lemma_event_presets(event: Event, model: Model, index: int, n: int)
    ensures
        all_addressed(event.spec_presets_findings(model, index, n)),
    decreases n,
{
    if n > 0 {
        lemma_event_presets(event, model, index, n - 1);
        let unknown = event.spec_unknown_field(model, index, n - 1);
        let repeated = repeated_name_findings(
            event.message.defaults@,
            "events."@ + event.id.spec_qualified_name() + ".fields"@,
            "events."@ + decimal(index as nat) + ".fields"@,
            event.spec_preset_text(
                n - 1,
                "' specifies duplicate a default value for field '"@,
                "' in message '"@,
            ),
            n - 1,
        );
        assert(all_addressed(unknown));
        assert(all_addressed(repeated));
        lemma_add(unknown, repeated);
        lemma_add(
            event.spec_presets_findings(model, index, n - 1),
            event.spec_preset_findings(model, index, n - 1),
        );
    }
}

proof fn lemma_project(model: Model, n: int)
    ensures
        all_addressed(model.project.spec_namespaces_findings(n)),
    decreases n,
{
    if n > 0 {
        lemma_project(model, n - 1);
        assert(all_addressed(model.project.spec_namespace_findings(n - 1)));
        lemma_add(
            model.project.spec_namespaces_findings(n - 1),
            model.project.spec_namespace_findings(n - 1),
        );
    }
}

proof fn lemma_declaration(
    concept: ModelConcept,
    seen: Seq<Declaration>,
    id: Identifier,
    index: int,
)
    ensures
        all_addressed(declaration_findings(concept, seen, id, index)),
{
    let all = declaration_findings(concept, seen, id, index);
    assert(forall|k: int| 0 <= k < all.len() ==> addressed(#[trigger] all[k]));
}

/// A record whose own findings all address what they are about.
pub trait Addressed: Checked {
    proof fn findings_are_addressed(
        &self,
        concept: ModelConcept,
        model: Model,
        workspace: Seq<Model>,
        index: int,
    )
        ensures
            all_addressed(self.spec_verify(concept, model, workspace, index)),
    ;
}

impl Addressed for Agent {
    proof fn findings_are_addressed(
        &self,
        concept: ModelConcept,
        model: Model,
        workspace: Seq<Model>,
        index: int,
    ) {
        lemma_agent(*self, concept, model, workspace, index);
    }
}

impl Addressed for Message {
    proof fn findings_are_addressed(
        &self,
        concept: ModelConcept,
        model: Model,
        workspace: Seq<Model>,
        index: int,
    ) {
        lemma_message_fields(*self, workspace, index, self.fields@.len() as int);
    }
}

impl Addressed for Goal {
    proof fn findings_are_addressed(
        &self,
        concept: ModelConcept,
        model: Model,
        workspace: Seq<Model>,
        index: int,
    ) {
        lemma_goal(*self, concept, model, workspace, index);
    }
}

impl Addressed for Plan {
    proof fn findings_are_addressed(
        &self,
        concept: ModelConcept,
        model: Model,
        workspace: Seq<Model>,
        index: int,
    ) {
        lemma_plan(*self, concept, model, workspace, index);
    }
}

impl Addressed for Role {
    proof fn findings_are_addressed(
        &self,
        concept: ModelConcept,
        model: Model,
        workspace: Seq<Model>,
        index: int,
    ) {
        lemma_role(*self, concept, model, workspace, index);
    }
}

impl Addressed for Resource {
    proof fn findings_are_addressed(
        &self,
        concept: ModelConcept,
        model: Model,
        workspace: Seq<Model>,
        index: int,
    ) {
    }
}

impl Addressed for Tactic {
    proof fn findings_are_addressed(
        &self,
        concept: ModelConcept,
        model: Model,
        workspace: Seq<Model>,
        index: int,
    ) {
        lemma_tactic(*self, concept, model, workspace, index);
    }
}

impl Addressed for Action {
    proof fn findings_are_addressed(
        &self,
        concept: ModelConcept,
        model: Model,
        workspace: Seq<Model>,
        index: int,
    ) {
        lemma_action(*self, concept, model, workspace, index);
    }
}

impl Addressed for Service {
    proof fn findings_are_addressed(
        &self,
        concept: ModelConcept,
        model: Model,
        workspace: Seq<Model>,
        index: int,
    ) {
    }
}

impl Addressed for Enum {
    proof fn findings_are_addressed(
        &self,
        concept: ModelConcept,
        model: Model,
        workspace: Seq<Model>,
        index: int,
    ) {
        lemma_enum_fields(*self, index, self.fields@.len() as int);
    }
}

impl Addressed for Event {
    proof fn findings_are_addressed(
        &self,
        concept: ModelConcept,
        model: Model,
        workspace: Seq<Model>,
        index: int,
    ) {
        lemma_event_presets(*self, model, index, self.message.defaults@.len() as int);
    }
}

proof fn lemma_concept<T: Addressed>(
    items: Seq<T>,
    concept: ModelConcept,
    earlier: Seq<Declaration>,
    model: Model,
    workspace: Seq<Model>,
    n: int,
)
    requires
        0 <= n <= items.len(),
    ensures
        all_addressed(concept_findings(items, concept, earlier, model, workspace, n)),
    decreases n,
{
    if n > 0 {
        lemma_concept(items, concept, earlier, model, workspace, n - 1);
        let seen = earlier + declarations(concept, items).take(n - 1);
        lemma_declaration(concept, seen, items[n - 1].spec_id(), n - 1);
        items[n - 1].findings_are_addressed(concept, model, workspace, n - 1);
        lemma_add(
            concept_findings(items, concept, earlier, model, workspace, n - 1),
            declaration_findings(concept, seen, items[n - 1].spec_id(), n - 1),
        );
        lemma_add(
            concept_findings(items, concept, earlier, model, workspace, n - 1)
                + declaration_findings(concept, seen, items[n - 1].spec_id(), n - 1),
            items[n - 1].spec_verify(concept, model, workspace, n - 1),
        );
    }
}

/// Every finding on a module addresses what it is about: it names one
/// location or two by position, and as many by name; only a finding on
/// what has no name names it by position alone. Where a finding relates
/// two locations, both lists of paths name them in the same order.
pub proof fn every_finding_is_addressed(model: Model, workspace: Seq<Model>)
    ensures
        all_addressed(model.spec_verify(workspace)),
{
    let d0 = Seq::<Declaration>::empty();
    let d1 = declarations(ModelConcept::Team, model.teams@);
    let d2 = d1 + declarations(ModelConcept::Agent, model.agents@);
    let d3 = d2 + declarations(ModelConcept::Message, model.messages@);
    let d4 = d3 + declarations(ModelConcept::Goal, model.goals@);
    let d5 = d4 + declarations(ModelConcept::Plan, model.plans@);
    let d6 = d5 + declarations(ModelConcept::Role, model.roles@);
    let d7 = d6 + declarations(ModelConcept::Resource, model.resources@);
    let d8 = d7 + declarations(ModelConcept::Tactic, model.tactics@);
    let d9 = d8 + declarations(ModelConcept::Action, model.actions@);
    let d10 = d9 + declarations(ModelConcept::Service, model.services@);
    let d11 = d10 + declarations(ModelConcept::Enum, model.enums@);
    let p = model.project.spec_verify();
    let c1 = concept_findings(
        model.teams@,
        ModelConcept::Team,
        d0,
        model,
        workspace,
        model.teams@.len() as int,
    );
    let c2 = concept_findings(
        model.agents@,
        ModelConcept::Agent,
        d1,
        model,
        workspace,
        model.agents@.len() as int,
    );
    let c3 = concept_findings(
        model.messages@,
        ModelConcept::Message,
        d2,
        model,
        workspace,
        model.messages@.len() as int,
    );
    let c4 = concept_findings(
        model.goals@,
        ModelConcept::Goal,
        d3,
        model,
        workspace,
        model.goals@.len() as int,
    );
    let c5 = concept_findings(
        model.plans@,
        ModelConcept::Plan,
        d4,
        model,
        workspace,
        model.plans@.len() as int,
    );
    let c6 = concept_findings(
        model.roles@,
        ModelConcept::Role,
        d5,
        model,
        workspace,
        model.roles@.len() as int,
    );
    let c7 = concept_findings(
        model.resources@,
        ModelConcept::Resource,
        d6,
        model,
        workspace,
        model.resources@.len() as int,
    );
    let c8 = concept_findings(
        model.tactics@,
        ModelConcept::Tactic,
        d7,
        model,
        workspace,
        model.tactics@.len() as int,
    );
    let c9 = concept_findings(
        model.actions@,
        ModelConcept::Action,
        d8,
        model,
        workspace,
        model.actions@.len() as int,
    );
    let c10 = concept_findings(
        model.services@,
        ModelConcept::Service,
        d9,
        model,
        workspace,
        model.services@.len() as int,
    );
    let c11 = concept_findings(
        model.enums@,
        ModelConcept::Enum,
        d10,
        model,
        workspace,
        model.enums@.len() as int,
    );
    let c12 = concept_findings(
        model.events@,
        ModelConcept::Event,
        d11,
        model,
        workspace,
        model.events@.len() as int,
    );
    assert(all_addressed(model.project.spec_name_findings()));
    lemma_project(model, model.project.namespaces@.len() as int);
    lemma_add(
        model.project.spec_name_findings(),
        model.project.spec_namespaces_findings(model.project.namespaces@.len() as int),
    );
    lemma_concept(model.teams@, ModelConcept::Team, d0, model, workspace, model.teams@.len() as int);
    lemma_concept(
        model.agents@,
        ModelConcept::Agent,
        d1,
        model,
        workspace,
        model.agents@.len() as int,
    );
    lemma_concept(
        model.messages@,
        ModelConcept::Message,
        d2,
        model,
        workspace,
        model.messages@.len() as int,
    );
    lemma_concept(model.goals@, ModelConcept::Goal, d3, model, workspace, model.goals@.len() as int);
    lemma_concept(model.plans@, ModelConcept::Plan, d4, model, workspace, model.plans@.len() as int);
    lemma_concept(model.roles@, ModelConcept::Role, d5, model, workspace, model.roles@.len() as int);
    lemma_concept(
        model.resources@,
        ModelConcept::Resource,
        d6,
        model,
        workspace,
        model.resources@.len() as int,
    );
    lemma_concept(
        model.tactics@,
        ModelConcept::Tactic,
        d7,
        model,
        workspace,
        model.tactics@.len() as int,
    );
    lemma_concept(
        model.actions@,
        ModelConcept::Action,
        d8,
        model,
        workspace,
        model.actions@.len() as int,
    );
    lemma_concept(
        model.services@,
        ModelConcept::Service,
        d9,
        model,
        workspace,
        model.services@.len() as int,
    );
    lemma_concept(model.enums@, ModelConcept::Enum, d10, model, workspace, model.enums@.len() as int);
    lemma_concept(
        model.events@,
        ModelConcept::Event,
        d11,
        model,
        workspace,
        model.events@.len() as int,
    );
    lemma_add(p, c1);
    lemma_add(p + c1, c2);
    lemma_add(p + c1 + c2, c3);
    lemma_add(p + c1 + c2 + c3, c4);
    lemma_add(p + c1 + c2 + c3 + c4, c5);
    lemma_add(p + c1 + c2 + c3 + c4 + c5, c6);
    lemma_add(p + c1 + c2 + c3 + c4 + c5 + c6, c7);
    lemma_add(p + c1 + c2 + c3 + c4 + c5 + c6 + c7, c8);
    lemma_add(p + c1 + c2 + c3 + c4 + c5 + c6 + c7 + c8, c9);
    lemma_add(p + c1 + c2 + c3 + c4 + c5 + c6 + c7 + c8 + c9, c10);
    lemma_add(p + c1 + c2 + c3 + c4 + c5 + c6 + c7 + c8 + c9 + c10, c11);
    lemma_add(p + c1 + c2 + c3 + c4 + c5 + c6 + c7 + c8 + c9 + c10 + c11, c12);
}

} // verus!
