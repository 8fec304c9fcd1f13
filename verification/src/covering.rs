//! Adding a plan for a goal that had none, seen over the whole report of
//! the module: the finding on the goal goes, and nothing else changes.

use crate::agent::service_handlers;
use crate::concept::{
    first_named, first_position, has_identity, lemma_first_position, lemma_name_position_from,
    Identified, ModelConcept,
};
use crate::error::ModelErrorView;
use crate::goal::handled_by;
use crate::identifier::Identifier;
use crate::model::Model;
use crate::references::{
    duplicate_findings, reference_findings, reference_findings_at, Reference, Wording,
};
use crate::schema::{Action, Agent, Event, FieldType, Goal, Message, Plan, Role, Tactic};
use crate::text::decimal;
use crate::validate::{
    concept_findings, declaration_findings, declarations, same_identity_findings,
    same_name_findings, Checked, Declaration,
};
use crate::workspace::{
    first_owner, identities, lemma_first_owner, owner, workspace_find_message,
};
use vstd::prelude::*;

verus! {

/// Whether `after` is `before` with `plan` added after its plans.
pub open spec fn with_plan(before: Model, plan: Plan, after: Model) -> bool {
    &&& after == (Model { plans: after.plans, ..before })
    &&& after.plans@ == before.plans@.push(plan)
}

/// What an identity finds among the plans does not change where a plan of
/// another identity is added after them.
proof fn lemma_found_as_before<T: Identified>(plans: Seq<T>, plan: T, uuid: Seq<char>)
    requires
        plan.spec_id().uuid@ != uuid,
    ensures
        has_identity(plans.push(plan), uuid) == has_identity(plans, uuid),
        has_identity(plans, uuid) ==> first_position(plans.push(plan), uuid) == first_position(
            plans,
            uuid,
        ),
{
    let more = plans.push(plan);
    if has_identity(plans, uuid) {
        let i = choose|i: int|
            0 <= i < plans.len() && (#[trigger] plans[i]).spec_id().uuid@ == uuid;
        assert(more[i] == plans[i]);
        lemma_first_position(plans, uuid);
        lemma_first_position(more, uuid);
        let p = first_position(plans, uuid);
        let q = first_position(more, uuid);
        assert(more[p] == plans[p]);
        if q < p {
            assert(more[q] == plans[q]);
        }
    }
    if has_identity(more, uuid) {
        let i = choose|i: int| 0 <= i < more.len() && (#[trigger] more[i]).spec_id().uuid@ == uuid;
        assert(i < plans.len());
        assert(more[i] == plans[i]);
    }
}

proof fn lemma_references_stay<T: Identified>(
    items: Seq<T>,
    kind: Reference,
    before: Model,
    after: Model,
    key: Seq<char>,
    machine_key: Seq<char>,
    wording: Wording,
    n: int,
)
    requires
        0 <= n <= items.len(),
        forall|i: int|
            0 <= i < items.len() ==> before.spec_resolves(kind, (#[trigger] items[i]).spec_id())
                == after.spec_resolves(kind, items[i].spec_id()),
    ensures
        reference_findings(items, kind, after, key, machine_key, wording, n) == reference_findings(
            items,
            kind,
            before,
            key,
            machine_key,
            wording,
            n,
        ),
    decreases n,
{
    if n > 0 {
        lemma_references_stay(items, kind, before, after, key, machine_key, wording, n - 1);
        assert(before.spec_resolves(kind, items[n - 1].spec_id()) == after.spec_resolves(
            kind,
            items[n - 1].spec_id(),
        ));
        assert(reference_findings_at(items, kind, after, key, machine_key, wording, n - 1)
            == reference_findings_at(items, kind, before, key, machine_key, wording, n - 1));
    }
}

/// References to anything but plans resolve as before.
proof fn lemma_others_stay<T: Identified>(
    items: Seq<T>,
    kind: Reference,
    before: Model,
    after: Model,
    key: Seq<char>,
    machine_key: Seq<char>,
    wording: Wording,
)
    requires
        after == (Model { plans: after.plans, ..before }),
        kind != Reference::Plan,
    ensures
        reference_findings(items, kind, after, key, machine_key, wording, items.len() as int)
            == reference_findings(
            items,
            kind,
            before,
            key,
            machine_key,
            wording,
            items.len() as int,
        ),
{
    lemma_references_stay(
        items,
        kind,
        before,
        after,
        key,
        machine_key,
        wording,
        items.len() as int,
    );
}

proof fn lemma_role_grants(role: Role, before: Model, after: Model, index: int, n: int)
    requires
        after == (Model { plans: after.plans, ..before }),
        0 <= n <= role.messages@.len(),
    ensures
        role.spec_grants_findings(after, index, n) == role.spec_grants_findings(before, index, n),
    decreases n,
{
    if n > 0 {
        lemma_role_grants(role, before, after, index, n - 1);
        assert(reference_findings_at(
            role.messages@,
            Reference::Message,
            after,
            role.spec_grants_key(),
            role.spec_grants_machine_key(index),
            Wording { unset: "Message", missing: "Message", place: "messages" },
            n - 1,
        ) == reference_findings_at(
            role.messages@,
            Reference::Message,
            before,
            role.spec_grants_key(),
            role.spec_grants_machine_key(index),
            Wording { unset: "Message", missing: "Message", place: "messages" },
            n - 1,
        ));
    }
}

proof fn lemma_role_stays(
    role: Role,
    concept: ModelConcept,
    before: Model,
    after: Model,
    workspace: Seq<Model>,
    other_workspace: Seq<Model>,
    index: int,
)
    requires
        after == (Model { plans: after.plans, ..before }),
    ensures
        role.spec_verify(concept, after, other_workspace, index) == role.spec_verify(
            concept,
            before,
            workspace,
            index,
        ),
{
    lemma_role_grants(role, before, after, index, role.messages@.len() as int);
    lemma_others_stay(
        role.goals@,
        Reference::Goal,
        before,
        after,
        "roles."@ + role.id.spec_qualified_name() + ".goals"@,
        "roles."@ + decimal(index as nat) + ".goals"@,
        Wording { unset: "Goal", missing: "Message", place: "messages" },
    );
}

proof fn lemma_event_presets(event: Event, before: Model, after: Model, index: int, n: int)
    requires
        after == (Model { plans: after.plans, ..before }),
        0 <= n <= event.message.defaults@.len(),
    ensures
        event.spec_presets_findings(after, index, n) == event.spec_presets_findings(
            before,
            index,
            n,
        ),
    decreases n,
{
    if n > 0 {
        lemma_event_presets(event, before, after, index, n - 1);
        assert(event.spec_unknown_field(after, index, n - 1) == event.spec_unknown_field(
            before,
            index,
            n - 1,
        ));
    }
}

proof fn lemma_event_stays(
    event: Event,
    concept: ModelConcept,
    before: Model,
    after: Model,
    workspace: Seq<Model>,
    other_workspace: Seq<Model>,
    index: int,
)
    requires
        after == (Model { plans: after.plans, ..before }),
    ensures
        event.spec_verify(concept, after, other_workspace, index) == event.spec_verify(
            concept,
            before,
            workspace,
            index,
        ),
{
    lemma_event_presets(event, before, after, index, event.message.defaults@.len() as int);
}

proof fn lemma_plan_tasks(plan: Plan, before: Model, after: Model, index: int, n: int)
    requires
        after == (Model { plans: after.plans, ..before }),
        0 <= n <= plan.tasks@.len(),
    ensures
        plan.spec_tasks_findings(after, index, n) == plan.spec_tasks_findings(before, index, n),
    decreases n,
{
    if n > 0 {
        lemma_plan_tasks(plan, before, after, index, n - 1);
        let task = plan.tasks@[n - 1];
        assert(plan.spec_action_task_findings(after, index, n - 1)
            == plan.spec_action_task_findings(before, index, n - 1));
        match task.goal {
            Some(goal) => {
                assert(plan.spec_sub_goal_findings(after, index, n - 1, goal)
                    == plan.spec_sub_goal_findings(before, index, n - 1, goal));
            },
            None => {},
        }
        assert(plan.spec_goal_task_findings(after, index, n - 1) == plan.spec_goal_task_findings(
            before,
            index,
            n - 1,
        ));
        assert(plan.spec_task_findings(after, index, n - 1) == plan.spec_task_findings(
            before,
            index,
            n - 1,
        ));
    }
}

proof fn lemma_plan_stays(
    plan: Plan,
    concept: ModelConcept,
    before: Model,
    after: Model,
    workspace: Seq<Model>,
    other_workspace: Seq<Model>,
    index: int,
)
    requires
        after == (Model { plans: after.plans, ..before }),
    ensures
        plan.spec_verify(concept, after, other_workspace, index) == plan.spec_verify(
            concept,
            before,
            workspace,
            index,
        ),
{
    lemma_plan_tasks(plan, before, after, index, plan.tasks@.len() as int);
    lemma_others_stay(
        plan.query_messages@,
        Reference::Message,
        before,
        after,
        "plans."@ + plan.id.spec_qualified_name() + ".query_messages"@,
        "plans."@ + decimal(index as nat) + ".query_messages"@,
        Wording { unset: "Query message", missing: "Query message", place: "messages" },
    );
    assert(plan.spec_handles_findings(after, index) == plan.spec_handles_findings(before, index));
}

proof fn lemma_action_stays(
    action: Action,
    concept: ModelConcept,
    before: Model,
    after: Model,
    workspace: Seq<Model>,
    other_workspace: Seq<Model>,
    index: int,
)
    requires
        after == (Model { plans: after.plans, ..before }),
    ensures
        action.spec_verify(concept, after, other_workspace, index) == action.spec_verify(
            concept,
            before,
            workspace,
            index,
        ),
{
}

proof fn lemma_tactic_plans(
    tactic: Tactic,
    before: Model,
    plan: Plan,
    after: Model,
    index: int,
    n: int,
)
    requires
        with_plan(before, plan, after),
        !has_identity(tactic.plan_list@, plan.id.uuid@),
        0 <= n <= tactic.plan_list@.len(),
    ensures
        tactic.spec_plans_findings(after, index, n) == tactic.spec_plans_findings(
            before,
            index,
            n,
        ),
    decreases n,
{
    if n > 0 {
        lemma_tactic_plans(tactic, before, plan, after, index, n - 1);
        let listed = tactic.plan_list@[n - 1];
        assert(listed.spec_id().uuid@ != plan.id.uuid@);
        lemma_found_as_before(before.plans@, plan, listed.uuid@);
        if tactic.spec_plan_resolves(before, n - 1) {
            lemma_first_position(before.plans@, listed.uuid@);
            let p = first_position(before.plans@, listed.uuid@);
            assert(after.plans@[p] == before.plans@[p]);
        }
        assert(tactic.spec_plan_findings(after, index, n - 1) == tactic.spec_plan_findings(
            before,
            index,
            n - 1,
        ));
    }
}

proof fn lemma_tactic_stays(
    tactic: Tactic,
    concept: ModelConcept,
    before: Model,
    plan: Plan,
    after: Model,
    workspace: Seq<Model>,
    other_workspace: Seq<Model>,
    index: int,
)
    requires
        with_plan(before, plan, after),
        !has_identity(tactic.plan_list@, plan.id.uuid@),
    ensures
        tactic.spec_verify(concept, after, other_workspace, index) == tactic.spec_verify(
            concept,
            before,
            workspace,
            index,
        ),
{
    lemma_tactic_plans(tactic, before, plan, after, index, tactic.plan_list@.len() as int);
    assert(tactic.spec_goal_findings(after, index) == tactic.spec_goal_findings(before, index));
}

proof fn lemma_message_fields(
    message: Message,
    before: Seq<Model>,
    after: Seq<Model>,
    index: int,
    n: int,
)
    requires
        forall|id: Identifier| #[trigger]
            workspace_find_message(before, id) == workspace_find_message(after, id),
        0 <= n <= message.fields@.len(),
    ensures
        message.spec_fields_findings(after, index, n) == message.spec_fields_findings(
            before,
            index,
            n,
        ),
    decreases n,
{
    if n > 0 {
        lemma_message_fields(message, before, after, index, n - 1);
        match message.fields@[n - 1].field_type {
            FieldType::Custom(custom) => {
                assert(workspace_find_message(before, custom) == workspace_find_message(
                    after,
                    custom,
                ));
            },
            _ => {},
        }
        assert(message.spec_type_findings(after, index, n - 1) == message.spec_type_findings(
            before,
            index,
            n - 1,
        ));
    }
}

/// A goal of another identity than the one that the plan handles has the
/// findings it had.
proof fn lemma_goal_stays(
    goal: Goal,
    concept: ModelConcept,
    before: Model,
    plan: Plan,
    after: Model,
    workspace: Seq<Model>,
    other_workspace: Seq<Model>,
    index: int,
)
    requires
        with_plan(before, plan, after),
    ensures
        goal.spec_reference_findings(after, index) == goal.spec_reference_findings(before, index),
        goal.id.uuid@ != plan.handles.uuid@ ==> goal.spec_verify(
            concept,
            after,
            other_workspace,
            index,
        ) == goal.spec_verify(concept, before, workspace, index),
{
    let name = goal.id.spec_qualified_name();
    let at = decimal(index as nat);
    lemma_others_stay(
        goal.query_messages@,
        Reference::Message,
        before,
        after,
        "goals."@ + name + ".query_messages"@,
        "goals."@ + at + ".query_messages"@,
        Wording { unset: "Message", missing: "Message", place: "messages" },
    );
    lemma_others_stay(
        goal.resources@,
        Reference::Resource,
        before,
        after,
        "goals."@ + name + ".resources"@,
        "goals."@ + at + ".resources"@,
        Wording { unset: "Resource", missing: "Resource", place: "resources" },
    );
    if goal.id.uuid@ != plan.handles.uuid@ {
        if handled_by(before.plans@, goal.id.uuid@) {
            let p = choose|p: int|
                0 <= p < before.plans@.len() && (#[trigger] before.plans@[p]).handles.uuid@
                    == goal.id.uuid@;
            assert(after.plans@[p] == before.plans@[p]);
        }
        if handled_by(after.plans@, goal.id.uuid@) {
            let p = choose|p: int|
                0 <= p < after.plans@.len() && (#[trigger] after.plans@[p]).handles.uuid@
                    == goal.id.uuid@;
            assert(p < before.plans@.len());
            assert(after.plans@[p] == before.plans@[p]);
        }
    }
}

proof fn lemma_service_handlers(before: Model, after: Model, services: Seq<Identifier>, n: int)
    requires
        after == (Model { plans: after.plans, ..before }),
        0 <= n <= services.len(),
    ensures
        service_handlers(after, services, n) == service_handlers(before, services, n),
    decreases n,
{
    if n > 0 {
        lemma_service_handlers(before, after, services, n - 1);
    }
}

proof fn lemma_agent_lists(
    agent: Agent,
    concept: ModelConcept,
    before: Model,
    plan: Plan,
    after: Model,
    index: int,
)
    requires
        with_plan(before, plan, after),
        !has_identity(agent.plans@, plan.id.uuid@),
    ensures
        agent.spec_reference_findings(concept, after, index) == agent.spec_reference_findings(
            concept,
            before,
            index,
        ),
{
    let path = agent.spec_path(concept);
    let machine_path = agent.spec_machine_path(concept, index);
    lemma_others_stay(
        agent.action_handlers@,
        Reference::Action,
        before,
        after,
        path + ".action_handlers"@,
        machine_path + ".action_handlers"@,
        Wording { unset: "Action", missing: "Action", place: "messages" },
    );
    lemma_others_stay(
        agent.beliefs@,
        Reference::Message,
        before,
        after,
        path + ".beliefs"@,
        machine_path + ".beliefs"@,
        Wording { unset: "Belief", missing: "Belief", place: "messages" },
    );
    lemma_others_stay(
        agent.message_handlers@,
        Reference::Message,
        before,
        after,
        path + ".message_handlers"@,
        machine_path + ".message_handlers"@,
        Wording { unset: "Message", missing: "Message", place: "messages" },
    );
    lemma_others_stay(
        agent.goals@,
        Reference::Goal,
        before,
        after,
        path + ".goals"@,
        machine_path + ".goals"@,
        Wording { unset: "Goal", missing: "Message", place: "messages" },
    );
    assert forall|i: int| 0 <= i < agent.plans@.len() implies before.spec_resolves(
        Reference::Plan,
        (#[trigger] agent.plans@[i]).spec_id(),
    ) == after.spec_resolves(Reference::Plan, agent.plans@[i].spec_id()) by {
        lemma_found_as_before(before.plans@, plan, agent.plans@[i].spec_id().uuid@);
    }
    lemma_references_stay(
        agent.plans@,
        Reference::Plan,
        before,
        after,
        path + ".plans"@,
        machine_path + ".plans"@,
        Wording { unset: "Plan", missing: "Plan", place: "plans" },
        agent.plans@.len() as int,
    );
    lemma_others_stay(
        agent.resources@,
        Reference::Resource,
        before,
        after,
        path + ".resources"@,
        machine_path + ".resources"@,
        Wording { unset: "Resource", missing: "Resource", place: "resources" },
    );
    lemma_others_stay(
        agent.roles@,
        Reference::Role,
        before,
        after,
        path + ".roles"@,
        machine_path + ".roles"@,
        Wording { unset: "Role", missing: "Role", place: "roles" },
    );
    lemma_others_stay(
        agent.services@,
        Reference::Service,
        before,
        after,
        path + ".services"@,
        machine_path + ".services"@,
        Wording { unset: "Service", missing: "Service", place: "services" },
    );
}

proof fn lemma_agent_beliefs(
    agent: Agent,
    concept: ModelConcept,
    before: Model,
    after: Model,
    index: int,
    i: int,
    j: int,
    n: int,
)
    requires
        after == (Model { plans: after.plans, ..before }),
    ensures
        agent.spec_belief_findings(concept, after, index, i, j, n) == agent.spec_belief_findings(
            concept,
            before,
            index,
            i,
            j,
            n,
        ),
    decreases n,
{
    if n > 0 {
        lemma_agent_beliefs(agent, concept, before, after, index, i, j, n - 1);
        assert(agent.spec_missing_beliefs(after, i) == agent.spec_missing_beliefs(before, i));
        assert(agent.spec_belief_finding(concept, after, index, i, j, n - 1)
            == agent.spec_belief_finding(concept, before, index, i, j, n - 1));
    }
}

proof fn lemma_agent_goal_row(
    agent: Agent,
    concept: ModelConcept,
    before: Model,
    after: Model,
    index: int,
    i: int,
    n: int,
)
    requires
        after == (Model { plans: after.plans, ..before }),
    ensures
        agent.spec_goal_row(concept, after, index, i, n) == agent.spec_goal_row(
            concept,
            before,
            index,
            i,
            n,
        ),
    decreases n,
{
    if n > 0 {
        lemma_agent_goal_row(agent, concept, before, after, index, i, n - 1);
        assert(agent.spec_missing_beliefs(after, i) == agent.spec_missing_beliefs(before, i));
        lemma_agent_beliefs(
            agent,
            concept,
            before,
            after,
            index,
            i,
            n - 1,
            agent.spec_missing_beliefs(before, i).len() as int,
        );
        assert(agent.spec_tactic_findings(concept, after, index, n - 1)
            == agent.spec_tactic_findings(concept, before, index, n - 1));
        assert(agent.spec_pursuit_findings(concept, after, index, i, n - 1)
            == agent.spec_pursuit_findings(concept, before, index, i, n - 1));
    }
}

proof fn lemma_agent_goals(
    agent: Agent,
    concept: ModelConcept,
    before: Model,
    after: Model,
    index: int,
    n: int,
)
    requires
        after == (Model { plans: after.plans, ..before }),
    ensures
        agent.spec_goal_findings(concept, after, index, n) == agent.spec_goal_findings(
            concept,
            before,
            index,
            n,
        ),
    decreases n,
{
    if n > 0 {
        lemma_agent_goals(agent, concept, before, after, index, n - 1);
        lemma_agent_goal_row(
            agent,
            concept,
            before,
            after,
            index,
            n - 1,
            agent.goals@.len() as int,
        );
    }
}

proof fn lemma_agent_actions(
    agent: Agent,
    concept: ModelConcept,
    before: Model,
    after: Model,
    index: int,
    i: int,
    j: int,
    n: int,
)
    requires
        after == (Model { plans: after.plans, ..before }),
        0 <= i < before.plans@.len(),
        after.plans@[i] == before.plans@[i],
    ensures
        agent.spec_missing_actions(after, i) == agent.spec_missing_actions(before, i),
        agent.spec_action_findings(concept, after, index, i, j, n) == agent.spec_action_findings(
            concept,
            before,
            index,
            i,
            j,
            n,
        ),
    decreases n,
{
    lemma_service_handlers(before, after, agent.services@, agent.services@.len() as int);
    assert(agent.spec_handled_actions(after) == agent.spec_handled_actions(before));
    assert(agent.spec_missing_actions(after, i) == agent.spec_missing_actions(before, i));
    if n > 0 {
        lemma_agent_actions(agent, concept, before, after, index, i, j, n - 1);
        assert(agent.spec_action_finding(concept, after, index, i, j, n - 1)
            == agent.spec_action_finding(concept, before, index, i, j, n - 1));
    }
}

proof fn lemma_agent_plan_row(
    agent: Agent,
    concept: ModelConcept,
    before: Model,
    after: Model,
    index: int,
    i: int,
    n: int,
)
    requires
        after == (Model { plans: after.plans, ..before }),
        0 <= i < before.plans@.len(),
        after.plans@[i] == before.plans@[i],
    ensures
        agent.spec_plan_row(concept, after, index, i, n) == agent.spec_plan_row(
            concept,
            before,
            index,
            i,
            n,
        ),
    decreases n,
{
    if n > 0 {
        lemma_agent_plan_row(agent, concept, before, after, index, i, n - 1);
        lemma_agent_actions(
            agent,
            concept,
            before,
            after,
            index,
            i,
            n - 1,
            agent.spec_missing_actions(before, i).len() as int,
        );
    }
}

/// A plan that the agent does not list brings no finding on the agent.
proof fn lemma_agent_new_row(
    agent: Agent,
    concept: ModelConcept,
    model: Model,
    index: int,
    i: int,
    n: int,
)
    requires
        0 <= i < model.plans@.len(),
        !has_identity(agent.plans@, model.plans@[i].id.uuid@),
        0 <= n <= agent.plans@.len(),
    ensures
        agent.spec_plan_row(concept, model, index, i, n) == Seq::<ModelErrorView>::empty(),
    decreases n,
{
    if n > 0 {
        lemma_agent_new_row(agent, concept, model, index, i, n - 1);
        assert(agent.plans@[n - 1].spec_id().uuid@ != model.plans@[i].id.uuid@);
    }
}

proof fn lemma_agent_plans(
    agent: Agent,
    concept: ModelConcept,
    before: Model,
    plan: Plan,
    after: Model,
    index: int,
    n: int,
)
    requires
        with_plan(before, plan, after),
        0 <= n <= before.plans@.len(),
    ensures
        agent.spec_plan_findings(concept, after, index, n) == agent.spec_plan_findings(
            concept,
            before,
            index,
            n,
        ),
    decreases n,
{
    if n > 0 {
        lemma_agent_plans(agent, concept, before, plan, after, index, n - 1);
        lemma_agent_plan_row(
            agent,
            concept,
            before,
            after,
            index,
            n - 1,
            agent.plans@.len() as int,
        );
    }
}

proof fn lemma_agent_resources(
    agent: Agent,
    concept: ModelConcept,
    before: Model,
    after: Model,
    index: int,
    i: int,
    j: int,
    n: int,
)
    requires
        after == (Model { plans: after.plans, ..before }),
    ensures
        agent.spec_resource_findings(concept, after, index, i, j, n)
            == agent.spec_resource_findings(concept, before, index, i, j, n),
    decreases n,
{
    if n > 0 {
        lemma_agent_resources(agent, concept, before, after, index, i, j, n - 1);
        assert(agent.spec_missing_resources(after, i) == agent.spec_missing_resources(before, i));
        assert(agent.spec_resource_finding(concept, after, index, i, j, n - 1)
            == agent.spec_resource_finding(concept, before, index, i, j, n - 1));
    }
}

proof fn lemma_agent_resource_row(
    agent: Agent,
    concept: ModelConcept,
    before: Model,
    after: Model,
    index: int,
    j: int,
    n: int,
)
    requires
        after == (Model { plans: after.plans, ..before }),
    ensures
        agent.spec_resource_row(concept, after, index, j, n) == agent.spec_resource_row(
            concept,
            before,
            index,
            j,
            n,
        ),
    decreases n,
{
    if n > 0 {
        lemma_agent_resource_row(agent, concept, before, after, index, j, n - 1);
        assert(agent.spec_missing_resources(after, n - 1) == agent.spec_missing_resources(
            before,
            n - 1,
        ));
        lemma_agent_resources(
            agent,
            concept,
            before,
            after,
            index,
            n - 1,
            j,
            agent.spec_missing_resources(before, n - 1).len() as int,
        );
    }
}

proof fn lemma_agent_requirements(
    agent: Agent,
    concept: ModelConcept,
    before: Model,
    after: Model,
    index: int,
    n: int,
)
    requires
        after == (Model { plans: after.plans, ..before }),
    ensures
        agent.spec_requirement_findings(concept, after, index, n)
            == agent.spec_requirement_findings(concept, before, index, n),
    decreases n,
{
    if n > 0 {
        lemma_agent_requirements(agent, concept, before, after, index, n - 1);
        lemma_agent_resource_row(
            agent,
            concept,
            before,
            after,
            index,
            n - 1,
            before.goals@.len() as int,
        );
    }
}

proof fn lemma_agent_stays(
    agent: Agent,
    concept: ModelConcept,
    before: Model,
    plan: Plan,
    after: Model,
    workspace: Seq<Model>,
    other_workspace: Seq<Model>,
    index: int,
)
    requires
        with_plan(before, plan, after),
        !has_identity(agent.plans@, plan.id.uuid@),
    ensures
        agent.spec_verify(concept, after, other_workspace, index) == agent.spec_verify(
            concept,
            before,
            workspace,
            index,
        ),
{
    let many = before.plans@.len() as int;
    lemma_agent_lists(agent, concept, before, plan, after, index);
    lemma_agent_goals(agent, concept, before, after, index, before.goals@.len() as int);
    lemma_agent_plans(agent, concept, before, plan, after, index, many);
    assert(after.plans@[many] == plan);
    lemma_agent_new_row(agent, concept, after, index, many, agent.plans@.len() as int);
    assert(agent.spec_plan_findings(concept, after, index, many + 1) =~= agent.spec_plan_findings(
        concept,
        before,
        index,
        many,
    ));
    lemma_agent_requirements(agent, concept, before, after, index, agent.goals@.len() as int);
}

/// Whether none of `items` has the name or the identity of `id`.
pub open spec fn none_like<T: Identified>(items: Seq<T>, id: Identifier) -> bool {
    forall|i: int|
        0 <= i < items.len() ==> (#[trigger] items[i]).spec_id().name@ != id.name@
            && items[i].spec_id().uuid@ != id.uuid@
}

proof fn lemma_none_like_declared<T: Identified>(
    concept: ModelConcept,
    items: Seq<T>,
    id: Identifier,
)
    requires
        none_like(items, id),
    ensures
        none_like(declarations(concept, items), id),
{
    assert forall|i: int| 0 <= i < declarations(concept, items).len() implies (
    #[trigger] declarations(concept, items)[i]).spec_id().name@ != id.name@ && declarations(
        concept,
        items,
    )[i].spec_id().uuid@ != id.uuid@ by {
        assert(declarations(concept, items)[i].id == items[i].spec_id());
    }
}

proof fn lemma_none_like_add(first: Seq<Declaration>, second: Seq<Declaration>, id: Identifier)
    requires
        none_like(first, id),
        none_like(second, id),
    ensures
        none_like(first + second, id),
{
    assert forall|i: int| 0 <= i < (first + second).len() implies (#[trigger] (first
        + second)[i]).spec_id().name@ != id.name@ && (first + second)[i].spec_id().uuid@
        != id.uuid@ by {
        if i < first.len() {
            assert((first + second)[i] == first[i]);
        } else {
            assert((first + second)[i] == second[i - first.len()]);
        }
    }
}

/// A declaration that is named and identified, not named like its kind,
/// and like none of those seen has no finding of the checks that every
/// declaration gets.
proof fn lemma_new_declaration(
    concept: ModelConcept,
    seen: Seq<Declaration>,
    id: Identifier,
    index: int,
)
    requires
        none_like(seen, id),
        id.name@.len() > 0,
        id.uuid@.len() > 0,
        id.name@ != concept.spec_reserved_name(),
    ensures
        declaration_findings(concept, seen, id, index) == Seq::<ModelErrorView>::empty(),
{
    lemma_name_position_from(seen, id.name@, 0);
    lemma_first_position(seen, id.uuid@);
    let f = first_named(seen, id.name@);
    let g = first_position(seen, id.uuid@);
    if f < seen.len() {
        assert(seen[f].spec_id().name@ != id.name@);
    }
    if g < seen.len() {
        assert(seen[g].spec_id().uuid@ != id.uuid@);
    }
    assert(declaration_findings(concept, seen, id, index) =~= Seq::<ModelErrorView>::empty());
}

/// A declaration has the findings it had where one that is unlike it
/// joins those seen.
proof fn lemma_seen_one_more(
    concept: ModelConcept,
    start: Seq<Declaration>,
    new: Declaration,
    rest: Seq<Declaration>,
    id: Identifier,
    index: int,
)
    requires
        new.id.name@ != id.name@,
        new.id.uuid@ != id.uuid@,
    ensures
        declaration_findings(concept, start.push(new) + rest, id, index) == declaration_findings(
            concept,
            start + rest,
            id,
            index,
        ),
{
    let s = start + rest;
    let t = start.push(new) + rest;
    let k = start.len() as int;
    assert forall|j: int| 0 <= j < t.len() implies #[trigger] t[j] == (if j < k {
        s[j]
    } else if j == k {
        new
    } else {
        s[j - 1]
    }) by {}
    lemma_name_position_from(s, id.name@, 0);
    lemma_name_position_from(t, id.name@, 0);
    let f = first_named(s, id.name@);
    let g = first_named(t, id.name@);
    if f < s.len() {
        let h = if f < k {
            f
        } else {
            f + 1
        };
        assert(t[h] == s[f]);
        if g < h {
            if g < k {
                assert(t[g] == s[g]);
            } else if g > k {
                assert(t[g] == s[g - 1]);
            }
        }
        assert(g == h);
    } else if g < t.len() {
        if g < k {
            assert(t[g] == s[g]);
        } else if g > k {
            assert(t[g] == s[g - 1]);
        }
    }
    lemma_first_position(s, id.uuid@);
    lemma_first_position(t, id.uuid@);
    let a = first_position(s, id.uuid@);
    let b = first_position(t, id.uuid@);
    if a < s.len() {
        let h = if a < k {
            a
        } else {
            a + 1
        };
        assert(t[h] == s[a]);
        if b < h {
            if b < k {
                assert(t[b] == s[b]);
            } else if b > k {
                assert(t[b] == s[b - 1]);
            }
        }
        assert(b == h);
    } else if b < t.len() {
        if b < k {
            assert(t[b] == s[b]);
        } else if b > k {
            assert(t[b] == s[b - 1]);
        }
    }
    let key = concept.spec_error_key();
    let kind = concept.spec_reserved_name();
    assert(same_name_findings(key, kind, t, id, index) == same_name_findings(
        key,
        kind,
        s,
        id,
        index,
    ));
    assert(same_identity_findings(key, kind, t, id, index) == same_identity_findings(
        key,
        kind,
        s,
        id,
        index,
    ));
}

/// The findings on the first `n` declarations of a collection are what they
/// were where each has the findings it had.
proof fn lemma_collection_stays<T: Checked>(
    items: Seq<T>,
    concept: ModelConcept,
    earlier: Seq<Declaration>,
    other_earlier: Seq<Declaration>,
    before: Model,
    after: Model,
    workspace: Seq<Model>,
    other_workspace: Seq<Model>,
    n: int,
)
    requires
        0 <= n <= items.len(),
        forall|i: int|
            0 <= i < n ==> #[trigger] items[i].spec_verify(concept, after, other_workspace, i)
                == items[i].spec_verify(concept, before, workspace, i),
        forall|i: int|
            0 <= i < n ==> declaration_findings(
                concept,
                other_earlier + #[trigger] declarations(concept, items).take(i),
                items[i].spec_id(),
                i,
            ) == declaration_findings(
                concept,
                earlier + declarations(concept, items).take(i),
                items[i].spec_id(),
                i,
            ),
    ensures
        concept_findings(items, concept, other_earlier, after, other_workspace, n)
            == concept_findings(items, concept, earlier, before, workspace, n),
    decreases n,
{
    if n > 0 {
        lemma_collection_stays(
            items,
            concept,
            earlier,
            other_earlier,
            before,
            after,
            workspace,
            other_workspace,
            n - 1,
        );
        assert(items[n - 1].spec_verify(concept, after, other_workspace, n - 1) == items[n
            - 1].spec_verify(concept, before, workspace, n - 1));
        assert(declaration_findings(
            concept,
            other_earlier + declarations(concept, items).take(n - 1),
            items[n - 1].spec_id(),
            n - 1,
        ) == declaration_findings(
            concept,
            earlier + declarations(concept, items).take(n - 1),
            items[n - 1].spec_id(),
            n - 1,
        ));
    }
}

/// The same for a collection that is declared after the plans, where the
/// new plan has joined those seen.
proof fn lemma_later_collection_stays<T: Checked>(
    items: Seq<T>,
    concept: ModelConcept,
    start: Seq<Declaration>,
    new: Declaration,
    rest: Seq<Declaration>,
    before: Model,
    after: Model,
    workspace: Seq<Model>,
    other_workspace: Seq<Model>,
)
    requires
        none_like(items, new.id),
        forall|i: int|
            0 <= i < items.len() ==> #[trigger] items[i].spec_verify(
                concept,
                after,
                other_workspace,
                i,
            ) == items[i].spec_verify(concept, before, workspace, i),
    ensures
        concept_findings(
            items,
            concept,
            start.push(new) + rest,
            after,
            other_workspace,
            items.len() as int,
        ) == concept_findings(
            items,
            concept,
            start + rest,
            before,
            workspace,
            items.len() as int,
        ),
{
    assert forall|i: int| 0 <= i < items.len() implies declaration_findings(
        concept,
        start.push(new) + rest + #[trigger] declarations(concept, items).take(i),
        items[i].spec_id(),
        i,
    ) == declaration_findings(
        concept,
        start + rest + declarations(concept, items).take(i),
        items[i].spec_id(),
        i,
    ) by {
        let more = rest + declarations(concept, items).take(i);
        assert(start.push(new) + rest + declarations(concept, items).take(i) =~= start.push(new)
            + more);
        assert(start + rest + declarations(concept, items).take(i) =~= start + more);
        assert(items[i].spec_id().name@ != new.id.name@);
        lemma_seen_one_more(concept, start, new, more, items[i].spec_id(), i);
    }
    lemma_collection_stays(
        items,
        concept,
        start + rest,
        start.push(new) + rest,
        before,
        after,
        workspace,
        other_workspace,
        items.len() as int,
    );
}

proof fn lemma_insert_more(
    errors: Seq<ModelErrorView>,
    k: int,
    error: ModelErrorView,
    more: Seq<ModelErrorView>,
)
    requires
        0 <= k <= errors.len(),
    ensures
        errors.insert(k, error) + more == (errors + more).insert(k, error),
{
    assert(errors.insert(k, error) + more =~= (errors + more).insert(k, error));
}

proof fn lemma_insert_later(
    start: Seq<ModelErrorView>,
    errors: Seq<ModelErrorView>,
    k: int,
    error: ModelErrorView,
)
    requires
        0 <= k <= errors.len(),
    ensures
        start + errors.insert(k, error) == (start + errors).insert(start.len() + k, error),
{
    assert(start + errors.insert(k, error) =~= (start + errors).insert(start.len() + k, error));
}

/// Whether the identifiers of the workspace find the messages that they
/// found.
pub open spec fn finds_alike(workspace: Seq<Model>, other: Seq<Model>) -> bool {
    forall|id: Identifier| #[trigger]
        workspace_find_message(workspace, id) == workspace_find_message(other, id)
}

/// Whether `other` is `workspace` with `plan` added to modules of it, where
/// no module declared anything under the identity of `plan`.
pub open spec fn joined_by(workspace: Seq<Model>, plan: Plan, other: Seq<Model>) -> bool {
    &&& workspace.len() == other.len()
    &&& forall|i: int|
        0 <= i < workspace.len() ==> (#[trigger] other[i]) == workspace[i] || with_plan(
            workspace[i],
            plan,
            other[i],
        )
    &&& forall|i: int|
        0 <= i < workspace.len() ==> !(#[trigger] workspace[i]).spec_owns(plan.id.uuid@)
}

proof fn lemma_contains_one_more(
    start: Seq<Seq<char>>,
    new: Seq<char>,
    rest: Seq<Seq<char>>,
    uuid: Seq<char>,
)
    requires
        new != uuid,
    ensures
        (start.push(new) + rest).contains(uuid) == (start + rest).contains(uuid),
{
    let s = start + rest;
    let t = start.push(new) + rest;
    let k = start.len() as int;
    if s.contains(uuid) {
        let i = choose|i: int| 0 <= i < s.len() && s[i] == uuid;
        let h = if i < k {
            i
        } else {
            i + 1
        };
        assert(t[h] == uuid);
    }
    if t.contains(uuid) {
        let i = choose|i: int| 0 <= i < t.len() && t[i] == uuid;
        assert(i != k);
        let h = if i < k {
            i
        } else {
            i - 1
        };
        assert(s[h] == uuid);
    }
}

proof fn lemma_owns_as_before(before: Model, plan: Plan, after: Model, uuid: Seq<char>)
    requires
        with_plan(before, plan, after),
        plan.id.uuid@ != uuid,
    ensures
        after.spec_owns(uuid) == before.spec_owns(uuid),
{
    let start = identities(before.teams@) + identities(before.agents@) + identities(
        before.messages@,
    ) + identities(before.goals@) + identities(before.plans@);
    let rest = identities(before.roles@) + identities(before.resources@) + identities(
        before.tactics@,
    ) + identities(before.actions@) + identities(before.services@) + identities(before.enums@)
        + identities(before.events@) + identities(before.entities@);
    assert(identities(after.plans@) =~= identities(before.plans@).push(plan.id.uuid@));
    assert(before.spec_indexed() =~= start + rest);
    assert(after.spec_indexed() =~= start.push(plan.id.uuid@) + rest);
    lemma_contains_one_more(start, plan.id.uuid@, rest, uuid);
}

proof fn lemma_owns_its_messages(model: Model, uuid: Seq<char>)
    requires
        has_identity(model.messages@, uuid),
    ensures
        model.spec_owns(uuid),
{
    let i = choose|i: int|
        0 <= i < model.messages@.len() && (#[trigger] model.messages@[i]).spec_id().uuid@ == uuid;
    let start = identities(model.teams@) + identities(model.agents@);
    let rest = identities(model.goals@) + identities(model.plans@) + identities(model.roles@)
        + identities(model.resources@) + identities(model.tactics@) + identities(model.actions@)
        + identities(model.services@) + identities(model.enums@) + identities(model.events@)
        + identities(model.entities@);
    assert(model.spec_indexed() =~= start + identities(model.messages@) + rest);
    assert(identities(model.messages@)[i] == uuid);
    assert((start + identities(model.messages@) + rest)[start.len() + i] == uuid);
}

proof fn lemma_owners_as_before(
    workspace: Seq<Model>,
    plan: Plan,
    other: Seq<Model>,
    uuid: Seq<char>,
    n: int,
)
    requires
        joined_by(workspace, plan, other),
        plan.id.uuid@ != uuid,
        0 <= n <= workspace.len(),
    ensures
        first_owner(other, uuid, n) == first_owner(workspace, uuid, n),
    decreases n,
{
    if n > 0 {
        lemma_owners_as_before(workspace, plan, other, uuid, n - 1);
        if other[n - 1] != workspace[n - 1] {
            lemma_owns_as_before(workspace[n - 1], plan, other[n - 1], uuid);
        }
    }
}

/// A plan that joins modules of a workspace, under an identity that is new
/// to all of them, changes nothing in what the workspace finds.
pub proof fn lemma_joined_finds_alike(workspace: Seq<Model>, plan: Plan, other: Seq<Model>)
    requires
        joined_by(workspace, plan, other),
    ensures
        finds_alike(workspace, other),
{
    assert forall|id: Identifier| #[trigger]
        workspace_find_message(workspace, id) == workspace_find_message(other, id) by {
        lemma_first_owner(workspace, id.uuid@, workspace.len() as int);
        lemma_first_owner(other, id.uuid@, other.len() as int);
        if id.uuid@ != plan.id.uuid@ {
            lemma_owners_as_before(workspace, plan, other, id.uuid@, workspace.len() as int);
            match owner(workspace, id.uuid@) {
                Some(p) => {
                    assert(other[p].messages == workspace[p].messages);
                },
                None => {},
            }
        } else {
            match owner(workspace, id.uuid@) {
                Some(p) => {
                    assert(workspace[p].spec_owns(plan.id.uuid@));
                },
                None => {},
            }
            match owner(other, id.uuid@) {
                Some(q) => {
                    assert(other[q].messages == workspace[q].messages);
                    if other[q].spec_find_message(id) {
                        lemma_owns_its_messages(workspace[q], id.uuid@);
                    }
                },
                None => {},
            }
        }
    }
}

/// The declarations that are checked before the goals of a module.
pub open spec fn seen_before_goals(model: Model) -> Seq<Declaration> {
    declarations(ModelConcept::Team, model.teams@) + declarations(
        ModelConcept::Agent,
        model.agents@,
    ) + declarations(ModelConcept::Message, model.messages@)
}

/// Whether the goal at `g` of `before` is the one goal of its identity, no
/// plan handles it, and `plan` does.
pub open spec fn covers(before: Model, plan: Plan, g: int) -> bool {
    &&& 0 <= g < before.goals@.len()
    &&& !handled_by(before.plans@, before.goals@[g].id.uuid@)
    &&& plan.handles.uuid@ == before.goals@[g].id.uuid@
    &&& forall|j: int|
        0 <= j < before.goals@.len() && j != g ==> (#[trigger] before.goals@[j]).id.uuid@
            != before.goals@[g].id.uuid@
}

proof fn lemma_goals_upto(
    before: Model,
    plan: Plan,
    after: Model,
    workspace: Seq<Model>,
    other_workspace: Seq<Model>,
    g: int,
)
    requires
        with_plan(before, plan, after),
        covers(before, plan, g),
    ensures
        concept_findings(
            before.goals@,
            ModelConcept::Goal,
            seen_before_goals(before),
            before,
            workspace,
            g + 1,
        ) == concept_findings(
            before.goals@,
            ModelConcept::Goal,
            seen_before_goals(before),
            after,
            other_workspace,
            g + 1,
        ).push(before.goals@[g].spec_no_plans(g)),
{
    let goals = before.goals@;
    let seen = seen_before_goals(before);
    assert forall|i: int| 0 <= i < g implies #[trigger] goals[i].spec_verify(
        ModelConcept::Goal,
        after,
        other_workspace,
        i,
    ) == goals[i].spec_verify(ModelConcept::Goal, before, workspace, i) by {
        lemma_goal_stays(
            goals[i],
            ModelConcept::Goal,
            before,
            plan,
            after,
            workspace,
            other_workspace,
            i,
        );
    }
    lemma_collection_stays(
        goals,
        ModelConcept::Goal,
        seen,
        seen,
        before,
        after,
        workspace,
        other_workspace,
        g,
    );
    lemma_goal_stays(
        goals[g],
        ModelConcept::Goal,
        before,
        plan,
        after,
        workspace,
        other_workspace,
        g,
    );
    assert(after.plans@[before.plans@.len() as int] == plan);
    assert(handled_by(after.plans@, goals[g].id.uuid@));
    let general = declaration_findings(
        ModelConcept::Goal,
        seen + declarations(ModelConcept::Goal, goals).take(g),
        goals[g].spec_id(),
        g,
    );
    let was = concept_findings(goals, ModelConcept::Goal, seen, before, workspace, g);
    let own = goals[g].spec_reference_findings(before, g);
    assert(goals[g].spec_verify(ModelConcept::Goal, after, other_workspace, g) =~= own);
    assert(goals[g].spec_verify(ModelConcept::Goal, before, workspace, g) =~= own.push(
        goals[g].spec_no_plans(g),
    ));
    assert(was + general + own.push(goals[g].spec_no_plans(g)) =~= (was + general + own).push(
        goals[g].spec_no_plans(g),
    ));
}

proof fn lemma_goals_from(
    before: Model,
    plan: Plan,
    after: Model,
    workspace: Seq<Model>,
    other_workspace: Seq<Model>,
    g: int,
    n: int,
)
    requires
        with_plan(before, plan, after),
        covers(before, plan, g),
        g < n <= before.goals@.len(),
    ensures
        ({
            let k = concept_findings(
                before.goals@,
                ModelConcept::Goal,
                seen_before_goals(before),
                after,
                other_workspace,
                g + 1,
            ).len() as int;
            let now = concept_findings(
                before.goals@,
                ModelConcept::Goal,
                seen_before_goals(before),
                after,
                other_workspace,
                n,
            );
            &&& k <= now.len()
            &&& concept_findings(
                before.goals@,
                ModelConcept::Goal,
                seen_before_goals(before),
                before,
                workspace,
                n,
            ) == now.insert(k, before.goals@[g].spec_no_plans(g))
        }),
    decreases n,
{
    let goals = before.goals@;
    let seen = seen_before_goals(before);
    let error = goals[g].spec_no_plans(g);
    let upto = concept_findings(goals, ModelConcept::Goal, seen, after, other_workspace, g + 1);
    let k = upto.len() as int;
    if n == g + 1 {
        lemma_goals_upto(before, plan, after, workspace, other_workspace, g);
        assert(upto.push(error) =~= upto.insert(k, error));
    } else {
        lemma_goals_from(before, plan, after, workspace, other_workspace, g, n - 1);
        lemma_goal_stays(
            goals[n - 1],
            ModelConcept::Goal,
            before,
            plan,
            after,
            workspace,
            other_workspace,
            n - 1,
        );
        let now = concept_findings(goals, ModelConcept::Goal, seen, after, other_workspace, n - 1);
        let general = declaration_findings(
            ModelConcept::Goal,
            seen + declarations(ModelConcept::Goal, goals).take(n - 1),
            goals[n - 1].spec_id(),
            n - 1,
        );
        let own = goals[n - 1].spec_verify(ModelConcept::Goal, before, workspace, n - 1);
        lemma_insert_more(now, k, error, general);
        lemma_insert_more(now + general, k, error, own);
    }
}

/// Whether the name and the identity of `plan` are new to `model`: no
/// declaration has either, and no team, agent or tactic lists a plan of
/// that identity.
pub open spec fn new_to(model: Model, plan: Plan) -> bool {
    &&& none_like(model.teams@, plan.id)
    &&& none_like(model.agents@, plan.id)
    &&& none_like(model.messages@, plan.id)
    &&& none_like(model.goals@, plan.id)
    &&& none_like(model.plans@, plan.id)
    &&& none_like(model.roles@, plan.id)
    &&& none_like(model.resources@, plan.id)
    &&& none_like(model.tactics@, plan.id)
    &&& none_like(model.actions@, plan.id)
    &&& none_like(model.services@, plan.id)
    &&& none_like(model.enums@, plan.id)
    &&& none_like(model.events@, plan.id)
    &&& forall|i: int|
        0 <= i < model.teams@.len() ==> !has_identity(
            (#[trigger] model.teams@[i]).plans@,
            plan.id.uuid@,
        )
    &&& forall|i: int|
        0 <= i < model.agents@.len() ==> !has_identity(
            (#[trigger] model.agents@[i]).plans@,
            plan.id.uuid@,
        )
    &&& forall|i: int|
        0 <= i < model.tactics@.len() ==> !has_identity(
            (#[trigger] model.tactics@[i]).plan_list@,
            plan.id.uuid@,
        )
}

/// Whether `plan` is declared well and has nothing that could bring a
/// finding of its own: a name that is not that of its kind, an identity,
/// no beliefs and no tasks.
pub open spec fn is_plain(plan: Plan) -> bool {
    &&& plan.id.name@.len() > 0
    &&& plan.id.uuid@.len() > 0
    &&& plan.id.name@ != "Plan"@
    &&& plan.query_messages@.len() == 0
    &&& plan.tasks@.len() == 0
}

/// The declarations of the first `k` collections of a module, in the
/// order in which the collections are checked.
spec fn seen_before(model: Model, k: int) -> Seq<Declaration> {
    let s1 = declarations(ModelConcept::Team, model.teams@);
    let s2 = s1 + declarations(ModelConcept::Agent, model.agents@);
    let s3 = s2 + declarations(ModelConcept::Message, model.messages@);
    let s4 = s3 + declarations(ModelConcept::Goal, model.goals@);
    let s5 = s4 + declarations(ModelConcept::Plan, model.plans@);
    let s6 = s5 + declarations(ModelConcept::Role, model.roles@);
    let s7 = s6 + declarations(ModelConcept::Resource, model.resources@);
    let s8 = s7 + declarations(ModelConcept::Tactic, model.tactics@);
    let s9 = s8 + declarations(ModelConcept::Action, model.actions@);
    let s10 = s9 + declarations(ModelConcept::Service, model.services@);
    let s11 = s10 + declarations(ModelConcept::Enum, model.enums@);
    if k <= 0 {
        Seq::empty()
    } else if k == 1 {
        s1
    } else if k == 2 {
        s2
    } else if k == 3 {
        s3
    } else if k == 4 {
        s4
    } else if k == 5 {
        s5
    } else if k == 6 {
        s6
    } else if k == 7 {
        s7
    } else if k == 8 {
        s8
    } else if k == 9 {
        s9
    } else if k == 10 {
        s10
    } else {
        s11
    }
}

/// The declarations of the collections from the roles up to the first `k`
/// collections.
spec fn seen_since_plans(model: Model, k: int) -> Seq<Declaration> {
    let s6 = declarations(ModelConcept::Role, model.roles@);
    let s7 = s6 + declarations(ModelConcept::Resource, model.resources@);
    let s8 = s7 + declarations(ModelConcept::Tactic, model.tactics@);
    let s9 = s8 + declarations(ModelConcept::Action, model.actions@);
    let s10 = s9 + declarations(ModelConcept::Service, model.services@);
    let s11 = s10 + declarations(ModelConcept::Enum, model.enums@);
    if k <= 5 {
        Seq::empty()
    } else if k == 6 {
        s6
    } else if k == 7 {
        s7
    } else if k == 8 {
        s8
    } else if k == 9 {
        s9
    } else if k == 10 {
        s10
    } else {
        s11
    }
}

/// The new plan as a declaration.
spec fn declared_last(before: Model, plan: Plan) -> Declaration {
    Declaration { concept: ModelConcept::Plan, index: before.plans@.len() as usize, id: plan.id }
}

proof fn lemma_seen(before: Model, plan: Plan, after: Model, k: int)
    requires
        with_plan(before, plan, after),
    ensures
        k <= 4 ==> seen_before(after, k) == seen_before(before, k),
        k >= 5 ==> seen_before(after, k) == seen_before(before, 5).push(
            declared_last(before, plan),
        ) + seen_since_plans(before, k),
        k >= 5 ==> seen_before(before, k) == seen_before(before, 5) + seen_since_plans(before, k),
{
    assert(declarations(ModelConcept::Plan, after.plans@) =~= declarations(
        ModelConcept::Plan,
        before.plans@,
    ).push(declared_last(before, plan)));
    if k >= 5 {
        assert(seen_before(after, k) =~= seen_before(before, 5).push(declared_last(before, plan))
            + seen_since_plans(before, k));
        assert(seen_before(before, k) =~= seen_before(before, 5) + seen_since_plans(before, k));
    }
}

proof fn lemma_unlike_seen(before: Model, plan: Plan)
    requires
        new_to(before, plan),
    ensures
        none_like(seen_before(before, 5), plan.id),
{
    let d0 = declarations(ModelConcept::Team, before.teams@);
    lemma_none_like_declared(ModelConcept::Team, before.teams@, plan.id);
    let d1 = declarations(ModelConcept::Agent, before.agents@);
    lemma_none_like_declared(ModelConcept::Agent, before.agents@, plan.id);
    let d2 = declarations(ModelConcept::Message, before.messages@);
    lemma_none_like_declared(ModelConcept::Message, before.messages@, plan.id);
    let d3 = declarations(ModelConcept::Goal, before.goals@);
    lemma_none_like_declared(ModelConcept::Goal, before.goals@, plan.id);
    let d4 = declarations(ModelConcept::Plan, before.plans@);
    lemma_none_like_declared(ModelConcept::Plan, before.plans@, plan.id);
    lemma_none_like_add(d0, d1, plan.id);
    lemma_none_like_add(d0 + d1, d2, plan.id);
    lemma_none_like_add(d0 + d1 + d2, d3, plan.id);
    lemma_none_like_add(d0 + d1 + d2 + d3, d4, plan.id);
}

proof fn lemma_report(model: Model, workspace: Seq<Model>)
    ensures
        model.spec_verify(workspace) == model.project.spec_verify() + concept_findings(
            model.teams@,
            ModelConcept::Team,
            seen_before(model, 0),
            model,
            workspace,
            model.teams@.len() as int,
        ) + concept_findings(
            model.agents@,
            ModelConcept::Agent,
            seen_before(model, 1),
            model,
            workspace,
            model.agents@.len() as int,
        ) + concept_findings(
            model.messages@,
            ModelConcept::Message,
            seen_before(model, 2),
            model,
            workspace,
            model.messages@.len() as int,
        ) + concept_findings(
            model.goals@,
            ModelConcept::Goal,
            seen_before(model, 3),
            model,
            workspace,
            model.goals@.len() as int,
        ) + concept_findings(
            model.plans@,
            ModelConcept::Plan,
            seen_before(model, 4),
            model,
            workspace,
            model.plans@.len() as int,
        ) + concept_findings(
            model.roles@,
            ModelConcept::Role,
            seen_before(model, 5),
            model,
            workspace,
            model.roles@.len() as int,
        ) + concept_findings(
            model.resources@,
            ModelConcept::Resource,
            seen_before(model, 6),
            model,
            workspace,
            model.resources@.len() as int,
        ) + concept_findings(
            model.tactics@,
            ModelConcept::Tactic,
            seen_before(model, 7),
            model,
            workspace,
            model.tactics@.len() as int,
        ) + concept_findings(
            model.actions@,
            ModelConcept::Action,
            seen_before(model, 8),
            model,
            workspace,
            model.actions@.len() as int,
        ) + concept_findings(
            model.services@,
            ModelConcept::Service,
            seen_before(model, 9),
            model,
            workspace,
            model.services@.len() as int,
        ) + concept_findings(
            model.enums@,
            ModelConcept::Enum,
            seen_before(model, 10),
            model,
            workspace,
            model.enums@.len() as int,
        ) + concept_findings(
            model.events@,
            ModelConcept::Event,
            seen_before(model, 11),
            model,
            workspace,
            model.events@.len() as int,
        ),
{
}

proof fn lemma_agents_stay(
    before: Model,
    plan: Plan,
    after: Model,
    workspace: Seq<Model>,
    other_workspace: Seq<Model>,
)
    requires
        with_plan(before, plan, after),
        new_to(before, plan),
    ensures
        concept_findings(
            after.teams@,
            ModelConcept::Team,
            seen_before(after, 0),
            after,
            other_workspace,
            after.teams@.len() as int,
        )
            == concept_findings(
                before.teams@,
                ModelConcept::Team,
                seen_before(before, 0),
                before,
                workspace,
                before.teams@.len() as int,
            ),
        concept_findings(
            after.agents@,
            ModelConcept::Agent,
            seen_before(after, 1),
            after,
            other_workspace,
            after.agents@.len() as int,
        )
            == concept_findings(
                before.agents@,
                ModelConcept::Agent,
                seen_before(before, 1),
                before,
                workspace,
                before.agents@.len() as int,
            ),
{
    lemma_seen(before, plan, after, 0);
    lemma_seen(before, plan, after, 1);
    assert forall|i: int| 0 <= i < before.teams@.len() implies
        #[trigger] before.teams@[i].spec_verify(
        ModelConcept::Team,
        after,
        other_workspace,
        i,
    ) == before.teams@[i].spec_verify(ModelConcept::Team, before, workspace, i) by {
        lemma_agent_stays(
            before.teams@[i],
            ModelConcept::Team,
            before,
            plan,
            after,
            workspace,
            other_workspace,
            i,
        );
    }
    lemma_collection_stays(
        before.teams@,
        ModelConcept::Team,
        seen_before(before, 0),
        seen_before(before, 0),
        before,
        after,
        workspace,
        other_workspace,
        before.teams@.len() as int,
    );
    assert forall|i: int| 0 <= i < before.agents@.len() implies
        #[trigger] before.agents@[i].spec_verify(
        ModelConcept::Agent,
        after,
        other_workspace,
        i,
    ) == before.agents@[i].spec_verify(ModelConcept::Agent, before, workspace, i) by {
        lemma_agent_stays(
            before.agents@[i],
            ModelConcept::Agent,
            before,
            plan,
            after,
            workspace,
            other_workspace,
            i,
        );
    }
    lemma_collection_stays(
        before.agents@,
        ModelConcept::Agent,
        seen_before(before, 1),
        seen_before(before, 1),
        before,
        after,
        workspace,
        other_workspace,
        before.agents@.len() as int,
    );
}

proof fn lemma_messages_stay(
    before: Model,
    plan: Plan,
    after: Model,
    workspace: Seq<Model>,
    other_workspace: Seq<Model>,
)
    requires
        with_plan(before, plan, after),
        finds_alike(workspace, other_workspace),
    ensures
        concept_findings(
            after.messages@,
            ModelConcept::Message,
            seen_before(after, 2),
            after,
            other_workspace,
            after.messages@.len() as int,
        )
            == concept_findings(
                before.messages@,
                ModelConcept::Message,
                seen_before(before, 2),
                before,
                workspace,
                before.messages@.len() as int,
            ),
{
    lemma_seen(before, plan, after, 2);
    assert forall|i: int| 0 <= i < before.messages@.len() implies
        #[trigger] before.messages@[i].spec_verify(
        ModelConcept::Message,
        after,
        other_workspace,
        i,
    ) == before.messages@[i].spec_verify(ModelConcept::Message, before, workspace, i) by {
        lemma_message_fields(
            before.messages@[i],
            workspace,
            other_workspace,
            i,
            before.messages@[i].fields@.len() as int,
        );
    }
    lemma_collection_stays(
        before.messages@,
        ModelConcept::Message,
        seen_before(before, 2),
        seen_before(before, 2),
        before,
        after,
        workspace,
        other_workspace,
        before.messages@.len() as int,
    );
}

proof fn lemma_goals_lose_one(
    before: Model,
    plan: Plan,
    after: Model,
    workspace: Seq<Model>,
    other_workspace: Seq<Model>,
    g: int,
)
    requires
        with_plan(before, plan, after),
        covers(before, plan, g),
    ensures
        ({
            let k = concept_findings(
                after.goals@,
                ModelConcept::Goal,
                seen_before(after, 3),
                after,
                other_workspace,
                g + 1,
            ).len() as int;
            let now = concept_findings(
                after.goals@,
                ModelConcept::Goal,
                seen_before(after, 3),
                after,
                other_workspace,
                after.goals@.len() as int,
            );
            let was = concept_findings(
                before.goals@,
                ModelConcept::Goal,
                seen_before(before, 3),
                before,
                workspace,
                before.goals@.len() as int,
            );
            &&& 0 <= k <= now.len()
            &&& was == now.insert(k, before.goals@[g].spec_no_plans(g))
        }),
{
    lemma_seen(before, plan, after, 3);
    assert(seen_before(before, 3) == seen_before_goals(before));
    lemma_goals_from(
        before,
        plan,
        after,
        workspace,
        other_workspace,
        g,
        before.goals@.len() as int,
    );
}

proof fn lemma_plans_stay(
    before: Model,
    plan: Plan,
    after: Model,
    workspace: Seq<Model>,
    other_workspace: Seq<Model>,
    g: int,
)
    requires
        with_plan(before, plan, after),
        covers(before, plan, g),
        is_plain(plan),
        new_to(before, plan),
    ensures
        concept_findings(
            after.plans@,
            ModelConcept::Plan,
            seen_before(after, 4),
            after,
            other_workspace,
            after.plans@.len() as int,
        )
            == concept_findings(
                before.plans@,
                ModelConcept::Plan,
                seen_before(before, 4),
                before,
                workspace,
                before.plans@.len() as int,
            ),
{
    lemma_seen(before, plan, after, 4);
    let seen = seen_before(before, 4);
    let many = before.plans@.len() as int;
    assert forall|i: int| 0 <= i < many implies #[trigger] after.plans@[i].spec_verify(
        ModelConcept::Plan,
        after,
        other_workspace,
        i,
    ) == after.plans@[i].spec_verify(ModelConcept::Plan, before, workspace, i) by {
        lemma_plan_stays(
            after.plans@[i],
            ModelConcept::Plan,
            before,
            after,
            workspace,
            other_workspace,
            i,
        );
    }
    lemma_collection_stays(
        after.plans@,
        ModelConcept::Plan,
        seen,
        seen,
        before,
        after,
        workspace,
        other_workspace,
        many,
    );
    lemma_same_start(
        after.plans@,
        before.plans@,
        ModelConcept::Plan,
        seen,
        before,
        workspace,
        many,
    );
    assert(after.plans@[many] == plan);
    assert(declarations(ModelConcept::Plan, after.plans@).take(many) =~= declarations(
        ModelConcept::Plan,
        before.plans@,
    ));
    lemma_unlike_seen(before, plan);
    assert(seen + declarations(ModelConcept::Plan, before.plans@) =~= seen_before(before, 5));
    lemma_new_declaration(ModelConcept::Plan, seen_before(before, 5), plan.id, many);
    assert(has_identity(before.goals@, plan.handles.uuid@)) by {
        assert(before.goals@[g].spec_id().uuid@ == plan.handles.uuid@);
    }
    assert(plan.spec_verify(ModelConcept::Plan, after, other_workspace, many) =~= Seq::<
        ModelErrorView,
    >::empty()) by {
        reveal_with_fuel(reference_findings, 1);
        reveal_with_fuel(duplicate_findings, 1);
    }
    assert(concept_findings(
        after.plans@,
        ModelConcept::Plan,
        seen,
        after,
        other_workspace,
        many + 1,
    ) =~= concept_findings(before.plans@, ModelConcept::Plan, seen, before, workspace, many));
}

proof fn lemma_roles_stay(
    before: Model,
    plan: Plan,
    after: Model,
    workspace: Seq<Model>,
    other_workspace: Seq<Model>,
)
    requires
        with_plan(before, plan, after),
        new_to(before, plan),
    ensures
        concept_findings(
            after.roles@,
            ModelConcept::Role,
            seen_before(after, 5),
            after,
            other_workspace,
            after.roles@.len() as int,
        )
            == concept_findings(
                before.roles@,
                ModelConcept::Role,
                seen_before(before, 5),
                before,
                workspace,
                before.roles@.len() as int,
            ),
{
    lemma_seen(before, plan, after, 5);
    assert forall|i: int| 0 <= i < before.roles@.len() implies
        #[trigger] before.roles@[i].spec_verify(
        ModelConcept::Role,
        after,
        other_workspace,
        i,
    ) == before.roles@[i].spec_verify(ModelConcept::Role, before, workspace, i) by {
        lemma_role_stays(
            before.roles@[i],
            ModelConcept::Role,
            before,
            after,
            workspace,
            other_workspace,
            i,
        );
    }
    lemma_later_collection_stays(
        before.roles@,
        ModelConcept::Role,
        seen_before(before, 5),
        declared_last(before, plan),
        seen_since_plans(before, 5),
        before,
        after,
        workspace,
        other_workspace,
    );
}

proof fn lemma_resources_stay(
    before: Model,
    plan: Plan,
    after: Model,
    workspace: Seq<Model>,
    other_workspace: Seq<Model>,
)
    requires
        with_plan(before, plan, after),
        new_to(before, plan),
    ensures
        concept_findings(
            after.resources@,
            ModelConcept::Resource,
            seen_before(after, 6),
            after,
            other_workspace,
            after.resources@.len() as int,
        )
            == concept_findings(
                before.resources@,
                ModelConcept::Resource,
                seen_before(before, 6),
                before,
                workspace,
                before.resources@.len() as int,
            ),
{
    lemma_seen(before, plan, after, 6);
    lemma_later_collection_stays(
        before.resources@,
        ModelConcept::Resource,
        seen_before(before, 5),
        declared_last(before, plan),
        seen_since_plans(before, 6),
        before,
        after,
        workspace,
        other_workspace,
    );
}

proof fn lemma_tactics_stay(
    before: Model,
    plan: Plan,
    after: Model,
    workspace: Seq<Model>,
    other_workspace: Seq<Model>,
)
    requires
        with_plan(before, plan, after),
        new_to(before, plan),
    ensures
        concept_findings(
            after.tactics@,
            ModelConcept::Tactic,
            seen_before(after, 7),
            after,
            other_workspace,
            after.tactics@.len() as int,
        )
            == concept_findings(
                before.tactics@,
                ModelConcept::Tactic,
                seen_before(before, 7),
                before,
                workspace,
                before.tactics@.len() as int,
            ),
{
    lemma_seen(before, plan, after, 7);
    assert forall|i: int| 0 <= i < before.tactics@.len() implies
        #[trigger] before.tactics@[i].spec_verify(
        ModelConcept::Tactic,
        after,
        other_workspace,
        i,
    ) == before.tactics@[i].spec_verify(ModelConcept::Tactic, before, workspace, i) by {
        lemma_tactic_stays(
            before.tactics@[i],
            ModelConcept::Tactic,
            before,
            plan,
            after,
            workspace,
            other_workspace,
            i,
        );
    }
    lemma_later_collection_stays(
        before.tactics@,
        ModelConcept::Tactic,
        seen_before(before, 5),
        declared_last(before, plan),
        seen_since_plans(before, 7),
        before,
        after,
        workspace,
        other_workspace,
    );
}

proof fn lemma_actions_stay(
    before: Model,
    plan: Plan,
    after: Model,
    workspace: Seq<Model>,
    other_workspace: Seq<Model>,
)
    requires
        with_plan(before, plan, after),
        new_to(before, plan),
    ensures
        concept_findings(
            after.actions@,
            ModelConcept::Action,
            seen_before(after, 8),
            after,
            other_workspace,
            after.actions@.len() as int,
        )
            == concept_findings(
                before.actions@,
                ModelConcept::Action,
                seen_before(before, 8),
                before,
                workspace,
                before.actions@.len() as int,
            ),
{
    lemma_seen(before, plan, after, 8);
    assert forall|i: int| 0 <= i < before.actions@.len() implies
        #[trigger] before.actions@[i].spec_verify(
        ModelConcept::Action,
        after,
        other_workspace,
        i,
    ) == before.actions@[i].spec_verify(ModelConcept::Action, before, workspace, i) by {
        lemma_action_stays(
            before.actions@[i],
            ModelConcept::Action,
            before,
            after,
            workspace,
            other_workspace,
            i,
        );
    }
    lemma_later_collection_stays(
        before.actions@,
        ModelConcept::Action,
        seen_before(before, 5),
        declared_last(before, plan),
        seen_since_plans(before, 8),
        before,
        after,
        workspace,
        other_workspace,
    );
}

proof fn lemma_services_stay(
    before: Model,
    plan: Plan,
    after: Model,
    workspace: Seq<Model>,
    other_workspace: Seq<Model>,
)
    requires
        with_plan(before, plan, after),
        new_to(before, plan),
    ensures
        concept_findings(
            after.services@,
            ModelConcept::Service,
            seen_before(after, 9),
            after,
            other_workspace,
            after.services@.len() as int,
        )
            == concept_findings(
                before.services@,
                ModelConcept::Service,
                seen_before(before, 9),
                before,
                workspace,
                before.services@.len() as int,
            ),
{
    lemma_seen(before, plan, after, 9);
    lemma_later_collection_stays(
        before.services@,
        ModelConcept::Service,
        seen_before(before, 5),
        declared_last(before, plan),
        seen_since_plans(before, 9),
        before,
        after,
        workspace,
        other_workspace,
    );
}

proof fn lemma_enums_stay(
    before: Model,
    plan: Plan,
    after: Model,
    workspace: Seq<Model>,
    other_workspace: Seq<Model>,
)
    requires
        with_plan(before, plan, after),
        new_to(before, plan),
    ensures
        concept_findings(
            after.enums@,
            ModelConcept::Enum,
            seen_before(after, 10),
            after,
            other_workspace,
            after.enums@.len() as int,
        )
            == concept_findings(
                before.enums@,
                ModelConcept::Enum,
                seen_before(before, 10),
                before,
                workspace,
                before.enums@.len() as int,
            ),
{
    lemma_seen(before, plan, after, 10);
    lemma_later_collection_stays(
        before.enums@,
        ModelConcept::Enum,
        seen_before(before, 5),
        declared_last(before, plan),
        seen_since_plans(before, 10),
        before,
        after,
        workspace,
        other_workspace,
    );
}

proof fn lemma_events_stay(
    before: Model,
    plan: Plan,
    after: Model,
    workspace: Seq<Model>,
    other_workspace: Seq<Model>,
)
    requires
        with_plan(before, plan, after),
        new_to(before, plan),
    ensures
        concept_findings(
            after.events@,
            ModelConcept::Event,
            seen_before(after, 11),
            after,
            other_workspace,
            after.events@.len() as int,
        )
            == concept_findings(
                before.events@,
                ModelConcept::Event,
                seen_before(before, 11),
                before,
                workspace,
                before.events@.len() as int,
            ),
{
    lemma_seen(before, plan, after, 11);
    assert forall|i: int| 0 <= i < before.events@.len() implies
        #[trigger] before.events@[i].spec_verify(
        ModelConcept::Event,
        after,
        other_workspace,
        i,
    ) == before.events@[i].spec_verify(ModelConcept::Event, before, workspace, i) by {
        lemma_event_stays(
            before.events@[i],
            ModelConcept::Event,
            before,
            after,
            workspace,
            other_workspace,
            i,
        );
    }
    lemma_later_collection_stays(
        before.events@,
        ModelConcept::Event,
        seen_before(before, 5),
        declared_last(before, plan),
        seen_since_plans(before, 11),
        before,
        after,
        workspace,
        other_workspace,
    );
}

proof fn lemma_parts(
    before: Model,
    plan: Plan,
    after: Model,
    workspace: Seq<Model>,
    other_workspace: Seq<Model>,
    g: int,
)
    requires
        with_plan(before, plan, after),
        covers(before, plan, g),
        is_plain(plan),
        new_to(before, plan),
        finds_alike(workspace, other_workspace),
    ensures
        concept_findings(
            after.teams@,
            ModelConcept::Team,
            seen_before(after, 0),
            after,
            other_workspace,
            after.teams@.len() as int,
        )
            == concept_findings(
                before.teams@,
                ModelConcept::Team,
                seen_before(before, 0),
                before,
                workspace,
                before.teams@.len() as int,
            ),
        concept_findings(
            after.agents@,
            ModelConcept::Agent,
            seen_before(after, 1),
            after,
            other_workspace,
            after.agents@.len() as int,
        )
            == concept_findings(
                before.agents@,
                ModelConcept::Agent,
                seen_before(before, 1),
                before,
                workspace,
                before.agents@.len() as int,
            ),
        concept_findings(
            after.messages@,
            ModelConcept::Message,
            seen_before(after, 2),
            after,
            other_workspace,
            after.messages@.len() as int,
        )
            == concept_findings(
                before.messages@,
                ModelConcept::Message,
                seen_before(before, 2),
                before,
                workspace,
                before.messages@.len() as int,
            ),
        concept_findings(
            after.plans@,
            ModelConcept::Plan,
            seen_before(after, 4),
            after,
            other_workspace,
            after.plans@.len() as int,
        )
            == concept_findings(
                before.plans@,
                ModelConcept::Plan,
                seen_before(before, 4),
                before,
                workspace,
                before.plans@.len() as int,
            ),
        concept_findings(
            after.roles@,
            ModelConcept::Role,
            seen_before(after, 5),
            after,
            other_workspace,
            after.roles@.len() as int,
        )
            == concept_findings(
                before.roles@,
                ModelConcept::Role,
                seen_before(before, 5),
                before,
                workspace,
                before.roles@.len() as int,
            ),
        concept_findings(
            after.resources@,
            ModelConcept::Resource,
            seen_before(after, 6),
            after,
            other_workspace,
            after.resources@.len() as int,
        )
            == concept_findings(
                before.resources@,
                ModelConcept::Resource,
                seen_before(before, 6),
                before,
                workspace,
                before.resources@.len() as int,
            ),
        concept_findings(
            after.tactics@,
            ModelConcept::Tactic,
            seen_before(after, 7),
            after,
            other_workspace,
            after.tactics@.len() as int,
        )
            == concept_findings(
                before.tactics@,
                ModelConcept::Tactic,
                seen_before(before, 7),
                before,
                workspace,
                before.tactics@.len() as int,
            ),
        concept_findings(
            after.actions@,
            ModelConcept::Action,
            seen_before(after, 8),
            after,
            other_workspace,
            after.actions@.len() as int,
        )
            == concept_findings(
                before.actions@,
                ModelConcept::Action,
                seen_before(before, 8),
                before,
                workspace,
                before.actions@.len() as int,
            ),
        concept_findings(
            after.services@,
            ModelConcept::Service,
            seen_before(after, 9),
            after,
            other_workspace,
            after.services@.len() as int,
        )
            == concept_findings(
                before.services@,
                ModelConcept::Service,
                seen_before(before, 9),
                before,
                workspace,
                before.services@.len() as int,
            ),
        concept_findings(
            after.enums@,
            ModelConcept::Enum,
            seen_before(after, 10),
            after,
            other_workspace,
            after.enums@.len() as int,
        )
            == concept_findings(
                before.enums@,
                ModelConcept::Enum,
                seen_before(before, 10),
                before,
                workspace,
                before.enums@.len() as int,
            ),
        concept_findings(
            after.events@,
            ModelConcept::Event,
            seen_before(after, 11),
            after,
            other_workspace,
            after.events@.len() as int,
        )
            == concept_findings(
                before.events@,
                ModelConcept::Event,
                seen_before(before, 11),
                before,
                workspace,
                before.events@.len() as int,
            ),
        ({
            let k = concept_findings(
                after.goals@,
                ModelConcept::Goal,
                seen_before(after, 3),
                after,
                other_workspace,
                g + 1,
            ).len() as int;
            let now = concept_findings(
                after.goals@,
                ModelConcept::Goal,
                seen_before(after, 3),
                after,
                other_workspace,
                after.goals@.len() as int,
            );
            let was = concept_findings(
                before.goals@,
                ModelConcept::Goal,
                seen_before(before, 3),
                before,
                workspace,
                before.goals@.len() as int,
            );
            &&& 0 <= k <= now.len()
            &&& was == now.insert(k, before.goals@[g].spec_no_plans(g))
        }),
{
    lemma_agents_stay(before, plan, after, workspace, other_workspace);
    lemma_messages_stay(before, plan, after, workspace, other_workspace);
    lemma_goals_lose_one(before, plan, after, workspace, other_workspace, g);
    lemma_plans_stay(before, plan, after, workspace, other_workspace, g);
    lemma_roles_stay(before, plan, after, workspace, other_workspace);
    lemma_resources_stay(before, plan, after, workspace, other_workspace);
    lemma_tactics_stay(before, plan, after, workspace, other_workspace);
    lemma_actions_stay(before, plan, after, workspace, other_workspace);
    lemma_services_stay(before, plan, after, workspace, other_workspace);
    lemma_enums_stay(before, plan, after, workspace, other_workspace);
    lemma_events_stay(before, plan, after, workspace, other_workspace);
}

/// Goal coverage, over the whole report of a module: where no plan handles
/// a goal, adding a plain plan that handles it, new to the module by name
/// and identity, takes the one finding on the goal's coverage out of the
/// report. Every other finding stays, unchanged and in its order, and none
/// is added.
pub proof fn adding_a_plan_removes_one_finding(
    before: Model,
    plan: Plan,
    after: Model,
    workspace: Seq<Model>,
    other_workspace: Seq<Model>,
    g: int,
)
    requires
        with_plan(before, plan, after),
        covers(before, plan, g),
        is_plain(plan),
        new_to(before, plan),
        joined_by(workspace, plan, other_workspace),
    ensures
        exists|k: int|
            0 <= k < before.spec_verify(workspace).len() && #[trigger] before.spec_verify(
                workspace,
            )[k] == before.goals@[g].spec_no_plans(g) && after.spec_verify(other_workspace)
                == before.spec_verify(workspace).remove(k),
{
    lemma_joined_finds_alike(workspace, plan, other_workspace);
    let error = before.goals@[g].spec_no_plans(g);
    lemma_parts(before, plan, after, workspace, other_workspace, g);
    lemma_report(before, workspace);
    lemma_report(after, other_workspace);
    let p0 = before.project.spec_verify();
    let b0 = concept_findings(
        before.teams@,
        ModelConcept::Team,
        seen_before(before, 0),
        before,
        workspace,
        before.teams@.len() as int,
    );
    let b1 = concept_findings(
        before.agents@,
        ModelConcept::Agent,
        seen_before(before, 1),
        before,
        workspace,
        before.agents@.len() as int,
    );
    let b2 = concept_findings(
        before.messages@,
        ModelConcept::Message,
        seen_before(before, 2),
        before,
        workspace,
        before.messages@.len() as int,
    );
    let b3 = concept_findings(
        before.goals@,
        ModelConcept::Goal,
        seen_before(before, 3),
        before,
        workspace,
        before.goals@.len() as int,
    );
    let b4 = concept_findings(
        before.plans@,
        ModelConcept::Plan,
        seen_before(before, 4),
        before,
        workspace,
        before.plans@.len() as int,
    );
    let b5 = concept_findings(
        before.roles@,
        ModelConcept::Role,
        seen_before(before, 5),
        before,
        workspace,
        before.roles@.len() as int,
    );
    let b6 = concept_findings(
        before.resources@,
        ModelConcept::Resource,
        seen_before(before, 6),
        before,
        workspace,
        before.resources@.len() as int,
    );
    let b7 = concept_findings(
        before.tactics@,
        ModelConcept::Tactic,
        seen_before(before, 7),
        before,
        workspace,
        before.tactics@.len() as int,
    );
    let b8 = concept_findings(
        before.actions@,
        ModelConcept::Action,
        seen_before(before, 8),
        before,
        workspace,
        before.actions@.len() as int,
    );
    let b9 = concept_findings(
        before.services@,
        ModelConcept::Service,
        seen_before(before, 9),
        before,
        workspace,
        before.services@.len() as int,
    );
    let b10 = concept_findings(
        before.enums@,
        ModelConcept::Enum,
        seen_before(before, 10),
        before,
        workspace,
        before.enums@.len() as int,
    );
    let b11 = concept_findings(
        before.events@,
        ModelConcept::Event,
        seen_before(before, 11),
        before,
        workspace,
        before.events@.len() as int,
    );
    let a3 = concept_findings(
        after.goals@,
        ModelConcept::Goal,
        seen_before(after, 3),
        after,
        other_workspace,
        after.goals@.len() as int,
    );
    let k = concept_findings(
        after.goals@,
        ModelConcept::Goal,
        seen_before(after, 3),
        after,
        other_workspace,
        g + 1,
    ).len() as int;
    lemma_one_less(p0, b0, b1, b2, a3, b3, b4, b5, b6, b7, b8, b9, b10, b11, k, error);
    let at = (p0 + b0 + b1 + b2).len() + k;
    assert(before.spec_verify(workspace)[at] == error);
}

proof fn lemma_one_less(
    p0: Seq<ModelErrorView>,
    b0: Seq<ModelErrorView>,
    b1: Seq<ModelErrorView>,
    b2: Seq<ModelErrorView>,
    a3: Seq<ModelErrorView>,
    b3: Seq<ModelErrorView>,
    b4: Seq<ModelErrorView>,
    b5: Seq<ModelErrorView>,
    b6: Seq<ModelErrorView>,
    b7: Seq<ModelErrorView>,
    b8: Seq<ModelErrorView>,
    b9: Seq<ModelErrorView>,
    b10: Seq<ModelErrorView>,
    b11: Seq<ModelErrorView>,
    k: int,
    error: ModelErrorView,
)
    requires
        0 <= k <= a3.len(),
        b3 == a3.insert(k, error),
    ensures
        ({
            let was = p0 + b0 + b1 + b2 + b3 + b4 + b5 + b6 + b7 + b8 + b9 + b10 + b11;
            let is = p0 + b0 + b1 + b2 + a3 + b4 + b5 + b6 + b7 + b8 + b9 + b10 + b11;
            let at = (p0 + b0 + b1 + b2).len() + k;
            &&& 0 <= at < was.len()
            &&& was[at] == error
            &&& is == was.remove(at)
        }),
{
    let start = p0 + b0 + b1 + b2;
    let at = start.len() + k;
    lemma_insert_later(start, a3, k, error);
    lemma_insert_more(start + a3, at, error, b4);
    lemma_insert_more(start + a3 + b4, at, error, b5);
    lemma_insert_more(start + a3 + b4 + b5, at, error, b6);
    lemma_insert_more(start + a3 + b4 + b5 + b6, at, error, b7);
    lemma_insert_more(start + a3 + b4 + b5 + b6 + b7, at, error, b8);
    lemma_insert_more(start + a3 + b4 + b5 + b6 + b7 + b8, at, error, b9);
    lemma_insert_more(start + a3 + b4 + b5 + b6 + b7 + b8 + b9, at, error, b10);
    lemma_insert_more(start + a3 + b4 + b5 + b6 + b7 + b8 + b9 + b10, at, error, b11);
    let was = start + b3 + b4 + b5 + b6 + b7 + b8 + b9 + b10 + b11;
    let is = start + a3 + b4 + b5 + b6 + b7 + b8 + b9 + b10 + b11;
    assert(was == is.insert(at, error));
    assert(was[at] == error);
    assert(is =~= was.remove(at));
}

proof fn lemma_same_start<T: Checked>(
    more: Seq<T>,
    items: Seq<T>,
    concept: ModelConcept,
    earlier: Seq<Declaration>,
    model: Model,
    workspace: Seq<Model>,
    n: int,
)
    requires
        0 <= n <= items.len(),
        n <= more.len(),
        forall|i: int| 0 <= i < items.len() ==> #[trigger] more[i] == items[i],
    ensures
        concept_findings(more, concept, earlier, model, workspace, n) == concept_findings(
            items,
            concept,
            earlier,
            model,
            workspace,
            n,
        ),
    decreases n,
{
    if n > 0 {
        lemma_same_start(more, items, concept, earlier, model, workspace, n - 1);
        assert(more[n - 1] == items[n - 1]);
        assert(declarations(concept, more).take(n - 1) =~= declarations(concept, items).take(
            n - 1,
        ));
    }
}

} // verus!
