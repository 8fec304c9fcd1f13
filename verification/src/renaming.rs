//! Renaming declarations breaks no reference: a record that is itself
//! unchanged has the findings it had, whatever the other declarations of
//! its module are renamed to.

use crate::agent::{granted_beliefs, service_handlers};
use crate::concept::{
    first_position, has_identity, lemma_first_position, Identified, ModelConcept,
};
use crate::error::ModelErrorView;
use crate::goal::handled_by;
use crate::identifier::Identifier;
use crate::laws::{
    lemma_reference_findings_depend_on_resolution, lookup_ignores_names,
    renaming_keeps_workspace_references, same_identities,
};
use crate::model::Model;
use crate::references::{reference_findings, reference_findings_at, Reference, Wording};
use crate::schema::{Action, Agent, Event, FieldType, Goal, Message, Plan, Role, Tactic};
use crate::text::decimal;
use crate::validate::Checked;
use crate::workspace::{identities, workspace_find_message};
use vstd::prelude::*;

verus! {

/// Whether `after` is `before` with declarations renamed: every
/// declaration stands where it stood and keeps its identity, and with it
/// what other records read of it: the message, beliefs and resources of a
/// goal, the goal and tasks of a plan, the grants of a role, the action
/// handlers of a service and the fields of a message.
pub open spec fn renamed(before: Model, after: Model) -> bool {
    &&& same_identities(before, after)
    &&& forall|i: int|
        0 <= i < before.goals@.len() ==> {
            &&& (#[trigger] after.goals@[i]).message == before.goals@[i].message
            &&& after.goals@[i].query_messages == before.goals@[i].query_messages
            &&& after.goals@[i].resources == before.goals@[i].resources
        }
    &&& forall|i: int|
        0 <= i < before.plans@.len() ==> {
            &&& (#[trigger] after.plans@[i]).handles == before.plans@[i].handles
            &&& after.plans@[i].tasks == before.plans@[i].tasks
        }
    &&& forall|i: int|
        0 <= i < before.roles@.len() ==> (#[trigger] after.roles@[i]).messages
            == before.roles@[i].messages
    &&& forall|i: int|
        0 <= i < before.services@.len() ==> (#[trigger] after.services@[i]).action_handlers
            == before.services@[i].action_handlers
    &&& forall|i: int|
        0 <= i < before.messages@.len() ==> (#[trigger] after.messages@[i]).fields
            == before.messages@[i].fields
}

/// What resolves in a module and where depends on identities alone.
pub open spec fn resolves_alike(before: Model, after: Model) -> bool {
    &&& forall|kind: Reference, id: Identifier| #[trigger]
        before.spec_resolves(kind, id) == after.spec_resolves(kind, id)
    &&& forall|id: Identifier| #[trigger] before.spec_find_tactic(id) == after.spec_find_tactic(id)
    &&& forall|uuid: Seq<char>| #[trigger]
        first_position(before.goals@, uuid) == first_position(after.goals@, uuid)
    &&& forall|uuid: Seq<char>| #[trigger]
        first_position(before.plans@, uuid) == first_position(after.plans@, uuid)
    &&& forall|uuid: Seq<char>| #[trigger]
        first_position(before.messages@, uuid) == first_position(after.messages@, uuid)
    &&& forall|uuid: Seq<char>| #[trigger]
        first_position(before.services@, uuid) == first_position(after.services@, uuid)
    &&& forall|uuid: Seq<char>| #[trigger]
        has_identity(before.roles@, uuid) == has_identity(after.roles@, uuid)
    &&& before.goals@.len() == after.goals@.len()
    &&& before.plans@.len() == after.plans@.len()
    &&& before.roles@.len() == after.roles@.len()
    &&& before.services@.len() == after.services@.len()
    &&& before.messages@.len() == after.messages@.len()
}

/// In a module whose declarations were renamed, everything resolves as it
/// did.
pub proof fn lemma_renamed_resolves_alike(before: Model, after: Model)
    requires
        same_identities(before, after),
    ensures
        resolves_alike(before, after),
{
    assert forall|kind: Reference, id: Identifier| #[trigger]
        before.spec_resolves(kind, id) == after.spec_resolves(kind, id) by {
        lookup_ignores_names(before.actions@, after.actions@, id.uuid@);
        lookup_ignores_names(before.messages@, after.messages@, id.uuid@);
        lookup_ignores_names(before.goals@, after.goals@, id.uuid@);
        lookup_ignores_names(before.plans@, after.plans@, id.uuid@);
        lookup_ignores_names(before.resources@, after.resources@, id.uuid@);
        lookup_ignores_names(before.roles@, after.roles@, id.uuid@);
        lookup_ignores_names(before.services@, after.services@, id.uuid@);
    }
    assert forall|id: Identifier| #[trigger]
        before.spec_find_tactic(id) == after.spec_find_tactic(id) by {
        lookup_ignores_names(before.tactics@, after.tactics@, id.uuid@);
    }
    assert forall|uuid: Seq<char>| #[trigger]
        first_position(before.goals@, uuid) == first_position(after.goals@, uuid) by {
        lookup_ignores_names(before.goals@, after.goals@, uuid);
    }
    assert forall|uuid: Seq<char>| #[trigger]
        first_position(before.plans@, uuid) == first_position(after.plans@, uuid) by {
        lookup_ignores_names(before.plans@, after.plans@, uuid);
    }
    assert forall|uuid: Seq<char>| #[trigger]
        first_position(before.messages@, uuid) == first_position(after.messages@, uuid) by {
        lookup_ignores_names(before.messages@, after.messages@, uuid);
    }
    assert forall|uuid: Seq<char>| #[trigger]
        first_position(before.services@, uuid) == first_position(after.services@, uuid) by {
        lookup_ignores_names(before.services@, after.services@, uuid);
    }
    assert forall|uuid: Seq<char>| #[trigger]
        has_identity(before.roles@, uuid) == has_identity(after.roles@, uuid) by {
        lookup_ignores_names(before.roles@, after.roles@, uuid);
    }
    assert(before.goals@.len() == identities(before.goals@).len());
    assert(after.goals@.len() == identities(after.goals@).len());
    assert(before.plans@.len() == identities(before.plans@).len());
    assert(after.plans@.len() == identities(after.plans@).len());
    assert(before.roles@.len() == identities(before.roles@).len());
    assert(after.roles@.len() == identities(after.roles@).len());
    assert(before.services@.len() == identities(before.services@).len());
    assert(after.services@.len() == identities(after.services@).len());
    assert(before.messages@.len() == identities(before.messages@).len());
    assert(after.messages@.len() == identities(after.messages@).len());
}

proof fn lemma_references_alike<T: Identified>(
    items: Seq<T>,
    kind: Reference,
    before: Model,
    after: Model,
    key: Seq<char>,
    machine_key: Seq<char>,
    wording: Wording,
)
    requires
        resolves_alike(before, after),
    ensures
        reference_findings(items, kind, before, key, machine_key, wording, items.len() as int)
            == reference_findings(
            items,
            kind,
            after,
            key,
            machine_key,
            wording,
            items.len() as int,
        ),
{
    assert forall|id: Identifier| #[trigger]
        before.spec_resolves(kind, id) == after.spec_resolves(kind, id) by {}
    lemma_reference_findings_depend_on_resolution(
        items,
        kind,
        before,
        after,
        key,
        machine_key,
        wording,
        items.len() as int,
    );
}

/// A goal keeps its findings.
pub proof fn goal_keeps_its_findings(
    goal: Goal,
    concept: ModelConcept,
    before: Model,
    after: Model,
    workspace: Seq<Model>,
    index: int,
)
    requires
        renamed(before, after),
    ensures
        goal.spec_verify(concept, after, workspace, index) == goal.spec_verify(
            concept,
            before,
            workspace,
            index,
        ),
{
    lemma_renamed_resolves_alike(before, after);
    let name = goal.id.spec_qualified_name();
    let at = decimal(index as nat);
    lemma_references_alike(
        goal.query_messages@,
        Reference::Message,
        before,
        after,
        "goals."@ + name + ".query_messages"@,
        "goals."@ + at + ".query_messages"@,
        Wording { unset: "Message", missing: "Message", place: "messages" },
    );
    lemma_references_alike(
        goal.resources@,
        Reference::Resource,
        before,
        after,
        "goals."@ + name + ".resources"@,
        "goals."@ + at + ".resources"@,
        Wording { unset: "Resource", missing: "Resource", place: "resources" },
    );
    assert(before.spec_resolves(Reference::Message, goal.message) == after.spec_resolves(
        Reference::Message,
        goal.message,
    ));
    assert(handled_by(before.plans@, goal.id.uuid@) == handled_by(after.plans@, goal.id.uuid@)) by {
        if handled_by(before.plans@, goal.id.uuid@) {
            let p = choose|p: int|
                0 <= p < before.plans@.len() && (#[trigger] before.plans@[p]).handles.uuid@
                    == goal.id.uuid@;
            assert(after.plans@[p].handles == before.plans@[p].handles);
        }
        if handled_by(after.plans@, goal.id.uuid@) {
            let p = choose|p: int|
                0 <= p < after.plans@.len() && (#[trigger] after.plans@[p]).handles.uuid@
                    == goal.id.uuid@;
            assert(after.plans@[p].handles == before.plans@[p].handles);
        }
    }
    assert(goal.spec_reference_findings(after, index) == goal.spec_reference_findings(
        before,
        index,
    ));
}

/// An action keeps its findings.
pub proof fn action_keeps_its_findings(
    action: Action,
    concept: ModelConcept,
    before: Model,
    after: Model,
    workspace: Seq<Model>,
    index: int,
)
    requires
        renamed(before, after),
    ensures
        action.spec_verify(concept, after, workspace, index) == action.spec_verify(
            concept,
            before,
            workspace,
            index,
        ),
{
    lemma_renamed_resolves_alike(before, after);
    assert(before.spec_resolves(Reference::Message, action.request) == after.spec_resolves(
        Reference::Message,
        action.request,
    ));
    assert(before.spec_resolves(Reference::Message, action.reply) == after.spec_resolves(
        Reference::Message,
        action.reply,
    ));
}

proof fn lemma_tactic_plans(tactic: Tactic, before: Model, after: Model, index: int, n: int)
    requires
        renamed(before, after),
        resolves_alike(before, after),
        0 <= n <= tactic.plan_list@.len(),
    ensures
        tactic.spec_plans_findings(after, index, n) == tactic.spec_plans_findings(
            before,
            index,
            n,
        ),
    decreases n,
{
    if n > 0 {
        lemma_tactic_plans(tactic, before, after, index, n - 1);
        let plan = tactic.plan_list@[n - 1];
        assert(before.spec_resolves(Reference::Plan, plan) == after.spec_resolves(
            Reference::Plan,
            plan,
        ));
        assert(first_position(before.plans@, plan.uuid@) == first_position(
            after.plans@,
            plan.uuid@,
        ));
        if tactic.spec_plan_resolves(before, n - 1) {
            lemma_first_position(before.plans@, plan.uuid@);
            let p = first_position(before.plans@, plan.uuid@);
            assert(after.plans@[p].handles == before.plans@[p].handles);
        }
        assert(tactic.spec_plan_findings(after, index, n - 1) == tactic.spec_plan_findings(
            before,
            index,
            n - 1,
        ));
    }
}

/// A tactic keeps its findings.
pub proof fn tactic_keeps_its_findings(
    tactic: Tactic,
    concept: ModelConcept,
    before: Model,
    after: Model,
    workspace: Seq<Model>,
    index: int,
)
    requires
        renamed(before, after),
    ensures
        tactic.spec_verify(concept, after, workspace, index) == tactic.spec_verify(
            concept,
            before,
            workspace,
            index,
        ),
{
    lemma_renamed_resolves_alike(before, after);
    lemma_tactic_plans(tactic, before, after, index, tactic.plan_list@.len() as int);
    assert(before.spec_resolves(Reference::Goal, tactic.goal) == after.spec_resolves(
        Reference::Goal,
        tactic.goal,
    ));
    assert(tactic.spec_goal_findings(after, index) == tactic.spec_goal_findings(before, index));
}

proof fn lemma_plan_tasks(plan: Plan, before: Model, after: Model, index: int, n: int)
    requires
        renamed(before, after),
        resolves_alike(before, after),
        0 <= n <= plan.tasks@.len(),
    ensures
        plan.spec_tasks_findings(after, index, n) == plan.spec_tasks_findings(before, index, n),
    decreases n,
{
    if n > 0 {
        lemma_plan_tasks(plan, before, after, index, n - 1);
        let task = plan.tasks@[n - 1];
        match task.action {
            Some(action) => {
                assert(before.spec_resolves(Reference::Action, action) == after.spec_resolves(
                    Reference::Action,
                    action,
                ));
            },
            None => {},
        }
        assert(plan.spec_action_task_findings(after, index, n - 1)
            == plan.spec_action_task_findings(before, index, n - 1));
        match task.goal {
            Some(goal) => {
                assert(before.spec_resolves(Reference::Goal, goal) == after.spec_resolves(
                    Reference::Goal,
                    goal,
                ));
                assert(first_position(before.goals@, goal.uuid@) == first_position(
                    after.goals@,
                    goal.uuid@,
                ));
                if before.spec_find_goal(goal) {
                    lemma_first_position(before.goals@, goal.uuid@);
                    let p = first_position(before.goals@, goal.uuid@);
                    assert(after.goals@[p].message == before.goals@[p].message);
                    let message = before.goals@[p].message;
                    assert(before.spec_resolves(Reference::Message, message)
                        == after.spec_resolves(Reference::Message, message));
                }
                assert(plan.spec_sub_goal_findings(after, index, n - 1, goal)
                    == plan.spec_sub_goal_findings(before, index, n - 1, goal));
            },
            None => {},
        }
        assert(plan.spec_goal_task_findings(after, index, n - 1) == plan.spec_goal_task_findings(
            before,
            index,
            n - 1,
        ));
        assert(plan.spec_task_findings(after, index, n - 1) == plan.spec_task_findings(
            before,
            index,
            n - 1,
        ));
    }
}

/// A plan keeps its findings.
pub proof fn plan_keeps_its_findings(
    plan: Plan,
    concept: ModelConcept,
    before: Model,
    after: Model,
    workspace: Seq<Model>,
    index: int,
)
    requires
        renamed(before, after),
    ensures
        plan.spec_verify(concept, after, workspace, index) == plan.spec_verify(
            concept,
            before,
            workspace,
            index,
        ),
{
    lemma_renamed_resolves_alike(before, after);
    lemma_plan_tasks(plan, before, after, index, plan.tasks@.len() as int);
    lemma_references_alike(
        plan.query_messages@,
        Reference::Message,
        before,
        after,
        "plans."@ + plan.id.spec_qualified_name() + ".query_messages"@,
        "plans."@ + decimal(index as nat) + ".query_messages"@,
        Wording { unset: "Query message", missing: "Query message", place: "messages" },
    );
    assert(before.spec_resolves(Reference::Goal, plan.handles) == after.spec_resolves(
        Reference::Goal,
        plan.handles,
    ));
    assert(plan.spec_handles_findings(after, index) == plan.spec_handles_findings(before, index));
}

proof fn lemma_role_grants(role: Role, before: Model, after: Model, index: int, n: int)
    requires
        resolves_alike(before, after),
        0 <= n <= role.messages@.len(),
    ensures
        role.spec_grants_findings(after, index, n) == role.spec_grants_findings(before, index, n),
    decreases n,
{
    if n > 0 {
        lemma_role_grants(role, before, after, index, n - 1);
        assert(before.spec_resolves(Reference::Message, role.messages@[n - 1].id)
            == after.spec_resolves(Reference::Message, role.messages@[n - 1].id));
        assert(reference_findings_at(
            role.messages@,
            Reference::Message,
            after,
            role.spec_grants_key(),
            role.spec_grants_machine_key(index),
            Wording { unset: "Message", missing: "Message", place: "messages" },
            n - 1,
        ) == reference_findings_at(
            role.messages@,
            Reference::Message,
            before,
            role.spec_grants_key(),
            role.spec_grants_machine_key(index),
            Wording { unset: "Message", missing: "Message", place: "messages" },
            n - 1,
        ));
    }
}

/// A role keeps its findings.
pub proof fn role_keeps_its_findings(
    role: Role,
    concept: ModelConcept,
    before: Model,
    after: Model,
    workspace: Seq<Model>,
    index: int,
)
    requires
        renamed(before, after),
    ensures
        role.spec_verify(concept, after, workspace, index) == role.spec_verify(
            concept,
            before,
            workspace,
            index,
        ),
{
    lemma_renamed_resolves_alike(before, after);
    lemma_role_grants(role, before, after, index, role.messages@.len() as int);
    lemma_references_alike(
        role.goals@,
        Reference::Goal,
        before,
        after,
        "roles."@ + role.id.spec_qualified_name() + ".goals"@,
        "roles."@ + decimal(index as nat) + ".goals"@,
        Wording { unset: "Goal", missing: "Message", place: "messages" },
    );
}

proof fn lemma_event_presets(event: Event, before: Model, after: Model, index: int, n: int)
    requires
        renamed(before, after),
        resolves_alike(before, after),
        event.spec_message_resolves(before),
        0 <= n <= event.message.defaults@.len(),
    ensures
        event.spec_presets_findings(after, index, n) == event.spec_presets_findings(
            before,
            index,
            n,
        ),
    decreases n,
{
    if n > 0 {
        lemma_event_presets(event, before, after, index, n - 1);
        let uuid = event.message.id.uuid@;
        assert(first_position(before.messages@, uuid) == first_position(after.messages@, uuid));
        lemma_first_position(before.messages@, uuid);
        let p = first_position(before.messages@, uuid);
        assert(after.messages@[p].fields == before.messages@[p].fields);
        assert(event.spec_unknown_field(after, index, n - 1) == event.spec_unknown_field(
            before,
            index,
            n - 1,
        ));
    }
}

/// An event keeps its findings.
pub proof fn event_keeps_its_findings(
    event: Event,
    concept: ModelConcept,
    before: Model,
    after: Model,
    workspace: Seq<Model>,
    index: int,
)
    requires
        renamed(before, after),
    ensures
        event.spec_verify(concept, after, workspace, index) == event.spec_verify(
            concept,
            before,
            workspace,
            index,
        ),
{
    lemma_renamed_resolves_alike(before, after);
    assert(before.spec_resolves(Reference::Message, event.message.id) == after.spec_resolves(
        Reference::Message,
        event.message.id,
    ));
    if event.spec_message_resolves(before) {
        lemma_event_presets(event, before, after, index, event.message.defaults@.len() as int);
    }
}

proof fn lemma_message_fields(
    message: Message,
    before: Seq<Model>,
    after: Seq<Model>,
    index: int,
    n: int,
)
    requires
        forall|id: Identifier| #[trigger]
            workspace_find_message(before, id) == workspace_find_message(after, id),
        0 <= n <= message.fields@.len(),
    ensures
        message.spec_fields_findings(after, index, n) == message.spec_fields_findings(
            before,
            index,
            n,
        ),
    decreases n,
{
    if n > 0 {
        lemma_message_fields(message, before, after, index, n - 1);
        match message.fields@[n - 1].field_type {
            FieldType::Custom(custom) => {
                assert(workspace_find_message(before, custom) == workspace_find_message(
                    after,
                    custom,
                ));
            },
            _ => {},
        }
        assert(message.spec_type_findings(after, index, n - 1) == message.spec_type_findings(
            before,
            index,
            n - 1,
        ));
    }
}

/// A message keeps its findings where the modules of its workspace are
/// renamed.
pub proof fn message_keeps_its_findings(
    message: Message,
    concept: ModelConcept,
    model: Model,
    renamed_model: Model,
    before: Seq<Model>,
    after: Seq<Model>,
    index: int,
)
    requires
        before.len() == after.len(),
        forall|i: int| 0 <= i < before.len() ==> same_identities(#[trigger] before[i], after[i]),
    ensures
        message.spec_verify(concept, renamed_model, after, index) == message.spec_verify(
            concept,
            model,
            before,
            index,
        ),
{
    assert forall|id: Identifier| #[trigger]
        workspace_find_message(before, id) == workspace_find_message(after, id) by {
        renaming_keeps_workspace_references(before, after, id, id);
    }
    lemma_message_fields(message, before, after, index, message.fields@.len() as int);
}

/// Whether two lists hold the same findings but for the names in them:
/// as many, and each of the same kind at the same positions.
pub open spec fn same_but_names(first: Seq<ModelErrorView>, second: Seq<ModelErrorView>) -> bool {
    &&& first.len() == second.len()
    &&& forall|i: int|
        0 <= i < first.len() ==> (#[trigger] first[i]).error_type == second[i].error_type
            && first[i].machine_keys == second[i].machine_keys
}

pub proof fn lemma_alike_add(
    first: Seq<ModelErrorView>,
    second: Seq<ModelErrorView>,
    more_first: Seq<ModelErrorView>,
    more_second: Seq<ModelErrorView>,
)
    requires
        same_but_names(first, second),
        same_but_names(more_first, more_second),
    ensures
        same_but_names(first + more_first, second + more_second),
{
    assert forall|i: int| 0 <= i < (first + more_first).len() implies (#[trigger] (first
        + more_first)[i]).error_type == (second + more_second)[i].error_type && (first
        + more_first)[i].machine_keys == (second + more_second)[i].machine_keys by {
        if i < first.len() {
            assert((first + more_first)[i] == first[i]);
            assert((second + more_second)[i] == second[i]);
        } else {
            assert((first + more_first)[i] == more_first[i - first.len()]);
            assert((second + more_second)[i] == more_second[i - first.len()]);
        }
    }
}

proof fn lemma_granted(before: Model, after: Model, held: Seq<Identifier>, n: int)
    requires
        renamed(before, after),
        resolves_alike(before, after),
        0 <= n <= before.roles@.len(),
    ensures
        granted_beliefs(after.roles@, held, n) == granted_beliefs(before.roles@, held, n),
    decreases n,
{
    if n > 0 {
        lemma_granted(before, after, held, n - 1);
        assert(identities(before.roles@)[n - 1] == identities(after.roles@)[n - 1]);
        assert(after.roles@[n - 1].messages == before.roles@[n - 1].messages);
    }
}

proof fn lemma_service_handlers(before: Model, after: Model, services: Seq<Identifier>, n: int)
    requires
        renamed(before, after),
        resolves_alike(before, after),
        0 <= n <= services.len(),
    ensures
        service_handlers(after, services, n) == service_handlers(before, services, n),
    decreases n,
{
    if n > 0 {
        lemma_service_handlers(before, after, services, n - 1);
        let service = services[n - 1];
        assert(before.spec_resolves(Reference::Service, service) == after.spec_resolves(
            Reference::Service,
            service,
        ));
        assert(first_position(before.services@, service.uuid@) == first_position(
            after.services@,
            service.uuid@,
        ));
        if before.spec_find_service(service) {
            lemma_first_position(before.services@, service.uuid@);
            let p = first_position(before.services@, service.uuid@);
            assert(after.services@[p].action_handlers == before.services@[p].action_handlers);
        }
    }
}

proof fn lemma_agent_lists(agent: Agent, concept: ModelConcept, before: Model, after: Model, index: int)
    requires
        resolves_alike(before, after),
    ensures
        agent.spec_reference_findings(concept, after, index) == agent.spec_reference_findings(
            concept,
            before,
            index,
        ),
{
    let path = agent.spec_path(concept);
    let machine_path = agent.spec_machine_path(concept, index);
    lemma_references_alike(
        agent.action_handlers@,
        Reference::Action,
        before,
        after,
        path + ".action_handlers"@,
        machine_path + ".action_handlers"@,
        Wording { unset: "Action", missing: "Action", place: "messages" },
    );
    lemma_references_alike(
        agent.beliefs@,
        Reference::Message,
        before,
        after,
        path + ".beliefs"@,
        machine_path + ".beliefs"@,
        Wording { unset: "Belief", missing: "Belief", place: "messages" },
    );
    lemma_references_alike(
        agent.message_handlers@,
        Reference::Message,
        before,
        after,
        path + ".message_handlers"@,
        machine_path + ".message_handlers"@,
        Wording { unset: "Message", missing: "Message", place: "messages" },
    );
    lemma_references_alike(
        agent.goals@,
        Reference::Goal,
        before,
        after,
        path + ".goals"@,
        machine_path + ".goals"@,
        Wording { unset: "Goal", missing: "Message", place: "messages" },
    );
    lemma_references_alike(
        agent.plans@,
        Reference::Plan,
        before,
        after,
        path + ".plans"@,
        machine_path + ".plans"@,
        Wording { unset: "Plan", missing: "Plan", place: "plans" },
    );
    lemma_references_alike(
        agent.resources@,
        Reference::Resource,
        before,
        after,
        path + ".resources"@,
        machine_path + ".resources"@,
        Wording { unset: "Resource", missing: "Resource", place: "resources" },
    );
    lemma_references_alike(
        agent.roles@,
        Reference::Role,
        before,
        after,
        path + ".roles"@,
        machine_path + ".roles"@,
        Wording { unset: "Role", missing: "Role", place: "roles" },
    );
    lemma_references_alike(
        agent.services@,
        Reference::Service,
        before,
        after,
        path + ".services"@,
        machine_path + ".services"@,
        Wording { unset: "Service", missing: "Service", place: "services" },
    );
}

proof fn lemma_agent_beliefs(
    agent: Agent,
    concept: ModelConcept,
    before: Model,
    after: Model,
    index: int,
    i: int,
    j: int,
    n: int,
)
    requires
        renamed(before, after),
        resolves_alike(before, after),
        agent.spec_held_beliefs(after) == agent.spec_held_beliefs(before),
        0 <= i < before.goals@.len(),
        0 <= n <= agent.spec_missing_beliefs(before, i).len(),
    ensures
        agent.spec_missing_beliefs(after, i) == agent.spec_missing_beliefs(before, i),
        agent.spec_belief_findings(concept, after, index, i, j, n) == agent.spec_belief_findings(
            concept,
            before,
            index,
            i,
            j,
            n,
        ),
    decreases n,
{
    assert(after.goals@[i].query_messages == before.goals@[i].query_messages);
    if n > 0 {
        lemma_agent_beliefs(agent, concept, before, after, index, i, j, n - 1);
    }
}

proof fn lemma_agent_goal_row(
    agent: Agent,
    concept: ModelConcept,
    before: Model,
    after: Model,
    index: int,
    i: int,
    n: int,
)
    requires
        renamed(before, after),
        resolves_alike(before, after),
        agent.spec_held_beliefs(after) == agent.spec_held_beliefs(before),
        0 <= i < before.goals@.len(),
        0 <= n <= agent.goals@.len(),
    ensures
        agent.spec_goal_row(concept, after, index, i, n) == agent.spec_goal_row(
            concept,
            before,
            index,
            i,
            n,
        ),
    decreases n,
{
    if n > 0 {
        lemma_agent_goal_row(agent, concept, before, after, index, i, n - 1);
        assert(identities(before.goals@)[i] == identities(after.goals@)[i]);
        assert(after.goals@[i].query_messages == before.goals@[i].query_messages);
        lemma_agent_beliefs(
            agent,
            concept,
            before,
            after,
            index,
            i,
            n - 1,
            agent.spec_missing_beliefs(before, i).len() as int,
        );
        assert(before.spec_find_tactic(agent.goals@[n - 1].startup_tactic)
            == after.spec_find_tactic(agent.goals@[n - 1].startup_tactic));
        assert(agent.spec_tactic_findings(concept, after, index, n - 1)
            == agent.spec_tactic_findings(concept, before, index, n - 1));
    }
}

proof fn lemma_agent_goals(
    agent: Agent,
    concept: ModelConcept,
    before: Model,
    after: Model,
    index: int,
    n: int,
)
    requires
        renamed(before, after),
        resolves_alike(before, after),
        agent.spec_held_beliefs(after) == agent.spec_held_beliefs(before),
        0 <= n <= before.goals@.len(),
    ensures
        agent.spec_goal_findings(concept, after, index, n) == agent.spec_goal_findings(
            concept,
            before,
            index,
            n,
        ),
    decreases n,
{
    if n > 0 {
        lemma_agent_goals(agent, concept, before, after, index, n - 1);
        lemma_agent_goal_row(
            agent,
            concept,
            before,
            after,
            index,
            n - 1,
            agent.goals@.len() as int,
        );
    }
}

proof fn lemma_agent_actions(
    agent: Agent,
    concept: ModelConcept,
    before: Model,
    after: Model,
    index: int,
    i: int,
    j: int,
    n: int,
)
    requires
        renamed(before, after),
        resolves_alike(before, after),
        agent.spec_handled_actions(after) == agent.spec_handled_actions(before),
        0 <= i < before.plans@.len(),
        0 <= n <= agent.spec_missing_actions(before, i).len(),
    ensures
        agent.spec_missing_actions(after, i) == agent.spec_missing_actions(before, i),
        agent.spec_action_findings(concept, after, index, i, j, n) == agent.spec_action_findings(
            concept,
            before,
            index,
            i,
            j,
            n,
        ),
    decreases n,
{
    assert(after.plans@[i].tasks == before.plans@[i].tasks);
    if n > 0 {
        lemma_agent_actions(agent, concept, before, after, index, i, j, n - 1);
    }
}

proof fn lemma_agent_plan_row(
    agent: Agent,
    concept: ModelConcept,
    before: Model,
    after: Model,
    index: int,
    i: int,
    n: int,
)
    requires
        renamed(before, after),
        resolves_alike(before, after),
        agent.spec_handled_actions(after) == agent.spec_handled_actions(before),
        0 <= i < before.plans@.len(),
        0 <= n <= agent.plans@.len(),
    ensures
        agent.spec_plan_row(concept, after, index, i, n) == agent.spec_plan_row(
            concept,
            before,
            index,
            i,
            n,
        ),
    decreases n,
{
    if n > 0 {
        lemma_agent_plan_row(agent, concept, before, after, index, i, n - 1);
        assert(identities(before.plans@)[i] == identities(after.plans@)[i]);
        assert(after.plans@[i].tasks == before.plans@[i].tasks);
        lemma_agent_actions(
            agent,
            concept,
            before,
            after,
            index,
            i,
            n - 1,
            agent.spec_missing_actions(before, i).len() as int,
        );
    }
}

proof fn lemma_agent_plans(
    agent: Agent,
    concept: ModelConcept,
    before: Model,
    after: Model,
    index: int,
    n: int,
)
    requires
        renamed(before, after),
        resolves_alike(before, after),
        agent.spec_handled_actions(after) == agent.spec_handled_actions(before),
        0 <= n <= before.plans@.len(),
    ensures
        agent.spec_plan_findings(concept, after, index, n) == agent.spec_plan_findings(
            concept,
            before,
            index,
            n,
        ),
    decreases n,
{
    if n > 0 {
        lemma_agent_plans(agent, concept, before, after, index, n - 1);
        lemma_agent_plan_row(
            agent,
            concept,
            before,
            after,
            index,
            n - 1,
            agent.plans@.len() as int,
        );
    }
}

proof fn lemma_agent_resources(
    agent: Agent,
    concept: ModelConcept,
    before: Model,
    after: Model,
    index: int,
    i: int,
    j: int,
    n: int,
)
    requires
        renamed(before, after),
        resolves_alike(before, after),
        0 <= i < before.goals@.len(),
        0 <= n <= agent.spec_missing_resources(before, i).len(),
    ensures
        agent.spec_missing_resources(after, i) == agent.spec_missing_resources(before, i),
        same_but_names(
            agent.spec_resource_findings(concept, after, index, i, j, n),
            agent.spec_resource_findings(concept, before, index, i, j, n),
        ),
    decreases n,
{
    assert(after.goals@[i].resources == before.goals@[i].resources);
    if n > 0 {
        lemma_agent_resources(agent, concept, before, after, index, i, j, n - 1);
        let now = agent.spec_resource_finding(concept, after, index, i, j, n - 1);
        let then = agent.spec_resource_finding(concept, before, index, i, j, n - 1);
        assert(same_but_names(now, then));
        lemma_alike_add(
            agent.spec_resource_findings(concept, after, index, i, j, n - 1),
            agent.spec_resource_findings(concept, before, index, i, j, n - 1),
            now,
            then,
        );
    }
}

proof fn lemma_agent_resource_row(
    agent: Agent,
    concept: ModelConcept,
    before: Model,
    after: Model,
    index: int,
    j: int,
    n: int,
)
    requires
        renamed(before, after),
        resolves_alike(before, after),
        0 <= n <= before.goals@.len(),
    ensures
        same_but_names(
            agent.spec_resource_row(concept, after, index, j, n),
            agent.spec_resource_row(concept, before, index, j, n),
        ),
    decreases n,
{
    if n > 0 {
        lemma_agent_resource_row(agent, concept, before, after, index, j, n - 1);
        assert(identities(before.goals@)[n - 1] == identities(after.goals@)[n - 1]);
        assert(after.goals@[n - 1].resources == before.goals@[n - 1].resources);
        lemma_agent_resources(
            agent,
            concept,
            before,
            after,
            index,
            n - 1,
            j,
            agent.spec_missing_resources(before, n - 1).len() as int,
        );
        let now = if after.goals@[n - 1].id.uuid@ == agent.goals@[j].id.uuid@ {
            agent.spec_resource_findings(
                concept,
                after,
                index,
                n - 1,
                j,
                agent.spec_missing_resources(after, n - 1).len() as int,
            )
        } else {
            Seq::empty()
        };
        let then = if before.goals@[n - 1].id.uuid@ == agent.goals@[j].id.uuid@ {
            agent.spec_resource_findings(
                concept,
                before,
                index,
                n - 1,
                j,
                agent.spec_missing_resources(before, n - 1).len() as int,
            )
        } else {
            Seq::empty()
        };
        lemma_alike_add(
            agent.spec_resource_row(concept, after, index, j, n - 1),
            agent.spec_resource_row(concept, before, index, j, n - 1),
            now,
            then,
        );
    }
}

proof fn lemma_agent_requirements(
    agent: Agent,
    concept: ModelConcept,
    before: Model,
    after: Model,
    index: int,
    n: int,
)
    requires
        renamed(before, after),
        resolves_alike(before, after),
        0 <= n <= agent.goals@.len(),
    ensures
        same_but_names(
            agent.spec_requirement_findings(concept, after, index, n),
            agent.spec_requirement_findings(concept, before, index, n),
        ),
    decreases n,
{
    if n > 0 {
        lemma_agent_requirements(agent, concept, before, after, index, n - 1);
        lemma_agent_resource_row(
            agent,
            concept,
            before,
            after,
            index,
            n - 1,
            before.goals@.len() as int,
        );
        lemma_alike_add(
            agent.spec_requirement_findings(concept, after, index, n - 1),
            agent.spec_requirement_findings(concept, before, index, n - 1),
            agent.spec_resource_row(concept, after, index, n - 1, after.goals@.len() as int),
            agent.spec_resource_row(concept, before, index, n - 1, before.goals@.len() as int),
        );
    }
}

/// An agent or team keeps its findings: those on its references, on its
/// startup tactics, on beliefs that it does not hold and on actions that
/// it does not handle are what they were; those on resources that it does
/// not own are what they were but for the names by which they tell the
/// goals.
pub proof fn agent_keeps_its_findings(
    agent: Agent,
    concept: ModelConcept,
    before: Model,
    after: Model,
    workspace: Seq<Model>,
    index: int,
)
    requires
        renamed(before, after),
    ensures
        agent.spec_reference_findings(concept, after, index) == agent.spec_reference_findings(
            concept,
            before,
            index,
        ),
        agent.spec_goal_findings(concept, after, index, after.goals@.len() as int)
            == agent.spec_goal_findings(concept, before, index, before.goals@.len() as int),
        agent.spec_plan_findings(concept, after, index, after.plans@.len() as int)
            == agent.spec_plan_findings(concept, before, index, before.plans@.len() as int),
        same_but_names(
            agent.spec_verify(concept, after, workspace, index),
            agent.spec_verify(concept, before, workspace, index),
        ),
{
    lemma_renamed_resolves_alike(before, after);
    lemma_agent_lists(agent, concept, before, after, index);
    lemma_granted(before, after, agent.roles@, before.roles@.len() as int);
    lemma_service_handlers(before, after, agent.services@, agent.services@.len() as int);
    lemma_agent_goals(agent, concept, before, after, index, before.goals@.len() as int);
    lemma_agent_plans(agent, concept, before, after, index, before.plans@.len() as int);
    lemma_agent_requirements(agent, concept, before, after, index, agent.goals@.len() as int);
    let same = agent.spec_reference_findings(concept, before, index) + agent.spec_goal_findings(
        concept,
        before,
        index,
        before.goals@.len() as int,
    ) + agent.spec_plan_findings(concept, before, index, before.plans@.len() as int);
    assert(same_but_names(same, same));
    lemma_alike_add(
        same,
        same,
        agent.spec_requirement_findings(concept, after, index, agent.goals@.len() as int),
        agent.spec_requirement_findings(concept, before, index, agent.goals@.len() as int),
    );
}

} // verus!
