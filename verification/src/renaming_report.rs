//! Renaming a declaration, seen over the whole report of its module: no
//! finding comes or goes but those that a name itself can bring.

use crate::agent::list_findings;
use crate::concept::{Identified, ModelConcept};
use crate::error::{ErrorType, ModelErrorView};
use crate::identifier::Identifier;
use crate::laws::{count_of, same_identities};
use crate::model::Model;
use crate::references::{
    duplicate_findings, duplicate_findings_at, reference_findings, reference_findings_at,
    repeated_name_findings, Reference, Wording,
};
use crate::renaming::{
    action_keeps_its_findings, agent_keeps_its_findings, event_keeps_its_findings,
    goal_keeps_its_findings, lemma_alike_add, message_keeps_its_findings,
    plan_keeps_its_findings, renamed, role_keeps_its_findings, same_but_names,
    tactic_keeps_its_findings,
};
use crate::schema::{
    Action, Agent, AgentType, Enum, Event, Goal, Message, Plan, Resource, Role, Service, Tactic,
};
use crate::text::decimal;
use crate::validate::{
    concept_findings, declaration_findings, declarations, reserved_findings,
    same_identity_findings, same_name_findings, unidentified_findings, unnamed_findings, Checked,
    Declaration,
};
use crate::workspace::identities;
use vstd::prelude::*;

verus! {

proof fn lemma_alike_same(errors: Seq<ModelErrorView>)
    ensures
        same_but_names(errors, errors),
{
}

proof fn lemma_alike_chain(
    first: Seq<ModelErrorView>,
    second: Seq<ModelErrorView>,
    third: Seq<ModelErrorView>,
)
    requires
        same_but_names(first, second),
        same_but_names(second, third),
    ensures
        same_but_names(first, third),
{
    assert forall|i: int| 0 <= i < first.len() implies (#[trigger] first[i]).error_type
        == third[i].error_type && first[i].machine_keys == third[i].machine_keys by {
        assert(first[i].error_type == second[i].error_type);
        assert(second[i].error_type == third[i].error_type);
    }
}

proof fn lemma_own_references<T: Identified>(
    items: Seq<T>,
    kind: Reference,
    model: Model,
    key: Seq<char>,
    other_key: Seq<char>,
    machine_key: Seq<char>,
    wording: Wording,
    n: int,
)
    ensures
        same_but_names(
            reference_findings(items, kind, model, other_key, machine_key, wording, n),
            reference_findings(items, kind, model, key, machine_key, wording, n),
        ),
    decreases n,
{
    if n > 0 {
        lemma_own_references(items, kind, model, key, other_key, machine_key, wording, n - 1);
        let now = reference_findings_at(items, kind, model, other_key, machine_key, wording, n - 1);
        let then = reference_findings_at(items, kind, model, key, machine_key, wording, n - 1);
        assert(same_but_names(now, then));
        lemma_alike_add(
            reference_findings(items, kind, model, other_key, machine_key, wording, n - 1),
            reference_findings(items, kind, model, key, machine_key, wording, n - 1),
            now,
            then,
        );
    }
}

proof fn lemma_own_duplicates<T: Identified>(
    items: Seq<T>,
    field_id: Seq<char>,
    other_field_id: Seq<char>,
    machine_id: Seq<char>,
    object_type: Seq<char>,
    object_name: Seq<char>,
    other_object_name: Seq<char>,
    field_name: Seq<char>,
    n: int,
)
    ensures
        same_but_names(
            duplicate_findings(
                items,
                other_field_id,
                machine_id,
                object_type,
                other_object_name,
                field_name,
                n,
            ),
            duplicate_findings(
                items,
                field_id,
                machine_id,
                object_type,
                object_name,
                field_name,
                n,
            ),
        ),
    decreases n,
{
    if n > 0 {
        lemma_own_duplicates(
            items,
            field_id,
            other_field_id,
            machine_id,
            object_type,
            object_name,
            other_object_name,
            field_name,
            n - 1,
        );
        let now = duplicate_findings_at(
            items,
            other_field_id,
            machine_id,
            object_type,
            other_object_name,
            field_name,
            n - 1,
        );
        let then = duplicate_findings_at(
            items,
            field_id,
            machine_id,
            object_type,
            object_name,
            field_name,
            n - 1,
        );
        assert(same_but_names(now, then));
        lemma_alike_add(
            duplicate_findings(
                items,
                other_field_id,
                machine_id,
                object_type,
                other_object_name,
                field_name,
                n - 1,
            ),
            duplicate_findings(
                items,
                field_id,
                machine_id,
                object_type,
                object_name,
                field_name,
                n - 1,
            ),
            now,
            then,
        );
    }
}

proof fn lemma_own_goal(
    goal: Goal,
    other: Goal,
    concept: ModelConcept,
    model: Model,
    workspace: Seq<Model>,
    index: int,
)
    requires
        other.id.uuid@ == goal.id.uuid@,
        other == (Goal { id: other.id, ..goal }),
    ensures
        same_but_names(
            other.spec_verify(concept, model, workspace, index),
            goal.spec_verify(concept, model, workspace, index),
        ),
{
    let name = goal.id.spec_qualified_name();
    let new = other.id.spec_qualified_name();
    let at = decimal(index as nat);
    lemma_own_references(
        goal.query_messages@,
        Reference::Message,
        model,
        "goals."@ + name + ".query_messages"@,
        "goals."@ + new + ".query_messages"@,
        "goals."@ + at + ".query_messages"@,
        Wording { unset: "Message", missing: "Message", place: "messages" },
        goal.query_messages@.len() as int,
    );
    lemma_own_duplicates(
        goal.query_messages@,
        "goals."@ + name + ".query_messages"@,
        "goals."@ + new + ".query_messages"@,
        "goals."@ + at + ".query_messages"@,
        "goals"@,
        name,
        new,
        "query_messages"@,
        goal.query_messages@.len() as int,
    );
    lemma_own_references(
        goal.resources@,
        Reference::Resource,
        model,
        "goals."@ + name + ".resources"@,
        "goals."@ + new + ".resources"@,
        "goals."@ + at + ".resources"@,
        Wording { unset: "Resource", missing: "Resource", place: "resources" },
        goal.resources@.len() as int,
    );
    lemma_own_duplicates(
        goal.resources@,
        "goals."@ + name + ".resources"@,
        "goals."@ + new + ".resources"@,
        "goals."@ + at + ".resources"@,
        "goals"@,
        name,
        new,
        "resources"@,
        goal.resources@.len() as int,
    );
    let a1 = reference_findings(
        goal.query_messages@,
        Reference::Message,
        model,
        "goals."@ + new + ".query_messages"@,
        "goals."@ + at + ".query_messages"@,
        Wording { unset: "Message", missing: "Message", place: "messages" },
        goal.query_messages@.len() as int,
    );
    let a0 = reference_findings(
        goal.query_messages@,
        Reference::Message,
        model,
        "goals."@ + name + ".query_messages"@,
        "goals."@ + at + ".query_messages"@,
        Wording { unset: "Message", missing: "Message", place: "messages" },
        goal.query_messages@.len() as int,
    );
    let b1 = other.spec_message_findings(model, index);
    let b0 = goal.spec_message_findings(model, index);
    let c1 = duplicate_findings(
        goal.query_messages@,
        "goals."@ + new + ".query_messages"@,
        "goals."@ + at + ".query_messages"@,
        "goals"@,
        new,
        "query_messages"@,
        goal.query_messages@.len() as int,
    );
    let c0 = duplicate_findings(
        goal.query_messages@,
        "goals."@ + name + ".query_messages"@,
        "goals."@ + at + ".query_messages"@,
        "goals"@,
        name,
        "query_messages"@,
        goal.query_messages@.len() as int,
    );
    let d1 = reference_findings(
        goal.resources@,
        Reference::Resource,
        model,
        "goals."@ + new + ".resources"@,
        "goals."@ + at + ".resources"@,
        Wording { unset: "Resource", missing: "Resource", place: "resources" },
        goal.resources@.len() as int,
    );
    let d0 = reference_findings(
        goal.resources@,
        Reference::Resource,
        model,
        "goals."@ + name + ".resources"@,
        "goals."@ + at + ".resources"@,
        Wording { unset: "Resource", missing: "Resource", place: "resources" },
        goal.resources@.len() as int,
    );
    let e1 = duplicate_findings(
        goal.resources@,
        "goals."@ + new + ".resources"@,
        "goals."@ + at + ".resources"@,
        "goals"@,
        new,
        "resources"@,
        goal.resources@.len() as int,
    );
    let e0 = duplicate_findings(
        goal.resources@,
        "goals."@ + name + ".resources"@,
        "goals."@ + at + ".resources"@,
        "goals"@,
        name,
        "resources"@,
        goal.resources@.len() as int,
    );
    let f1 = other.spec_coverage_findings(model, index);
    let f0 = goal.spec_coverage_findings(model, index);
    assert(same_but_names(b1, b0));
    assert(same_but_names(f1, f0));
    lemma_alike_add(a1, a0, b1, b0);
    lemma_alike_add(a1 + b1, a0 + b0, c1, c0);
    lemma_alike_add(a1 + b1 + c1, a0 + b0 + c0, d1, d0);
    lemma_alike_add(a1 + b1 + c1 + d1, a0 + b0 + c0 + d0, e1, e0);
    lemma_alike_add(a1 + b1 + c1 + d1 + e1, a0 + b0 + c0 + d0 + e0, f1, f0);
}

proof fn lemma_own_plan_tasks(plan: Plan, other: Plan, model: Model, index: int, n: int)
    requires
        other == (Plan { id: other.id, ..plan }),
    ensures
        same_but_names(
            other.spec_tasks_findings(model, index, n),
            plan.spec_tasks_findings(model, index, n),
        ),
    decreases n,
{
    if n > 0 {
        lemma_own_plan_tasks(plan, other, model, index, n - 1);
        let task = plan.tasks@[n - 1];
        assert(same_but_names(
            other.spec_task_id_findings(index, n - 1),
            plan.spec_task_id_findings(index, n - 1),
        ));
        assert(same_but_names(
            other.spec_mappings_findings(index, n - 1, "Action task "@),
            plan.spec_mappings_findings(index, n - 1, "Action task "@),
        ));
        assert(same_but_names(
            other.spec_mappings_findings(index, n - 1, "Goal task "@),
            plan.spec_mappings_findings(index, n - 1, "Goal task "@),
        ));
        assert(same_but_names(
            other.spec_action_task_findings(model, index, n - 1),
            plan.spec_action_task_findings(model, index, n - 1),
        ));
        match task.goal {
            Some(goal) => {
                assert(same_but_names(
                    other.spec_sub_goal_findings(model, index, n - 1, goal),
                    plan.spec_sub_goal_findings(model, index, n - 1, goal),
                ));
            },
            None => {},
        }
        assert(same_but_names(
            other.spec_goal_task_findings(model, index, n - 1),
            plan.spec_goal_task_findings(model, index, n - 1),
        ));
        assert(same_but_names(
            other.spec_task_findings(model, index, n - 1),
            plan.spec_task_findings(model, index, n - 1),
        ));
        lemma_alike_add(
            other.spec_tasks_findings(model, index, n - 1),
            plan.spec_tasks_findings(model, index, n - 1),
            other.spec_task_findings(model, index, n - 1),
            plan.spec_task_findings(model, index, n - 1),
        );
    }
}

proof fn lemma_own_plan(
    plan: Plan,
    other: Plan,
    concept: ModelConcept,
    model: Model,
    workspace: Seq<Model>,
    index: int,
)
    requires
        other == (Plan { id: other.id, ..plan }),
    ensures
        same_but_names(
            other.spec_verify(concept, model, workspace, index),
            plan.spec_verify(concept, model, workspace, index),
        ),
{
    let name = plan.id.spec_qualified_name();
    let new = other.id.spec_qualified_name();
    let at = decimal(index as nat);
    let wording = Wording { unset: "Query message", missing: "Query message", place: "messages" };
    lemma_own_references(
        plan.query_messages@,
        Reference::Message,
        model,
        "plans."@ + name + ".query_messages"@,
        "plans."@ + new + ".query_messages"@,
        "plans."@ + at + ".query_messages"@,
        wording,
        plan.query_messages@.len() as int,
    );
    lemma_own_plan_tasks(plan, other, model, index, plan.tasks@.len() as int);
    lemma_own_duplicates(
        plan.query_messages@,
        "plans."@ + name + ".beliefsets"@,
        "plans."@ + new + ".beliefsets"@,
        "plans."@ + at + ".beliefsets"@,
        "plans"@,
        name,
        new,
        "beliefsets"@,
        plan.query_messages@.len() as int,
    );
    let a1 = reference_findings(
        plan.query_messages@,
        Reference::Message,
        model,
        "plans."@ + new + ".query_messages"@,
        "plans."@ + at + ".query_messages"@,
        wording,
        plan.query_messages@.len() as int,
    );
    let a0 = reference_findings(
        plan.query_messages@,
        Reference::Message,
        model,
        "plans."@ + name + ".query_messages"@,
        "plans."@ + at + ".query_messages"@,
        wording,
        plan.query_messages@.len() as int,
    );
    let b1 = other.spec_handles_findings(model, index);
    let b0 = plan.spec_handles_findings(model, index);
    let c1 = other.spec_tasks_findings(model, index, plan.tasks@.len() as int);
    let c0 = plan.spec_tasks_findings(model, index, plan.tasks@.len() as int);
    let d1 = duplicate_findings(
        plan.query_messages@,
        "plans."@ + new + ".beliefsets"@,
        "plans."@ + at + ".beliefsets"@,
        "plans"@,
        new,
        "beliefsets"@,
        plan.query_messages@.len() as int,
    );
    let d0 = duplicate_findings(
        plan.query_messages@,
        "plans."@ + name + ".beliefsets"@,
        "plans."@ + at + ".beliefsets"@,
        "plans"@,
        name,
        "beliefsets"@,
        plan.query_messages@.len() as int,
    );
    assert(same_but_names(b1, b0));
    lemma_alike_add(a1, a0, b1, b0);
    lemma_alike_add(a1 + b1, a0 + b0, c1, c0);
    lemma_alike_add(a1 + b1 + c1, a0 + b0 + c0, d1, d0);
}

proof fn lemma_own_role_grants(role: Role, other: Role, model: Model, index: int, n: int)
    requires
        other == (Role { id: other.id, ..role }),
    ensures
        same_but_names(
            other.spec_grants_findings(model, index, n),
            role.spec_grants_findings(model, index, n),
        ),
    decreases n,
{
    if n > 0 {
        lemma_own_role_grants(role, other, model, index, n - 1);
        let wording = Wording { unset: "Message", missing: "Message", place: "messages" };
        let now = reference_findings_at(
            role.messages@,
            Reference::Message,
            model,
            other.spec_grants_key(),
            other.spec_grants_machine_key(index),
            wording,
            n - 1,
        );
        let then = reference_findings_at(
            role.messages@,
            Reference::Message,
            model,
            role.spec_grants_key(),
            role.spec_grants_machine_key(index),
            wording,
            n - 1,
        );
        assert(same_but_names(now, then));
        assert(same_but_names(
            other.spec_repeated_grant(index, n - 1),
            role.spec_repeated_grant(index, n - 1),
        ));
        lemma_alike_add(
            now,
            then,
            other.spec_repeated_grant(index, n - 1),
            role.spec_repeated_grant(index, n - 1),
        );
        lemma_alike_add(
            other.spec_grants_findings(model, index, n - 1),
            role.spec_grants_findings(model, index, n - 1),
            other.spec_grant_findings(model, index, n - 1),
            role.spec_grant_findings(model, index, n - 1),
        );
    }
}

proof fn lemma_own_role(
    role: Role,
    other: Role,
    concept: ModelConcept,
    model: Model,
    workspace: Seq<Model>,
    index: int,
)
    requires
        other == (Role { id: other.id, ..role }),
    ensures
        same_but_names(
            other.spec_verify(concept, model, workspace, index),
            role.spec_verify(concept, model, workspace, index),
        ),
{
    let name = role.id.spec_qualified_name();
    let new = other.id.spec_qualified_name();
    let at = decimal(index as nat);
    let wording = Wording { unset: "Goal", missing: "Message", place: "messages" };
    lemma_own_role_grants(role, other, model, index, role.messages@.len() as int);
    lemma_own_references(
        role.goals@,
        Reference::Goal,
        model,
        "roles."@ + name + ".goals"@,
        "roles."@ + new + ".goals"@,
        "roles."@ + at + ".goals"@,
        wording,
        role.goals@.len() as int,
    );
    lemma_own_duplicates(
        role.goals@,
        "roles."@ + name + ".goals"@,
        "roles."@ + new + ".goals"@,
        "roles."@ + at + ".goals"@,
        "roles"@,
        name,
        new,
        "goals"@,
        role.goals@.len() as int,
    );
    let a1 = other.spec_grants_findings(model, index, role.messages@.len() as int);
    let a0 = role.spec_grants_findings(model, index, role.messages@.len() as int);
    let b1 = reference_findings(
        role.goals@,
        Reference::Goal,
        model,
        "roles."@ + new + ".goals"@,
        "roles."@ + at + ".goals"@,
        wording,
        role.goals@.len() as int,
    );
    let b0 = reference_findings(
        role.goals@,
        Reference::Goal,
        model,
        "roles."@ + name + ".goals"@,
        "roles."@ + at + ".goals"@,
        wording,
        role.goals@.len() as int,
    );
    let c1 = duplicate_findings(
        role.goals@,
        "roles."@ + new + ".goals"@,
        "roles."@ + at + ".goals"@,
        "roles"@,
        new,
        "goals"@,
        role.goals@.len() as int,
    );
    let c0 = duplicate_findings(
        role.goals@,
        "roles."@ + name + ".goals"@,
        "roles."@ + at + ".goals"@,
        "roles"@,
        name,
        "goals"@,
        role.goals@.len() as int,
    );
    lemma_alike_add(a1, a0, b1, b0);
    lemma_alike_add(a1 + b1, a0 + b0, c1, c0);
}

proof fn lemma_own_tactic_plans(tactic: Tactic, other: Tactic, model: Model, index: int, n: int)
    requires
        other == (Tactic { id: other.id, ..tactic }),
    ensures
        same_but_names(
            other.spec_plans_findings(model, index, n),
            tactic.spec_plans_findings(model, index, n),
        ),
    decreases n,
{
    if n > 0 {
        lemma_own_tactic_plans(tactic, other, model, index, n - 1);
        assert(other.spec_plan_resolves(model, n - 1) == tactic.spec_plan_resolves(model, n - 1));
        assert(other.spec_plan_mismatch(model, n - 1) == tactic.spec_plan_mismatch(model, n - 1));
        assert(same_but_names(
            other.spec_plan_findings(model, index, n - 1),
            tactic.spec_plan_findings(model, index, n - 1),
        ));
        lemma_alike_add(
            other.spec_plans_findings(model, index, n - 1),
            tactic.spec_plans_findings(model, index, n - 1),
            other.spec_plan_findings(model, index, n - 1),
            tactic.spec_plan_findings(model, index, n - 1),
        );
    }
}

proof fn lemma_own_tactic(
    tactic: Tactic,
    other: Tactic,
    concept: ModelConcept,
    model: Model,
    workspace: Seq<Model>,
    index: int,
)
    requires
        other == (Tactic { id: other.id, ..tactic }),
    ensures
        same_but_names(
            other.spec_verify(concept, model, workspace, index),
            tactic.spec_verify(concept, model, workspace, index),
        ),
{
    lemma_own_tactic_plans(tactic, other, model, index, tactic.plan_list@.len() as int);
    lemma_own_duplicates(
        tactic.plan_list@,
        tactic.spec_plans_key(),
        other.spec_plans_key(),
        tactic.spec_plans_machine_key(index),
        "tactics"@,
        tactic.id.spec_qualified_name(),
        other.id.spec_qualified_name(),
        "plans"@,
        tactic.plan_list@.len() as int,
    );
    let a1 = other.spec_goal_findings(model, index);
    let a0 = tactic.spec_goal_findings(model, index);
    let b1 = other.spec_plans_findings(model, index, tactic.plan_list@.len() as int);
    let b0 = tactic.spec_plans_findings(model, index, tactic.plan_list@.len() as int);
    let c1 = other.spec_loop_findings(index);
    let c0 = tactic.spec_loop_findings(index);
    let d1 = duplicate_findings(
        tactic.plan_list@,
        other.spec_plans_key(),
        other.spec_plans_machine_key(index),
        "tactics"@,
        other.id.spec_qualified_name(),
        "plans"@,
        tactic.plan_list@.len() as int,
    );
    let d0 = duplicate_findings(
        tactic.plan_list@,
        tactic.spec_plans_key(),
        tactic.spec_plans_machine_key(index),
        "tactics"@,
        tactic.id.spec_qualified_name(),
        "plans"@,
        tactic.plan_list@.len() as int,
    );
    assert(same_but_names(a1, a0));
    assert(same_but_names(c1, c0));
    lemma_alike_add(a1, a0, b1, b0);
    lemma_alike_add(a1 + b1, a0 + b0, c1, c0);
    lemma_alike_add(a1 + b1 + c1, a0 + b0 + c0, d1, d0);
}

proof fn lemma_own_message_fields(
    message: Message,
    other: Message,
    workspace: Seq<Model>,
    index: int,
    n: int,
)
    requires
        other.id.uuid@ == message.id.uuid@,
        other == (Message { id: other.id, ..message }),
    ensures
        same_but_names(
            other.spec_fields_findings(workspace, index, n),
            message.spec_fields_findings(workspace, index, n),
        ),
    decreases n,
{
    if n > 0 {
        lemma_own_message_fields(message, other, workspace, index, n - 1);
        let now = repeated_name_findings(
            message.fields@,
            other.spec_fields_key(),
            other.spec_fields_machine_key(index),
            "Duplicate fields with name "@ + message.fields@[n - 1].name@ + " in Message "@
                + other.id.spec_qualified_name() + "."@,
            n - 1,
        );
        let then = repeated_name_findings(
            message.fields@,
            message.spec_fields_key(),
            message.spec_fields_machine_key(index),
            "Duplicate fields with name "@ + message.fields@[n - 1].name@ + " in Message "@
                + message.id.spec_qualified_name() + "."@,
            n - 1,
        );
        assert(same_but_names(now, then));
        assert(same_but_names(
            other.spec_type_findings(workspace, index, n - 1),
            message.spec_type_findings(workspace, index, n - 1),
        ));
        lemma_alike_add(
            now,
            then,
            other.spec_type_findings(workspace, index, n - 1),
            message.spec_type_findings(workspace, index, n - 1),
        );
        lemma_alike_add(
            other.spec_fields_findings(workspace, index, n - 1),
            message.spec_fields_findings(workspace, index, n - 1),
            other.spec_field_findings(workspace, index, n - 1),
            message.spec_field_findings(workspace, index, n - 1),
        );
    }
}

proof fn lemma_own_enum_fields(enumeration: Enum, other: Enum, index: int, n: int)
    requires
        other == (Enum { id: other.id, ..enumeration }),
    ensures
        same_but_names(
            other.spec_fields_findings(index, n),
            enumeration.spec_fields_findings(index, n),
        ),
    decreases n,
{
    if n > 0 {
        lemma_own_enum_fields(enumeration, other, index, n - 1);
        let now = repeated_name_findings(
            enumeration.fields@,
            other.spec_fields_key(),
            other.spec_fields_machine_key(index),
            "Duplicate fields with name "@ + enumeration.fields@[n - 1].name@ + " in Enum "@
                + other.id.spec_qualified_name() + "."@,
            n - 1,
        );
        let then = repeated_name_findings(
            enumeration.fields@,
            enumeration.spec_fields_key(),
            enumeration.spec_fields_machine_key(index),
            "Duplicate fields with name "@ + enumeration.fields@[n - 1].name@ + " in Enum "@
                + enumeration.id.spec_qualified_name() + "."@,
            n - 1,
        );
        assert(same_but_names(now, then));
        assert(same_but_names(
            other.spec_repeated_value(index, n - 1),
            enumeration.spec_repeated_value(index, n - 1),
        ));
        lemma_alike_add(
            now,
            then,
            other.spec_repeated_value(index, n - 1),
            enumeration.spec_repeated_value(index, n - 1),
        );
        lemma_alike_add(
            other.spec_fields_findings(index, n - 1),
            enumeration.spec_fields_findings(index, n - 1),
            other.spec_field_findings(index, n - 1),
            enumeration.spec_field_findings(index, n - 1),
        );
    }
}

proof fn lemma_own_event_presets(event: Event, other: Event, model: Model, index: int, n: int)
    requires
        other == (Event { id: other.id, ..event }),
    ensures
        same_but_names(
            other.spec_presets_findings(model, index, n),
            event.spec_presets_findings(model, index, n),
        ),
    decreases n,
{
    if n > 0 {
        lemma_own_event_presets(event, other, model, index, n - 1);
        let now = repeated_name_findings(
            event.message.defaults@,
            "events."@ + other.id.spec_qualified_name() + ".fields"@,
            "events."@ + decimal(index as nat) + ".fields"@,
            other.spec_preset_text(
                n - 1,
                "' specifies duplicate a default value for field '"@,
                "' in message '"@,
            ),
            n - 1,
        );
        let then = repeated_name_findings(
            event.message.defaults@,
            "events."@ + event.id.spec_qualified_name() + ".fields"@,
            "events."@ + decimal(index as nat) + ".fields"@,
            event.spec_preset_text(
                n - 1,
                "' specifies duplicate a default value for field '"@,
                "' in message '"@,
            ),
            n - 1,
        );
        assert(same_but_names(now, then));
        assert(other.spec_message(model) == event.spec_message(model));
        assert(same_but_names(
            other.spec_unknown_field(model, index, n - 1),
            event.spec_unknown_field(model, index, n - 1),
        ));
        lemma_alike_add(
            other.spec_unknown_field(model, index, n - 1),
            event.spec_unknown_field(model, index, n - 1),
            now,
            then,
        );
        lemma_alike_add(
            other.spec_presets_findings(model, index, n - 1),
            event.spec_presets_findings(model, index, n - 1),
            other.spec_preset_findings(model, index, n - 1),
            event.spec_preset_findings(model, index, n - 1),
        );
    }
}

proof fn lemma_own_list<T: Identified>(
    items: Seq<T>,
    kind: Reference,
    model: Model,
    key: Seq<char>,
    other_key: Seq<char>,
    machine_key: Seq<char>,
    wording: Wording,
    owner_kind: Seq<char>,
    owner_name: Seq<char>,
    other_owner_name: Seq<char>,
    told_as: Seq<char>,
)
    ensures
        same_but_names(
            list_findings(
                items,
                kind,
                model,
                other_key,
                machine_key,
                wording,
                owner_kind,
                other_owner_name,
                told_as,
            ),
            list_findings(
                items,
                kind,
                model,
                key,
                machine_key,
                wording,
                owner_kind,
                owner_name,
                told_as,
            ),
        ),
{
    let n = items.len() as int;
    lemma_own_references(items, kind, model, key, other_key, machine_key, wording, n);
    lemma_own_duplicates(
        items,
        key,
        other_key,
        machine_key,
        owner_kind,
        owner_name,
        other_owner_name,
        told_as,
        n,
    );
    lemma_alike_add(
        reference_findings(items, kind, model, other_key, machine_key, wording, n),
        reference_findings(items, kind, model, key, machine_key, wording, n),
        duplicate_findings(items, other_key, machine_key, owner_kind, other_owner_name, told_as, n),
        duplicate_findings(items, key, machine_key, owner_kind, owner_name, told_as, n),
    );
}

proof fn lemma_own_agent_lists(
    agent: Agent,
    other: Agent,
    concept: ModelConcept,
    model: Model,
    index: int,
)
    requires
        other == (Agent { id: other.id, ..agent }),
    ensures
        same_but_names(
            other.spec_reference_findings(concept, model, index),
            agent.spec_reference_findings(concept, model, index),
        ),
{
    let path = agent.spec_path(concept);
    let new_path = other.spec_path(concept);
    let machine_path = agent.spec_machine_path(concept, index);
    let kind = AgentType::spec_of(concept).spec_name();
    let name = agent.id.spec_qualified_name();
    let new = other.id.spec_qualified_name();
    let w1 = Wording { unset: "Action", missing: "Action", place: "messages" };
    let w2 = Wording { unset: "Belief", missing: "Belief", place: "messages" };
    let w3 = Wording { unset: "Message", missing: "Message", place: "messages" };
    let w4 = Wording { unset: "Goal", missing: "Message", place: "messages" };
    let w5 = Wording { unset: "Plan", missing: "Plan", place: "plans" };
    let w6 = Wording { unset: "Resource", missing: "Resource", place: "resources" };
    let w7 = Wording { unset: "Role", missing: "Role", place: "roles" };
    let w8 = Wording { unset: "Service", missing: "Service", place: "services" };
    lemma_own_list(
        agent.action_handlers@,
        Reference::Action,
        model,
        path + ".action_handlers"@,
        new_path + ".action_handlers"@,
        machine_path + ".action_handlers"@,
        w1,
        kind,
        name,
        new,
        "action_handlers"@,
    );
    lemma_own_list(
        agent.beliefs@,
        Reference::Message,
        model,
        path + ".beliefs"@,
        new_path + ".beliefs"@,
        machine_path + ".beliefs"@,
        w2,
        kind,
        name,
        new,
        "beliefsets"@,
    );
    lemma_own_list(
        agent.message_handlers@,
        Reference::Message,
        model,
        path + ".message_handlers"@,
        new_path + ".message_handlers"@,
        machine_path + ".message_handlers"@,
        w3,
        kind,
        name,
        new,
        "message_handlers"@,
    );
    lemma_own_list(
        agent.goals@,
        Reference::Goal,
        model,
        path + ".goals"@,
        new_path + ".goals"@,
        machine_path + ".goals"@,
        w4,
        kind,
        name,
        new,
        "goals"@,
    );
    lemma_own_list(
        agent.plans@,
        Reference::Plan,
        model,
        path + ".plans"@,
        new_path + ".plans"@,
        machine_path + ".plans"@,
        w5,
        kind,
        name,
        new,
        "plans"@,
    );
    lemma_own_list(
        agent.resources@,
        Reference::Resource,
        model,
        path + ".resources"@,
        new_path + ".resources"@,
        machine_path + ".resources"@,
        w6,
        kind,
        name,
        new,
        "resources"@,
    );
    lemma_own_list(
        agent.roles@,
        Reference::Role,
        model,
        path + ".roles"@,
        new_path + ".roles"@,
        machine_path + ".roles"@,
        w7,
        kind,
        name,
        new,
        "roles"@,
    );
    lemma_own_list(
        agent.services@,
        Reference::Service,
        model,
        path + ".services"@,
        new_path + ".services"@,
        machine_path + ".services"@,
        w8,
        kind,
        name,
        new,
        "services"@,
    );
    let a1 = list_findings(
        agent.action_handlers@,
        Reference::Action,
        model,
        new_path + ".action_handlers"@,
        machine_path + ".action_handlers"@,
        w1,
        kind,
        new,
        "action_handlers"@,
    );
    let a0 = list_findings(
        agent.action_handlers@,
        Reference::Action,
        model,
        path + ".action_handlers"@,
        machine_path + ".action_handlers"@,
        w1,
        kind,
        name,
        "action_handlers"@,
    );
    let b1 = list_findings(
        agent.beliefs@,
        Reference::Message,
        model,
        new_path + ".beliefs"@,
        machine_path + ".beliefs"@,
        w2,
        kind,
        new,
        "beliefsets"@,
    );
    let b0 = list_findings(
        agent.beliefs@,
        Reference::Message,
        model,
        path + ".beliefs"@,
        machine_path + ".beliefs"@,
        w2,
        kind,
        name,
        "beliefsets"@,
    );
    let c1 = list_findings(
        agent.message_handlers@,
        Reference::Message,
        model,
        new_path + ".message_handlers"@,
        machine_path + ".message_handlers"@,
        w3,
        kind,
        new,
        "message_handlers"@,
    );
    let c0 = list_findings(
        agent.message_handlers@,
        Reference::Message,
        model,
        path + ".message_handlers"@,
        machine_path + ".message_handlers"@,
        w3,
        kind,
        name,
        "message_handlers"@,
    );
    let d1 = list_findings(
        agent.goals@,
        Reference::Goal,
        model,
        new_path + ".goals"@,
        machine_path + ".goals"@,
        w4,
        kind,
        new,
        "goals"@,
    );
    let d0 = list_findings(
        agent.goals@,
        Reference::Goal,
        model,
        path + ".goals"@,
        machine_path + ".goals"@,
        w4,
        kind,
        name,
        "goals"@,
    );
    let e1 = list_findings(
        agent.plans@,
        Reference::Plan,
        model,
        new_path + ".plans"@,
        machine_path + ".plans"@,
        w5,
        kind,
        new,
        "plans"@,
    );
    let e0 = list_findings(
        agent.plans@,
        Reference::Plan,
        model,
        path + ".plans"@,
        machine_path + ".plans"@,
        w5,
        kind,
        name,
        "plans"@,
    );
    let f1 = list_findings(
        agent.resources@,
        Reference::Resource,
        model,
        new_path + ".resources"@,
        machine_path + ".resources"@,
        w6,
        kind,
        new,
        "resources"@,
    );
    let f0 = list_findings(
        agent.resources@,
        Reference::Resource,
        model,
        path + ".resources"@,
        machine_path + ".resources"@,
        w6,
        kind,
        name,
        "resources"@,
    );
    let g1 = list_findings(
        agent.roles@,
        Reference::Role,
        model,
        new_path + ".roles"@,
        machine_path + ".roles"@,
        w7,
        kind,
        new,
        "roles"@,
    );
    let g0 = list_findings(
        agent.roles@,
        Reference::Role,
        model,
        path + ".roles"@,
        machine_path + ".roles"@,
        w7,
        kind,
        name,
        "roles"@,
    );
    let h1 = list_findings(
        agent.services@,
        Reference::Service,
        model,
        new_path + ".services"@,
        machine_path + ".services"@,
        w8,
        kind,
        new,
        "services"@,
    );
    let h0 = list_findings(
        agent.services@,
        Reference::Service,
        model,
        path + ".services"@,
        machine_path + ".services"@,
        w8,
        kind,
        name,
        "services"@,
    );
    lemma_alike_add(a1, a0, b1, b0);
    lemma_alike_add(a1 + b1, a0 + b0, c1, c0);
    lemma_alike_add(a1 + b1 + c1, a0 + b0 + c0, d1, d0);
    lemma_alike_add(a1 + b1 + c1 + d1, a0 + b0 + c0 + d0, e1, e0);
    lemma_alike_add(a1 + b1 + c1 + d1 + e1, a0 + b0 + c0 + d0 + e0, f1, f0);
    lemma_alike_add(a1 + b1 + c1 + d1 + e1 + f1, a0 + b0 + c0 + d0 + e0 + f0, g1, g0);
    lemma_alike_add(
        a1 + b1 + c1 + d1 + e1 + f1 + g1,
        a0 + b0 + c0 + d0 + e0 + f0 + g0,
        h1,
        h0,
    );
}

proof fn lemma_own_agent_beliefs(
    agent: Agent,
    other: Agent,
    concept: ModelConcept,
    model: Model,
    index: int,
    i: int,
    j: int,
    n: int,
)
    requires
        other == (Agent { id: other.id, ..agent }),
    ensures
        same_but_names(
            other.spec_belief_findings(concept, model, index, i, j, n),
            agent.spec_belief_findings(concept, model, index, i, j, n),
        ),
    decreases n,
{
    if n > 0 {
        lemma_own_agent_beliefs(agent, other, concept, model, index, i, j, n - 1);
        assert(other.spec_missing_beliefs(model, i) == agent.spec_missing_beliefs(model, i));
        assert(same_but_names(
            other.spec_belief_finding(concept, model, index, i, j, n - 1),
            agent.spec_belief_finding(concept, model, index, i, j, n - 1),
        ));
        lemma_alike_add(
            other.spec_belief_findings(concept, model, index, i, j, n - 1),
            agent.spec_belief_findings(concept, model, index, i, j, n - 1),
            other.spec_belief_finding(concept, model, index, i, j, n - 1),
            agent.spec_belief_finding(concept, model, index, i, j, n - 1),
        );
    }
}

proof fn lemma_own_agent_goal_row(
    agent: Agent,
    other: Agent,
    concept: ModelConcept,
    model: Model,
    index: int,
    i: int,
    n: int,
)
    requires
        other == (Agent { id: other.id, ..agent }),
    ensures
        same_but_names(
            other.spec_goal_row(concept, model, index, i, n),
            agent.spec_goal_row(concept, model, index, i, n),
        ),
    decreases n,
{
    if n > 0 {
        lemma_own_agent_goal_row(agent, other, concept, model, index, i, n - 1);
        assert(other.spec_missing_beliefs(model, i) == agent.spec_missing_beliefs(model, i));
        let many = agent.spec_missing_beliefs(model, i).len() as int;
        lemma_own_agent_beliefs(agent, other, concept, model, index, i, n - 1, many);
        assert(same_but_names(
            other.spec_tactic_findings(concept, model, index, n - 1),
            agent.spec_tactic_findings(concept, model, index, n - 1),
        ));
        lemma_alike_add(
            other.spec_tactic_findings(concept, model, index, n - 1),
            agent.spec_tactic_findings(concept, model, index, n - 1),
            other.spec_belief_findings(concept, model, index, i, n - 1, many),
            agent.spec_belief_findings(concept, model, index, i, n - 1, many),
        );
        assert(same_but_names(
            other.spec_pursuit_findings(concept, model, index, i, n - 1),
            agent.spec_pursuit_findings(concept, model, index, i, n - 1),
        ));
        lemma_alike_add(
            other.spec_goal_row(concept, model, index, i, n - 1),
            agent.spec_goal_row(concept, model, index, i, n - 1),
            other.spec_pursuit_findings(concept, model, index, i, n - 1),
            agent.spec_pursuit_findings(concept, model, index, i, n - 1),
        );
    }
}

proof fn lemma_own_agent_goals(
    agent: Agent,
    other: Agent,
    concept: ModelConcept,
    model: Model,
    index: int,
    n: int,
)
    requires
        other == (Agent { id: other.id, ..agent }),
    ensures
        same_but_names(
            other.spec_goal_findings(concept, model, index, n),
            agent.spec_goal_findings(concept, model, index, n),
        ),
    decreases n,
{
    if n > 0 {
        lemma_own_agent_goals(agent, other, concept, model, index, n - 1);
        lemma_own_agent_goal_row(
            agent,
            other,
            concept,
            model,
            index,
            n - 1,
            agent.goals@.len() as int,
        );
        lemma_alike_add(
            other.spec_goal_findings(concept, model, index, n - 1),
            agent.spec_goal_findings(concept, model, index, n - 1),
            other.spec_goal_row(concept, model, index, n - 1, agent.goals@.len() as int),
            agent.spec_goal_row(concept, model, index, n - 1, agent.goals@.len() as int),
        );
    }
}

proof fn lemma_own_agent_actions(
    agent: Agent,
    other: Agent,
    concept: ModelConcept,
    model: Model,
    index: int,
    i: int,
    j: int,
    n: int,
)
    requires
        other == (Agent { id: other.id, ..agent }),
    ensures
        same_but_names(
            other.spec_action_findings(concept, model, index, i, j, n),
            agent.spec_action_findings(concept, model, index, i, j, n),
        ),
    decreases n,
{
    if n > 0 {
        lemma_own_agent_actions(agent, other, concept, model, index, i, j, n - 1);
        assert(other.spec_missing_actions(model, i) == agent.spec_missing_actions(model, i));
        assert(same_but_names(
            other.spec_action_finding(concept, model, index, i, j, n - 1),
            agent.spec_action_finding(concept, model, index, i, j, n - 1),
        ));
        lemma_alike_add(
            other.spec_action_findings(concept, model, index, i, j, n - 1),
            agent.spec_action_findings(concept, model, index, i, j, n - 1),
            other.spec_action_finding(concept, model, index, i, j, n - 1),
            agent.spec_action_finding(concept, model, index, i, j, n - 1),
        );
    }
}

proof fn lemma_own_agent_plan_row(
    agent: Agent,
    other: Agent,
    concept: ModelConcept,
    model: Model,
    index: int,
    i: int,
    n: int,
)
    requires
        other == (Agent { id: other.id, ..agent }),
    ensures
        same_but_names(
            other.spec_plan_row(concept, model, index, i, n),
            agent.spec_plan_row(concept, model, index, i, n),
        ),
    decreases n,
{
    if n > 0 {
        lemma_own_agent_plan_row(agent, other, concept, model, index, i, n - 1);
        assert(other.spec_missing_actions(model, i) == agent.spec_missing_actions(model, i));
        let many = agent.spec_missing_actions(model, i).len() as int;
        lemma_own_agent_actions(agent, other, concept, model, index, i, n - 1, many);
        let now = if model.plans@[i].id.uuid@ == agent.plans@[n - 1].uuid@ {
            other.spec_action_findings(concept, model, index, i, n - 1, many)
        } else {
            Seq::empty()
        };
        let then = if model.plans@[i].id.uuid@ == agent.plans@[n - 1].uuid@ {
            agent.spec_action_findings(concept, model, index, i, n - 1, many)
        } else {
            Seq::empty()
        };
        lemma_alike_add(
            other.spec_plan_row(concept, model, index, i, n - 1),
            agent.spec_plan_row(concept, model, index, i, n - 1),
            now,
            then,
        );
    }
}

proof fn lemma_own_agent_plans(
    agent: Agent,
    other: Agent,
    concept: ModelConcept,
    model: Model,
    index: int,
    n: int,
)
    requires
        other == (Agent { id: other.id, ..agent }),
    ensures
        same_but_names(
            other.spec_plan_findings(concept, model, index, n),
            agent.spec_plan_findings(concept, model, index, n),
        ),
    decreases n,
{
    if n > 0 {
        lemma_own_agent_plans(agent, other, concept, model, index, n - 1);
        lemma_own_agent_plan_row(
            agent,
            other,
            concept,
            model,
            index,
            n - 1,
            agent.plans@.len() as int,
        );
        lemma_alike_add(
            other.spec_plan_findings(concept, model, index, n - 1),
            agent.spec_plan_findings(concept, model, index, n - 1),
            other.spec_plan_row(concept, model, index, n - 1, agent.plans@.len() as int),
            agent.spec_plan_row(concept, model, index, n - 1, agent.plans@.len() as int),
        );
    }
}

proof fn lemma_own_agent_resources(
    agent: Agent,
    other: Agent,
    concept: ModelConcept,
    model: Model,
    index: int,
    i: int,
    j: int,
    n: int,
)
    requires
        other == (Agent { id: other.id, ..agent }),
    ensures
        same_but_names(
            other.spec_resource_findings(concept, model, index, i, j, n),
            agent.spec_resource_findings(concept, model, index, i, j, n),
        ),
    decreases n,
{
    if n > 0 {
        lemma_own_agent_resources(agent, other, concept, model, index, i, j, n - 1);
        assert(other.spec_missing_resources(model, i) == agent.spec_missing_resources(model, i));
        assert(same_but_names(
            other.spec_resource_finding(concept, model, index, i, j, n - 1),
            agent.spec_resource_finding(concept, model, index, i, j, n - 1),
        ));
        lemma_alike_add(
            other.spec_resource_findings(concept, model, index, i, j, n - 1),
            agent.spec_resource_findings(concept, model, index, i, j, n - 1),
            other.spec_resource_finding(concept, model, index, i, j, n - 1),
            agent.spec_resource_finding(concept, model, index, i, j, n - 1),
        );
    }
}

proof fn lemma_own_agent_resource_row(
    agent: Agent,
    other: Agent,
    concept: ModelConcept,
    model: Model,
    index: int,
    j: int,
    n: int,
)
    requires
        other == (Agent { id: other.id, ..agent }),
    ensures
        same_but_names(
            other.spec_resource_row(concept, model, index, j, n),
            agent.spec_resource_row(concept, model, index, j, n),
        ),
    decreases n,
{
    if n > 0 {
        lemma_own_agent_resource_row(agent, other, concept, model, index, j, n - 1);
        assert(other.spec_missing_resources(model, n - 1) == agent.spec_missing_resources(
            model,
            n - 1,
        ));
        let many = agent.spec_missing_resources(model, n - 1).len() as int;
        lemma_own_agent_resources(agent, other, concept, model, index, n - 1, j, many);
        let now = if model.goals@[n - 1].id.uuid@ == agent.goals@[j].id.uuid@ {
            other.spec_resource_findings(concept, model, index, n - 1, j, many)
        } else {
            Seq::empty()
        };
        let then = if model.goals@[n - 1].id.uuid@ == agent.goals@[j].id.uuid@ {
            agent.spec_resource_findings(concept, model, index, n - 1, j, many)
        } else {
            Seq::empty()
        };
        lemma_alike_add(
            other.spec_resource_row(concept, model, index, j, n - 1),
            agent.spec_resource_row(concept, model, index, j, n - 1),
            now,
            then,
        );
    }
}

proof fn lemma_own_agent_requirements(
    agent: Agent,
    other: Agent,
    concept: ModelConcept,
    model: Model,
    index: int,
    n: int,
)
    requires
        other == (Agent { id: other.id, ..agent }),
    ensures
        same_but_names(
            other.spec_requirement_findings(concept, model, index, n),
            agent.spec_requirement_findings(concept, model, index, n),
        ),
    decreases n,
{
    if n > 0 {
        lemma_own_agent_requirements(agent, other, concept, model, index, n - 1);
        lemma_own_agent_resource_row(
            agent,
            other,
            concept,
            model,
            index,
            n - 1,
            model.goals@.len() as int,
        );
        lemma_alike_add(
            other.spec_requirement_findings(concept, model, index, n - 1),
            agent.spec_requirement_findings(concept, model, index, n - 1),
            other.spec_resource_row(concept, model, index, n - 1, model.goals@.len() as int),
            agent.spec_resource_row(concept, model, index, n - 1, model.goals@.len() as int),
        );
    }
}

proof fn lemma_own_agent(
    agent: Agent,
    other: Agent,
    concept: ModelConcept,
    model: Model,
    workspace: Seq<Model>,
    index: int,
)
    requires
        other == (Agent { id: other.id, ..agent }),
    ensures
        same_but_names(
            other.spec_verify(concept, model, workspace, index),
            agent.spec_verify(concept, model, workspace, index),
        ),
{
    lemma_own_agent_lists(agent, other, concept, model, index);
    lemma_own_agent_goals(agent, other, concept, model, index, model.goals@.len() as int);
    lemma_own_agent_plans(agent, other, concept, model, index, model.plans@.len() as int);
    lemma_own_agent_requirements(agent, other, concept, model, index, agent.goals@.len() as int);
    let a1 = other.spec_reference_findings(concept, model, index);
    let a0 = agent.spec_reference_findings(concept, model, index);
    let b1 = other.spec_goal_findings(concept, model, index, model.goals@.len() as int);
    let b0 = agent.spec_goal_findings(concept, model, index, model.goals@.len() as int);
    let c1 = other.spec_plan_findings(concept, model, index, model.plans@.len() as int);
    let c0 = agent.spec_plan_findings(concept, model, index, model.plans@.len() as int);
    let d1 = other.spec_requirement_findings(concept, model, index, agent.goals@.len() as int);
    let d0 = agent.spec_requirement_findings(concept, model, index, agent.goals@.len() as int);
    lemma_alike_add(a1, a0, b1, b0);
    lemma_alike_add(a1 + b1, a0 + b0, c1, c0);
    lemma_alike_add(a1 + b1 + c1, a0 + b0 + c0, d1, d0);
}

/// Whether two workspaces hold modules with the same identities, module by
/// module.
pub open spec fn workspaces_alike(before: Seq<Model>, after: Seq<Model>) -> bool {
    &&& before.len() == after.len()
    &&& forall|i: int| 0 <= i < before.len() ==> same_identities(#[trigger] before[i], after[i])
}

/// A declaration that can be renamed.
pub trait Renamed: Checked + Sized {
    /// Whether `after` is this declaration under another name: the same
    /// record but for the name, and the module, in its identifier.
    spec fn spec_renamed(&self, after: Self) -> bool;

    /// A renamed declaration in a module whose declarations were renamed
    /// has the findings it had, but for the names in them.
    proof fn renaming_keeps_findings(
        &self,
        after: Self,
        concept: ModelConcept,
        model: Model,
        renamed_model: Model,
        workspace: Seq<Model>,
        renamed_workspace: Seq<Model>,
        index: int,
    )
        requires
            self.spec_renamed(after),
            renamed(model, renamed_model),
            workspaces_alike(workspace, renamed_workspace),
        ensures
            after.spec_id().uuid@ == self.spec_id().uuid@,
            same_but_names(
                after.spec_verify(concept, renamed_model, renamed_workspace, index),
                self.spec_verify(concept, model, workspace, index),
            ),
    ;
}

impl Renamed for Agent {
    open spec fn spec_renamed(&self, after: Self) -> bool {
        after.id.uuid@ == self.id.uuid@ && after == (Agent { id: after.id, ..*self })
    }

    proof fn renaming_keeps_findings(
        &self,
        after: Self,
        concept: ModelConcept,
        model: Model,
        renamed_model: Model,
        workspace: Seq<Model>,
        renamed_workspace: Seq<Model>,
        index: int,
    ) {
        lemma_own_agent(*self, after, concept, model, workspace, index);
        agent_keeps_its_findings(after, concept, model, renamed_model, workspace, index);
        lemma_alike_chain(
            after.spec_verify(concept, renamed_model, renamed_workspace, index),
            after.spec_verify(concept, model, workspace, index),
            self.spec_verify(concept, model, workspace, index),
        );
    }
}

impl Renamed for Message {
    open spec fn spec_renamed(&self, after: Self) -> bool {
        after.id.uuid@ == self.id.uuid@ && after == (Message { id: after.id, ..*self })
    }

    proof fn renaming_keeps_findings(
        &self,
        after: Self,
        concept: ModelConcept,
        model: Model,
        renamed_model: Model,
        workspace: Seq<Model>,
        renamed_workspace: Seq<Model>,
        index: int,
    ) {
        lemma_own_message_fields(*self, after, workspace, index, self.fields@.len() as int);
        message_keeps_its_findings(
            after,
            concept,
            model,
            renamed_model,
            workspace,
            renamed_workspace,
            index,
        );
    }
}

impl Renamed for Goal {
    open spec fn spec_renamed(&self, after: Self) -> bool {
        after.id.uuid@ == self.id.uuid@ && after == (Goal { id: after.id, ..*self })
    }

    proof fn renaming_keeps_findings(
        &self,
        after: Self,
        concept: ModelConcept,
        model: Model,
        renamed_model: Model,
        workspace: Seq<Model>,
        renamed_workspace: Seq<Model>,
        index: int,
    ) {
        lemma_own_goal(*self, after, concept, model, workspace, index);
        goal_keeps_its_findings(after, concept, model, renamed_model, workspace, index);
    }
}

impl Renamed for Plan {
    open spec fn spec_renamed(&self, after: Self) -> bool {
        after.id.uuid@ == self.id.uuid@ && after == (Plan { id: after.id, ..*self })
    }

    proof fn renaming_keeps_findings(
        &self,
        after: Self,
        concept: ModelConcept,
        model: Model,
        renamed_model: Model,
        workspace: Seq<Model>,
        renamed_workspace: Seq<Model>,
        index: int,
    ) {
        lemma_own_plan(*self, after, concept, model, workspace, index);
        plan_keeps_its_findings(after, concept, model, renamed_model, workspace, index);
    }
}

impl Renamed for Role {
    open spec fn spec_renamed(&self, after: Self) -> bool {
        after.id.uuid@ == self.id.uuid@ && after == (Role { id: after.id, ..*self })
    }

    proof fn renaming_keeps_findings(
        &self,
        after: Self,
        concept: ModelConcept,
        model: Model,
        renamed_model: Model,
        workspace: Seq<Model>,
        renamed_workspace: Seq<Model>,
        index: int,
    ) {
        lemma_own_role(*self, after, concept, model, workspace, index);
        role_keeps_its_findings(after, concept, model, renamed_model, workspace, index);
    }
}

impl Renamed for Resource {
    open spec fn spec_renamed(&self, after: Self) -> bool {
        after.id.uuid@ == self.id.uuid@ && after == (Resource { id: after.id, ..*self })
    }

    proof fn renaming_keeps_findings(
        &self,
        after: Self,
        concept: ModelConcept,
        model: Model,
        renamed_model: Model,
        workspace: Seq<Model>,
        renamed_workspace: Seq<Model>,
        index: int,
    ) {
    }
}

impl Renamed for Tactic {
    open spec fn spec_renamed(&self, after: Self) -> bool {
        after.id.uuid@ == self.id.uuid@ && after == (Tactic { id: after.id, ..*self })
    }

    proof fn renaming_keeps_findings(
        &self,
        after: Self,
        concept: ModelConcept,
        model: Model,
        renamed_model: Model,
        workspace: Seq<Model>,
        renamed_workspace: Seq<Model>,
        index: int,
    ) {
        lemma_own_tactic(*self, after, concept, model, workspace, index);
        tactic_keeps_its_findings(after, concept, model, renamed_model, workspace, index);
    }
}

impl Renamed for Action {
    open spec fn spec_renamed(&self, after: Self) -> bool {
        after.id.uuid@ == self.id.uuid@ && after == (Action { id: after.id, ..*self })
    }

    proof fn renaming_keeps_findings(
        &self,
        after: Self,
        concept: ModelConcept,
        model: Model,
        renamed_model: Model,
        workspace: Seq<Model>,
        renamed_workspace: Seq<Model>,
        index: int,
    ) {
        assert(same_but_names(
            after.spec_message_findings(model, index, self.request, "request"@),
            self.spec_message_findings(model, index, self.request, "request"@),
        ));
        assert(same_but_names(
            after.spec_message_findings(model, index, self.reply, "reply"@),
            self.spec_message_findings(model, index, self.reply, "reply"@),
        ));
        lemma_alike_add(
            after.spec_message_findings(model, index, self.request, "request"@),
            self.spec_message_findings(model, index, self.request, "request"@),
            after.spec_message_findings(model, index, self.reply, "reply"@),
            self.spec_message_findings(model, index, self.reply, "reply"@),
        );
        action_keeps_its_findings(after, concept, model, renamed_model, workspace, index);
    }
}

impl Renamed for Service {
    open spec fn spec_renamed(&self, after: Self) -> bool {
        after.id.uuid@ == self.id.uuid@ && after == (Service { id: after.id, ..*self })
    }

    proof fn renaming_keeps_findings(
        &self,
        after: Self,
        concept: ModelConcept,
        model: Model,
        renamed_model: Model,
        workspace: Seq<Model>,
        renamed_workspace: Seq<Model>,
        index: int,
    ) {
    }
}

impl Renamed for Enum {
    open spec fn spec_renamed(&self, after: Self) -> bool {
        after.id.uuid@ == self.id.uuid@ && after == (Enum { id: after.id, ..*self })
    }

    proof fn renaming_keeps_findings(
        &self,
        after: Self,
        concept: ModelConcept,
        model: Model,
        renamed_model: Model,
        workspace: Seq<Model>,
        renamed_workspace: Seq<Model>,
        index: int,
    ) {
        lemma_own_enum_fields(*self, after, index, self.fields@.len() as int);
    }
}

impl Renamed for Event {
    open spec fn spec_renamed(&self, after: Self) -> bool {
        after.id.uuid@ == self.id.uuid@ && after == (Event { id: after.id, ..*self })
    }

    proof fn renaming_keeps_findings(
        &self,
        after: Self,
        concept: ModelConcept,
        model: Model,
        renamed_model: Model,
        workspace: Seq<Model>,
        renamed_workspace: Seq<Model>,
        index: int,
    ) {
        lemma_own_event_presets(*self, after, model, index, self.message.defaults@.len() as int);
        assert(after.spec_message_resolves(model) == self.spec_message_resolves(model));
        assert(
            same_but_names(seq![after.spec_no_message(index)], seq![self.spec_no_message(index)])
        );
        event_keeps_its_findings(after, concept, model, renamed_model, workspace, index);
    }
}

/// Whether a finding of this kind can come of a name: of one that is
/// empty, stands for the kind itself, or is given twice.
pub open spec fn comes_of_a_name(error_type: ErrorType) -> bool {
    error_type == ErrorType::ZeroSizeString || error_type == ErrorType::NameSameAsType
        || error_type == ErrorType::DuplicateName
}

/// Those of the first `n` findings that do not come of a name, in order.
pub open spec fn not_of_names(errors: Seq<ModelErrorView>, n: int) -> Seq<ModelErrorView>
    decreases n,
{
    if n <= 0 {
        Seq::empty()
    } else if comes_of_a_name(errors[n - 1].error_type) {
        not_of_names(errors, n - 1)
    } else {
        not_of_names(errors, n - 1).push(errors[n - 1])
    }
}

/// The findings of a report that do not come of a name, in order.
pub open spec fn beside_names(errors: Seq<ModelErrorView>) -> Seq<ModelErrorView> {
    not_of_names(errors, errors.len() as int)
}

proof fn lemma_beside_start(first: Seq<ModelErrorView>, second: Seq<ModelErrorView>, n: int)
    requires
        0 <= n <= first.len(),
    ensures
        not_of_names(first + second, n) == not_of_names(first, n),
    decreases n,
{
    if n > 0 {
        lemma_beside_start(first, second, n - 1);
        assert((first + second)[n - 1] == first[n - 1]);
    }
}

proof fn lemma_beside_rest(first: Seq<ModelErrorView>, second: Seq<ModelErrorView>, n: int)
    requires
        0 <= n <= second.len(),
    ensures
        not_of_names(first + second, first.len() + n) == beside_names(first) + not_of_names(
            second,
            n,
        ),
    decreases n,
{
    if n > 0 {
        lemma_beside_rest(first, second, n - 1);
        assert((first + second)[first.len() + n - 1] == second[n - 1]);
        assert(not_of_names(first + second, first.len() + n) =~= beside_names(first)
            + not_of_names(second, n));
    } else {
        lemma_beside_start(first, second, first.len() as int);
        assert(beside_names(first) + not_of_names(second, 0) =~= beside_names(first));
    }
}

/// Leaving out what comes of names goes through concatenation.
pub proof fn lemma_beside_add(first: Seq<ModelErrorView>, second: Seq<ModelErrorView>)
    ensures
        beside_names(first + second) == beside_names(first) + beside_names(second),
{
    lemma_beside_rest(first, second, second.len() as int);
}

proof fn lemma_beside_alike(first: Seq<ModelErrorView>, second: Seq<ModelErrorView>, n: int)
    requires
        same_but_names(first, second),
        0 <= n <= first.len(),
    ensures
        same_but_names(not_of_names(first, n), not_of_names(second, n)),
    decreases n,
{
    if n > 0 {
        lemma_beside_alike(first, second, n - 1);
        assert(first[n - 1].error_type == second[n - 1].error_type);
    }
}

proof fn lemma_beside_none(errors: Seq<ModelErrorView>, n: int)
    requires
        0 <= n <= errors.len(),
        forall|i: int| 0 <= i < errors.len() ==> comes_of_a_name((#[trigger] errors[i]).error_type),
    ensures
        not_of_names(errors, n) == Seq::<ModelErrorView>::empty(),
    decreases n,
{
    if n > 0 {
        lemma_beside_none(errors, n - 1);
    }
}

/// The checks that every declaration gets find nothing but what comes of
/// a name or of an identity.
proof fn lemma_beside_declaration(
    concept: ModelConcept,
    seen: Seq<Declaration>,
    id: Identifier,
    index: int,
)
    ensures
        beside_names(declaration_findings(concept, seen, id, index)) == Seq::<
            ModelErrorView,
        >::empty(),
{
    let key = concept.spec_error_key();
    let kind = concept.spec_reserved_name();
    let a = unnamed_findings(key, kind, id, index);
    let b = unidentified_findings(key, kind, id, index);
    let c = reserved_findings(key, kind, id, index);
    let d = same_name_findings(key, kind, seen, id, index);
    let e = same_identity_findings(key, kind, seen, id, index);
    lemma_beside_none(a, a.len() as int);
    lemma_beside_none(b, b.len() as int);
    lemma_beside_none(c, c.len() as int);
    lemma_beside_none(d, d.len() as int);
    lemma_beside_none(e, e.len() as int);
    lemma_beside_add(a, b);
    lemma_beside_add(a + b, c);
    lemma_beside_add(a + b + c, d);
    lemma_beside_add(a + b + c + d, e);
    assert(beside_names(a + b + c + d + e) =~= Seq::<ModelErrorView>::empty());
}

proof fn lemma_beside_step(
    first: Seq<ModelErrorView>,
    second: Seq<ModelErrorView>,
    more_first: Seq<ModelErrorView>,
    more_second: Seq<ModelErrorView>,
)
    requires
        same_but_names(beside_names(first), beside_names(second)),
        same_but_names(beside_names(more_first), beside_names(more_second)),
    ensures
        same_but_names(beside_names(first + more_first), beside_names(second + more_second)),
{
    lemma_beside_add(first, more_first);
    lemma_beside_add(second, more_second);
    lemma_alike_add(
        beside_names(first),
        beside_names(second),
        beside_names(more_first),
        beside_names(more_second),
    );
}

/// Whether `after` holds the declarations of `before`, each under another
/// name.
pub open spec fn all_renamed<T: Renamed>(before: Seq<T>, after: Seq<T>) -> bool {
    &&& before.len() == after.len()
    &&& forall|i: int| 0 <= i < before.len() ==> (#[trigger] before[i]).spec_renamed(after[i])
}

proof fn lemma_same_ids<T: Renamed>(before: Seq<T>, after: Seq<T>)
    requires
        before.len() == after.len(),
        forall|i: int|
            0 <= i < before.len() ==> (#[trigger] after[i]).spec_id().uuid@
                == before[i].spec_id().uuid@,
    ensures
        identities(before) == identities(after),
{
    assert(identities(before) =~= identities(after));
}

proof fn lemma_concept<T: Renamed>(
    before: Seq<T>,
    after: Seq<T>,
    concept: ModelConcept,
    earlier: Seq<Declaration>,
    renamed_earlier: Seq<Declaration>,
    model: Model,
    renamed_model: Model,
    workspace: Seq<Model>,
    renamed_workspace: Seq<Model>,
    n: int,
)
    requires
        all_renamed(before, after),
        renamed(model, renamed_model),
        workspaces_alike(workspace, renamed_workspace),
        0 <= n <= before.len(),
    ensures
        same_but_names(
            beside_names(
                concept_findings(
                    after,
                    concept,
                    renamed_earlier,
                    renamed_model,
                    renamed_workspace,
                    n,
                ),
            ),
            beside_names(concept_findings(before, concept, earlier, model, workspace, n)),
        ),
    decreases n,
{
    if n > 0 {
        lemma_concept(
            before,
            after,
            concept,
            earlier,
            renamed_earlier,
            model,
            renamed_model,
            workspace,
            renamed_workspace,
            n - 1,
        );
        let was = concept_findings(before, concept, earlier, model, workspace, n - 1);
        let is = concept_findings(
            after,
            concept,
            renamed_earlier,
            renamed_model,
            renamed_workspace,
            n - 1,
        );
        let general_was = declaration_findings(
            concept,
            earlier + declarations(concept, before).take(n - 1),
            before[n - 1].spec_id(),
            n - 1,
        );
        let general_is = declaration_findings(
            concept,
            renamed_earlier + declarations(concept, after).take(n - 1),
            after[n - 1].spec_id(),
            n - 1,
        );
        let own_was = before[n - 1].spec_verify(concept, model, workspace, n - 1);
        let own_is = after[n - 1].spec_verify(concept, renamed_model, renamed_workspace, n - 1);
        lemma_beside_declaration(
            concept,
            earlier + declarations(concept, before).take(n - 1),
            before[n - 1].spec_id(),
            n - 1,
        );
        lemma_beside_declaration(
            concept,
            renamed_earlier + declarations(concept, after).take(n - 1),
            after[n - 1].spec_id(),
            n - 1,
        );
        before[n - 1].renaming_keeps_findings(
            after[n - 1],
            concept,
            model,
            renamed_model,
            workspace,
            renamed_workspace,
            n - 1,
        );
        lemma_beside_alike(own_is, own_was, own_is.len() as int);
        lemma_beside_step(is, was, general_is, general_was);
        lemma_beside_step(is + general_is, was + general_was, own_is, own_was);
    }
}

/// Whether `after` is the module `before` with declarations renamed: the
/// same project, and in every collection the same declarations in the
/// same places, each under its name of before or another. The identifiers
/// by which records refer to one another stand as they stood.
pub open spec fn renamed_throughout(before: Model, after: Model) -> bool {
    &&& after.project == before.project
    &&& identities(after.entities@) == identities(before.entities@)
    &&& all_renamed(before.teams@, after.teams@)
    &&& all_renamed(before.agents@, after.agents@)
    &&& all_renamed(before.messages@, after.messages@)
    &&& all_renamed(before.goals@, after.goals@)
    &&& all_renamed(before.plans@, after.plans@)
    &&& all_renamed(before.roles@, after.roles@)
    &&& all_renamed(before.resources@, after.resources@)
    &&& all_renamed(before.tactics@, after.tactics@)
    &&& all_renamed(before.actions@, after.actions@)
    &&& all_renamed(before.services@, after.services@)
    &&& all_renamed(before.enums@, after.enums@)
    &&& all_renamed(before.events@, after.events@)
}

/// A module with declarations renamed resolves every reference as before.
pub proof fn lemma_renamed_throughout(before: Model, after: Model)
    requires
        renamed_throughout(before, after),
    ensures
        renamed(before, after),
{
    lemma_same_ids(before.teams@, after.teams@);
    lemma_same_ids(before.agents@, after.agents@);
    lemma_same_ids(before.messages@, after.messages@);
    lemma_same_ids(before.goals@, after.goals@);
    lemma_same_ids(before.plans@, after.plans@);
    lemma_same_ids(before.roles@, after.roles@);
    lemma_same_ids(before.resources@, after.resources@);
    lemma_same_ids(before.tactics@, after.tactics@);
    lemma_same_ids(before.actions@, after.actions@);
    lemma_same_ids(before.services@, after.services@);
    lemma_same_ids(before.enums@, after.enums@);
    lemma_same_ids(before.events@, after.events@);
}

/// Identity against name, over the whole report of a module: where
/// declarations are renamed and keep their identities, the findings that
/// do not come of a name are what they were, as many and in the same
/// order, each of the same kind and at the same place by position. So no
/// reference breaks, and none is mended; what a renaming can bring or
/// take away is a finding on an empty name, on a name that stands for the
/// kind, or on a name given twice.
pub proof fn renaming_changes_only_findings_on_names(
    before: Model,
    after: Model,
    workspace: Seq<Model>,
    renamed_workspace: Seq<Model>,
)
    requires
        renamed_throughout(before, after),
        workspaces_alike(workspace, renamed_workspace),
    ensures
        same_but_names(
            beside_names(after.spec_verify(renamed_workspace)),
            beside_names(before.spec_verify(workspace)),
        ),
{
    lemma_renamed_throughout(before, after);
    let p0 = before.project.spec_verify();
    lemma_alike_same(beside_names(p0));
    let e0 = Seq::<Declaration>::empty();
    let r0 = Seq::<Declaration>::empty();
    let b0 = concept_findings(
        before.teams@,
        ModelConcept::Team,
        e0,
        before,
        workspace,
        before.teams@.len() as int,
    );
    let a0 = concept_findings(
        after.teams@,
        ModelConcept::Team,
        r0,
        after,
        renamed_workspace,
        after.teams@.len() as int,
    );
    lemma_concept(
        before.teams@,
        after.teams@,
        ModelConcept::Team,
        e0,
        r0,
        before,
        after,
        workspace,
        renamed_workspace,
        before.teams@.len() as int,
    );
    lemma_beside_step(p0, p0, a0, b0);
    let e1 = declarations(ModelConcept::Team, before.teams@);
    let r1 = declarations(ModelConcept::Team, after.teams@);
    let b1 = concept_findings(
        before.agents@,
        ModelConcept::Agent,
        e1,
        before,
        workspace,
        before.agents@.len() as int,
    );
    let a1 = concept_findings(
        after.agents@,
        ModelConcept::Agent,
        r1,
        after,
        renamed_workspace,
        after.agents@.len() as int,
    );
    lemma_concept(
        before.agents@,
        after.agents@,
        ModelConcept::Agent,
        e1,
        r1,
        before,
        after,
        workspace,
        renamed_workspace,
        before.agents@.len() as int,
    );
    lemma_beside_step(p0 + a0, p0 + b0, a1, b1);
    let e2 = e1 + declarations(ModelConcept::Agent, before.agents@);
    let r2 = r1 + declarations(ModelConcept::Agent, after.agents@);
    let b2 = concept_findings(
        before.messages@,
        ModelConcept::Message,
        e2,
        before,
        workspace,
        before.messages@.len() as int,
    );
    let a2 = concept_findings(
        after.messages@,
        ModelConcept::Message,
        r2,
        after,
        renamed_workspace,
        after.messages@.len() as int,
    );
    lemma_concept(
        before.messages@,
        after.messages@,
        ModelConcept::Message,
        e2,
        r2,
        before,
        after,
        workspace,
        renamed_workspace,
        before.messages@.len() as int,
    );
    lemma_beside_step(p0 + a0 + a1, p0 + b0 + b1, a2, b2);
    let e3 = e2 + declarations(ModelConcept::Message, before.messages@);
    let r3 = r2 + declarations(ModelConcept::Message, after.messages@);
    let b3 = concept_findings(
        before.goals@,
        ModelConcept::Goal,
        e3,
        before,
        workspace,
        before.goals@.len() as int,
    );
    let a3 = concept_findings(
        after.goals@,
        ModelConcept::Goal,
        r3,
        after,
        renamed_workspace,
        after.goals@.len() as int,
    );
    lemma_concept(
        before.goals@,
        after.goals@,
        ModelConcept::Goal,
        e3,
        r3,
        before,
        after,
        workspace,
        renamed_workspace,
        before.goals@.len() as int,
    );
    lemma_beside_step(p0 + a0 + a1 + a2, p0 + b0 + b1 + b2, a3, b3);
    let e4 = e3 + declarations(ModelConcept::Goal, before.goals@);
    let r4 = r3 + declarations(ModelConcept::Goal, after.goals@);
    let b4 = concept_findings(
        before.plans@,
        ModelConcept::Plan,
        e4,
        before,
        workspace,
        before.plans@.len() as int,
    );
    let a4 = concept_findings(
        after.plans@,
        ModelConcept::Plan,
        r4,
        after,
        renamed_workspace,
        after.plans@.len() as int,
    );
    lemma_concept(
        before.plans@,
        after.plans@,
        ModelConcept::Plan,
        e4,
        r4,
        before,
        after,
        workspace,
        renamed_workspace,
        before.plans@.len() as int,
    );
    lemma_beside_step(p0 + a0 + a1 + a2 + a3, p0 + b0 + b1 + b2 + b3, a4, b4);
    let e5 = e4 + declarations(ModelConcept::Plan, before.plans@);
    let r5 = r4 + declarations(ModelConcept::Plan, after.plans@);
    let b5 = concept_findings(
        before.roles@,
        ModelConcept::Role,
        e5,
        before,
        workspace,
        before.roles@.len() as int,
    );
    let a5 = concept_findings(
        after.roles@,
        ModelConcept::Role,
        r5,
        after,
        renamed_workspace,
        after.roles@.len() as int,
    );
    lemma_concept(
        before.roles@,
        after.roles@,
        ModelConcept::Role,
        e5,
        r5,
        before,
        after,
        workspace,
        renamed_workspace,
        before.roles@.len() as int,
    );
    lemma_beside_step(p0 + a0 + a1 + a2 + a3 + a4, p0 + b0 + b1 + b2 + b3 + b4, a5, b5);
    let e6 = e5 + declarations(ModelConcept::Role, before.roles@);
    let r6 = r5 + declarations(ModelConcept::Role, after.roles@);
    let b6 = concept_findings(
        before.resources@,
        ModelConcept::Resource,
        e6,
        before,
        workspace,
        before.resources@.len() as int,
    );
    let a6 = concept_findings(
        after.resources@,
        ModelConcept::Resource,
        r6,
        after,
        renamed_workspace,
        after.resources@.len() as int,
    );
    lemma_concept(
        before.resources@,
        after.resources@,
        ModelConcept::Resource,
        e6,
        r6,
        before,
        after,
        workspace,
        renamed_workspace,
        before.resources@.len() as int,
    );
    lemma_beside_step(p0 + a0 + a1 + a2 + a3 + a4 + a5, p0 + b0 + b1 + b2 + b3 + b4 + b5, a6, b6);
    let e7 = e6 + declarations(ModelConcept::Resource, before.resources@);
    let r7 = r6 + declarations(ModelConcept::Resource, after.resources@);
    let b7 = concept_findings(
        before.tactics@,
        ModelConcept::Tactic,
        e7,
        before,
        workspace,
        before.tactics@.len() as int,
    );
    let a7 = concept_findings(
        after.tactics@,
        ModelConcept::Tactic,
        r7,
        after,
        renamed_workspace,
        after.tactics@.len() as int,
    );
    lemma_concept(
        before.tactics@,
        after.tactics@,
        ModelConcept::Tactic,
        e7,
        r7,
        before,
        after,
        workspace,
        renamed_workspace,
        before.tactics@.len() as int,
    );
    lemma_beside_step(
        p0 + a0 + a1 + a2 + a3 + a4 + a5 + a6,
        p0 + b0 + b1 + b2 + b3 + b4 + b5 + b6,
        a7,
        b7,
    );
    let e8 = e7 + declarations(ModelConcept::Tactic, before.tactics@);
    let r8 = r7 + declarations(ModelConcept::Tactic, after.tactics@);
    let b8 = concept_findings(
        before.actions@,
        ModelConcept::Action,
        e8,
        before,
        workspace,
        before.actions@.len() as int,
    );
    let a8 = concept_findings(
        after.actions@,
        ModelConcept::Action,
        r8,
        after,
        renamed_workspace,
        after.actions@.len() as int,
    );
    lemma_concept(
        before.actions@,
        after.actions@,
        ModelConcept::Action,
        e8,
        r8,
        before,
        after,
        workspace,
        renamed_workspace,
        before.actions@.len() as int,
    );
    lemma_beside_step(
        p0 + a0 + a1 + a2 + a3 + a4 + a5 + a6 + a7,
        p0 + b0 + b1 + b2 + b3 + b4 + b5 + b6 + b7,
        a8,
        b8,
    );
    let e9 = e8 + declarations(ModelConcept::Action, before.actions@);
    let r9 = r8 + declarations(ModelConcept::Action, after.actions@);
    let b9 = concept_findings(
        before.services@,
        ModelConcept::Service,
        e9,
        before,
        workspace,
        before.services@.len() as int,
    );
    let a9 = concept_findings(
        after.services@,
        ModelConcept::Service,
        r9,
        after,
        renamed_workspace,
        after.services@.len() as int,
    );
    lemma_concept(
        before.services@,
        after.services@,
        ModelConcept::Service,
        e9,
        r9,
        before,
        after,
        workspace,
        renamed_workspace,
        before.services@.len() as int,
    );
    lemma_beside_step(
        p0 + a0 + a1 + a2 + a3 + a4 + a5 + a6 + a7 + a8,
        p0 + b0 + b1 + b2 + b3 + b4 + b5 + b6 + b7 + b8,
        a9,
        b9,
    );
    let e10 = e9 + declarations(ModelConcept::Service, before.services@);
    let r10 = r9 + declarations(ModelConcept::Service, after.services@);
    let b10 = concept_findings(
        before.enums@,
        ModelConcept::Enum,
        e10,
        before,
        workspace,
        before.enums@.len() as int,
    );
    let a10 = concept_findings(
        after.enums@,
        ModelConcept::Enum,
        r10,
        after,
        renamed_workspace,
        after.enums@.len() as int,
    );
    lemma_concept(
        before.enums@,
        after.enums@,
        ModelConcept::Enum,
        e10,
        r10,
        before,
        after,
        workspace,
        renamed_workspace,
        before.enums@.len() as int,
    );
    lemma_beside_step(
        p0 + a0 + a1 + a2 + a3 + a4 + a5 + a6 + a7 + a8 + a9,
        p0 + b0 + b1 + b2 + b3 + b4 + b5 + b6 + b7 + b8 + b9,
        a10,
        b10,
    );
    let e11 = e10 + declarations(ModelConcept::Enum, before.enums@);
    let r11 = r10 + declarations(ModelConcept::Enum, after.enums@);
    let b11 = concept_findings(
        before.events@,
        ModelConcept::Event,
        e11,
        before,
        workspace,
        before.events@.len() as int,
    );
    let a11 = concept_findings(
        after.events@,
        ModelConcept::Event,
        r11,
        after,
        renamed_workspace,
        after.events@.len() as int,
    );
    lemma_concept(
        before.events@,
        after.events@,
        ModelConcept::Event,
        e11,
        r11,
        before,
        after,
        workspace,
        renamed_workspace,
        before.events@.len() as int,
    );
    lemma_beside_step(
        p0 + a0 + a1 + a2 + a3 + a4 + a5 + a6 + a7 + a8 + a9 + a10,
        p0 + b0 + b1 + b2 + b3 + b4 + b5 + b6 + b7 + b8 + b9 + b10,
        a11,
        b11,
    );
    assert(
        after.spec_verify(renamed_workspace)
            == p0 + a0 + a1 + a2 + a3 + a4 + a5 + a6 + a7 + a8 + a9 + a10 + a11
    );
    assert(
        before.spec_verify(workspace)
            == p0 + b0 + b1 + b2 + b3 + b4 + b5 + b6 + b7 + b8 + b9 + b10 + b11
    );
}

proof fn lemma_count_alike(
    first: Seq<ModelErrorView>,
    second: Seq<ModelErrorView>,
    error_type: ErrorType,
)
    requires
        same_but_names(first, second),
    ensures
        count_of(first, error_type) == count_of(second, error_type),
    decreases first.len(),
{
    if first.len() > 0 {
        assert(first.last().error_type == second.last().error_type) by {
            assert(first[first.len() - 1].error_type == second[first.len() - 1].error_type);
        }
        assert(same_but_names(first.drop_last(), second.drop_last())) by {
            assert forall|i: int| 0 <= i < first.drop_last().len() implies (
            #[trigger] first.drop_last()[i]).error_type == second.drop_last()[i].error_type
                && first.drop_last()[i].machine_keys == second.drop_last()[i].machine_keys by {
                assert(first.drop_last()[i] == first[i]);
                assert(second.drop_last()[i] == second[i]);
            }
        }
        lemma_count_alike(first.drop_last(), second.drop_last(), error_type);
    }
}

proof fn lemma_count_beside(errors: Seq<ModelErrorView>, error_type: ErrorType, n: int)
    requires
        !comes_of_a_name(error_type),
        0 <= n <= errors.len(),
    ensures
        count_of(not_of_names(errors, n), error_type) == count_of(errors.take(n), error_type),
    decreases n,
{
    if n > 0 {
        lemma_count_beside(errors, error_type, n - 1);
        assert(errors.take(n).drop_last() =~= errors.take(n - 1));
        assert(errors.take(n).last() == errors[n - 1]);
        if !comes_of_a_name(errors[n - 1].error_type) {
            let rest = not_of_names(errors, n - 1);
            assert(rest.push(errors[n - 1]).drop_last() =~= rest);
            assert(rest.push(errors[n - 1]).last() == errors[n - 1]);
        }
    }
}

/// Identity against name, by count: where declarations of a module are
/// renamed and keep their identities, its report holds as many findings of
/// every kind that does not come of a name as it held. No finding on a
/// reference appears or goes.
pub proof fn renaming_keeps_the_count_of_other_findings(
    before: Model,
    after: Model,
    workspace: Seq<Model>,
    renamed_workspace: Seq<Model>,
    error_type: ErrorType,
)
    requires
        renamed_throughout(before, after),
        workspaces_alike(workspace, renamed_workspace),
        !comes_of_a_name(error_type),
    ensures
        count_of(after.spec_verify(renamed_workspace), error_type) == count_of(
            before.spec_verify(workspace),
            error_type,
        ),
{
    let was = before.spec_verify(workspace);
    let is = after.spec_verify(renamed_workspace);
    renaming_changes_only_findings_on_names(before, after, workspace, renamed_workspace);
    lemma_count_alike(beside_names(is), beside_names(was), error_type);
    lemma_count_beside(was, error_type, was.len() as int);
    lemma_count_beside(is, error_type, is.len() as int);
    assert(was.take(was.len() as int) =~= was);
    assert(is.take(is.len() as int) =~= is);
}

} // verus!
