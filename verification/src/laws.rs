//! What holds of validation as a whole, proved from the contracts of the
//! checks.

use crate::agent::{lacking, lacking_actions};
use crate::concept::{
    first_named, first_position, has_identity, lemma_first_position, position_from, Identified,
    ModelConcept,
};
use crate::error::{ErrorType, ModelErrorView};
use crate::goal::handled_by;
use crate::identifier::Identifier;
use crate::model::Model;
use crate::references::{
    duplicate_findings, duplicate_findings_at, missing_finding, reference_findings, unset_finding,
    Reference, Wording,
};
use crate::order::{ascending, gathered_is_ascending};
use crate::schema::{Agent, Goal, Plan, Resource, Tactic};
use crate::text::decimal;
use crate::validate::{declaration_findings, Checked, Declaration};
use crate::workspace::{
    first_owner, identities, lemma_first_owner, owner, workspace_find_action,
    workspace_find_goal, workspace_find_message,
};
use vstd::prelude::*;

verus! {

/// How many of `errors` are of the kind `error_type`.
pub open spec fn count_of(errors: Seq<ModelErrorView>, error_type: ErrorType) -> nat
    decreases errors.len(),
{
    if errors.len() == 0 {
        0
    } else {
        count_of(errors.drop_last(), error_type) + if errors.last().error_type == error_type {
            1nat
        } else {
            0nat
        }
    }
}

/// Counting goes through concatenation.
pub proof fn lemma_count_of_add(
    first: Seq<ModelErrorView>,
    second: Seq<ModelErrorView>,
    error_type: ErrorType,
)
    ensures
        count_of(first + second, error_type) == count_of(first, error_type) + count_of(
            second,
            error_type,
        ),
    decreases second.len(),
{
    if second.len() == 0 {
        assert(first + second =~= first);
    } else {
        assert((first + second).drop_last() =~= first + second.drop_last());
        assert((first + second).last() == second.last());
        lemma_count_of_add(first, second.drop_last(), error_type);
    }
}

/// A list of one finding counts one for the kind of the finding and none
/// for any other.
pub proof fn lemma_count_of_one(error: ModelErrorView, error_type: ErrorType)
    ensures
        count_of(seq![error], error_type) == if error.error_type == error_type {
            1nat
        } else {
            0nat
        },
{
    assert(seq![error].drop_last() =~= Seq::<ModelErrorView>::empty());
    assert(seq![error].last() == error);
    assert(count_of(Seq::<ModelErrorView>::empty(), error_type) == 0);
}

/// Determinism: the findings on a module in a workspace are a function of
/// the two. Two reports on an unchanged workspace are the same list, in the
/// same order.
pub proof fn verify_is_deterministic(
    model: Model,
    workspace: Seq<Model>,
    first: Seq<ModelErrorView>,
    second: Seq<ModelErrorView>,
)
    requires
        first == model.spec_verify(workspace),
        second == model.spec_verify(workspace),
    ensures
        first == second,
        first.len() == second.len(),
        forall|i: int| 0 <= i < first.len() ==> first[i] == second[i],
{
}

/// No check hides another: of the five checks that every declaration gets,
/// each that fails adds its own finding, so a declaration with so many
/// defects has so many findings.
pub proof fn every_defect_is_reported(
    concept: ModelConcept,
    seen: Seq<Declaration>,
    id: Identifier,
    index: int,
)
    ensures
        declaration_findings(concept, seen, id, index).len() == (if id.name@.len() == 0 {
            1int
        } else {
            0int
        }) + (if id.uuid@.len() == 0 {
            1int
        } else {
            0int
        }) + (if id.name@ == concept.spec_reserved_name() {
            1int
        } else {
            0int
        }) + (if first_named(seen, id.name@) < seen.len() {
            1int
        } else {
            0int
        }) + (if first_position(seen, id.uuid@) < seen.len() {
            1int
        } else {
            0int
        }),
{
}

/// Resource bounds: a minimum above the maximum gives exactly one finding,
/// that the bounds are swapped; equal bounds give exactly one finding, that
/// they are equal; the two never come together, and bounds with room
/// between them give none.
pub proof fn resource_bounds(
    resource: Resource,
    concept: ModelConcept,
    model: Model,
    workspace: Seq<Model>,
    index: int,
)
    ensures
        resource.min > resource.max ==> resource.spec_verify(concept, model, workspace, index)
            == seq![resource.spec_swapped(index)],
        resource.min == resource.max ==> resource.spec_verify(concept, model, workspace, index)
            == seq![resource.spec_equal(index)],
        resource.min < resource.max ==> resource.spec_verify(concept, model, workspace, index)
            == Seq::<ModelErrorView>::empty(),
        count_of(
            resource.spec_verify(concept, model, workspace, index),
            ErrorType::ResourceMinMaxSwapped,
        ) == if resource.min > resource.max {
            1nat
        } else {
            0nat
        },
        count_of(
            resource.spec_verify(concept, model, workspace, index),
            ErrorType::ResourceMinMaxEqual,
        ) == if resource.min == resource.max {
            1nat
        } else {
            0nat
        },
{
    lemma_count_of_one(resource.spec_swapped(index), ErrorType::ResourceMinMaxSwapped);
    lemma_count_of_one(resource.spec_swapped(index), ErrorType::ResourceMinMaxEqual);
    lemma_count_of_one(resource.spec_equal(index), ErrorType::ResourceMinMaxSwapped);
    lemma_count_of_one(resource.spec_equal(index), ErrorType::ResourceMinMaxEqual);
}

/// The findings on a list of references are of two kinds only: that an
/// entry is unset, and that an entry of the list's kind is missing.
pub proof fn lemma_reference_findings_kinds<T: Identified>(
    items: Seq<T>,
    kind: Reference,
    model: Model,
    key: Seq<char>,
    machine_key: Seq<char>,
    wording: Wording,
    n: int,
    error_type: ErrorType,
)
    requires
        error_type != ErrorType::ZeroSizeString,
        error_type != kind.spec_missing(),
    ensures
        count_of(
            reference_findings(items, kind, model, key, machine_key, wording, n),
            error_type,
        ) == 0,
    decreases n,
{
    if n > 0 {
        lemma_reference_findings_kinds(
            items,
            kind,
            model,
            key,
            machine_key,
            wording,
            n - 1,
            error_type,
        );
        let id = items[n - 1].spec_id();
        let unset = if id.name@.len() == 0 {
            seq![unset_finding(key, machine_key, wording.unset@, n - 1)]
        } else {
            Seq::empty()
        };
        let missing = if !model.spec_resolves(kind, id) {
            seq![missing_finding(id, kind, key, machine_key, wording, n - 1)]
        } else {
            Seq::empty()
        };
        lemma_count_of_one(unset_finding(key, machine_key, wording.unset@, n - 1), error_type);
        lemma_count_of_one(
            missing_finding(id, kind, key, machine_key, wording, n - 1),
            error_type,
        );
        lemma_count_of_add(unset, missing, error_type);
        lemma_count_of_add(
            reference_findings(items, kind, model, key, machine_key, wording, n - 1),
            unset + missing,
            error_type,
        );
    }
}

/// The findings on entries that stand twice are all of one kind.
pub proof fn lemma_duplicate_findings_kinds<T: Identified>(
    items: Seq<T>,
    field_id: Seq<char>,
    machine_id: Seq<char>,
    object_type: Seq<char>,
    object_name: Seq<char>,
    field_name: Seq<char>,
    n: int,
    error_type: ErrorType,
)
    requires
        error_type != ErrorType::DuplicateName,
    ensures
        count_of(
            duplicate_findings(
                items,
                field_id,
                machine_id,
                object_type,
                object_name,
                field_name,
                n,
            ),
            error_type,
        ) == 0,
    decreases n,
{
    if n > 0 {
        lemma_duplicate_findings_kinds(
            items,
            field_id,
            machine_id,
            object_type,
            object_name,
            field_name,
            n - 1,
            error_type,
        );
        let at = duplicate_findings_at(
            items,
            field_id,
            machine_id,
            object_type,
            object_name,
            field_name,
            n - 1,
        );
        if at.len() > 0 {
            assert(at =~= seq![at[0]]);
            lemma_count_of_one(at[0], error_type);
        }
        lemma_count_of_add(
            duplicate_findings(
                items,
                field_id,
                machine_id,
                object_type,
                object_name,
                field_name,
                n - 1,
            ),
            at,
            error_type,
        );
    }
}

/// The findings on a list of references depend on the module only through
/// what resolves in it.
pub proof fn lemma_reference_findings_depend_on_resolution<T: Identified>(
    items: Seq<T>,
    kind: Reference,
    before: Model,
    after: Model,
    key: Seq<char>,
    machine_key: Seq<char>,
    wording: Wording,
    n: int,
)
    requires
        forall|id: Identifier| #[trigger]
            before.spec_resolves(kind, id) == after.spec_resolves(kind, id),
    ensures
        reference_findings(items, kind, before, key, machine_key, wording, n)
            == reference_findings(items, kind, after, key, machine_key, wording, n),
    decreases n,
{
    if n > 0 {
        lemma_reference_findings_depend_on_resolution(
            items,
            kind,
            before,
            after,
            key,
            machine_key,
            wording,
            n - 1,
        );
        assert(before.spec_resolves(kind, items[n - 1].spec_id()) == after.spec_resolves(
            kind,
            items[n - 1].spec_id(),
        ));
    }
}

/// Goal coverage, first half: a goal has no finding on coverage exactly
/// when a plan of its module handles it, and then none of its findings
/// says that it has no plans; else exactly one does.
pub proof fn goal_coverage(
    goal: Goal,
    concept: ModelConcept,
    model: Model,
    workspace: Seq<Model>,
    index: int,
)
    ensures
        goal.spec_coverage_findings(model, index).len() == 0 <==> handled_by(
            model.plans@,
            goal.id.uuid@,
        ),
        count_of(goal.spec_verify(concept, model, workspace, index), ErrorType::NoPlansForGoal)
            == if handled_by(model.plans@, goal.id.uuid@) {
            0nat
        } else {
            1nat
        },
{
    lemma_goal_references_have_no_coverage_finding(goal, model, index);
    lemma_count_of_one(goal.spec_no_plans(index), ErrorType::NoPlansForGoal);
    lemma_count_of_add(
        goal.spec_reference_findings(model, index),
        goal.spec_coverage_findings(model, index),
        ErrorType::NoPlansForGoal,
    );
    assert(count_of(Seq::<ModelErrorView>::empty(), ErrorType::NoPlansForGoal) == 0);
}

proof fn lemma_goal_references_have_no_coverage_finding(goal: Goal, model: Model, index: int)
    ensures
        count_of(goal.spec_reference_findings(model, index), ErrorType::NoPlansForGoal) == 0,
{
    let t = ErrorType::NoPlansForGoal;
    let name = goal.id.spec_qualified_name();
    let at = decimal(index as nat);
    let a = reference_findings(
        goal.query_messages@,
        Reference::Message,
        model,
        "goals."@ + name + ".query_messages"@,
        "goals."@ + at + ".query_messages"@,
        Wording { unset: "Message", missing: "Message", place: "messages" },
        goal.query_messages@.len() as int,
    );
    let b = goal.spec_message_findings(model, index);
    let c = duplicate_findings(
        goal.query_messages@,
        "goals."@ + name + ".query_messages"@,
        "goals."@ + at + ".query_messages"@,
        "goals"@,
        name,
        "query_messages"@,
        goal.query_messages@.len() as int,
    );
    let d = reference_findings(
        goal.resources@,
        Reference::Resource,
        model,
        "goals."@ + name + ".resources"@,
        "goals."@ + at + ".resources"@,
        Wording { unset: "Resource", missing: "Resource", place: "resources" },
        goal.resources@.len() as int,
    );
    let e = duplicate_findings(
        goal.resources@,
        "goals."@ + name + ".resources"@,
        "goals."@ + at + ".resources"@,
        "goals"@,
        name,
        "resources"@,
        goal.resources@.len() as int,
    );
    lemma_reference_findings_kinds(
        goal.query_messages@,
        Reference::Message,
        model,
        "goals."@ + name + ".query_messages"@,
        "goals."@ + at + ".query_messages"@,
        Wording { unset: "Message", missing: "Message", place: "messages" },
        goal.query_messages@.len() as int,
        t,
    );
    if b.len() > 0 {
        assert(b =~= seq![b[0]]);
        lemma_count_of_one(b[0], t);
    }
    lemma_duplicate_findings_kinds(
        goal.query_messages@,
        "goals."@ + name + ".query_messages"@,
        "goals."@ + at + ".query_messages"@,
        "goals"@,
        name,
        "query_messages"@,
        goal.query_messages@.len() as int,
        t,
    );
    lemma_reference_findings_kinds(
        goal.resources@,
        Reference::Resource,
        model,
        "goals."@ + name + ".resources"@,
        "goals."@ + at + ".resources"@,
        Wording { unset: "Resource", missing: "Resource", place: "resources" },
        goal.resources@.len() as int,
        t,
    );
    lemma_duplicate_findings_kinds(
        goal.resources@,
        "goals."@ + name + ".resources"@,
        "goals."@ + at + ".resources"@,
        "goals"@,
        name,
        "resources"@,
        goal.resources@.len() as int,
        t,
    );
    lemma_count_of_add(a, b, t);
    lemma_count_of_add(a + b, c, t);
    lemma_count_of_add(a + b + c, d, t);
    lemma_count_of_add(a + b + c + d, e, t);
    assert(goal.spec_reference_findings(model, index) == a + b + c + d + e);
}

/// Goal coverage, second half: where no plan handles a goal, adding a plan
/// that handles it takes the finding on coverage away and changes no other
/// finding on the goal. `after` is `before` with `plan` added after its
/// plans.
pub proof fn adding_a_plan_covers_the_goal(
    goal: Goal,
    concept: ModelConcept,
    before: Model,
    after: Model,
    plan: Plan,
    workspace: Seq<Model>,
    index: int,
)
    requires
        !handled_by(before.plans@, goal.id.uuid@),
        plan.handles.uuid@ == goal.id.uuid@,
        after.plans@ == before.plans@.push(plan),
        after.messages@ == before.messages@,
        after.resources@ == before.resources@,
    ensures
        goal.spec_verify(concept, before, workspace, index) == goal.spec_verify(
            concept,
            after,
            workspace,
            index,
        ).push(goal.spec_no_plans(index)),
        count_of(goal.spec_verify(concept, after, workspace, index), ErrorType::NoPlansForGoal)
            == 0,
{
    let name = goal.id.spec_qualified_name();
    let at = decimal(index as nat);
    assert(after.plans@[before.plans@.len() as int] == plan);
    assert(handled_by(after.plans@, goal.id.uuid@));
    lemma_reference_findings_depend_on_resolution(
        goal.query_messages@,
        Reference::Message,
        before,
        after,
        "goals."@ + name + ".query_messages"@,
        "goals."@ + at + ".query_messages"@,
        Wording { unset: "Message", missing: "Message", place: "messages" },
        goal.query_messages@.len() as int,
    );
    lemma_reference_findings_depend_on_resolution(
        goal.resources@,
        Reference::Resource,
        before,
        after,
        "goals."@ + name + ".resources"@,
        "goals."@ + at + ".resources"@,
        Wording { unset: "Resource", missing: "Resource", place: "resources" },
        goal.resources@.len() as int,
    );
    assert(goal.spec_reference_findings(before, index) == goal.spec_reference_findings(
        after,
        index,
    ));
    assert(goal.spec_verify(concept, after, workspace, index) =~= goal.spec_reference_findings(
        after,
        index,
    ));
    assert(goal.spec_verify(concept, before, workspace, index) =~= goal.spec_reference_findings(
        after,
        index,
    ).push(goal.spec_no_plans(index)));
    goal_coverage(goal, concept, after, workspace, index);
}

/// How many of the first `n` entries of the plan list of `tactic` name a
/// plan that handles another goal than that of the tactic.
pub open spec fn mismatches(tactic: Tactic, model: Model, n: int) -> nat
    decreases n,
{
    if n <= 0 {
        0
    } else {
        mismatches(tactic, model, n - 1) + if tactic.spec_plan_mismatch(model, n - 1) {
            1nat
        } else {
            0nat
        }
    }
}

/// Tactic and plan, entry by entry: an entry of the plan list whose plan
/// handles another goal than that of the tactic has exactly one finding
/// that says so, and it is the finding stated for this entry; any other
/// entry has none.
pub proof fn tactic_plan_consistency(tactic: Tactic, model: Model, index: int, i: int)
    requires
        0 <= i < tactic.plan_list@.len(),
    ensures
        count_of(
            tactic.spec_plan_findings(model, index, i),
            ErrorType::TacticGoalNotSupportedByPlan,
        ) == if tactic.spec_plan_mismatch(model, i) {
            1nat
        } else {
            0nat
        },
        tactic.spec_plan_mismatch(model, i) ==> tactic.spec_plan_findings(model, index, i)
            == seq![tactic.spec_mismatch(model, index, i)],
{
    let t = ErrorType::TacticGoalNotSupportedByPlan;
    let all = tactic.spec_plan_findings(model, index, i);
    if all.len() == 0 {
        assert(count_of(all, t) == 0);
    } else if all.len() == 1 {
        assert(all =~= seq![all[0]]);
        lemma_count_of_one(all[0], t);
    } else {
        assert(all.len() == 2);
        assert(all =~= seq![all[0]] + seq![all[1]]);
        lemma_count_of_one(all[0], t);
        lemma_count_of_one(all[1], t);
        lemma_count_of_add(seq![all[0]], seq![all[1]], t);
    }
    if tactic.spec_plan_mismatch(model, i) {
        assert(all =~= seq![tactic.spec_mismatch(model, index, i)]);
    }
}

/// Tactic and plan, over the whole tactic: the findings on a tactic hold
/// as many findings on a plan with another goal as the plan list has such
/// entries.
pub proof fn tactic_plan_consistency_total(
    tactic: Tactic,
    concept: ModelConcept,
    model: Model,
    workspace: Seq<Model>,
    index: int,
)
    ensures
        count_of(
            tactic.spec_verify(concept, model, workspace, index),
            ErrorType::TacticGoalNotSupportedByPlan,
        ) == mismatches(tactic, model, tactic.plan_list@.len() as int),
{
    let t = ErrorType::TacticGoalNotSupportedByPlan;
    let a = tactic.spec_goal_findings(model, index);
    let b = tactic.spec_plans_findings(model, index, tactic.plan_list@.len() as int);
    let c = tactic.spec_loop_findings(index);
    let d = duplicate_findings(
        tactic.plan_list@,
        tactic.spec_plans_key(),
        tactic.spec_plans_machine_key(index),
        "tactics"@,
        tactic.id.spec_qualified_name(),
        "plans"@,
        tactic.plan_list@.len() as int,
    );
    if a.len() == 0 {
        assert(count_of(a, t) == 0);
    } else if a.len() == 1 {
        assert(a =~= seq![a[0]]);
        lemma_count_of_one(a[0], t);
    } else {
        assert(a =~= seq![a[0]] + seq![a[1]]);
        lemma_count_of_one(a[0], t);
        lemma_count_of_one(a[1], t);
        lemma_count_of_add(seq![a[0]], seq![a[1]], t);
    }
    lemma_plans_findings_count(tactic, model, index, tactic.plan_list@.len() as int);
    if c.len() > 0 {
        assert(c =~= seq![c[0]]);
        lemma_count_of_one(c[0], t);
    } else {
        assert(count_of(c, t) == 0);
    }
    lemma_duplicate_findings_kinds(
        tactic.plan_list@,
        tactic.spec_plans_key(),
        tactic.spec_plans_machine_key(index),
        "tactics"@,
        tactic.id.spec_qualified_name(),
        "plans"@,
        tactic.plan_list@.len() as int,
        t,
    );
    lemma_count_of_add(a, b, t);
    lemma_count_of_add(a + b, c, t);
    lemma_count_of_add(a + b + c, d, t);
}

proof fn lemma_plans_findings_count(tactic: Tactic, model: Model, index: int, n: int)
    requires
        0 <= n <= tactic.plan_list@.len(),
    ensures
        count_of(
            tactic.spec_plans_findings(model, index, n),
            ErrorType::TacticGoalNotSupportedByPlan,
        ) == mismatches(tactic, model, n),
    decreases n,
{
    if n > 0 {
        lemma_plans_findings_count(tactic, model, index, n - 1);
        tactic_plan_consistency(tactic, model, index, n - 1);
        lemma_count_of_add(
            tactic.spec_plans_findings(model, index, n - 1),
            tactic.spec_plan_findings(model, index, n - 1),
            ErrorType::TacticGoalNotSupportedByPlan,
        );
    } else {
        assert(count_of(
            Seq::<ModelErrorView>::empty(),
            ErrorType::TacticGoalNotSupportedByPlan,
        ) == 0);
    }
}

/// Lookup goes by identity alone: two lists whose entries have the same
/// identities, position by position, hold the same identities and find
/// each at the same position, whatever the names of the entries.
pub proof fn lookup_ignores_names<T: Identified>(before: Seq<T>, after: Seq<T>, uuid: Seq<char>)
    requires
        identities(before) == identities(after),
    ensures
        has_identity(before, uuid) == has_identity(after, uuid),
        first_position(before, uuid) == first_position(after, uuid),
{
    assert(before.len() == identities(before).len());
    assert(after.len() == identities(after).len());
    assert forall|i: int| 0 <= i < before.len() implies (#[trigger] before[i]).spec_id().uuid@
        == after[i].spec_id().uuid@ by {
        assert(identities(before)[i] == identities(after)[i]);
    }
    lemma_same_positions(before, after, uuid, 0);
    lemma_first_position(before, uuid);
    lemma_first_position(after, uuid);
}

proof fn lemma_same_positions<T: Identified>(
    before: Seq<T>,
    after: Seq<T>,
    uuid: Seq<char>,
    start: int,
)
    requires
        before.len() == after.len(),
        forall|i: int|
            0 <= i < before.len() ==> (#[trigger] before[i]).spec_id().uuid@
                == after[i].spec_id().uuid@,
        0 <= start,
    ensures
        position_from(before, uuid, start) == position_from(after, uuid, start),
    decreases before.len() - start,
{
    if start < before.len() {
        assert(before[start].spec_id().uuid@ == after[start].spec_id().uuid@);
        if before[start].spec_id().uuid@ != uuid {
            lemma_same_positions(before, after, uuid, start + 1);
        }
    }
}

/// Whether two modules declare the same identities, collection by
/// collection and position by position. Renaming declarations keeps this.
pub open spec fn same_identities(before: Model, after: Model) -> bool {
    &&& identities(before.teams@) == identities(after.teams@)
    &&& identities(before.agents@) == identities(after.agents@)
    &&& identities(before.messages@) == identities(after.messages@)
    &&& identities(before.goals@) == identities(after.goals@)
    &&& identities(before.plans@) == identities(after.plans@)
    &&& identities(before.roles@) == identities(after.roles@)
    &&& identities(before.resources@) == identities(after.resources@)
    &&& identities(before.tactics@) == identities(after.tactics@)
    &&& identities(before.actions@) == identities(after.actions@)
    &&& identities(before.services@) == identities(after.services@)
    &&& identities(before.enums@) == identities(after.enums@)
    &&& identities(before.events@) == identities(after.events@)
    &&& identities(before.entities@) == identities(after.entities@)
}

/// Identity against name: where declarations of a module are renamed and
/// keep their identities, every reference resolves as it did, and the
/// findings on every list of references are what they were. No reference
/// breaks by a renaming.
pub proof fn renaming_keeps_references<T: Identified>(
    before: Model,
    after: Model,
    items: Seq<T>,
    kind: Reference,
    key: Seq<char>,
    machine_key: Seq<char>,
    wording: Wording,
)
    requires
        same_identities(before, after),
    ensures
        forall|id: Identifier| #[trigger]
            before.spec_resolves(kind, id) == after.spec_resolves(kind, id),
        forall|id: Identifier| #[trigger]
            before.spec_find_tactic(id) == after.spec_find_tactic(id),
        reference_findings(items, kind, before, key, machine_key, wording, items.len() as int)
            == reference_findings(
            items,
            kind,
            after,
            key,
            machine_key,
            wording,
            items.len() as int,
        ),
{
    assert forall|id: Identifier| #[trigger]
        before.spec_resolves(kind, id) == after.spec_resolves(kind, id) by {
        lookup_ignores_names(before.actions@, after.actions@, id.uuid@);
        lookup_ignores_names(before.messages@, after.messages@, id.uuid@);
        lookup_ignores_names(before.goals@, after.goals@, id.uuid@);
        lookup_ignores_names(before.plans@, after.plans@, id.uuid@);
        lookup_ignores_names(before.resources@, after.resources@, id.uuid@);
        lookup_ignores_names(before.roles@, after.roles@, id.uuid@);
        lookup_ignores_names(before.services@, after.services@, id.uuid@);
    }
    assert forall|id: Identifier| #[trigger]
        before.spec_find_tactic(id) == after.spec_find_tactic(id) by {
        lookup_ignores_names(before.tactics@, after.tactics@, id.uuid@);
    }
    lemma_reference_findings_depend_on_resolution(
        items,
        kind,
        before,
        after,
        key,
        machine_key,
        wording,
        items.len() as int,
    );
}

/// Identity against name, across modules: where the modules of a workspace
/// are renamed in this way, every identity keeps its owner.
pub proof fn renaming_keeps_owners(before: Seq<Model>, after: Seq<Model>, uuid: Seq<char>)
    requires
        before.len() == after.len(),
        forall|i: int| 0 <= i < before.len() ==> same_identities(#[trigger] before[i], after[i]),
    ensures
        owner(before, uuid) == owner(after, uuid),
{
    lemma_same_owners(before, after, uuid, before.len() as int);
}

/// Identity against name, across modules: where the modules of a workspace
/// are renamed in this way, a reference finds across modules what it found
/// before, whatever its own name.
pub proof fn renaming_keeps_workspace_references(
    before: Seq<Model>,
    after: Seq<Model>,
    id: Identifier,
    renamed: Identifier,
)
    requires
        before.len() == after.len(),
        forall|i: int| 0 <= i < before.len() ==> same_identities(#[trigger] before[i], after[i]),
        renamed.uuid@ == id.uuid@,
    ensures
        workspace_find_action(before, id) == workspace_find_action(after, renamed),
        workspace_find_goal(before, id) == workspace_find_goal(after, renamed),
        workspace_find_message(before, id) == workspace_find_message(after, renamed),
{
    renaming_keeps_owners(before, after, id.uuid@);
    lemma_first_owner(before, id.uuid@, before.len() as int);
    match owner(before, id.uuid@) {
        Some(p) => {
            assert(same_identities(before[p], after[p]));
            lookup_ignores_names(before[p].actions@, after[p].actions@, id.uuid@);
            lookup_ignores_names(before[p].goals@, after[p].goals@, id.uuid@);
            lookup_ignores_names(before[p].messages@, after[p].messages@, id.uuid@);
        },
        None => {},
    }
}

proof fn lemma_same_owners(before: Seq<Model>, after: Seq<Model>, uuid: Seq<char>, n: int)
    requires
        before.len() == after.len(),
        0 <= n <= before.len(),
        forall|i: int| 0 <= i < before.len() ==> same_identities(#[trigger] before[i], after[i]),
    ensures
        first_owner(before, uuid, n) == first_owner(after, uuid, n),
    decreases n,
{
    if n > 0 {
        lemma_same_owners(before, after, uuid, n - 1);
        assert(same_identities(before[n - 1], after[n - 1]));
        assert(before[n - 1].spec_indexed() == after[n - 1].spec_indexed());
    }
}

/// A module that declares nothing beyond a valid project has no findings.
pub proof fn empty_model_has_no_findings(model: Model, workspace: Seq<Model>)
    requires
        model.spec_is_empty(),
        model.project.spec_is_valid(),
    ensures
        model.spec_verify(workspace) == Seq::<ModelErrorView>::empty(),
{
    lemma_valid_namespaces(model, model.project.namespaces@.len() as int);
    assert(model.project.spec_name_findings() =~= Seq::<ModelErrorView>::empty());
    assert(model.project.spec_verify() =~= Seq::<ModelErrorView>::empty());
    assert(model.spec_verify(workspace) =~= Seq::<ModelErrorView>::empty());
}

proof fn lemma_valid_namespaces(model: Model, n: int)
    requires
        model.project.spec_is_valid(),
        0 <= n <= model.project.namespaces@.len(),
    ensures
        model.project.spec_namespaces_findings(n) == Seq::<ModelErrorView>::empty(),
    decreases n,
{
    if n > 0 {
        lemma_valid_namespaces(model, n - 1);
        assert(model.project.namespaces@[n - 1]@.len() > 0);
    }
}

/// What an agent lacks is reported in a fixed order: the beliefs, actions
/// and resources that it lacks for one goal or plan come in the ascending
/// order of their qualified names, each qualified name once.
pub proof fn what_is_lacking_is_reported_in_name_order(agent: Agent, model: Model, i: int)
    ensures
        ascending(agent.spec_missing_beliefs(model, i)),
        ascending(agent.spec_missing_actions(model, i)),
        ascending(agent.spec_missing_resources(model, i)),
{
    let beliefs = lacking(
        model.goals@[i].query_messages@,
        agent.spec_held_beliefs(model),
        model.goals@[i].query_messages@.len() as int,
    );
    let actions = lacking_actions(
        model.plans@[i].tasks@,
        agent.spec_handled_actions(model),
        model.plans@[i].tasks@.len() as int,
    );
    let resources = lacking(
        model.goals@[i].resources@,
        agent.resources@,
        model.goals@[i].resources@.len() as int,
    );
    gathered_is_ascending(beliefs, beliefs.len() as int);
    gathered_is_ascending(actions, actions.len() as int);
    gathered_is_ascending(resources, resources.len() as int);
}

} // verus!
