//! Giving the references of a module the identities of what they name: a
//! reference names a declaration by name and module, and is replaced by the
//! identifier under which that declaration is found.

use crate::concept::Identified;
use crate::identifier::Identifier;
use crate::migration::{
    declared_from, is_unset, knows_module, lookup_id_from_array_0_6_0,
    lookup_id_from_symbol_table_0_6_0, module_row_from, offered, ModuleIdentifierKind,
    ModuleIdentifiers_0_6_0, ModuleSymbols,
};
use crate::model::Model;
use crate::schema::{
    Action, Agent, AgentGoal, Field, FieldType, Goal, Message, MessagePerm, Plan, Role, Service,
    Tactic, Task, Topic,
};
use vstd::prelude::*;

verus! {

/// The identifiers under which a module declares what its own references
/// are looked up among.
#[derive(Debug, Default, Clone)]
pub struct DeclaredIds {
    pub enums: Vec<Identifier>,
    pub actions: Vec<Identifier>,
    pub resources: Vec<Identifier>,
    pub goals: Vec<Identifier>,
    pub plans: Vec<Identifier>,
    pub roles: Vec<Identifier>,
    pub tactics: Vec<Identifier>,
    pub services: Vec<Identifier>,
}

/// The identifiers of a collection, in order.
pub open spec fn ids_of<T: Identified>(items: Seq<T>) -> Seq<Identifier> {
    Seq::new(items.len(), |i: int| items[i].spec_id())
}

/// The identifiers of a collection, in order.
pub fn collect_ids<T: Identified>(items: &Vec<T>) -> (r: Vec<Identifier>)
    ensures
        r@ == ids_of(items@),
{
    let mut ids: Vec<Identifier> = Vec::new();
    let mut i: usize = 0;
    assert(ids@ =~= ids_of(items@).take(0));
    while i < items.len()
        invariant
            i <= items@.len(),
            ids@ == ids_of(items@).take(i as int),
        decreases items@.len() - i,
    {
        ids.push(items[i].get_id().clone());
        assert(ids@ =~= ids_of(items@).take(i + 1));
        i = i + 1;
    }
    assert(ids_of(items@).take(items@.len() as int) =~= ids_of(items@));
    ids
}

/// Whether `after` is what the reference `before` finds among `array`: the
/// identifier of the first declaration with its name and module, or the
/// unset identifier where the reference is unset or finds nothing.
pub open spec fn found_in(array: Seq<Identifier>, before: Identifier, after: Identifier) -> bool {
    let at = declared_from(array, before.name@, before.module@, 0);
    if before.name@.len() > 0 && at < array.len() {
        after == array[at]
    } else {
        is_unset(after)
    }
}

/// Whether `after` is what the reference `before` finds in the table: the
/// identifier that the row of its module offers under its name for the
/// kind, or the unset identifier where the table has no row for the module
/// or the row offers nothing such.
pub open spec fn found_by(
    table: Seq<ModuleSymbols>,
    kind: ModuleIdentifierKind,
    before: Identifier,
    after: Identifier,
) -> bool {
    let row = module_row_from(table, before.module@, 0);
    if row < table.len() {
        let list = offered(table[row].identifiers, kind);
        let at = declared_from(list, before.name@, before.module@, 0);
        if at < list.len() {
            after == list[at]
        } else {
            is_unset(after)
        }
    } else {
        is_unset(after)
    }
}

/// Whether `after` is what the reference `before` finds in the table where
/// that has an identity, and the reference as it was where it has none.
pub open spec fn found_or_kept(
    table: Seq<ModuleSymbols>,
    kind: ModuleIdentifierKind,
    before: Identifier,
    after: Identifier,
) -> bool {
    let row = module_row_from(table, before.module@, 0);
    if row < table.len() {
        let list = offered(table[row].identifiers, kind);
        let at = declared_from(list, before.name@, before.module@, 0);
        if at < list.len() && list[at].uuid@.len() > 0 {
            after == list[at]
        } else {
            after == before
        }
    } else {
        after == before
    }
}

/// Whether every reference of `after` is what the reference at its place
/// in `before` finds among `array`.
pub open spec fn all_found_in(
    array: Seq<Identifier>,
    before: Seq<Identifier>,
    after: Seq<Identifier>,
) -> bool {
    &&& after.len() == before.len()
    &&& forall|i: int| 0 <= i < before.len() ==> found_in(array, #[trigger] before[i], after[i])
}

/// Whether every reference of `after` is what the reference at its place
/// in `before` finds in the table.
pub open spec fn all_found_by(
    table: Seq<ModuleSymbols>,
    kind: ModuleIdentifierKind,
    before: Seq<Identifier>,
    after: Seq<Identifier>,
) -> bool {
    &&& after.len() == before.len()
    &&& forall|i: int|
        0 <= i < before.len() ==> found_by(table, kind, #[trigger] before[i], after[i])
}

/// What a reference finds among the identifiers of a module.
pub fn find_in(array: &Vec<Identifier>, id: &Identifier) -> (r: Identifier)
    ensures
        found_in(array@, *id, r),
{
    lookup_id_from_array_0_6_0(array, id.name.as_str(), id.module.as_str())
}

/// What a reference finds in the table. A reference into a module that the
/// table has no row for finds nothing.
pub fn find_by(table: &Vec<ModuleSymbols>, kind: ModuleIdentifierKind, id: &Identifier) -> (r:
    Identifier)
    ensures
        found_by(table@, kind, *id, r),
{
    if knows_module(table, id.module.as_str()) {
        lookup_id_from_symbol_table_0_6_0(table, kind, id.name.as_str(), id.module.as_str())
    } else {
        Identifier::default()
    }
}

/// What a reference finds in the table where that has an identity, else
/// the reference itself.
pub fn find_or_keep(table: &Vec<ModuleSymbols>, kind: ModuleIdentifierKind, id: &Identifier) -> (r:
    Identifier)
    ensures
        found_or_kept(table@, kind, *id, r),
{
    let found = find_by(table, kind, id);
    if !found.uuid.as_str().is_empty() {
        found
    } else {
        id.clone()
    }
}

/// Replaces every reference of a list by what it finds among `array`.
pub fn repoint_in(list: &mut Vec<Identifier>, array: &Vec<Identifier>)
    ensures
        all_found_in(array@, old(list)@, final(list)@),
{
    let mut i: usize = 0;
    while i < list.len()
        invariant
            i <= list@.len(),
            list@.len() == old(list)@.len(),
            forall|k: int| 0 <= k < i ==> found_in(array@, #[trigger] old(list)@[k], list@[k]),
            forall|k: int| i <= k < list@.len() ==> list@[k] == old(list)@[k],
        decreases list@.len() - i,
    {
        let found = find_in(array, &list[i]);
        list[i] = found;
        i = i + 1;
    }
}

/// Replaces every reference of a list by what it finds in the table.
pub fn repoint_by(list: &mut Vec<Identifier>, table: &Vec<ModuleSymbols>, kind: ModuleIdentifierKind)
    ensures
        all_found_by(table@, kind, old(list)@, final(list)@),
{
    let mut i: usize = 0;
    while i < list.len()
        invariant
            i <= list@.len(),
            list@.len() == old(list)@.len(),
            forall|k: int|
                0 <= k < i ==> found_by(table@, kind, #[trigger] old(list)@[k], list@[k]),
            forall|k: int| i <= k < list@.len() ==> list@[k] == old(list)@[k],
        decreases list@.len() - i,
    {
        let found = find_by(table, kind, &list[i]);
        list[i] = found;
        i = i + 1;
    }
}

/// A record whose references can be given their identities.
pub trait Repointed: Sized {
    /// Whether `after` is `before` with every reference replaced by what it
    /// finds, among the identifiers `own` of its module or in `table`, and
    /// nothing else changed.
    spec fn spec_repointed(
        before: Self,
        after: Self,
        own: DeclaredIds,
        table: Seq<ModuleSymbols>,
    ) -> bool;

    fn repoint(&mut self, own: &DeclaredIds, table: &Vec<ModuleSymbols>)
        ensures
            Self::spec_repointed(*old(self), *final(self), *own, table@),
    ;
}

/// Whether `after` is `before` with the references of every record given
/// their identities.
pub open spec fn all_repointed<T: Repointed>(
    before: Seq<T>,
    after: Seq<T>,
    own: DeclaredIds,
    table: Seq<ModuleSymbols>,
) -> bool {
    &&& after.len() == before.len()
    &&& forall|i: int|
        0 <= i < before.len() ==> T::spec_repointed(#[trigger] before[i], after[i], own, table)
}

/// Gives the references of every record of a collection their identities.
pub fn repoint_records<T: Repointed>(
    items: &mut Vec<T>,
    own: &DeclaredIds,
    table: &Vec<ModuleSymbols>,
)
    ensures
        all_repointed(old(items)@, final(items)@, *own, table@),
{
    let mut i: usize = 0;
    while i < items.len()
        invariant
            i <= items@.len(),
            items@.len() == old(items)@.len(),
            forall|k: int|
                0 <= k < i ==> T::spec_repointed(
                    #[trigger] old(items)@[k],
                    items@[k],
                    *own,
                    table@,
                ),
            forall|k: int| i <= k < items@.len() ==> items@[k] == old(items)@[k],
        decreases items@.len() - i,
    {
        items[i].repoint(own, table);
        i = i + 1;
    }
}

impl Repointed for Field {
    /// The type of a field that holds another message is looked up among
    /// the messages of the table, that of a field that holds a value of an
    /// enumeration among the enumerations of the module.
    open spec fn spec_repointed(
        before: Self,
        after: Self,
        own: DeclaredIds,
        table: Seq<ModuleSymbols>,
    ) -> bool {
        &&& after.name == before.name
        &&& after.bumpy_case == before.bumpy_case
        &&& after.note == before.note
        &&& match before.field_type {
            FieldType::Custom(id) => after.field_type is Custom && found_by(
                table,
                ModuleIdentifierKind::Message,
                id,
                after.field_type->Custom_0,
            ),
            FieldType::Enum(id) => after.field_type is Enum && found_in(
                own.enums@,
                id,
                after.field_type->Enum_0,
            ),
            _ => after.field_type == before.field_type,
        }
        &&& after.is_array == before.is_array
        &&& after.default == before.default
        &&& after.hidden == before.hidden
    }

    fn repoint(&mut self, own: &DeclaredIds, table: &Vec<ModuleSymbols>) {
        let updated = match &self.field_type {
            FieldType::Custom(id) => FieldType::Custom(
                find_by(table, ModuleIdentifierKind::Message, id),
            ),
            FieldType::Enum(id) => FieldType::Enum(find_in(&own.enums, id)),
            _ => self.field_type.clone(),
        };
        self.field_type = updated;
    }
}

impl Repointed for Message {
    open spec fn spec_repointed(
        before: Self,
        after: Self,
        own: DeclaredIds,
        table: Seq<ModuleSymbols>,
    ) -> bool {
        &&& after.id == before.id
        &&& after.note == before.note
        &&& after.editor == before.editor
        &&& after.component == before.component
        &&& all_repointed(before.fields@, after.fields@, own, table)
    }

    fn repoint(&mut self, own: &DeclaredIds, table: &Vec<ModuleSymbols>) {
        repoint_records(&mut self.fields, own, table);
    }
}

impl Repointed for Action {
    /// The request and the reply are looked up among the messages of the
    /// table.
    open spec fn spec_repointed(
        before: Self,
        after: Self,
        own: DeclaredIds,
        table: Seq<ModuleSymbols>,
    ) -> bool {
        &&& after.id == before.id
        &&& after.note == before.note
        &&& found_by(table, ModuleIdentifierKind::Message, before.request, after.request)
        &&& found_by(table, ModuleIdentifierKind::Message, before.reply, after.reply)
        &&& after.feedback == before.feedback
    }

    fn repoint(&mut self, own: &DeclaredIds, table: &Vec<ModuleSymbols>) {
        self.request = find_by(table, ModuleIdentifierKind::Message, &self.request);
        self.reply = find_by(table, ModuleIdentifierKind::Message, &self.reply);
    }
}

impl Repointed for Topic {
    open spec fn spec_repointed(
        before: Self,
        after: Self,
        own: DeclaredIds,
        table: Seq<ModuleSymbols>,
    ) -> bool {
        &&& after.name == before.name
        &&& found_by(table, ModuleIdentifierKind::Message, before.message, after.message)
    }

    fn repoint(&mut self, own: &DeclaredIds, table: &Vec<ModuleSymbols>) {
        self.message = find_by(table, ModuleIdentifierKind::Message, &self.message);
    }
}

impl Repointed for Service {
    /// The messages of the topics are looked up among the messages of the
    /// table, the action handlers among the actions of the module.
    open spec fn spec_repointed(
        before: Self,
        after: Self,
        own: DeclaredIds,
        table: Seq<ModuleSymbols>,
    ) -> bool {
        &&& after.id == before.id
        &&& after.note == before.note
        &&& all_found_in(own.actions@, before.action_handlers@, after.action_handlers@)
        &&& all_repointed(before.topics@, after.topics@, own, table)
    }

    fn repoint(&mut self, own: &DeclaredIds, table: &Vec<ModuleSymbols>) {
        repoint_records(&mut self.topics, own, table);
        repoint_in(&mut self.action_handlers, &own.actions);
    }
}

impl Repointed for Goal {
    /// The beliefs and the message are looked up among the messages of the
    /// table, the resources among those of the module.
    open spec fn spec_repointed(
        before: Self,
        after: Self,
        own: DeclaredIds,
        table: Seq<ModuleSymbols>,
    ) -> bool {
        &&& after.id == before.id
        &&& after.note == before.note
        &&& all_found_by(
            table,
            ModuleIdentifierKind::Message,
            before.query_messages@,
            after.query_messages@,
        )
        &&& after.heuristic == before.heuristic
        &&& after.precondition == before.precondition
        &&& after.dropcondition == before.dropcondition
        &&& after.satisfied == before.satisfied
        &&& all_found_in(own.resources@, before.resources@, after.resources@)
        &&& found_by(table, ModuleIdentifierKind::Message, before.message, after.message)
        &&& after.policy == before.policy
    }

    fn repoint(&mut self, own: &DeclaredIds, table: &Vec<ModuleSymbols>) {
        repoint_by(&mut self.query_messages, table, ModuleIdentifierKind::Message);
        repoint_in(&mut self.resources, &own.resources);
        self.message = find_by(table, ModuleIdentifierKind::Message, &self.message);
    }
}

/// Whether `after` is what the reference `before` finds in the table or
/// the reference itself, where there is a reference.
pub open spec fn found_or_kept_if_any(
    table: Seq<ModuleSymbols>,
    kind: ModuleIdentifierKind,
    before: Option<Identifier>,
    after: Option<Identifier>,
) -> bool {
    match before {
        Some(id) => after is Some && found_or_kept(table, kind, id, after->0),
        None => after is None,
    }
}

impl Repointed for Task {
    /// The goal and the action of a task are looked up among the goals and
    /// the actions of the table; each stays as it is where nothing with an
    /// identity is found.
    open spec fn spec_repointed(
        before: Self,
        after: Self,
        own: DeclaredIds,
        table: Seq<ModuleSymbols>,
    ) -> bool {
        &&& after.id == before.id
        &&& after.note == before.note
        &&& after.task_type == before.task_type
        &&& found_or_kept_if_any(table, ModuleIdentifierKind::Action, before.action, after.action)
        &&& found_or_kept_if_any(table, ModuleIdentifierKind::Goal, before.goal, after.goal)
        &&& after.is_async == before.is_async
        &&& after.mappings == before.mappings
        &&& after.duration == before.duration
        &&& after.conditiontext == before.conditiontext
    }

    fn repoint(&mut self, own: &DeclaredIds, table: &Vec<ModuleSymbols>) {
        let goal = match &self.goal {
            Some(id) => Some(find_or_keep(table, ModuleIdentifierKind::Goal, id)),
            None => None,
        };
        self.goal = goal;
        let action = match &self.action {
            Some(id) => Some(find_or_keep(table, ModuleIdentifierKind::Action, id)),
            None => None,
        };
        self.action = action;
    }
}

impl Repointed for Plan {
    /// The beliefs are looked up among the messages of the table; the goal
    /// that the plan handles among its goals, and it stays as it is where
    /// nothing with an identity is found.
    open spec fn spec_repointed(
        before: Self,
        after: Self,
        own: DeclaredIds,
        table: Seq<ModuleSymbols>,
    ) -> bool {
        &&& after.id == before.id
        &&& after.note == before.note
        &&& all_found_by(
            table,
            ModuleIdentifierKind::Message,
            before.query_messages@,
            after.query_messages@,
        )
        &&& found_or_kept(table, ModuleIdentifierKind::Goal, before.handles, after.handles)
        &&& after.effects == before.effects
        &&& all_repointed(before.tasks@, after.tasks@, own, table)
        &&& after.edges == before.edges
        &&& after.precondition == before.precondition
        &&& after.dropcondition == before.dropcondition
    }

    fn repoint(&mut self, own: &DeclaredIds, table: &Vec<ModuleSymbols>) {
        repoint_by(&mut self.query_messages, table, ModuleIdentifierKind::Message);
        self.handles = find_or_keep(table, ModuleIdentifierKind::Goal, &self.handles);
        repoint_records(&mut self.tasks, own, table);
    }
}

impl Repointed for MessagePerm {
    open spec fn spec_repointed(
        before: Self,
        after: Self,
        own: DeclaredIds,
        table: Seq<ModuleSymbols>,
    ) -> bool {
        &&& found_by(table, ModuleIdentifierKind::Message, before.id, after.id)
        &&& after.read == before.read
        &&& after.write == before.write
    }

    fn repoint(&mut self, own: &DeclaredIds, table: &Vec<ModuleSymbols>) {
        self.id = find_by(table, ModuleIdentifierKind::Message, &self.id);
    }
}

impl Repointed for Role {
    /// The goals are looked up among those of the module, the beliefs of
    /// the grants among the messages of the table.
    open spec fn spec_repointed(
        before: Self,
        after: Self,
        own: DeclaredIds,
        table: Seq<ModuleSymbols>,
    ) -> bool {
        &&& after.id == before.id
        &&& all_found_in(own.goals@, before.goals@, after.goals@)
        &&& all_repointed(before.messages@, after.messages@, own, table)
    }

    fn repoint(&mut self, own: &DeclaredIds, table: &Vec<ModuleSymbols>) {
        repoint_in(&mut self.goals, &own.goals);
        repoint_records(&mut self.messages, own, table);
    }
}

impl Repointed for Tactic {
    /// The goal and the plans are looked up among those of the module.
    open spec fn spec_repointed(
        before: Self,
        after: Self,
        own: DeclaredIds,
        table: Seq<ModuleSymbols>,
    ) -> bool {
        &&& after.id == before.id
        &&& after.note == before.note
        &&& found_in(own.goals@, before.goal, after.goal)
        &&& after.use_plan_list == before.use_plan_list
        &&& all_found_in(own.plans@, before.plan_list@, after.plan_list@)
        &&& after.plan_order == before.plan_order
        &&& after.plan_loop == before.plan_loop
    }

    fn repoint(&mut self, own: &DeclaredIds, table: &Vec<ModuleSymbols>) {
        self.goal = find_in(&own.goals, &self.goal);
        repoint_in(&mut self.plan_list, &own.plans);
    }
}

impl Repointed for AgentGoal {
    open spec fn spec_repointed(
        before: Self,
        after: Self,
        own: DeclaredIds,
        table: Seq<ModuleSymbols>,
    ) -> bool {
        &&& found_in(own.goals@, before.id, after.id)
        &&& after.startup_goal == before.startup_goal
        &&& found_in(own.tactics@, before.startup_tactic, after.startup_tactic)
    }

    fn repoint(&mut self, own: &DeclaredIds, table: &Vec<ModuleSymbols>) {
        self.id = find_in(&own.goals, &self.id);
        self.startup_tactic = find_in(&own.tactics, &self.startup_tactic);
    }
}

impl Repointed for Agent {
    /// The beliefs and the message handlers are looked up among the
    /// messages of the table; roles, goals, startup tactics, services,
    /// plans, resources and action handlers among those of the module.
    open spec fn spec_repointed(
        before: Self,
        after: Self,
        own: DeclaredIds,
        table: Seq<ModuleSymbols>,
    ) -> bool {
        &&& after.id == before.id
        &&& after.note == before.note
        &&& all_found_in(own.roles@, before.roles@, after.roles@)
        &&& all_found_by(table, ModuleIdentifierKind::Message, before.beliefs@, after.beliefs@)
        &&& all_repointed(before.goals@, after.goals@, own, table)
        &&& all_found_in(own.services@, before.services@, after.services@)
        &&& all_found_in(own.plans@, before.plans@, after.plans@)
        &&& all_found_by(
            table,
            ModuleIdentifierKind::Message,
            before.message_handlers@,
            after.message_handlers@,
        )
        &&& all_found_in(own.resources@, before.resources@, after.resources@)
        &&& all_found_in(own.actions@, before.action_handlers@, after.action_handlers@)
    }

    fn repoint(&mut self, own: &DeclaredIds, table: &Vec<ModuleSymbols>) {
        repoint_in(&mut self.roles, &own.roles);
        repoint_by(&mut self.beliefs, table, ModuleIdentifierKind::Message);
        repoint_records(&mut self.goals, own, table);
        repoint_in(&mut self.services, &own.services);
        repoint_in(&mut self.plans, &own.plans);
        repoint_by(&mut self.message_handlers, table, ModuleIdentifierKind::Message);
        repoint_in(&mut self.resources, &own.resources);
        repoint_in(&mut self.action_handlers, &own.actions);
    }
}

impl Model {
    /// The identifiers under which the module declares what its own
    /// references are looked up among.
    pub open spec fn spec_declared_ids(&self, own: DeclaredIds) -> bool {
        &&& own.enums@ == ids_of(self.enums@)
        &&& own.actions@ == ids_of(self.actions@)
        &&& own.resources@ == ids_of(self.resources@)
        &&& own.goals@ == ids_of(self.goals@)
        &&& own.plans@ == ids_of(self.plans@)
        &&& own.roles@ == ids_of(self.roles@)
        &&& own.tactics@ == ids_of(self.tactics@)
        &&& own.services@ == ids_of(self.services@)
    }

    /// The identifiers under which the module declares what its own
    /// references are looked up among.
    pub fn declared_ids(&self) -> (r: DeclaredIds)
        ensures
            self.spec_declared_ids(r),
    {
        DeclaredIds {
            enums: collect_ids(&self.enums),
            actions: collect_ids(&self.actions),
            resources: collect_ids(&self.resources),
            goals: collect_ids(&self.goals),
            plans: collect_ids(&self.plans),
            roles: collect_ids(&self.roles),
            tactics: collect_ids(&self.tactics),
            services: collect_ids(&self.services),
        }
    }

    /// What the module offers to the table under the module name `module`:
    /// the identifiers of its messages, actions, goals, services and
    /// entities, each put into that module.
    pub open spec fn spec_offers(&self, module: Seq<char>, row: ModuleIdentifiers_0_6_0) -> bool {
        &&& offered_as(self.messages@, module, row.messages@)
        &&& offered_as(self.actions@, module, row.actions@)
        &&& offered_as(self.goals@, module, row.goals@)
        &&& offered_as(self.services@, module, row.services@)
        &&& offered_as(self.entities@, module, row.entities@)
    }

    /// The row of the table for the module itself: the identifiers of its
    /// messages, actions, goals, services and entities as they are.
    pub fn own_identifiers(&self) -> (r: ModuleIdentifiers_0_6_0)
        ensures
            r.messages@ == ids_of(self.messages@),
            r.actions@ == ids_of(self.actions@),
            r.goals@ == ids_of(self.goals@),
            r.services@ == ids_of(self.services@),
            r.entities@ == ids_of(self.entities@),
    {
        ModuleIdentifiers_0_6_0 {
            messages: collect_ids(&self.messages),
            actions: collect_ids(&self.actions),
            goals: collect_ids(&self.goals),
            services: collect_ids(&self.services),
            entities: collect_ids(&self.entities),
        }
    }

    /// The row of the table for this module as an imported module of the
    /// name `module`.
    pub fn module_identifiers(&self, module: &str) -> (r: ModuleIdentifiers_0_6_0)
        ensures
            self.spec_offers(module@, r),
    {
        ModuleIdentifiers_0_6_0 {
            messages: offer(&self.messages, module),
            actions: offer(&self.actions, module),
            goals: offer(&self.goals, module),
            services: offer(&self.services, module),
            entities: offer(&self.entities, module),
        }
    }

    /// Whether `after` is `before` with the references of its messages,
    /// actions, services, goals, plans, roles, tactics, agents and teams
    /// given their identities: each replaced by what it finds among the
    /// declarations of the module or in `table`. No declaration changes
    /// its own identifier.
    pub open spec fn spec_repointed(before: Model, after: Model, table: Seq<ModuleSymbols>) -> bool {
        exists|own: DeclaredIds|
            {
                &&& #[trigger] before.spec_declared_ids(own)
                &&& after.project == before.project
                &&& after.enums == before.enums
                &&& after.resources == before.resources
                &&& after.entities == before.entities
                &&& after.events == before.events
                &&& all_repointed(before.messages@, after.messages@, own, table)
                &&& all_repointed(before.actions@, after.actions@, own, table)
                &&& all_repointed(before.services@, after.services@, own, table)
                &&& all_repointed(before.goals@, after.goals@, own, table)
                &&& all_repointed(before.plans@, after.plans@, own, table)
                &&& all_repointed(before.roles@, after.roles@, own, table)
                &&& all_repointed(before.tactics@, after.tactics@, own, table)
                &&& all_repointed(before.agents@, after.agents@, own, table)
                &&& all_repointed(before.teams@, after.teams@, own, table)
            }
    }

    /// Gives the references of the module their identities.
    pub fn repoint_references(&mut self, table: &Vec<ModuleSymbols>)
        ensures
            Model::spec_repointed(*old(self), *final(self), table@),
    {
        let own = self.declared_ids();
        repoint_records(&mut self.messages, &own, table);
        repoint_records(&mut self.actions, &own, table);
        repoint_records(&mut self.services, &own, table);
        repoint_records(&mut self.goals, &own, table);
        repoint_records(&mut self.plans, &own, table);
        repoint_records(&mut self.roles, &own, table);
        repoint_records(&mut self.tactics, &own, table);
        repoint_records(&mut self.agents, &own, table);
        repoint_records(&mut self.teams, &own, table);
        assert(old(self).spec_declared_ids(own));
    }
}

/// Whether `row` holds the identifiers of `items`, in order, each put into
/// the module `module`.
pub open spec fn offered_as<T: Identified>(
    items: Seq<T>,
    module: Seq<char>,
    row: Seq<Identifier>,
) -> bool {
    &&& row.len() == items.len()
    &&& forall|i: int|
        0 <= i < items.len() ==> {
            &&& (#[trigger] row[i]).uuid == items[i].spec_id().uuid
            &&& row[i].name == items[i].spec_id().name
            &&& row[i].bumpy_case == items[i].spec_id().bumpy_case
            &&& row[i].module@ == module
        }
}

fn offer<T: Identified>(items: &Vec<T>, module: &str) -> (r: Vec<Identifier>)
    ensures
        offered_as(items@, module@, r@),
{
    let mut row: Vec<Identifier> = Vec::new();
    let mut i: usize = 0;
    while i < items.len()
        invariant
            i <= items@.len(),
            offered_as(items@.take(i as int), module@, row@),
        decreases items@.len() - i,
    {
        let id = items[i].get_id();
        row.push(
            Identifier {
                uuid: id.uuid.clone(),
                name: id.name.clone(),
                module: module.to_owned(),
                bumpy_case: id.bumpy_case.clone(),
            },
        );
        i = i + 1;
    }
    assert(items@.take(items@.len() as int) =~= items@);
    row
}

} // verus!
