//! The display names that a model derives from its names: the one kind of
//! data that is filled in rather than declared.

use crate::identifier::Identifier;
use crate::model::Model;
use crate::schema::{
    Action, Agent, AgentGoal, Entity, Enum, EnumField, Event, Field, FieldType, Goal, Message,
    MessagePerm, Plan, Project, Resource, Role, Service, Tactic, Task, Topic,
};
use crate::text::{bumpy_case, convert_to_bumpy_case, replace_char, replaced};
use vstd::prelude::*;

verus! {

/// The display form of a name: the name in bumpy case.
pub open spec fn display_name(name: Seq<char>) -> Seq<char> {
    bumpy_case(name, name.len() as int)
}

/// Whether `after` is `before` with its display name derived from its
/// name, and nothing else changed.
pub open spec fn shown(before: Identifier, after: Identifier) -> bool {
    &&& after.uuid == before.uuid
    &&& after.name == before.name
    &&& after.module == before.module
    &&& after.bumpy_case@ == display_name(before.name@)
}

/// Whether `after` is `before` with the display name of every entry
/// derived.
pub open spec fn all_shown(before: Seq<Identifier>, after: Seq<Identifier>) -> bool {
    &&& after.len() == before.len()
    &&& forall|i: int| 0 <= i < before.len() ==> shown(#[trigger] before[i], after[i])
}

/// Whether `after` is `before` with the display name derived, where there
/// is an identifier.
pub open spec fn shown_if_any(before: Option<Identifier>, after: Option<Identifier>) -> bool {
    match before {
        Some(id) => after is Some && shown(id, after->0),
        None => after is None,
    }
}

/// The identifier with its display name derived.
pub fn displayed(id: &Identifier) -> (r: Identifier)
    ensures
        shown(*id, r),
{
    Identifier {
        uuid: id.uuid.clone(),
        name: id.name.clone(),
        module: id.module.clone(),
        bumpy_case: convert_to_bumpy_case(id.name.as_str()),
    }
}

fn displayed_if_any(id: &Option<Identifier>) -> (r: Option<Identifier>)
    ensures
        shown_if_any(*id, r),
{
    match id {
        Some(id) => Some(displayed(id)),
        None => None,
    }
}

/// Derives the display name of every entry of a list.
pub fn display_all(list: &mut Vec<Identifier>)
    ensures
        all_shown(old(list)@, final(list)@),
{
    let mut i: usize = 0;
    while i < list.len()
        invariant
            i <= list@.len(),
            list@.len() == old(list)@.len(),
            forall|k: int| 0 <= k < i ==> shown(#[trigger] old(list)@[k], list@[k]),
            forall|k: int| i <= k < list@.len() ==> list@[k] == old(list)@[k],
        decreases list@.len() - i,
    {
        let updated = displayed(&list[i]);
        list[i] = updated;
        i = i + 1;
    }
}

impl Project {
    /// Whether `after` is `before` with its display name derived: the
    /// name with underscores for spaces.
    pub open spec fn spec_shown(before: Project, after: Project) -> bool {
        &&& after.name == before.name
        &&& after.bumpy_case@ == replaced(before.name@, ' ', '_')
        &&& after.namespaces == before.namespaces
        &&& after.major_version == before.major_version
        &&& after.minor_version == before.minor_version
        &&& after.patch_version == before.patch_version
        &&& after.generator == before.generator
        &&& after.modules == before.modules
        &&& after.search_paths == before.search_paths
    }
}

impl AgentGoal {
    pub open spec fn spec_shown(before: AgentGoal, after: AgentGoal) -> bool {
        &&& shown(before.id, after.id)
        &&& after.startup_goal == before.startup_goal
        &&& after.startup_tactic == before.startup_tactic
    }
}

impl Agent {
    /// Whether `after` is `before` with the display names of its identifier
    /// and of all its references derived.
    pub open spec fn spec_shown(before: Agent, after: Agent) -> bool {
        &&& shown(before.id, after.id)
        &&& after.note == before.note
        &&& all_shown(before.roles@, after.roles@)
        &&& all_shown(before.beliefs@, after.beliefs@)
        &&& after.goals@.len() == before.goals@.len()
        &&& forall|i: int|
            0 <= i < before.goals@.len() ==> AgentGoal::spec_shown(
                #[trigger] before.goals@[i],
                after.goals@[i],
            )
        &&& all_shown(before.services@, after.services@)
        &&& all_shown(before.plans@, after.plans@)
        &&& all_shown(before.message_handlers@, after.message_handlers@)
        &&& all_shown(before.resources@, after.resources@)
        &&& all_shown(before.action_handlers@, after.action_handlers@)
    }

    /// Derives the display names of the agent and of its references.
    pub fn derive_display_names(&mut self)
        ensures
            Agent::spec_shown(*old(self), *final(self)),
    {
        self.id = displayed(&self.id);
        display_all(&mut self.action_handlers);
        display_all(&mut self.beliefs);
        let mut i: usize = 0;
        while i < self.goals.len()
            invariant
                i <= self.goals@.len(),
                self.goals@.len() == old(self).goals@.len(),
                forall|k: int|
                    0 <= k < i ==> AgentGoal::spec_shown(
                        #[trigger] old(self).goals@[k],
                        self.goals@[k],
                    ),
                forall|k: int| i <= k < self.goals@.len() ==> self.goals@[k] == old(self).goals@[k],
                shown(old(self).id, self.id),
                self.note == old(self).note,
                self.roles == old(self).roles,
                all_shown(old(self).beliefs@, self.beliefs@),
                self.services == old(self).services,
                self.plans == old(self).plans,
                self.message_handlers == old(self).message_handlers,
                self.resources == old(self).resources,
                all_shown(old(self).action_handlers@, self.action_handlers@),
            decreases self.goals@.len() - i,
        {
            let updated = displayed(&self.goals[i].id);
            self.goals[i].id = updated;
            i = i + 1;
        }
        display_all(&mut self.plans);
        display_all(&mut self.resources);
        display_all(&mut self.roles);
        display_all(&mut self.message_handlers);
        display_all(&mut self.services);
    }
}

impl Topic {
    pub open spec fn spec_shown(before: Topic, after: Topic) -> bool {
        after.name == before.name && shown(before.message, after.message)
    }
}

impl Service {
    /// Whether `after` is `before` with the display names of its
    /// identifier, its action handlers and the messages of its topics
    /// derived.
    pub open spec fn spec_shown(before: Service, after: Service) -> bool {
        &&& shown(before.id, after.id)
        &&& after.note == before.note
        &&& all_shown(before.action_handlers@, after.action_handlers@)
        &&& after.topics@.len() == before.topics@.len()
        &&& forall|i: int|
            0 <= i < before.topics@.len() ==> Topic::spec_shown(
                #[trigger] before.topics@[i],
                after.topics@[i],
            )
    }

    /// Derives the display names of the record and of its references.
    pub fn derive_display_names(&mut self)
        ensures
            Service::spec_shown(*old(self), *final(self)),
    {
        self.id = displayed(&self.id);
        display_all(&mut self.action_handlers);
        let mut i: usize = 0;
        while i < self.topics.len()
            invariant
                i <= self.topics@.len(),
                self.topics@.len() == old(self).topics@.len(),
                forall|k: int|
                    0 <= k < i ==> Topic::spec_shown(
                        #[trigger] old(self).topics@[k],
                        self.topics@[k],
                    ),
                forall|k: int|
                    i <= k < self.topics@.len() ==> self.topics@[k] == old(self).topics@[k],
                shown(old(self).id, self.id),
                self.note == old(self).note,
                all_shown(old(self).action_handlers@, self.action_handlers@),
            decreases self.topics@.len() - i,
        {
            let updated = displayed(&self.topics[i].message);
            self.topics[i].message = updated;
            i = i + 1;
        }
    }
}

impl Field {
    /// Whether `after` is `before` with its display name derived, and with
    /// that of its type where the type is another message.
    pub open spec fn spec_shown(before: Field, after: Field) -> bool {
        &&& after.name == before.name
        &&& after.bumpy_case@ == display_name(before.name@)
        &&& after.note == before.note
        &&& match before.field_type {
            FieldType::Custom(id) => after.field_type is Custom && shown(
                id,
                after.field_type->Custom_0,
            ),
            _ => after.field_type == before.field_type,
        }
        &&& after.is_array == before.is_array
        &&& after.default == before.default
        &&& after.hidden == before.hidden
    }

    /// Derives the display names of the record and of its references.
    pub fn derive_display_names(&mut self)
        ensures
            Field::spec_shown(*old(self), *final(self)),
    {
        self.bumpy_case = convert_to_bumpy_case(self.name.as_str());
        let updated = match &self.field_type {
            FieldType::Custom(id) => FieldType::Custom(displayed(id)),
            _ => self.field_type.clone(),
        };
        self.field_type = updated;
    }
}

impl Message {
    /// Whether `after` is `before` with the display names of its
    /// identifier and of its fields derived.
    pub open spec fn spec_shown(before: Message, after: Message) -> bool {
        &&& shown(before.id, after.id)
        &&& after.note == before.note
        &&& after.editor == before.editor
        &&& after.component == before.component
        &&& after.fields@.len() == before.fields@.len()
        &&& forall|i: int|
            0 <= i < before.fields@.len() ==> Field::spec_shown(
                #[trigger] before.fields@[i],
                after.fields@[i],
            )
    }

    /// Derives the display names of the record and of its references.
    pub fn derive_display_names(&mut self)
        ensures
            Message::spec_shown(*old(self), *final(self)),
    {
        self.id = displayed(&self.id);
        let mut i: usize = 0;
        while i < self.fields.len()
            invariant
                i <= self.fields@.len(),
                self.fields@.len() == old(self).fields@.len(),
                forall|k: int|
                    0 <= k < i ==> Field::spec_shown(
                        #[trigger] old(self).fields@[k],
                        self.fields@[k],
                    ),
                forall|k: int|
                    i <= k < self.fields@.len() ==> self.fields@[k] == old(self).fields@[k],
                shown(old(self).id, self.id),
                self.note == old(self).note,
                self.editor == old(self).editor,
                self.component == old(self).component,
            decreases self.fields@.len() - i,
        {
            self.fields[i].derive_display_names();
            i = i + 1;
        }
    }
}

impl Goal {
    /// Whether `after` is `before` with the display names of its
    /// identifier, its message and its references derived. A goal of an
    /// imported module that names no module is, besides, put into the
    /// module `module`.
    pub open spec fn spec_shown(before: Goal, after: Goal, is_module: bool, module: String) -> bool {
        &&& after.id.uuid == before.id.uuid
        &&& after.id.name == before.id.name
        &&& after.id.bumpy_case@ == display_name(before.id.name@)
        &&& after.id.module == if is_module && before.id.module@.len() == 0 {
            module
        } else {
            before.id.module
        }
        &&& after.note == before.note
        &&& all_shown(before.query_messages@, after.query_messages@)
        &&& after.heuristic == before.heuristic
        &&& after.precondition == before.precondition
        &&& after.dropcondition == before.dropcondition
        &&& after.satisfied == before.satisfied
        &&& all_shown(before.resources@, after.resources@)
        &&& shown(before.message, after.message)
        &&& after.policy == before.policy
    }

    /// Derives the display names of the record and of its references.
    pub fn derive_display_names(&mut self, is_module: bool, module: &String)
        ensures
            Goal::spec_shown(*old(self), *final(self), is_module, *module),
    {
        self.id = displayed(&self.id);
        self.message = displayed(&self.message);
        display_all(&mut self.query_messages);
        display_all(&mut self.resources);
        if is_module && self.id.module.as_str().is_empty() {
            self.id.module = module.clone();
        }
    }
}

impl Task {
    /// Whether `after` is `before` with the display names of its goal and
    /// its action derived, where it has them.
    pub open spec fn spec_shown(before: Task, after: Task) -> bool {
        &&& after.id == before.id
        &&& after.note == before.note
        &&& after.task_type == before.task_type
        &&& shown_if_any(before.action, after.action)
        &&& shown_if_any(before.goal, after.goal)
        &&& after.is_async == before.is_async
        &&& after.mappings == before.mappings
        &&& after.duration == before.duration
        &&& after.conditiontext == before.conditiontext
    }

    /// Derives the display names of the record and of its references.
    pub fn derive_display_names(&mut self)
        ensures
            Task::spec_shown(*old(self), *final(self)),
    {
        let goal = displayed_if_any(&self.goal);
        self.goal = goal;
        let action = displayed_if_any(&self.action);
        self.action = action;
    }
}

impl Plan {
    /// Whether `after` is `before` with the display names of its
    /// identifier, its goal, its beliefs and its tasks derived.
    pub open spec fn spec_shown(before: Plan, after: Plan) -> bool {
        &&& shown(before.id, after.id)
        &&& after.note == before.note
        &&& all_shown(before.query_messages@, after.query_messages@)
        &&& shown(before.handles, after.handles)
        &&& after.effects == before.effects
        &&& after.tasks@.len() == before.tasks@.len()
        &&& forall|i: int|
            0 <= i < before.tasks@.len() ==> Task::spec_shown(
                #[trigger] before.tasks@[i],
                after.tasks@[i],
            )
        &&& after.edges == before.edges
        &&& after.precondition == before.precondition
        &&& after.dropcondition == before.dropcondition
    }

    /// Derives the display names of the record and of its references.
    pub fn derive_display_names(&mut self)
        ensures
            Plan::spec_shown(*old(self), *final(self)),
    {
        self.id = displayed(&self.id);
        self.handles = displayed(&self.handles);
        display_all(&mut self.query_messages);
        let mut i: usize = 0;
        while i < self.tasks.len()
            invariant
                i <= self.tasks@.len(),
                self.tasks@.len() == old(self).tasks@.len(),
                forall|k: int|
                    0 <= k < i ==> Task::spec_shown(#[trigger] old(self).tasks@[k], self.tasks@[k]),
                forall|k: int| i <= k < self.tasks@.len() ==> self.tasks@[k] == old(self).tasks@[k],
                shown(old(self).id, self.id),
                self.note == old(self).note,
                all_shown(old(self).query_messages@, self.query_messages@),
                shown(old(self).handles, self.handles),
                self.effects == old(self).effects,
                self.edges == old(self).edges,
                self.precondition == old(self).precondition,
                self.dropcondition == old(self).dropcondition,
            decreases self.tasks@.len() - i,
        {
            self.tasks[i].derive_display_names();
            i = i + 1;
        }
    }
}

impl MessagePerm {
    pub open spec fn spec_shown(before: MessagePerm, after: MessagePerm) -> bool {
        &&& shown(before.id, after.id)
        &&& after.read == before.read
        &&& after.write == before.write
    }
}

impl Role {
    /// Whether `after` is `before` with the display names of its
    /// identifier, its goals and its belief grants derived.
    pub open spec fn spec_shown(before: Role, after: Role) -> bool {
        &&& shown(before.id, after.id)
        &&& all_shown(before.goals@, after.goals@)
        &&& after.messages@.len() == before.messages@.len()
        &&& forall|i: int|
            0 <= i < before.messages@.len() ==> MessagePerm::spec_shown(
                #[trigger] before.messages@[i],
                after.messages@[i],
            )
    }

    /// Derives the display names of the record and of its references.
    pub fn derive_display_names(&mut self)
        ensures
            Role::spec_shown(*old(self), *final(self)),
    {
        self.id = displayed(&self.id);
        display_all(&mut self.goals);
        let mut i: usize = 0;
        while i < self.messages.len()
            invariant
                i <= self.messages@.len(),
                self.messages@.len() == old(self).messages@.len(),
                forall|k: int|
                    0 <= k < i ==> MessagePerm::spec_shown(
                        #[trigger] old(self).messages@[k],
                        self.messages@[k],
                    ),
                forall|k: int|
                    i <= k < self.messages@.len() ==> self.messages@[k] == old(self).messages@[k],
                shown(old(self).id, self.id),
                all_shown(old(self).goals@, self.goals@),
            decreases self.messages@.len() - i,
        {
            let updated = displayed(&self.messages[i].id);
            self.messages[i].id = updated;
            i = i + 1;
        }
    }
}

impl Resource {
    pub open spec fn spec_shown(before: Resource, after: Resource) -> bool {
        &&& shown(before.id, after.id)
        &&& after.value_type == before.value_type
        &&& after.min == before.min
        &&& after.max == before.max
    }

    /// Derives the display names of the record and of its references.
    pub fn derive_display_names(&mut self)
        ensures
            Resource::spec_shown(*old(self), *final(self)),
    {
        self.id = displayed(&self.id);
    }
}

impl Tactic {
    /// Whether `after` is `before` with the display names of its
    /// identifier, its goal and its plans derived.
    pub open spec fn spec_shown(before: Tactic, after: Tactic) -> bool {
        &&& shown(before.id, after.id)
        &&& after.note == before.note
        &&& shown(before.goal, after.goal)
        &&& after.use_plan_list == before.use_plan_list
        &&& all_shown(before.plan_list@, after.plan_list@)
        &&& after.plan_order == before.plan_order
        &&& after.plan_loop == before.plan_loop
    }

    /// Derives the display names of the record and of its references.
    pub fn derive_display_names(&mut self)
        ensures
            Tactic::spec_shown(*old(self), *final(self)),
    {
        self.id = displayed(&self.id);
        self.goal = displayed(&self.goal);
        display_all(&mut self.plan_list);
    }
}

impl Action {
    /// Whether `after` is `before` with the display names of its
    /// identifier, its request and its reply derived.
    pub open spec fn spec_shown(before: Action, after: Action) -> bool {
        &&& shown(before.id, after.id)
        &&& after.note == before.note
        &&& shown(before.request, after.request)
        &&& shown(before.reply, after.reply)
        &&& after.feedback == before.feedback
    }

    /// Derives the display names of the record and of its references.
    pub fn derive_display_names(&mut self)
        ensures
            Action::spec_shown(*old(self), *final(self)),
    {
        self.id = displayed(&self.id);
        self.request = displayed(&self.request);
        self.reply = displayed(&self.reply);
    }
}

impl EnumField {
    pub open spec fn spec_shown(before: EnumField, after: EnumField) -> bool {
        &&& after.name == before.name
        &&& after.note == before.note
        &&& after.bumpy_case@ == display_name(before.name@)
        &&& after.value == before.value
    }
}

impl Enum {
    /// Whether `after` is `before` with the display names of its
    /// identifier and of its fields derived.
    pub open spec fn spec_shown(before: Enum, after: Enum) -> bool {
        &&& shown(before.id, after.id)
        &&& after.note == before.note
        &&& after.fields@.len() == before.fields@.len()
        &&& forall|i: int|
            0 <= i < before.fields@.len() ==> EnumField::spec_shown(
                #[trigger] before.fields@[i],
                after.fields@[i],
            )
    }

    /// Derives the display names of the record and of its references.
    pub fn derive_display_names(&mut self)
        ensures
            Enum::spec_shown(*old(self), *final(self)),
    {
        self.id = displayed(&self.id);
        let mut i: usize = 0;
        while i < self.fields.len()
            invariant
                i <= self.fields@.len(),
                self.fields@.len() == old(self).fields@.len(),
                forall|k: int|
                    0 <= k < i ==> EnumField::spec_shown(
                        #[trigger] old(self).fields@[k],
                        self.fields@[k],
                    ),
                forall|k: int|
                    i <= k < self.fields@.len() ==> self.fields@[k] == old(self).fields@[k],
                shown(old(self).id, self.id),
                self.note == old(self).note,
            decreases self.fields@.len() - i,
        {
            let updated = convert_to_bumpy_case(self.fields[i].name.as_str());
            self.fields[i].bumpy_case = updated;
            i = i + 1;
        }
    }
}

impl Entity {
    /// Whether `after` is `before` with the display names of its
    /// identifier, its children, its messages and its services derived.
    pub open spec fn spec_shown(before: Entity, after: Entity) -> bool {
        &&& shown(before.id, after.id)
        &&& after.note == before.note
        &&& all_shown(before.children@, after.children@)
        &&& after.agent == before.agent
        &&& all_shown(before.messages@, after.messages@)
        &&& all_shown(before.services@, after.services@)
    }

    /// Derives the display names of the record and of its references.
    pub fn derive_display_names(&mut self)
        ensures
            Entity::spec_shown(*old(self), *final(self)),
    {
        self.id = displayed(&self.id);
        display_all(&mut self.services);
        display_all(&mut self.messages);
        display_all(&mut self.children);
    }
}

impl Event {
    /// Whether `after` is `before` with the display names of its
    /// identifier and of its message derived.
    pub open spec fn spec_shown(before: Event, after: Event) -> bool {
        &&& shown(before.id, after.id)
        &&& after.note == before.note
        &&& after.requires_entity == before.requires_entity
        &&& shown(before.message.id, after.message.id)
        &&& after.message.defaults == before.message.defaults
    }

    /// Derives the display names of the record and of its references.
    pub fn derive_display_names(&mut self)
        ensures
            Event::spec_shown(*old(self), *final(self)),
    {
        self.id = displayed(&self.id);
        self.message.id = displayed(&self.message.id);
    }
}

/// A record whose display names can be derived.
pub trait Displayed: Sized {
    /// Whether `after` is `before` with its display names derived and
    /// nothing else changed.
    spec fn spec_displayed(before: Self, after: Self) -> bool;

    fn display(&mut self)
        ensures
            Self::spec_displayed(*old(self), *final(self)),
    ;
}

impl Displayed for Agent {
    open spec fn spec_displayed(before: Self, after: Self) -> bool {
        Agent::spec_shown(before, after)
    }

    fn display(&mut self) {
        self.derive_display_names();
    }
}

impl Displayed for Service {
    open spec fn spec_displayed(before: Self, after: Self) -> bool {
        Service::spec_shown(before, after)
    }

    fn display(&mut self) {
        self.derive_display_names();
    }
}

impl Displayed for Message {
    open spec fn spec_displayed(before: Self, after: Self) -> bool {
        Message::spec_shown(before, after)
    }

    fn display(&mut self) {
        self.derive_display_names();
    }
}

impl Displayed for Plan {
    open spec fn spec_displayed(before: Self, after: Self) -> bool {
        Plan::spec_shown(before, after)
    }

    fn display(&mut self) {
        self.derive_display_names();
    }
}

impl Displayed for Role {
    open spec fn spec_displayed(before: Self, after: Self) -> bool {
        Role::spec_shown(before, after)
    }

    fn display(&mut self) {
        self.derive_display_names();
    }
}

impl Displayed for Resource {
    open spec fn spec_displayed(before: Self, after: Self) -> bool {
        Resource::spec_shown(before, after)
    }

    fn display(&mut self) {
        self.derive_display_names();
    }
}

impl Displayed for Tactic {
    open spec fn spec_displayed(before: Self, after: Self) -> bool {
        Tactic::spec_shown(before, after)
    }

    fn display(&mut self) {
        self.derive_display_names();
    }
}

impl Displayed for Action {
    open spec fn spec_displayed(before: Self, after: Self) -> bool {
        Action::spec_shown(before, after)
    }

    fn display(&mut self) {
        self.derive_display_names();
    }
}

impl Displayed for Enum {
    open spec fn spec_displayed(before: Self, after: Self) -> bool {
        Enum::spec_shown(before, after)
    }

    fn display(&mut self) {
        self.derive_display_names();
    }
}

impl Displayed for Entity {
    open spec fn spec_displayed(before: Self, after: Self) -> bool {
        Entity::spec_shown(before, after)
    }

    fn display(&mut self) {
        self.derive_display_names();
    }
}

impl Displayed for Event {
    open spec fn spec_displayed(before: Self, after: Self) -> bool {
        Event::spec_shown(before, after)
    }

    fn display(&mut self) {
        self.derive_display_names();
    }
}

/// Whether `after` is `before` with the display names of every record
/// derived.
pub open spec fn all_displayed<T: Displayed>(before: Seq<T>, after: Seq<T>) -> bool {
    &&& after.len() == before.len()
    &&& forall|i: int| 0 <= i < before.len() ==> T::spec_displayed(#[trigger] before[i], after[i])
}

/// Derives the display names of every record of a collection.
pub fn display_records<T: Displayed>(items: &mut Vec<T>)
    ensures
        all_displayed(old(items)@, final(items)@),
{
    let mut i: usize = 0;
    while i < items.len()
        invariant
            i <= items@.len(),
            items@.len() == old(items)@.len(),
            forall|k: int| 0 <= k < i ==> T::spec_displayed(#[trigger] old(items)@[k], items@[k]),
            forall|k: int| i <= k < items@.len() ==> items@[k] == old(items)@[k],
        decreases items@.len() - i,
    {
        items[i].display();
        i = i + 1;
    }
}

/// Whether `after` is `before` with the display names of every goal
/// derived, and every goal without a module put into `module` where the
/// goals are those of an imported module.
pub open spec fn goals_displayed(
    before: Seq<Goal>,
    after: Seq<Goal>,
    is_module: bool,
    module: String,
) -> bool {
    &&& after.len() == before.len()
    &&& forall|i: int|
        0 <= i < before.len() ==> Goal::spec_shown(#[trigger] before[i], after[i], is_module, module)
}

fn display_goals(goals: &mut Vec<Goal>, is_module: bool, module: &String)
    ensures
        goals_displayed(old(goals)@, final(goals)@, is_module, *module),
{
    let mut i: usize = 0;
    while i < goals.len()
        invariant
            i <= goals@.len(),
            goals@.len() == old(goals)@.len(),
            forall|k: int|
                0 <= k < i ==> Goal::spec_shown(
                    #[trigger] old(goals)@[k],
                    goals@[k],
                    is_module,
                    *module,
                ),
            forall|k: int| i <= k < goals@.len() ==> goals@[k] == old(goals)@[k],
        decreases goals@.len() - i,
    {
        goals[i].derive_display_names(is_module, module);
        i = i + 1;
    }
}

impl Model {
    /// Whether `after` is `before` with every display name derived from
    /// the name it belongs to, and nothing else changed but the module of
    /// goals: where `is_module` says that the model is an imported module,
    /// a goal that names no module is put into the model's own.
    pub open spec fn spec_displayed(before: Model, after: Model, is_module: bool) -> bool {
        &&& Project::spec_shown(before.project, after.project)
        &&& all_displayed(before.enums@, after.enums@)
        &&& all_displayed(before.teams@, after.teams@)
        &&& all_displayed(before.agents@, after.agents@)
        &&& all_displayed(before.tactics@, after.tactics@)
        &&& all_displayed(before.roles@, after.roles@)
        &&& all_displayed(before.resources@, after.resources@)
        &&& all_displayed(before.actions@, after.actions@)
        &&& goals_displayed(before.goals@, after.goals@, is_module, before.project.name)
        &&& all_displayed(before.plans@, after.plans@)
        &&& all_displayed(before.messages@, after.messages@)
        &&& all_displayed(before.services@, after.services@)
        &&& all_displayed(before.entities@, after.entities@)
        &&& all_displayed(before.events@, after.events@)
    }

    /// Derives every display name of the model. This is the one step in
    /// which a model that was read is completed rather than checked.
    pub fn derive_display_names(&mut self, is_module: bool)
        ensures
            Model::spec_displayed(*old(self), *final(self), is_module),
    {
        self.project.bumpy_case = replace_char(self.project.name.as_str(), ' ', '_');
        display_records(&mut self.teams);
        display_records(&mut self.agents);
        display_records(&mut self.services);
        display_records(&mut self.messages);
        let module = self.project.name.clone();
        display_goals(&mut self.goals, is_module, &module);
        display_records(&mut self.plans);
        display_records(&mut self.roles);
        display_records(&mut self.resources);
        display_records(&mut self.tactics);
        display_records(&mut self.actions);
        display_records(&mut self.enums);
        display_records(&mut self.entities);
        display_records(&mut self.events);
    }
}

} // verus!
