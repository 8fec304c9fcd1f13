//! The kinds of named concept, and what every declaration of one has.

use crate::identifier::Identifier;
use crate::schema::{
    Action, Agent, AgentGoal, Entity, Enum, EnumField, Event, EventMessageDefaultValue, Field,
    Goal, Message, MessagePerm, Plan, Resource, Role, Service, Tactic,
};
use vstd::prelude::*;

verus! {

/// The kinds of named concept that a model declares.
#[derive(Debug, Clone, Copy, PartialEq, Eq, Structural)]
pub enum ModelConcept {
    Nil,
    Team,
    Agent,
    Message,
    Goal,
    Plan,
    Role,
    Resource,
    Tactic,
    Action,
    Service,
    Enum,
    Event,
    Count,
}

impl Default for ModelConcept {
    fn default() -> (r: Self)
        ensures
            r == ModelConcept::Nil,
    {
        ModelConcept::Nil
    }
}

/// What the uniform checks need to know of a kind of concept: the first
/// segment of the paths of its declarations, and the name that no
/// declaration of the kind may take.
#[derive(Debug, Clone, Copy)]
pub struct ModelErrorMetadata {
    pub concept: ModelConcept,
    pub error_key: &'static str,
    pub reserved_name: &'static str,
}

impl ModelConcept {
    /// The first path segment of the declarations of the kind.
    pub open spec fn spec_error_key(self) -> Seq<char> {
        match self {
            ModelConcept::Nil => "nils"@,
            ModelConcept::Team => "teams"@,
            ModelConcept::Agent => "agents"@,
            ModelConcept::Message => "messages"@,
            ModelConcept::Goal => "goals"@,
            ModelConcept::Plan => "plans"@,
            ModelConcept::Role => "roles"@,
            ModelConcept::Resource => "resources"@,
            ModelConcept::Tactic => "tactics"@,
            ModelConcept::Action => "actions"@,
            ModelConcept::Service => "services"@,
            ModelConcept::Enum => "enums"@,
            ModelConcept::Event => "events"@,
            ModelConcept::Count => "counts"@,
        }
    }

    /// The name of the kind, which is reserved: no declaration of the kind
    /// may be named so.
    pub open spec fn spec_reserved_name(self) -> Seq<char> {
        match self {
            ModelConcept::Nil => "Nil"@,
            ModelConcept::Team => "Team"@,
            ModelConcept::Agent => "Agent"@,
            ModelConcept::Message => "Message"@,
            ModelConcept::Goal => "Goal"@,
            ModelConcept::Plan => "Plan"@,
            ModelConcept::Role => "Role"@,
            ModelConcept::Resource => "Resource"@,
            ModelConcept::Tactic => "Tactic"@,
            ModelConcept::Action => "Action"@,
            ModelConcept::Service => "Service"@,
            ModelConcept::Enum => "Enum"@,
            ModelConcept::Event => "Event"@,
            ModelConcept::Count => "Count"@,
        }
    }

    /// The metadata record of the kind.
    pub fn metadata(self) -> (r: ModelErrorMetadata)
        ensures
            r.concept == self,
            r.error_key@ == self.spec_error_key(),
            r.reserved_name@ == self.spec_reserved_name(),
    {
        match self {
            ModelConcept::Nil => ModelErrorMetadata {
                concept: self,
                error_key: "nils",
                reserved_name: "Nil",
            },
            ModelConcept::Team => ModelErrorMetadata {
                concept: self,
                error_key: "teams",
                reserved_name: "Team",
            },
            ModelConcept::Agent => ModelErrorMetadata {
                concept: self,
                error_key: "agents",
                reserved_name: "Agent",
            },
            ModelConcept::Message => ModelErrorMetadata {
                concept: self,
                error_key: "messages",
                reserved_name: "Message",
            },
            ModelConcept::Goal => ModelErrorMetadata {
                concept: self,
                error_key: "goals",
                reserved_name: "Goal",
            },
            ModelConcept::Plan => ModelErrorMetadata {
                concept: self,
                error_key: "plans",
                reserved_name: "Plan",
            },
            ModelConcept::Role => ModelErrorMetadata {
                concept: self,
                error_key: "roles",
                reserved_name: "Role",
            },
            ModelConcept::Resource => ModelErrorMetadata {
                concept: self,
                error_key: "resources",
                reserved_name: "Resource",
            },
            ModelConcept::Tactic => ModelErrorMetadata {
                concept: self,
                error_key: "tactics",
                reserved_name: "Tactic",
            },
            ModelConcept::Action => ModelErrorMetadata {
                concept: self,
                error_key: "actions",
                reserved_name: "Action",
            },
            ModelConcept::Service => ModelErrorMetadata {
                concept: self,
                error_key: "services",
                reserved_name: "Service",
            },
            ModelConcept::Enum => ModelErrorMetadata {
                concept: self,
                error_key: "enums",
                reserved_name: "Enum",
            },
            ModelConcept::Event => ModelErrorMetadata {
                concept: self,
                error_key: "events",
                reserved_name: "Event",
            },
            ModelConcept::Count => ModelErrorMetadata {
                concept: self,
                error_key: "counts",
                reserved_name: "Count",
            },
        }
    }
}

/// A record that carries an identifier: a declaration, or a reference to
/// one.
pub trait Identified {
    /// The identifier that the record carries.
    spec fn spec_id(&self) -> Identifier;

    fn get_id(&self) -> (r: &Identifier)
        ensures
            *r == self.spec_id(),
    ;
}

/// Whether one of `items` carries the identity `uuid`.
pub open spec fn has_identity<T: Identified>(items: Seq<T>, uuid: Seq<char>) -> bool {
    exists|i: int| 0 <= i < items.len() && (#[trigger] items[i]).spec_id().uuid@ == uuid
}

/// The position of the first of `items`, from `start` on, that carries the
/// identity `uuid`; the length of `items` where there is none.
pub open spec fn position_from<T: Identified>(items: Seq<T>, uuid: Seq<char>, start: int) -> int
    decreases items.len() - start,
{
    if start < 0 || start >= items.len() {
        items.len() as int
    } else if items[start].spec_id().uuid@ == uuid {
        start
    } else {
        position_from(items, uuid, start + 1)
    }
}

/// The position of the first of `items` that carries the identity `uuid`;
/// the length of `items` where there is none.
pub open spec fn first_position<T: Identified>(items: Seq<T>, uuid: Seq<char>) -> int {
    position_from(items, uuid, 0)
}

/// `position_from` finds the first item with the identity `uuid` at or after
/// `start`, and a position inside `items` exactly when there is one.
pub proof fn lemma_position_from<T: Identified>(items: Seq<T>, uuid: Seq<char>, start: int)
    requires
        0 <= start <= items.len(),
    ensures
        start <= position_from(items, uuid, start) <= items.len(),
        position_from(items, uuid, start) < items.len() ==> items[position_from(
            items,
            uuid,
            start,
        )].spec_id().uuid@ == uuid,
        forall|j: int|
            start <= j < position_from(items, uuid, start) ==> (#[trigger] items[j]).spec_id().uuid@
                != uuid,
    decreases items.len() - start,
{
    if start < items.len() && items[start].spec_id().uuid@ != uuid {
        lemma_position_from(items, uuid, start + 1);
    }
}

/// An item with the identity `uuid` exists exactly when `first_position`
/// lies inside `items`.
pub proof fn lemma_first_position<T: Identified>(items: Seq<T>, uuid: Seq<char>)
    ensures
        0 <= first_position(items, uuid) <= items.len(),
        has_identity(items, uuid) <==> first_position(items, uuid) < items.len(),
        first_position(items, uuid) < items.len() ==> items[first_position(
            items,
            uuid,
        )].spec_id().uuid@ == uuid,
        forall|j: int|
            0 <= j < first_position(items, uuid) ==> (#[trigger] items[j]).spec_id().uuid@ != uuid,
{
    lemma_position_from(items, uuid, 0);
}

/// Finds the first of `items` that carries the identity of `id`.
pub fn position<T: Identified>(items: &Vec<T>, id: &Identifier) -> (r: Option<usize>)
    ensures
        r is Some <==> has_identity(items@, id.uuid@),
        r is Some ==> r->0 < items@.len() && r->0 as int == first_position(items@, id.uuid@),
        r is None ==> first_position(items@, id.uuid@) == items@.len(),
{
    proof {
        lemma_first_position(items@, id.uuid@);
    }
    let mut i: usize = 0;
    while i < items.len()
        invariant
            i <= items@.len(),
            position_from(items@, id.uuid@, 0) == position_from(items@, id.uuid@, i as int),
        decreases items@.len() - i,
    {
        if items[i].get_id() == id {
            return Some(i);
        }
        i = i + 1;
    }
    None
}

impl Identified for Agent {
    open spec fn spec_id(&self) -> Identifier {
        self.id
    }

    fn get_id(&self) -> (r: &Identifier) {
        &self.id
    }
}

impl Identified for Message {
    open spec fn spec_id(&self) -> Identifier {
        self.id
    }

    fn get_id(&self) -> (r: &Identifier) {
        &self.id
    }
}

impl Identified for Goal {
    open spec fn spec_id(&self) -> Identifier {
        self.id
    }

    fn get_id(&self) -> (r: &Identifier) {
        &self.id
    }
}

impl Identified for Plan {
    open spec fn spec_id(&self) -> Identifier {
        self.id
    }

    fn get_id(&self) -> (r: &Identifier) {
        &self.id
    }
}

impl Identified for Role {
    open spec fn spec_id(&self) -> Identifier {
        self.id
    }

    fn get_id(&self) -> (r: &Identifier) {
        &self.id
    }
}

impl Identified for Resource {
    open spec fn spec_id(&self) -> Identifier {
        self.id
    }

    fn get_id(&self) -> (r: &Identifier) {
        &self.id
    }
}

impl Identified for Tactic {
    open spec fn spec_id(&self) -> Identifier {
        self.id
    }

    fn get_id(&self) -> (r: &Identifier) {
        &self.id
    }
}

impl Identified for Action {
    open spec fn spec_id(&self) -> Identifier {
        self.id
    }

    fn get_id(&self) -> (r: &Identifier) {
        &self.id
    }
}

impl Identified for Service {
    open spec fn spec_id(&self) -> Identifier {
        self.id
    }

    fn get_id(&self) -> (r: &Identifier) {
        &self.id
    }
}

impl Identified for Enum {
    open spec fn spec_id(&self) -> Identifier {
        self.id
    }

    fn get_id(&self) -> (r: &Identifier) {
        &self.id
    }
}

impl Identified for Event {
    open spec fn spec_id(&self) -> Identifier {
        self.id
    }

    fn get_id(&self) -> (r: &Identifier) {
        &self.id
    }
}

impl Identified for Entity {
    open spec fn spec_id(&self) -> Identifier {
        self.id
    }

    fn get_id(&self) -> (r: &Identifier) {
        &self.id
    }
}

impl Identified for AgentGoal {
    open spec fn spec_id(&self) -> Identifier {
        self.id
    }

    fn get_id(&self) -> (r: &Identifier) {
        &self.id
    }
}

impl Identified for MessagePerm {
    open spec fn spec_id(&self) -> Identifier {
        self.id
    }

    fn get_id(&self) -> (r: &Identifier) {
        &self.id
    }
}

impl Identified for Identifier {
    open spec fn spec_id(&self) -> Identifier {
        *self
    }

    fn get_id(&self) -> (r: &Identifier) {
        self
    }
}

/// A record that is told apart from its neighbours by a name.
pub trait Named {
    /// The name of the record.
    spec fn spec_name(&self) -> Seq<char>;

    fn get_name(&self) -> (r: &String)
        ensures
            r@ == self.spec_name(),
    ;
}

/// The position of the first of `items`, from `start` on, with the name
/// `name`; the length of `items` where there is none.
pub open spec fn name_position_from<T: Named>(items: Seq<T>, name: Seq<char>, start: int) -> int
    decreases items.len() - start,
{
    if start < 0 || start >= items.len() {
        items.len() as int
    } else if items[start].spec_name() == name {
        start
    } else {
        name_position_from(items, name, start + 1)
    }
}

/// The position of the first of `items` with the name `name`; the length of
/// `items` where there is none.
pub open spec fn first_named<T: Named>(items: Seq<T>, name: Seq<char>) -> int {
    name_position_from(items, name, 0)
}

/// `name_position_from` finds the first item named `name` at or after
/// `start`, and a position inside `items` exactly when there is one.
pub proof fn lemma_name_position_from<T: Named>(items: Seq<T>, name: Seq<char>, start: int)
    requires
        0 <= start <= items.len(),
    ensures
        start <= name_position_from(items, name, start) <= items.len(),
        name_position_from(items, name, start) < items.len() ==> items[name_position_from(
            items,
            name,
            start,
        )].spec_name() == name,
        forall|j: int|
            start <= j < name_position_from(items, name, start) ==> (#[trigger] items[j]).spec_name()
                != name,
    decreases items.len() - start,
{
    if start < items.len() && items[start].spec_name() != name {
        lemma_name_position_from(items, name, start + 1);
    }
}

/// Finds the first of `items` with the name `name`.
pub fn named_position<T: Named>(items: &Vec<T>, name: &String) -> (r: Option<usize>)
    ensures
        r is Some ==> r->0 < items@.len() && r->0 as int == first_named(items@, name@),
        r is None ==> first_named(items@, name@) == items@.len(),
{
    let mut i: usize = 0;
    while i < items.len()
        invariant
            i <= items@.len(),
            name_position_from(items@, name@, 0) == name_position_from(items@, name@, i as int),
        decreases items@.len() - i,
    {
        if *items[i].get_name() == *name {
            return Some(i);
        }
        i = i + 1;
    }
    None
}

impl Named for Field {
    open spec fn spec_name(&self) -> Seq<char> {
        self.name@
    }

    fn get_name(&self) -> (r: &String) {
        &self.name
    }
}

impl Named for EnumField {
    open spec fn spec_name(&self) -> Seq<char> {
        self.name@
    }

    fn get_name(&self) -> (r: &String) {
        &self.name
    }
}

impl Named for EventMessageDefaultValue {
    open spec fn spec_name(&self) -> Seq<char> {
        self.name@
    }

    fn get_name(&self) -> (r: &String) {
        &self.name
    }
}

} // verus!
