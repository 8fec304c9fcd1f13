//! Giving the declarations of a module identities of their own, from a
//! supply of fresh ones: every declaration takes the next of the supply, in
//! the order of the collections, and an entity takes one more for each of
//! its children.

use crate::concept::Identified;
use crate::identifier::Identifier;
use crate::migration::{ModuleIdentifiers_0_6_0, ModuleSymbols};
use crate::model::Model;
use crate::repoint::ids_of;
use crate::schema::{
    Action, Agent, Entity, Enum, Goal, Message, Plan, Resource, Role, Service, Tactic,
};
use vstd::prelude::*;

verus! {

/// A record that can be given an identity.
pub trait Renewed: Identified + Sized {
    /// Whether `after` is `before` under the identity `uuid`: nothing else
    /// of it has changed, its name least of all.
    spec fn spec_renewed(before: Self, after: Self, uuid: Seq<char>) -> bool;

    /// Gives the record the identity `uuid`.
    fn renew(&mut self, uuid: String)
        ensures
            Self::spec_renewed(*old(self), *final(self), uuid@),
    ;

    /// A record that was given an identity carries it, under the name it
    /// had.
    proof fn lemma_renewed(before: Self, after: Self, uuid: Seq<char>)
        requires
            Self::spec_renewed(before, after, uuid),
        ensures
            after.spec_id().uuid@ == uuid,
            after.spec_id().name == before.spec_id().name,
    ;
}

impl Renewed for Identifier {
    open spec fn spec_renewed(before: Self, after: Self, uuid: Seq<char>) -> bool {
        after.uuid@ == uuid && after == (Identifier { uuid: after.uuid, ..before })
    }

    fn renew(&mut self, uuid: String) {
        self.uuid = uuid;
    }

    proof fn lemma_renewed(before: Self, after: Self, uuid: Seq<char>) {
    }
}

impl Renewed for Enum {
    open spec fn spec_renewed(before: Self, after: Self, uuid: Seq<char>) -> bool {
        Identifier::spec_renewed(before.id, after.id, uuid) && after == (Enum {
            id: after.id,
            ..before
        })
    }

    fn renew(&mut self, uuid: String) {
        self.id.uuid = uuid;
    }

    proof fn lemma_renewed(before: Self, after: Self, uuid: Seq<char>) {
    }
}

impl Renewed for Message {
    open spec fn spec_renewed(before: Self, after: Self, uuid: Seq<char>) -> bool {
        Identifier::spec_renewed(before.id, after.id, uuid) && after == (Message {
            id: after.id,
            ..before
        })
    }

    fn renew(&mut self, uuid: String) {
        self.id.uuid = uuid;
    }

    proof fn lemma_renewed(before: Self, after: Self, uuid: Seq<char>) {
    }
}

impl Renewed for Action {
    open spec fn spec_renewed(before: Self, after: Self, uuid: Seq<char>) -> bool {
        Identifier::spec_renewed(before.id, after.id, uuid) && after == (Action {
            id: after.id,
            ..before
        })
    }

    fn renew(&mut self, uuid: String) {
        self.id.uuid = uuid;
    }

    proof fn lemma_renewed(before: Self, after: Self, uuid: Seq<char>) {
    }
}

impl Renewed for Resource {
    open spec fn spec_renewed(before: Self, after: Self, uuid: Seq<char>) -> bool {
        Identifier::spec_renewed(before.id, after.id, uuid) && after == (Resource {
            id: after.id,
            ..before
        })
    }

    fn renew(&mut self, uuid: String) {
        self.id.uuid = uuid;
    }

    proof fn lemma_renewed(before: Self, after: Self, uuid: Seq<char>) {
    }
}

impl Renewed for Service {
    open spec fn spec_renewed(before: Self, after: Self, uuid: Seq<char>) -> bool {
        Identifier::spec_renewed(before.id, after.id, uuid) && after == (Service {
            id: after.id,
            ..before
        })
    }

    fn renew(&mut self, uuid: String) {
        self.id.uuid = uuid;
    }

    proof fn lemma_renewed(before: Self, after: Self, uuid: Seq<char>) {
    }
}

impl Renewed for Goal {
    open spec fn spec_renewed(before: Self, after: Self, uuid: Seq<char>) -> bool {
        Identifier::spec_renewed(before.id, after.id, uuid) && after == (Goal {
            id: after.id,
            ..before
        })
    }

    fn renew(&mut self, uuid: String) {
        self.id.uuid = uuid;
    }

    proof fn lemma_renewed(before: Self, after: Self, uuid: Seq<char>) {
    }
}

impl Renewed for Plan {
    open spec fn spec_renewed(before: Self, after: Self, uuid: Seq<char>) -> bool {
        Identifier::spec_renewed(before.id, after.id, uuid) && after == (Plan {
            id: after.id,
            ..before
        })
    }

    fn renew(&mut self, uuid: String) {
        self.id.uuid = uuid;
    }

    proof fn lemma_renewed(before: Self, after: Self, uuid: Seq<char>) {
    }
}

impl Renewed for Role {
    open spec fn spec_renewed(before: Self, after: Self, uuid: Seq<char>) -> bool {
        Identifier::spec_renewed(before.id, after.id, uuid) && after == (Role {
            id: after.id,
            ..before
        })
    }

    fn renew(&mut self, uuid: String) {
        self.id.uuid = uuid;
    }

    proof fn lemma_renewed(before: Self, after: Self, uuid: Seq<char>) {
    }
}

impl Renewed for Tactic {
    open spec fn spec_renewed(before: Self, after: Self, uuid: Seq<char>) -> bool {
        Identifier::spec_renewed(before.id, after.id, uuid) && after == (Tactic {
            id: after.id,
            ..before
        })
    }

    fn renew(&mut self, uuid: String) {
        self.id.uuid = uuid;
    }

    proof fn lemma_renewed(before: Self, after: Self, uuid: Seq<char>) {
    }
}

impl Renewed for Agent {
    open spec fn spec_renewed(before: Self, after: Self, uuid: Seq<char>) -> bool {
        Identifier::spec_renewed(before.id, after.id, uuid) && after == (Agent {
            id: after.id,
            ..before
        })
    }

    fn renew(&mut self, uuid: String) {
        self.id.uuid = uuid;
    }

    proof fn lemma_renewed(before: Self, after: Self, uuid: Seq<char>) {
    }
}

/// Whether the records of `after` are those of `before`, the record at
/// `k` under the identity at `start + k` of the supply.
pub open spec fn all_renewed<T: Renewed>(
    before: Seq<T>,
    after: Seq<T>,
    fresh: Seq<String>,
    start: int,
) -> bool {
    &&& after.len() == before.len()
    &&& forall|k: int|
        0 <= k < before.len() ==> T::spec_renewed(
            #[trigger] before[k],
            after[k],
            fresh[start + k]@,
        )
}

/// Gives every record of a collection an identity of the supply, from
/// `start` on.
pub fn renew_records<T: Renewed>(items: &mut Vec<T>, fresh: &Vec<String>, start: usize)
    requires
        start + old(items)@.len() <= fresh@.len(),
    ensures
        all_renewed(old(items)@, final(items)@, fresh@, start as int),
{
    let supply = fresh.len();
    let mut i: usize = 0;
    while i < items.len()
        invariant
            i <= items@.len(),
            items@.len() == old(items)@.len(),
            start + items@.len() <= fresh@.len(),
            fresh@.len() == supply,
            forall|k: int|
                0 <= k < i ==> T::spec_renewed(
                    #[trigger] old(items)@[k],
                    items@[k],
                    fresh@[start + k]@,
                ),
            forall|k: int| i <= k < items@.len() ==> items@[k] == old(items)@[k],
        decreases items@.len() - i,
    {
        items[i].renew(fresh[start + i].clone());
        i = i + 1;
    }
}

/// Whether no two identities of the supply are the same.
pub open spec fn all_distinct(fresh: Seq<String>) -> bool {
    forall|i: int, j: int| 0 <= i < j < fresh.len() ==> (#[trigger] fresh[i])@ != (#[trigger] fresh[j])@
}

/// Records that were given identities of a supply in which no two are the
/// same can be told apart by identity, and each has the name it had.
pub proof fn renewed_records_are_told_apart<T: Renewed>(
    before: Seq<T>,
    after: Seq<T>,
    fresh: Seq<String>,
    start: int,
)
    requires
        all_renewed(before, after, fresh, start),
        all_distinct(fresh),
        0 <= start,
        start + before.len() <= fresh.len(),
    ensures
        forall|i: int, j: int|
            0 <= i < j < after.len() ==> (#[trigger] after[i]).spec_id().uuid@ != (
            #[trigger] after[j]).spec_id().uuid@,
        forall|i: int|
            0 <= i < after.len() ==> (#[trigger] after[i]).spec_id().name
                == before[i].spec_id().name,
{
    assert forall|i: int, j: int| 0 <= i < j < after.len() implies (
    #[trigger] after[i]).spec_id().uuid@ != (#[trigger] after[j]).spec_id().uuid@ by {
        T::lemma_renewed(before[i], after[i], fresh[start + i]@);
        T::lemma_renewed(before[j], after[j], fresh[start + j]@);
    }
    assert forall|i: int| 0 <= i < after.len() implies (#[trigger] after[i]).spec_id().name
        == before[i].spec_id().name by {
        T::lemma_renewed(before[i], after[i], fresh[start + i]@);
    }
}

/// How many identities the first `n` entities take: one each, and one for
/// each of their children.
pub open spec fn entities_need(entities: Seq<Entity>, n: int) -> int
    decreases n,
{
    if n <= 0 {
        0
    } else {
        entities_need(entities, n - 1) + 1 + entities[n - 1].children@.len()
    }
}

/// The more entities, the more identities.
pub proof fn lemma_entities_need(entities: Seq<Entity>, i: int, n: int)
    requires
        0 <= i <= n,
    ensures
        0 <= entities_need(entities, i) <= entities_need(entities, n),
    decreases n,
{
    if i < n {
        lemma_entities_need(entities, i, n - 1);
    } else if n > 0 {
        lemma_entities_need(entities, i - 1, n - 1);
    }
}

impl Entity {
    /// Whether `after` is the entity `before` under the identity at `start`
    /// of the supply, its children under those that follow.
    pub open spec fn spec_renewed(
        before: Entity,
        after: Entity,
        fresh: Seq<String>,
        start: int,
    ) -> bool {
        &&& Identifier::spec_renewed(before.id, after.id, fresh[start]@)
        &&& all_renewed(before.children@, after.children@, fresh, start + 1)
        &&& after == (Entity { id: after.id, children: after.children, ..before })
    }

    /// Gives the entity and its children identities of the supply, from
    /// `start` on.
    pub fn renew(&mut self, fresh: &Vec<String>, start: usize)
        requires
            start + 1 + old(self).children@.len() <= fresh@.len(),
        ensures
            Entity::spec_renewed(*old(self), *final(self), fresh@, start as int),
    {
        let supply = fresh.len();
        assert(start + 1 <= supply);
        self.id.uuid = fresh[start].clone();
        renew_records(&mut self.children, fresh, start + 1);
    }
}

/// Whether the entities of `after` are those of `before`, each under the
/// identities that follow those of the entities before it.
pub open spec fn entities_renewed(
    before: Seq<Entity>,
    after: Seq<Entity>,
    fresh: Seq<String>,
    start: int,
) -> bool {
    &&& after.len() == before.len()
    &&& forall|k: int|
        0 <= k < before.len() ==> Entity::spec_renewed(
            #[trigger] before[k],
            after[k],
            fresh,
            start + entities_need(before, k),
        )
}

/// Gives every entity and its children identities of the supply, from
/// `start` on.
pub fn renew_entities(entities: &mut Vec<Entity>, fresh: &Vec<String>, start: usize)
    requires
        start + entities_need(old(entities)@, old(entities)@.len() as int) <= fresh@.len(),
    ensures
        entities_renewed(old(entities)@, final(entities)@, fresh@, start as int),
{
    let supply = fresh.len();
    let mut i: usize = 0;
    let mut next: usize = start;
    while i < entities.len()
        invariant
            i <= entities@.len(),
            fresh@.len() == supply,
            entities@.len() == old(entities)@.len(),
            next == start + entities_need(old(entities)@, i as int),
            start + entities_need(old(entities)@, old(entities)@.len() as int) <= fresh@.len(),
            forall|k: int|
                0 <= k < i ==> Entity::spec_renewed(
                    #[trigger] old(entities)@[k],
                    entities@[k],
                    fresh@,
                    start + entities_need(old(entities)@, k),
                ),
            forall|k: int| i <= k < entities@.len() ==> entities@[k] == old(entities)@[k],
        decreases entities@.len() - i,
    {
        proof {
            lemma_entities_need(old(entities)@, i + 1, old(entities)@.len() as int);
        }
        let took: usize = entities[i].children.len();
        entities[i].renew(fresh, next);
        next = next + 1 + took;
        i = i + 1;
    }
}

impl Model {
    /// How many identities the declarations of the module take.
    pub open spec fn spec_identities_needed(&self) -> int {
        self.enums@.len() + self.messages@.len() + entities_need(
            self.entities@,
            self.entities@.len() as int,
        ) + self.actions@.len() + self.resources@.len() + self.services@.len() + self.goals@.len()
            + self.plans@.len() + self.roles@.len() + self.tactics@.len() + self.agents@.len()
            + self.teams@.len()
    }

    /// Whether `after` is the module `before` with identities of the supply
    /// given to its declarations: to the enums first, then to the messages,
    /// the entities with their children, the actions, resources, services,
    /// goals, plans, roles, tactics, agents and teams, each collection in
    /// the order of declaration. Names, order and everything else stay.
    pub open spec fn spec_renewed(before: Model, after: Model, fresh: Seq<String>) -> bool {
        let messages = before.enums@.len();
        let entities = messages + before.messages@.len();
        let actions = entities + entities_need(before.entities@, before.entities@.len() as int);
        let resources = actions + before.actions@.len();
        let services = resources + before.resources@.len();
        let goals = services + before.services@.len();
        let plans = goals + before.goals@.len();
        let roles = plans + before.plans@.len();
        let tactics = roles + before.roles@.len();
        let agents = tactics + before.tactics@.len();
        let teams = agents + before.agents@.len();
        &&& after.project == before.project
        &&& after.events == before.events
        &&& all_renewed(before.enums@, after.enums@, fresh, 0)
        &&& all_renewed(before.messages@, after.messages@, fresh, messages as int)
        &&& entities_renewed(before.entities@, after.entities@, fresh, entities as int)
        &&& all_renewed(before.actions@, after.actions@, fresh, actions as int)
        &&& all_renewed(before.resources@, after.resources@, fresh, resources as int)
        &&& all_renewed(before.services@, after.services@, fresh, services as int)
        &&& all_renewed(before.goals@, after.goals@, fresh, goals as int)
        &&& all_renewed(before.plans@, after.plans@, fresh, plans as int)
        &&& all_renewed(before.roles@, after.roles@, fresh, roles as int)
        &&& all_renewed(before.tactics@, after.tactics@, fresh, tactics as int)
        &&& all_renewed(before.agents@, after.agents@, fresh, agents as int)
        &&& all_renewed(before.teams@, after.teams@, fresh, teams as int)
    }

    /// Whether a supply of `supply` identities is enough for the
    /// declarations of the module.
    pub fn has_identities_enough(&self, supply: usize) -> (r: bool)
        ensures
            r == (self.spec_identities_needed() <= supply),
    {
        proof {
            lemma_entities_need(self.entities@, 0, self.entities@.len() as int);
        }
        let mut left: usize = supply;
        if self.enums.len() > left {
            return false;
        }
        left = left - self.enums.len();
        if self.messages.len() > left {
            return false;
        }
        left = left - self.messages.len();
        let ghost taken: int = (self.enums@.len() + self.messages@.len()) as int;
        let mut i: usize = 0;
        while i < self.entities.len()
            invariant
                i <= self.entities@.len(),
                left + taken + entities_need(self.entities@, i as int) == supply,
                taken == self.enums@.len() + self.messages@.len(),
                entities_need(self.entities@, i as int) >= 0,
            decreases self.entities@.len() - i,
        {
            proof {
                lemma_entities_need(self.entities@, i + 1, self.entities@.len() as int);
            }
            if left == 0 {
                return false;
            }
            left = left - 1;
            if self.entities[i].children.len() > left {
                return false;
            }
            left = left - self.entities[i].children.len();
            i = i + 1;
        }
        if self.actions.len() > left {
            return false;
        }
        left = left - self.actions.len();
        if self.resources.len() > left {
            return false;
        }
        left = left - self.resources.len();
        if self.services.len() > left {
            return false;
        }
        left = left - self.services.len();
        if self.goals.len() > left {
            return false;
        }
        left = left - self.goals.len();
        if self.plans.len() > left {
            return false;
        }
        left = left - self.plans.len();
        if self.roles.len() > left {
            return false;
        }
        left = left - self.roles.len();
        if self.tactics.len() > left {
            return false;
        }
        left = left - self.tactics.len();
        if self.agents.len() > left {
            return false;
        }
        left = left - self.agents.len();
        if self.teams.len() > left {
            return false;
        }
        left = left - self.teams.len();
        true
    }

    /// Gives the declarations of the module identities of the supply, where
    /// the supply is enough for them; else the module stays as it is. The
    /// result says whether the identities were given.
    pub fn renew_identities(&mut self, fresh: &Vec<String>) -> (r: bool)
        ensures
            r == (old(self).spec_identities_needed() <= fresh@.len()),
            r ==> Model::spec_renewed(*old(self), *final(self), fresh@),
            !r ==> *final(self) == *old(self),
    {
        if !self.has_identities_enough(fresh.len()) {
            return false;
        }
        proof {
            lemma_entities_need(self.entities@, 0, self.entities@.len() as int);
        }
        let supply = fresh.len();
        let mut next: usize = 0;
        let took: usize = self.enums.len();
        renew_records(&mut self.enums, fresh, next);
        next = next + took;
        let took: usize = self.messages.len();
        renew_records(&mut self.messages, fresh, next);
        next = next + took;
        let ghost needed = entities_need(self.entities@, self.entities@.len() as int);
        let mut took: usize = 0;
        let mut i: usize = 0;
        while i < self.entities.len()
            invariant
                i <= self.entities@.len(),
                took == entities_need(self.entities@, i as int),
                next + needed <= fresh@.len(),
                fresh@.len() == supply,
                needed == entities_need(self.entities@, self.entities@.len() as int),
            decreases self.entities@.len() - i,
        {
            proof {
                lemma_entities_need(self.entities@, i + 1, self.entities@.len() as int);
            }
            took = took + 1 + self.entities[i].children.len();
            i = i + 1;
        }
        renew_entities(&mut self.entities, fresh, next);
        next = next + took;
        let took: usize = self.actions.len();
        renew_records(&mut self.actions, fresh, next);
        next = next + took;
        let took: usize = self.resources.len();
        renew_records(&mut self.resources, fresh, next);
        next = next + took;
        let took: usize = self.services.len();
        renew_records(&mut self.services, fresh, next);
        next = next + took;
        let took: usize = self.goals.len();
        renew_records(&mut self.goals, fresh, next);
        next = next + took;
        let took: usize = self.plans.len();
        renew_records(&mut self.plans, fresh, next);
        next = next + took;
        let took: usize = self.roles.len();
        renew_records(&mut self.roles, fresh, next);
        next = next + took;
        let took: usize = self.tactics.len();
        renew_records(&mut self.tactics, fresh, next);
        next = next + took;
        let took: usize = self.agents.len();
        renew_records(&mut self.agents, fresh, next);
        next = next + took;
        let took: usize = self.teams.len();
        renew_records(&mut self.teams, fresh, next);
        next = next + took;
        true
    }
}

/// Whether `row` holds the identifiers of the messages, actions, goals,
/// services and entities of `model`, as they are.
pub open spec fn is_own_row(model: Model, row: ModuleIdentifiers_0_6_0) -> bool {
    &&& row.messages@ == ids_of(model.messages@)
    &&& row.actions@ == ids_of(model.actions@)
    &&& row.goals@ == ids_of(model.goals@)
    &&& row.services@ == ids_of(model.services@)
    &&& row.entities@ == ids_of(model.entities@)
}

impl Model {
    /// Whether `after` is the module `before` brought to identities: first
    /// its declarations were given identities of the supply; then its
    /// references were given the identities of what they name, looked up
    /// among the declarations of the module and in a table that holds the
    /// module's own row, under no module name, before the rows of the
    /// modules it imports.
    pub open spec fn spec_identified(
        before: Model,
        after: Model,
        imported: Seq<ModuleSymbols>,
        fresh: Seq<String>,
    ) -> bool {
        exists|renewed: Model, own: ModuleSymbols|
            {
                &&& #[trigger] Model::spec_renewed(before, renewed, fresh)
                &&& own.module@.len() == 0
                &&& is_own_row(renewed, own.identifiers)
                &&& #[trigger] Model::spec_repointed(renewed, after, seq![own] + imported)
            }
    }

    /// Brings the module to identities where the supply is enough for its
    /// declarations; else the module stays as it is. `imported` holds the
    /// rows of the modules that it imports. The result says whether the
    /// module was changed.
    pub fn identify(&mut self, imported: Vec<ModuleSymbols>, fresh: &Vec<String>) -> (r: bool)
        ensures
            r == (old(self).spec_identities_needed() <= fresh@.len()),
            r ==> Model::spec_identified(*old(self), *final(self), imported@, fresh@),
            !r ==> *final(self) == *old(self),
    {
        if !self.renew_identities(fresh) {
            return false;
        }
        let ghost renewed = *self;
        let own = ModuleSymbols {
            module: String::from_str(""),
            identifiers: self.own_identifiers(),
        };
        let mut table: Vec<ModuleSymbols> = Vec::new();
        table.push(own);
        let mut imported = imported;
        let ghost rows = imported@;
        table.append(&mut imported);
        assert(table@ =~= seq![own] + rows);
        self.repoint_references(&table);
        proof {
            reveal_strlit("");
            assert(Model::spec_renewed(*old(self), renewed, fresh@));
            assert(Model::spec_repointed(renewed, *self, seq![own] + rows));
        }
        true
    }
}

} // verus!
