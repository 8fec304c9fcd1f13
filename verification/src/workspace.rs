//! The modules of a project together, and the table that says which module
//! owns an identity.

use crate::concept::{first_position, lemma_first_position, position, position_from, Identified};
use crate::identifier::Identifier;
use crate::model::{not_found_text, Model, NotFoundError};
use crate::emit::{lowercase, to_lowercase};
use crate::schema::{Action, Agent, Entity, Field, Goal, Message, Project, Role};
use crate::text::{join3, join5};
use vstd::string::StringExecFns;
use vstd::prelude::*;

verus! {

/// What the identity table holds for an identity: the position of the
/// module that owns it.
#[derive(Debug, Default, Clone, Copy)]
pub struct LookupID {
    pub model_index: usize,
}

/// One row of the identity table.
#[derive(Debug, Clone)]
pub struct IdEntry {
    pub id: Identifier,
    pub lookup: LookupID,
}

impl Identified for IdEntry {
    open spec fn spec_id(&self) -> Identifier {
        self.id
    }

    fn get_id(&self) -> (r: &Identifier) {
        &self.id
    }
}

/// The identities of `items`, in order.
pub open spec fn identities<T: Identified>(items: Seq<T>) -> Seq<Seq<char>> {
    Seq::new(items.len(), |i: int| items[i].spec_id().uuid@)
}

impl Model {
    /// The identities that the module enters into the table of a workspace:
    /// those of its teams, agents, messages, goals, plans, roles, resources,
    /// tactics, actions, services, enums, events and entities, in this
    /// order.
    pub open spec fn spec_indexed(&self) -> Seq<Seq<char>> {
        identities(self.teams@) + identities(self.agents@) + identities(self.messages@)
            + identities(self.goals@) + identities(self.plans@) + identities(self.roles@)
            + identities(self.resources@) + identities(self.tactics@) + identities(
            self.actions@,
        ) + identities(self.services@) + identities(self.enums@) + identities(self.events@)
            + identities(self.entities@)
    }

    /// Whether the module declares anything under the identity `uuid`.
    pub open spec fn spec_owns(&self, uuid: Seq<char>) -> bool {
        self.spec_indexed().contains(uuid)
    }

    /// The identifiers that the module enters into the table of a workspace,
    /// each qualified by the module's name.
    pub fn indexed_identifiers(&self) -> (r: Vec<Identifier>)
        ensures
            identities(r@) == self.spec_indexed(),
            forall|k: int| 0 <= k < r@.len() ==> (#[trigger] r@[k]).module == self.project.name,
    {
        let mut out: Vec<Identifier> = Vec::new();
        assert(identities(out@) =~= Seq::empty());
        collect(&mut out, &self.teams, &self.project.name);
        collect(&mut out, &self.agents, &self.project.name);
        collect(&mut out, &self.messages, &self.project.name);
        collect(&mut out, &self.goals, &self.project.name);
        collect(&mut out, &self.plans, &self.project.name);
        collect(&mut out, &self.roles, &self.project.name);
        collect(&mut out, &self.resources, &self.project.name);
        collect(&mut out, &self.tactics, &self.project.name);
        collect(&mut out, &self.actions, &self.project.name);
        collect(&mut out, &self.services, &self.project.name);
        collect(&mut out, &self.enums, &self.project.name);
        collect(&mut out, &self.events, &self.project.name);
        collect(&mut out, &self.entities, &self.project.name);
        assert(identities(out@) =~= self.spec_indexed());
        out
    }
}

/// Adds the identifiers of `items` to `out`, each qualified by `module`.
fn collect<T: Identified>(out: &mut Vec<Identifier>, items: &Vec<T>, module: &String)
    requires
        forall|k: int| 0 <= k < old(out)@.len() ==> (#[trigger] old(out)@[k]).module == *module,
    ensures
        identities(final(out)@) == identities(old(out)@) + identities(items@),
        forall|k: int| 0 <= k < final(out)@.len() ==> (#[trigger] final(out)@[k]).module == *module,
{
    let mut i: usize = 0;
    assert(identities(out@) =~= identities(old(out)@) + identities(items@.take(0)));
    while i < items.len()
        invariant
            i <= items@.len(),
            identities(out@) == identities(old(out)@) + identities(items@.take(i as int)),
            forall|k: int| 0 <= k < out@.len() ==> (#[trigger] out@[k]).module == *module,
        decreases items@.len() - i,
    {
        let ghost before = out@;
        let mut id = items[i].get_id().clone();
        id.module = module.clone();
        out.push(id);
        assert(identities(out@) =~= identities(before).push(id.uuid@));
        assert(identities(items@.take(i + 1)) =~= identities(items@.take(i as int)).push(
            items@[i as int].spec_id().uuid@,
        ));
        assert(identities(out@) =~= identities(old(out)@) + identities(items@.take(i + 1)));
        i = i + 1;
    }
    assert(items@.take(items@.len() as int) =~= items@);
}

/// The position of the first of the first `n` modules that owns the
/// identity `uuid`.
pub open spec fn first_owner(models: Seq<Model>, uuid: Seq<char>, n: int) -> Option<int>
    decreases n,
{
    if n <= 0 {
        None
    } else {
        match first_owner(models, uuid, n - 1) {
            Some(p) => Some(p),
            None => if models[n - 1].spec_owns(uuid) {
                Some(n - 1)
            } else {
                None
            },
        }
    }
}

/// The position of the module that owns the identity `uuid`: the first that
/// declares anything under it. Earlier modules take precedence.
pub open spec fn owner(models: Seq<Model>, uuid: Seq<char>) -> Option<int> {
    first_owner(models, uuid, models.len() as int)
}

/// What `first_owner` finds is the first of the first `n` modules that owns
/// the identity, and it finds none only where none of them owns it.
pub proof fn lemma_first_owner(models: Seq<Model>, uuid: Seq<char>, n: int)
    requires
        0 <= n <= models.len(),
    ensures
        match first_owner(models, uuid, n) {
            Some(p) => {
                &&& 0 <= p < n
                &&& models[p].spec_owns(uuid)
                &&& forall|j: int| 0 <= j < p ==> !(#[trigger] models[j]).spec_owns(uuid)
            },
            None => forall|j: int| 0 <= j < n ==> !(#[trigger] models[j]).spec_owns(uuid),
        },
    decreases n,
{
    if n > 0 {
        lemma_first_owner(models, uuid, n - 1);
    }
}

/// The owner of an identity depends only on the modules before and at its
/// position: modules added at the end do not change it.
pub proof fn lemma_first_owner_prefix(
    models: Seq<Model>,
    longer: Seq<Model>,
    uuid: Seq<char>,
    n: int,
)
    requires
        0 <= n <= models.len() <= longer.len(),
        forall|j: int| 0 <= j < models.len() ==> models[j] == longer[j],
    ensures
        first_owner(models, uuid, n) == first_owner(longer, uuid, n),
    decreases n,
{
    if n > 0 {
        lemma_first_owner_prefix(models, longer, uuid, n - 1);
    }
}

/// The module position that the table gives for the identity `uuid`: that
/// of its first row with this identity.
pub open spec fn table_owner(table: Seq<IdEntry>, uuid: Seq<char>) -> Option<int> {
    let p = first_position(table, uuid);
    if p < table.len() {
        Some(table[p].lookup.model_index as int)
    } else {
        None
    }
}

proof fn lemma_position_push<T: Identified>(items: Seq<T>, item: T, uuid: Seq<char>, start: int)
    requires
        0 <= start <= items.len(),
    ensures
        position_from(items.push(item), uuid, start) == if position_from(items, uuid, start)
            < items.len() {
            position_from(items, uuid, start)
        } else if item.spec_id().uuid@ == uuid {
            items.len() as int
        } else {
            (items.len() + 1) as int
        },
    decreases items.len() - start,
{
    let longer = items.push(item);
    if start < items.len() {
        assert(longer[start] == items[start]);
        if items[start].spec_id().uuid@ != uuid {
            lemma_position_push(items, item, uuid, start + 1);
        }
    } else {
        assert(longer[start] == item);
        if item.spec_id().uuid@ != uuid {
            assert(position_from(longer, uuid, start + 1) == longer.len());
        }
    }
}

/// Whether the module that owns the identity of `id` declares an action
/// with it.
pub open spec fn workspace_find_action(models: Seq<Model>, id: Identifier) -> bool {
    match owner(models, id.uuid@) {
        Some(p) => models[p].spec_find_action(id),
        None => false,
    }
}

/// Whether the module that owns the identity of `id` declares a goal with
/// it.
pub open spec fn workspace_find_goal(models: Seq<Model>, id: Identifier) -> bool {
    match owner(models, id.uuid@) {
        Some(p) => models[p].spec_find_goal(id),
        None => false,
    }
}

/// Whether the module that owns the identity of `id` declares a message
/// with it.
pub open spec fn workspace_find_message(models: Seq<Model>, id: Identifier) -> bool {
    match owner(models, id.uuid@) {
        Some(p) => models[p].spec_find_message(id),
        None => false,
    }
}

/// The name of the module that owns the identity `uuid`; empty where no
/// module does.
pub open spec fn owner_name(models: Seq<Model>, uuid: Seq<char>) -> Seq<char> {
    match owner(models, uuid) {
        Some(p) => models[p].project.name@,
        None => Seq::empty(),
    }
}

/// A module that declares nothing resolves nothing.
pub proof fn lemma_nil_model_finds_nothing(model: Model, id: Identifier)
    requires
        model.spec_is_empty(),
    ensures
        !model.spec_find_action(id),
        !model.spec_find_goal(id),
        !model.spec_find_message(id),
        !model.spec_find_plan(id),
        !model.spec_find_resource(id),
        !model.spec_find_role(id),
        !model.spec_find_service(id),
        !model.spec_find_tactic(id),
{
}

/// The agents of the first `n` modules, module by module.
pub open spec fn all_agents(models: Seq<Model>, n: int) -> Seq<Agent>
    decreases n,
{
    if n <= 0 {
        Seq::empty()
    } else {
        all_agents(models, n - 1) + models[n - 1].agents@
    }
}

/// The entities of the first `n` modules, module by module.
pub open spec fn all_entities(models: Seq<Model>, n: int) -> Seq<Entity>
    decreases n,
{
    if n <= 0 {
        Seq::empty()
    } else {
        all_entities(models, n - 1) + models[n - 1].entities@
    }
}

/// The action that `id` names in the module that owns its identity, where
/// `id` is set and that module declares such an action.
pub open spec fn workspace_action(models: Seq<Model>, id: Identifier) -> Option<Action> {
    if id.name@.len() > 0 && workspace_find_action(models, id) {
        let actions = models[owner(models, id.uuid@)->0].actions@;
        Some(actions[first_position(actions, id.uuid@)])
    } else {
        None
    }
}

/// The message that `id` names in the module that owns its identity, where
/// `id` is set and that module declares such a message.
pub open spec fn workspace_message(models: Seq<Model>, id: Identifier) -> Option<Message> {
    if id.name@.len() > 0 && workspace_find_message(models, id) {
        let messages = models[owner(models, id.uuid@)->0].messages@;
        Some(messages[first_position(messages, id.uuid@)])
    } else {
        None
    }
}

/// The actions that the first `n` of `handlers` name, in order; a handler
/// that names no action is passed over.
pub open spec fn handled_actions(models: Seq<Model>, handlers: Seq<Identifier>, n: int) -> Seq<
    Action,
>
    decreases n,
{
    if n <= 0 {
        Seq::empty()
    } else {
        match workspace_action(models, handlers[n - 1]) {
            Some(action) => handled_actions(models, handlers, n - 1).push(action),
            None => handled_actions(models, handlers, n - 1),
        }
    }
}

/// The actions that the agent, team or service named by `id` handles: those
/// of the agent or team, then those of the service, each list in the order
/// of its handlers. The record is looked up in the module that owns the
/// identity.
pub open spec fn actions_used_by(models: Seq<Model>, id: Identifier) -> Seq<Action> {
    match owner(models, id.uuid@) {
        Some(p) => {
            let model = models[p];
            let of_agent = match model.spec_agent_internal(id, true, true) {
                Some(agent) => handled_actions(
                    models,
                    agent.action_handlers@,
                    agent.action_handlers@.len() as int,
                ),
                None => Seq::empty(),
            };
            let of_service = if model.spec_find_service(id) {
                let handlers = model.services@[first_position(
                    model.services@,
                    id.uuid@,
                )].action_handlers@;
                handled_actions(models, handlers, handlers.len() as int)
            } else {
                Seq::empty()
            };
            of_agent + of_service
        },
        None => Seq::empty(),
    }
}

/// The display name of a message of an action where the message resolves
/// and has fields: only such a message becomes a parameter.
pub open spec fn parameter_of(models: Seq<Model>, id: Identifier) -> Option<Seq<char>> {
    match workspace_message(models, id) {
        Some(message) => if message.fields@.len() > 0 {
            Some(message.id.bumpy_case@)
        } else {
            None
        },
        None => None,
    }
}

/// `first`, then `second` after a comma where `first` is not empty.
pub open spec fn listed(first: Seq<char>, second: Seq<char>) -> Seq<char> {
    if first.len() > 0 {
        first + ", "@ + second
    } else {
        second
    }
}

/// The parameters of the C++ handler of an action, as its prototype
/// writes them.
pub open spec fn prototype_args(models: Seq<Model>, action: Action) -> Seq<char> {
    let request = match parameter_of(models, action.request) {
        Some(name) => "const "@ + name + "& request"@,
        None => Seq::empty(),
    };
    let reply = match parameter_of(models, action.reply) {
        Some(name) => listed(request, name + "& reply"@),
        None => request,
    };
    listed(reply, "aos::jack::ActionHandle handle"@)
}

/// The arguments of a call of the C++ handler of an action.
pub open spec fn call_args(models: Seq<Model>, action: Action) -> Seq<char> {
    let request = match parameter_of(models, action.request) {
        Some(_) => "request"@,
        None => Seq::empty(),
    };
    let reply = match parameter_of(models, action.reply) {
        Some(_) => listed(request, "reply"@),
        None => request,
    };
    listed(reply, "handle"@)
}

/// The display name of the module that owns the identity `uuid`; empty
/// where no module does.
pub open spec fn owner_display_name(models: Seq<Model>, uuid: Seq<char>) -> Seq<char> {
    match owner(models, uuid) {
        Some(p) => models[p].project.bumpy_case@,
        None => Seq::empty(),
    }
}

/// A root module and the modules it imports, with the table that resolves
/// an identity to the module that owns it. The table always agrees with the
/// modules: it gives, for every identity, the first module that declares
/// anything under it.
pub struct ProjectWorkspace {
    id_table: Vec<IdEntry>,
    models: Vec<Model>,
    nil_model: Model,
}

impl View for ProjectWorkspace {
    type V = Seq<Model>;

    closed spec fn view(&self) -> Seq<Model> {
        self.models@
    }
}

/// What the table says while the first `done` identifiers of module `at`
/// have been entered, after all modules before it.
spec fn partial_owner(
    models: Seq<Model>,
    uuid: Seq<char>,
    at: int,
    entered: Seq<Seq<char>>,
) -> Option<int> {
    match first_owner(models, uuid, at) {
        Some(p) => Some(p),
        None => if entered.contains(uuid) {
            Some(at)
        } else {
            None
        },
    }
}

impl Default for ProjectWorkspace {
    fn default() -> (r: Self)
        ensures
            r@.len() == 0,
    {
        ProjectWorkspace::new()
    }
}

impl ProjectWorkspace {
    #[verifier::type_invariant]
    spec fn well_formed(&self) -> bool {
        &&& self.nil_model.spec_is_nil()
        &&& forall|uuid: Seq<char>| #[trigger]
            table_owner(self.id_table@, uuid) == owner(self.models@, uuid)
    }

    /// A workspace without modules.
    pub fn new() -> (r: Self)
        ensures
            r@.len() == 0,
    {
        ProjectWorkspace { id_table: Vec::new(), models: Vec::new(), nil_model: Model::new() }
    }

    /// Adds `models` after the modules that the workspace holds, in their
    /// order, and enters their identities into the table. An identity that
    /// an earlier module owns keeps its owner.
    pub fn add_models(&mut self, models: Vec<Model>)
        ensures
            final(self)@ == old(self)@ + models@,
    {
        let mut emptied = ProjectWorkspace::new();
        core::mem::swap(self, &mut emptied);
        proof {
            use_type_invariant(&emptied);
        }
        let ProjectWorkspace { id_table, models: held, nil_model } = emptied;
        let mut id_table = id_table;
        let mut all = held;
        let mut incoming = models;
        let ghost before = all@;
        let start = all.len();
        all.append(&mut incoming);
        assert(all@ =~= before + models@);
        assert forall|uuid: Seq<char>| #[trigger]
            table_owner(id_table@, uuid) == first_owner(all@, uuid, start as int) by {
            lemma_first_owner_prefix(before, all@, uuid, start as int);
        }
        let mut at: usize = start;
        while at < all.len()
            invariant
                start <= at <= all@.len(),
                forall|uuid: Seq<char>| #[trigger]
                    table_owner(id_table@, uuid) == first_owner(all@, uuid, at as int),
            decreases all@.len() - at,
        {
            let ids = all[at].indexed_identifiers();
            let mut k: usize = 0;
            assert(identities(ids@).take(0) =~= Seq::empty());
            while k < ids.len()
                invariant
                    at < all@.len(),
                    k <= ids@.len(),
                    identities(ids@) == all@[at as int].spec_indexed(),
                    forall|uuid: Seq<char>| #[trigger]
                        table_owner(id_table@, uuid) == partial_owner(
                            all@,
                            uuid,
                            at as int,
                            identities(ids@).take(k as int),
                        ),
                decreases ids@.len() - k,
            {
                let ghost table = id_table@;
                let ghost entered = identities(ids@).take(k as int);
                let ghost next = identities(ids@).take(k + 1);
                let ghost this = ids@[k as int].uuid@;
                assert(next =~= entered.push(this));
                proof {
                    lemma_first_position(table, this);
                }
                let known = position(&id_table, &ids[k]);
                if known.is_none() {
                    let entry = IdEntry {
                        id: ids[k].clone(),
                        lookup: LookupID { model_index: at },
                    };
                    id_table.push(entry);
                    assert forall|uuid: Seq<char>| #[trigger]
                        table_owner(id_table@, uuid) == partial_owner(
                            all@,
                            uuid,
                            at as int,
                            next,
                        ) by {
                        lemma_position_push(table, entry, uuid, 0);
                        lemma_first_position(table, uuid);
                        assert(table_owner(table, uuid) == partial_owner(
                            all@,
                            uuid,
                            at as int,
                            entered,
                        ));
                        if uuid == this {
                            assert(next.last() == this);
                            assert(next.contains(uuid));
                        } else {
                            assert(id_table@[first_position(table, uuid)] == table[first_position(
                                table,
                                uuid,
                            )] || first_position(table, uuid) >= table.len());
                            assert(next.contains(uuid) <==> entered.contains(uuid)) by {
                                if next.contains(uuid) {
                                    let j = choose|j: int| 0 <= j < next.len() && next[j] == uuid;
                                    assert(entered[j] == uuid);
                                }
                                if entered.contains(uuid) {
                                    let j = choose|j: int|
                                        0 <= j < entered.len() && entered[j] == uuid;
                                    assert(next[j] == uuid);
                                }
                            }
                        }
                    }
                } else {
                    assert forall|uuid: Seq<char>| #[trigger]
                        table_owner(id_table@, uuid) == partial_owner(
                            all@,
                            uuid,
                            at as int,
                            next,
                        ) by {
                        assert(table_owner(table, uuid) == partial_owner(
                            all@,
                            uuid,
                            at as int,
                            entered,
                        ));
                        if uuid == this {
                            assert(next.last() == this);
                            assert(next.contains(uuid));
                        } else {
                            assert(next.contains(uuid) <==> entered.contains(uuid)) by {
                                if next.contains(uuid) {
                                    let j = choose|j: int| 0 <= j < next.len() && next[j] == uuid;
                                    assert(entered[j] == uuid);
                                }
                                if entered.contains(uuid) {
                                    let j = choose|j: int|
                                        0 <= j < entered.len() && entered[j] == uuid;
                                    assert(next[j] == uuid);
                                }
                            }
                        }
                    }
                }
                k = k + 1;
            }
            assert(identities(ids@).take(ids@.len() as int) =~= identities(ids@));
            at = at + 1;
        }
        *self = ProjectWorkspace { id_table, models: all, nil_model };
    }

    /// The nil model: it declares nothing and stands for "no module".
    pub fn nil_model(&self) -> (r: &Model)
        ensures
            r.spec_is_nil(),
    {
        proof {
            use_type_invariant(self);
        }
        &self.nil_model
    }

    /// The modules of the workspace, the root first.
    pub fn models(&self) -> (r: &Vec<Model>)
        ensures
            r@ == self@,
    {
        &self.models
    }

    /// The module that owns the identity of `id`, or the nil model where no
    /// module does. The nil model declares nothing, so every lookup in it
    /// reports "not found".
    pub fn lookup_model_with_id(&self, id: &Identifier) -> (r: &Model)
        ensures
            match owner(self@, id.uuid@) {
                Some(p) => 0 <= p < self@.len() && *r == self@[p],
                None => r.spec_is_nil(),
            },
    {
        proof {
            use_type_invariant(self);
            lemma_first_position(self.id_table@, id.uuid@);
            lemma_first_owner(self.models@, id.uuid@, self.models@.len() as int);
            assert(table_owner(self.id_table@, id.uuid@) == owner(self.models@, id.uuid@));
        }
        match position(&self.id_table, id) {
            Some(row) => &self.models[self.id_table[row].lookup.model_index],
            None => &self.nil_model,
        }
    }
    /// Whether the module that owns the identity of `id` declares an action
    /// with it.
    pub fn find_action(&self, id: &Identifier) -> (r: bool)
        ensures
            r == workspace_find_action(self@, *id),
    {
        let model = self.lookup_model_with_id(id);
        proof {
            if owner(self@, id.uuid@) is None {
                lemma_nil_model_finds_nothing(*model, *id);
            }
        }
        model.find_action(id)
    }

    /// Whether the module that owns the identity of `id` declares a goal
    /// with it.
    pub fn find_goal(&self, id: &Identifier) -> (r: bool)
        ensures
            r == workspace_find_goal(self@, *id),
    {
        let model = self.lookup_model_with_id(id);
        proof {
            if owner(self@, id.uuid@) is None {
                lemma_nil_model_finds_nothing(*model, *id);
            }
        }
        model.find_goal(id)
    }

    /// Whether the module that owns the identity of `id` declares a message
    /// with it.
    pub fn find_message(&self, id: &Identifier) -> (r: bool)
        ensures
            r == workspace_find_message(self@, *id),
    {
        let model = self.lookup_model_with_id(id);
        proof {
            if owner(self@, id.uuid@) is None {
                lemma_nil_model_finds_nothing(*model, *id);
            }
        }
        model.find_message(id)
    }

    /// The role that `id` names, looked up in the module that owns its
    /// identity.
    pub fn get_role(&self, id: &Identifier) -> (r: Result<&Role, NotFoundError>)
        ensures
            r is Ok <==> id.name@.len() > 0 && owner(self@, id.uuid@) is Some && self@[owner(
                self@,
                id.uuid@,
            )->0].spec_find_role(*id),
            r is Ok ==> *r->Ok_0 == self@[owner(self@, id.uuid@)->0].roles@[first_position(
                self@[owner(self@, id.uuid@)->0].roles@,
                id.uuid@,
            )],
            r is Err ==> r->Err_0.message@ == not_found_text(
                "role"@,
                *id,
                owner_name(self@, id.uuid@),
            ),
    {
        let model = self.lookup_model_with_id(id);
        proof {
            if owner(self@, id.uuid@) is None {
                lemma_nil_model_finds_nothing(*model, *id);
            }
        }
        model.get_role(id)
    }

    /// The goal that `id` names, looked up in the module that owns its
    /// identity.
    pub fn get_goal(&self, id: &Identifier) -> (r: Result<&Goal, NotFoundError>)
        ensures
            r is Ok <==> id.name@.len() > 0 && workspace_find_goal(self@, *id),
            r is Ok ==> *r->Ok_0 == self@[owner(self@, id.uuid@)->0].goals@[first_position(
                self@[owner(self@, id.uuid@)->0].goals@,
                id.uuid@,
            )],
            r is Err ==> r->Err_0.message@ == not_found_text(
                "goal"@,
                *id,
                owner_name(self@, id.uuid@),
            ),
    {
        let model = self.lookup_model_with_id(id);
        proof {
            if owner(self@, id.uuid@) is None {
                lemma_nil_model_finds_nothing(*model, *id);
            }
        }
        model.get_goal(id)
    }

    /// The message that `id` names, looked up in the module that owns its
    /// identity.
    pub fn get_message(&self, id: &Identifier) -> (r: Result<&Message, NotFoundError>)
        ensures
            r is Ok <==> id.name@.len() > 0 && workspace_find_message(self@, *id),
            r is Ok ==> *r->Ok_0 == self@[owner(self@, id.uuid@)->0].messages@[first_position(
                self@[owner(self@, id.uuid@)->0].messages@,
                id.uuid@,
            )],
            r is Err ==> r->Err_0.message@ == not_found_text(
                "message"@,
                *id,
                owner_name(self@, id.uuid@),
            ),
    {
        let model = self.lookup_model_with_id(id);
        proof {
            if owner(self@, id.uuid@) is None {
                lemma_nil_model_finds_nothing(*model, *id);
            }
        }
        model.get_message(id)
    }

    /// The action that `id` names, looked up in the module that owns its
    /// identity.
    pub fn get_action(&self, id: &Identifier) -> (r: Result<&Action, NotFoundError>)
        ensures
            r is Ok <==> id.name@.len() > 0 && workspace_find_action(self@, *id),
            r is Ok ==> *r->Ok_0 == self@[owner(self@, id.uuid@)->0].actions@[first_position(
                self@[owner(self@, id.uuid@)->0].actions@,
                id.uuid@,
            )],
            r is Err ==> r->Err_0.message@ == not_found_text(
                "action"@,
                *id,
                owner_name(self@, id.uuid@),
            ),
    {
        let model = self.lookup_model_with_id(id);
        proof {
            if owner(self@, id.uuid@) is None {
                lemma_nil_model_finds_nothing(*model, *id);
            }
        }
        model.get_action(id)
    }
    /// The project of the root module; a project with nothing set where
    /// the workspace has no modules.
    pub fn project(&self) -> (r: &Project)
        ensures
            self@.len() == 0 ==> r.spec_is_nil(),
            self@.len() > 0 ==> *r == self@[0].project,
    {
        proof {
            use_type_invariant(self);
        }
        if self.models.len() == 0 {
            &self.nil_model.project
        } else {
            &self.models[0].project
        }
    }

    /// The agents of all modules, module by module, as a list.
    pub fn agent_list(&self) -> (r: Vec<&Agent>)
        ensures
            r@.map_values(|a: &Agent| *a) == all_agents(self@, self@.len() as int),
    {
        let mut result: Vec<&Agent> = Vec::new();
        let mut i: usize = 0;
        assert(result@.map_values(|a: &Agent| *a) =~= all_agents(self@, 0));
        while i < self.models.len()
            invariant
                i <= self.models@.len(),
                result@.map_values(|a: &Agent| *a) == all_agents(self@, i as int),
            decreases self.models@.len() - i,
        {
            let ghost before = result@.map_values(|a: &Agent| *a);
            let agents = &self.models[i].agents;
            let mut k: usize = 0;
            while k < agents.len()
                invariant
                    k <= agents@.len(),
                    result@.map_values(|a: &Agent| *a) == before + agents@.take(k as int),
                decreases agents@.len() - k,
            {
                let ghost row = result@.map_values(|a: &Agent| *a);
                result.push(&agents[k]);
                assert(result@.map_values(|a: &Agent| *a) =~= row.push(agents@[k as int]));
                assert(agents@.take(k + 1) =~= agents@.take(k as int).push(agents@[k as int]));
                k = k + 1;
            }
            assert(agents@.take(agents@.len() as int) =~= agents@);
            i = i + 1;
        }
        result
    }

    /// The number of agents of all modules.
    pub fn agents_len(&self) -> (r: usize)
        ensures
            r == all_agents(self@, self@.len() as int).len(),
    {
        let all = self.agent_list();
        assert(all@.map_values(|a: &Agent| *a).len() == all@.len());
        all.len()
    }

    /// The entities of all modules, module by module, as a list.
    pub fn entity_list(&self) -> (r: Vec<&Entity>)
        ensures
            r@.map_values(|e: &Entity| *e) == all_entities(self@, self@.len() as int),
    {
        let mut result: Vec<&Entity> = Vec::new();
        let mut i: usize = 0;
        assert(result@.map_values(|e: &Entity| *e) =~= all_entities(self@, 0));
        while i < self.models.len()
            invariant
                i <= self.models@.len(),
                result@.map_values(|e: &Entity| *e) == all_entities(self@, i as int),
            decreases self.models@.len() - i,
        {
            let ghost before = result@.map_values(|e: &Entity| *e);
            let entities = &self.models[i].entities;
            let mut k: usize = 0;
            while k < entities.len()
                invariant
                    k <= entities@.len(),
                    result@.map_values(|e: &Entity| *e) == before + entities@.take(k as int),
                decreases entities@.len() - k,
            {
                let ghost row = result@.map_values(|e: &Entity| *e);
                result.push(&entities[k]);
                assert(result@.map_values(|e: &Entity| *e) =~= row.push(entities@[k as int]));
                assert(entities@.take(k + 1) =~= entities@.take(k as int).push(
                    entities@[k as int],
                ));
                k = k + 1;
            }
            assert(entities@.take(entities@.len() as int) =~= entities@);
            i = i + 1;
        }
        result
    }

    /// The number of entities of all modules.
    pub fn entities_len(&self) -> (r: usize)
        ensures
            r == all_entities(self@, self@.len() as int).len(),
    {
        let all = self.entity_list();
        assert(all@.map_values(|e: &Entity| *e).len() == all@.len());
        all.len()
    }

    /// The fields of the message that `id` names, looked up in the module
    /// that owns its identity; none where there is no such message.
    pub fn get_message_fields(&self, id: &Identifier) -> (r: Vec<Field>)
        ensures
            r@ == match workspace_message(self@, *id) {
                Some(message) => message.fields@,
                None => Seq::empty(),
            },
    {
        let model = self.lookup_model_with_id(id);
        proof {
            if owner(self@, id.uuid@) is None {
                lemma_nil_model_finds_nothing(*model, *id);
            }
        }
        let r = model.get_message_fields(id);
        assert(workspace_message(self@, *id) is None ==> r@ =~= Seq::empty());
        r
    }

    /// The request message of the action that `id` names, looked up in the
    /// module that owns its identity.
    pub fn get_action_request_msg_name(&self, id: &Identifier) -> (r: Option<Identifier>)
        ensures
            r is Some <==> workspace_action(self@, *id) is Some,
            r is Some ==> r->0 == workspace_action(self@, *id)->0.request,
    {
        let model = self.lookup_model_with_id(id);
        proof {
            if owner(self@, id.uuid@) is None {
                lemma_nil_model_finds_nothing(*model, *id);
            }
        }
        model.get_action_request_msg_name(id)
    }

    fn collect_actions<'a>(&'a self, out: &mut Vec<&'a Action>, handlers: &Vec<Identifier>)
        ensures
            final(out)@.map_values(|a: &Action| *a) == old(out)@.map_values(|a: &Action| *a)
                + handled_actions(self@, handlers@, handlers@.len() as int),
    {
        let ghost before = out@.map_values(|a: &Action| *a);
        let mut i: usize = 0;
        assert(out@.map_values(|a: &Action| *a) =~= before + handled_actions(self@, handlers@, 0));
        while i < handlers.len()
            invariant
                i <= handlers@.len(),
                out@.map_values(|a: &Action| *a) == before + handled_actions(
                    self@,
                    handlers@,
                    i as int,
                ),
            decreases handlers@.len() - i,
        {
            let ghost row = out@.map_values(|a: &Action| *a);
            match self.get_action(&handlers[i]) {
                Ok(action) => {
                    out.push(action);
                    assert(out@.map_values(|a: &Action| *a) =~= row.push(*action));
                },
                Err(_) => {},
            }
            assert(out@.map_values(|a: &Action| *a) =~= before + handled_actions(
                self@,
                handlers@,
                i + 1,
            ));
            i = i + 1;
        }
    }

    /// The actions that the agent, team or service named by `id` handles.
    /// A handler that names no action is passed over.
    pub fn get_actions_used_by_entity(&self, id: &Identifier) -> (r: Vec<&Action>)
        ensures
            r@.map_values(|a: &Action| *a) == actions_used_by(self@, *id),
    {
        let mut result: Vec<&Action> = Vec::new();
        assert(result@.map_values(|a: &Action| *a) =~= Seq::empty());
        let model = self.lookup_model_with_id(id);
        proof {
            if owner(self@, id.uuid@) is None {
                lemma_nil_model_finds_nothing(*model, *id);
                assert(model.spec_agent_internal(*id, true, true) is None);
            }
        }
        if let Some(agent) = model.get_agent_internal(id, true, true) {
            self.collect_actions(&mut result, &agent.action_handlers);
        }
        let ghost of_agent = result@.map_values(|a: &Action| *a);
        if let Some(service) = model.get_service(id) {
            self.collect_actions(&mut result, &service.action_handlers);
        }
        assert(result@.map_values(|a: &Action| *a) =~= actions_used_by(self@, *id));
        result
    }

    /// The line that includes the generated header of the message `id`.
    pub fn emit_cpp_message_include(&self, id: &Identifier) -> (r: String)
        ensures
            r@ == "#include <"@ + lowercase(owner_display_name(self@, id.uuid@))
                + "/meta/messages/"@ + lowercase(id.bumpy_case@) + "meta.h>"@,
    {
        let model = self.lookup_model_with_id(id);
        let module = to_lowercase(model.project.bumpy_case.as_str());
        let name = to_lowercase(id.bumpy_case.as_str());
        assert(model.project.bumpy_case@ =~= owner_display_name(self@, id.uuid@));
        join5("#include <", module.as_str(), "/meta/messages/", name.as_str(), "meta.h>")
    }

    fn parameter(&self, id: &Identifier) -> (r: Option<&String>)
        ensures
            r is Some <==> parameter_of(self@, *id) is Some,
            r is Some ==> r->0@ == parameter_of(self@, *id)->0,
    {
        match self.get_message(id) {
            Ok(message) => {
                if message.fields.len() > 0 {
                    Some(&message.id.bumpy_case)
                } else {
                    None
                }
            },
            Err(_) => None,
        }
    }

    /// The parameters of the C++ handler of `action`: its request and its
    /// reply, each where the message resolves and has fields, then the
    /// handle of the action.
    pub fn get_action_cpp_function_prototype_args(&self, action: &Action) -> (r: String)
        ensures
            r@ == prototype_args(self@, *action),
    {
        let mut result = String::new();
        if let Some(name) = self.parameter(&action.request) {
            result = join3("const ", name.as_str(), "& request");
        }
        if let Some(name) = self.parameter(&action.reply) {
            if !result.as_str().is_empty() {
                result.append(", ");
            }
            result.append(name.as_str());
            result.append("& reply");
        }
        if !result.as_str().is_empty() {
            result.append(", ");
        }
        result.append("aos::jack::ActionHandle handle");
        assert(result@ =~= prototype_args(self@, *action));
        result
    }

    /// The arguments with which the C++ handler of `action` is called.
    pub fn get_action_cpp_function_args(&self, action: &Action) -> (r: String)
        ensures
            r@ == call_args(self@, *action),
    {
        let mut result = String::new();
        if self.parameter(&action.request).is_some() {
            result.append("request");
        }
        if self.parameter(&action.reply).is_some() {
            if !result.as_str().is_empty() {
                result.append(", ");
            }
            result.append("reply");
        }
        if !result.as_str().is_empty() {
            result.append(", ");
        }
        result.append("handle");
        assert(result@ =~= call_args(self@, *action));
        result
    }
}

} // verus!
