//! Walking the agents and the entities of all modules of a workspace, one
//! record at a time.

use crate::model::Model;
use crate::schema::{Agent, Entity};
use crate::workspace::{all_agents, all_entities, ProjectWorkspace};
use vstd::prelude::*;

verus! {

/// The agents of the first `n` modules are the first of the agents of all
/// modules, and the agents of module `n` follow them.
pub proof fn lemma_all_agents(models: Seq<Model>, n: int, total: int, i: int)
    requires
        0 <= n < total <= models.len(),
        0 <= i < models[n].agents@.len(),
    ensures
        all_agents(models, n).len() + i < all_agents(models, total).len(),
        all_agents(models, total)[all_agents(models, n).len() + i] == models[n].agents@[i],
    decreases total - n,
{
    if total == n + 1 {
    } else {
        lemma_all_agents(models, n, total - 1, i);
    }
}

/// The entities of the first `n` modules are the first of the entities of
/// all modules, and the entities of module `n` follow them.
pub proof fn lemma_all_entities(models: Seq<Model>, n: int, total: int, i: int)
    requires
        0 <= n < total <= models.len(),
        0 <= i < models[n].entities@.len(),
    ensures
        all_entities(models, n).len() + i < all_entities(models, total).len(),
        all_entities(models, total)[all_entities(models, n).len() + i] == models[n].entities@[i],
    decreases total - n,
{
    if total == n + 1 {
    } else {
        lemma_all_entities(models, n, total - 1, i);
    }
}

/// A walk over the agents of all modules of a workspace, module by module.
#[derive(Clone, Copy)]
pub struct AgentIterator<'a> {
    workspace: &'a ProjectWorkspace,
    model_index: usize,
    item_index: usize,
}

impl<'a> AgentIterator<'a> {
    #[verifier::type_invariant]
    spec fn well_formed(&self) -> bool {
        &&& self.model_index <= self.workspace@.len()
        &&& self.model_index < self.workspace@.len() ==> self.item_index
            <= self.workspace@[self.model_index as int].agents@.len()
        &&& self.model_index == self.workspace@.len() ==> self.item_index == 0
    }

    /// The modules that the walk goes over.
    pub closed spec fn spec_models(&self) -> Seq<Model> {
        self.workspace@
    }

    /// How many agents the walk has passed.
    pub closed spec fn spec_passed(&self) -> int {
        all_agents(self.workspace@, self.model_index as int).len() + self.item_index
    }

    /// A walk that has passed no agent.
    pub fn new(workspace: &'a ProjectWorkspace) -> (r: Self)
        ensures
            r.spec_models() == workspace@,
            r.spec_passed() == 0,
    {
        AgentIterator { workspace, model_index: 0, item_index: 0 }
    }

    /// The next agent, where there is one left.
    pub fn next(&mut self) -> (r: Option<&'a Agent>)
        ensures
            final(self).spec_models() == old(self).spec_models(),
            ({
                let all = all_agents(old(self).spec_models(), old(self).spec_models().len() as int);
                match r {
                    Some(agent) => {
                        &&& 0 <= old(self).spec_passed() < all.len()
                        &&& *agent == all[old(self).spec_passed()]
                        &&& final(self).spec_passed() == old(self).spec_passed() + 1
                    },
                    None => {
                        &&& old(self).spec_passed() == all.len()
                        &&& final(self).spec_passed() == all.len()
                    },
                }
            }),
    {
        proof {
            use_type_invariant(&*self);
        }
        let workspace = self.workspace;
        let models = workspace.models();
        let mut model_index = self.model_index;
        let mut item_index = self.item_index;
        while model_index < models.len()
            invariant
                models@ == workspace@,
                model_index <= models@.len(),
                model_index < models@.len() ==> item_index <= models@[model_index as int].agents@.len(),
                model_index == models@.len() ==> item_index == 0,
                all_agents(models@, model_index as int).len() + item_index
                    == old(self).spec_passed(),
                self.workspace == workspace,
                *self == *old(self),
            decreases models@.len() - model_index,
        {
            let agents = &models[model_index].agents;
            if item_index < agents.len() {
                proof {
                    lemma_all_agents(
                        models@,
                        model_index as int,
                        models@.len() as int,
                        item_index as int,
                    );
                }
                *self = AgentIterator { workspace, model_index, item_index: item_index + 1 };
                return Some(&agents[item_index]);
            }
            model_index = model_index + 1;
            item_index = 0;
        }
        *self = AgentIterator { workspace, model_index, item_index };
        None
    }
}

/// A walk over the entities of all modules of a workspace, module by
/// module.
#[derive(Clone, Copy)]
pub struct EntityIterator<'a> {
    workspace: &'a ProjectWorkspace,
    model_index: usize,
    item_index: usize,
}

impl<'a> EntityIterator<'a> {
    #[verifier::type_invariant]
    spec fn well_formed(&self) -> bool {
        &&& self.model_index <= self.workspace@.len()
        &&& self.model_index < self.workspace@.len() ==> self.item_index
            <= self.workspace@[self.model_index as int].entities@.len()
        &&& self.model_index == self.workspace@.len() ==> self.item_index == 0
    }

    /// The modules that the walk goes over.
    pub closed spec fn spec_models(&self) -> Seq<Model> {
        self.workspace@
    }

    /// How many entities the walk has passed.
    pub closed spec fn spec_passed(&self) -> int {
        all_entities(self.workspace@, self.model_index as int).len() + self.item_index
    }

    /// A walk that has passed no entity.
    pub fn new(workspace: &'a ProjectWorkspace) -> (r: Self)
        ensures
            r.spec_models() == workspace@,
            r.spec_passed() == 0,
    {
        EntityIterator { workspace, model_index: 0, item_index: 0 }
    }

    /// The next entity, where there is one left.
    pub fn next(&mut self) -> (r: Option<&'a Entity>)
        ensures
            final(self).spec_models() == old(self).spec_models(),
            ({
                let all = all_entities(
                    old(self).spec_models(),
                    old(self).spec_models().len() as int,
                );
                match r {
                    Some(entity) => {
                        &&& 0 <= old(self).spec_passed() < all.len()
                        &&& *entity == all[old(self).spec_passed()]
                        &&& final(self).spec_passed() == old(self).spec_passed() + 1
                    },
                    None => {
                        &&& old(self).spec_passed() == all.len()
                        &&& final(self).spec_passed() == all.len()
                    },
                }
            }),
    {
        proof {
            use_type_invariant(&*self);
        }
        let workspace = self.workspace;
        let models = workspace.models();
        let mut model_index = self.model_index;
        let mut item_index = self.item_index;
        while model_index < models.len()
            invariant
                models@ == workspace@,
                model_index <= models@.len(),
                model_index < models@.len() ==> item_index
                    <= models@[model_index as int].entities@.len(),
                model_index == models@.len() ==> item_index == 0,
                all_entities(models@, model_index as int).len() + item_index
                    == old(self).spec_passed(),
                self.workspace == workspace,
                *self == *old(self),
            decreases models@.len() - model_index,
        {
            let entities = &models[model_index].entities;
            if item_index < entities.len() {
                proof {
                    lemma_all_entities(
                        models@,
                        model_index as int,
                        models@.len() as int,
                        item_index as int,
                    );
                }
                *self = EntityIterator { workspace, model_index, item_index: item_index + 1 };
                return Some(&entities[item_index]);
            }
            model_index = model_index + 1;
            item_index = 0;
        }
        *self = EntityIterator { workspace, model_index, item_index };
        None
    }
}

impl ProjectWorkspace {
    /// A walk over the agents of all modules.
    pub fn agents(&self) -> (r: AgentIterator<'_>)
        ensures
            r.spec_models() == self@,
            r.spec_passed() == 0,
    {
        AgentIterator::new(self)
    }

    /// A walk over the entities of all modules.
    pub fn entities(&self) -> (r: EntityIterator<'_>)
        ensures
            r.spec_models() == self@,
            r.spec_passed() == 0,
    {
        EntityIterator::new(self)
    }
}

} // verus!
