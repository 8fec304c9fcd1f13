//! Which messages a service, an agent or a team uses.

use crate::concept::first_position;
use crate::identifier::Identifier;
use crate::model::Model;
use crate::order::{gathered, put};
use crate::schema::{Action, Agent, AgentGoal, Message, Service, Topic};
use crate::workspace::{
    lemma_nil_model_finds_nothing, owner, workspace_action, workspace_find_goal, workspace_message,
    ProjectWorkspace,
};
use vstd::prelude::*;

verus! {

/// The messages of an action that are set: its reply, then its request.
pub open spec fn action_messages(action: Action) -> Seq<Identifier> {
    (if action.reply.name@.len() > 0 {
        seq![action.reply]
    } else {
        Seq::empty()
    }) + (if action.request.name@.len() > 0 {
        seq![action.request]
    } else {
        Seq::empty()
    })
}

/// The messages of the actions that the first `n` of `handlers` name. A
/// handler that names no action has none.
pub open spec fn handler_messages(models: Seq<Model>, handlers: Seq<Identifier>, n: int) -> Seq<
    Identifier,
>
    decreases n,
{
    if n <= 0 {
        Seq::empty()
    } else {
        handler_messages(models, handlers, n - 1) + match workspace_action(
            models,
            handlers[n - 1],
        ) {
            Some(action) => action_messages(action),
            None => Seq::empty(),
        }
    }
}

/// The messages of a list of topics, in order.
pub open spec fn topic_messages(topics: Seq<Topic>) -> Seq<Identifier> {
    Seq::new(topics.len(), |i: int| topics[i].message)
}

/// The messages of the goals that the first `n` of `goals` name: of each
/// goal that resolves, its message, set or not.
pub open spec fn goal_messages(models: Seq<Model>, goals: Seq<AgentGoal>, n: int) -> Seq<
    Identifier,
>
    decreases n,
{
    if n <= 0 {
        Seq::empty()
    } else {
        let id = goals[n - 1].id;
        goal_messages(models, goals, n - 1) + if id.name@.len() > 0 && workspace_find_goal(
            models,
            id,
        ) {
            let declared = models[owner(models, id.uuid@)->0].goals@;
            seq![declared[first_position(declared, id.uuid@)].message]
        } else {
            Seq::empty()
        }
    }
}

/// The messages that the first `n` of `ids` name, in order; an identifier
/// that names no message is passed over.
pub open spec fn resolved_messages(models: Seq<Model>, ids: Seq<Identifier>, n: int) -> Seq<
    Message,
>
    decreases n,
{
    if n <= 0 {
        Seq::empty()
    } else {
        match workspace_message(models, ids[n - 1]) {
            Some(message) => resolved_messages(models, ids, n - 1).push(message),
            None => resolved_messages(models, ids, n - 1),
        }
    }
}

/// Gathers a list of identifiers into an ascending list.
pub fn gather(ids: &Vec<Identifier>) -> (r: Vec<Identifier>)
    ensures
        r@ == gathered(ids@, ids@.len() as int),
{
    let mut result: Vec<Identifier> = Vec::new();
    let mut i: usize = 0;
    assert(result@ =~= gathered(ids@, 0));
    while i < ids.len()
        invariant
            i <= ids@.len(),
            result@ == gathered(ids@, i as int),
        decreases ids@.len() - i,
    {
        put(&mut result, ids[i].clone());
        i = i + 1;
    }
    result
}

/// Adds the messages of the actions that `handlers` name.
fn add_handler_messages(
    out: &mut Vec<Identifier>,
    workspace: &ProjectWorkspace,
    handlers: &Vec<Identifier>,
)
    ensures
        final(out)@ == old(out)@ + handler_messages(
            workspace@,
            handlers@,
            handlers@.len() as int,
        ),
{
    let mut i: usize = 0;
    assert(out@ =~= old(out)@ + handler_messages(workspace@, handlers@, 0));
    while i < handlers.len()
        invariant
            i <= handlers@.len(),
            out@ == old(out)@ + handler_messages(workspace@, handlers@, i as int),
        decreases handlers@.len() - i,
    {
        let ghost before = out@;
        match workspace.get_action(&handlers[i]) {
            Ok(action) => {
                if !action.reply.name.as_str().is_empty() {
                    out.push(action.reply.clone());
                }
                if !action.request.name.as_str().is_empty() {
                    out.push(action.request.clone());
                }
                assert(out@ =~= before + action_messages(*action));
            },
            Err(_) => {},
        }
        assert(out@ =~= old(out)@ + handler_messages(workspace@, handlers@, i + 1));
        i = i + 1;
    }
}

impl Service {
    /// The messages that the service uses, before they are put in order:
    /// those of the actions it handles, then those of its topics.
    pub open spec fn spec_messages(&self, models: Seq<Model>) -> Seq<Identifier> {
        handler_messages(models, self.action_handlers@, self.action_handlers@.len() as int)
            + topic_messages(self.topics@)
    }

    /// The messages that the service uses, in the order of their qualified
    /// names and each qualified name once.
    pub fn get_messages_id(&self, workspace: &ProjectWorkspace) -> (r: Vec<Identifier>)
        ensures
            r@ == gathered(
                self.spec_messages(workspace@),
                self.spec_messages(workspace@).len() as int,
            ),
    {
        let mut used: Vec<Identifier> = Vec::new();
        add_handler_messages(&mut used, workspace, &self.action_handlers);
        let ghost handled = used@;
        let mut i: usize = 0;
        assert(used@ =~= handled + topic_messages(self.topics@).take(0));
        while i < self.topics.len()
            invariant
                i <= self.topics@.len(),
                used@ == handled + topic_messages(self.topics@).take(i as int),
            decreases self.topics@.len() - i,
        {
            used.push(self.topics[i].message.clone());
            assert(used@ =~= handled + topic_messages(self.topics@).take(i + 1));
            i = i + 1;
        }
        assert(topic_messages(self.topics@).take(self.topics@.len() as int) =~= topic_messages(
            self.topics@,
        ));
        assert(used@ =~= self.spec_messages(workspace@));
        gather(&used)
    }
}

impl Agent {
    /// The messages that the agent uses, before they are put in order:
    /// those of the actions it handles, those of the goals it pursues, and
    /// its beliefs.
    pub open spec fn spec_messages(&self, models: Seq<Model>) -> Seq<Identifier> {
        handler_messages(models, self.action_handlers@, self.action_handlers@.len() as int)
            + goal_messages(models, self.goals@, self.goals@.len() as int) + self.beliefs@
    }

    fn messages(&self, workspace: &ProjectWorkspace) -> (r: Vec<Identifier>)
        ensures
            r@ == self.spec_messages(workspace@),
    {
        let mut used: Vec<Identifier> = Vec::new();
        add_handler_messages(&mut used, workspace, &self.action_handlers);
        let ghost handled = used@;
        let mut i: usize = 0;
        assert(used@ =~= handled + goal_messages(workspace@, self.goals@, 0));
        while i < self.goals.len()
            invariant
                i <= self.goals@.len(),
                used@ == handled + goal_messages(workspace@, self.goals@, i as int),
            decreases self.goals@.len() - i,
        {
            match workspace.get_goal(&self.goals[i].id) {
                Ok(goal) => {
                    used.push(goal.message.clone());
                },
                Err(_) => {},
            }
            assert(used@ =~= handled + goal_messages(workspace@, self.goals@, i + 1));
            i = i + 1;
        }
        let mut beliefs = self.beliefs.clone();
        used.append(&mut beliefs);
        assert(used@ =~= self.spec_messages(workspace@));
        used
    }
}

/// The messages that the agent, team or service named by `id` uses, before
/// any is looked up: those of the agent or team, then those of the
/// service, all in the order of their qualified names and each qualified
/// name once.
pub open spec fn used_message_ids(models: Seq<Model>, id: Identifier) -> Seq<Identifier> {
    match owner(models, id.uuid@) {
        Some(p) => {
            let model = models[p];
            let of_agent = match model.spec_agent_internal(id, true, true) {
                Some(agent) => agent.spec_messages(models),
                None => Seq::empty(),
            };
            let of_service = if model.spec_find_service(id) {
                let service = model.services@[first_position(model.services@, id.uuid@)];
                gathered(service.spec_messages(models), service.spec_messages(models).len() as int)
            } else {
                Seq::empty()
            };
            gathered(of_agent + of_service, (of_agent + of_service).len() as int)
        },
        None => Seq::empty(),
    }
}

impl ProjectWorkspace {
    /// The messages that the agent, team or service named by `id` uses, in
    /// the order of their qualified names. An identifier that names no
    /// message is passed over.
    pub fn get_messages_used_by_entity(&self, id: &Identifier) -> (r: Vec<&Message>)
        ensures
            r@.map_values(|m: &Message| *m) == resolved_messages(
                self@,
                used_message_ids(self@, *id),
                used_message_ids(self@, *id).len() as int,
            ),
    {
        let model = self.lookup_model_with_id(id);
        proof {
            if owner(self@, id.uuid@) is None {
                lemma_nil_model_finds_nothing(*model, *id);
                assert(model.spec_agent_internal(*id, true, true) is None);
            }
        }
        let mut used: Vec<Identifier> = Vec::new();
        if let Some(agent) = model.get_agent_internal(id, true, true) {
            used = agent.messages(self);
        }
        if let Some(service) = model.get_service(id) {
            let mut of_service = service.get_messages_id(self);
            used.append(&mut of_service);
        }
        let ids = gather(&used);
        assert(owner(self@, id.uuid@) is None ==> used@ =~= Seq::empty());
        assert(ids@ =~= used_message_ids(self@, *id));
        let mut result: Vec<&Message> = Vec::new();
        let mut i: usize = 0;
        assert(result@.map_values(|m: &Message| *m) =~= resolved_messages(self@, ids@, 0));
        while i < ids.len()
            invariant
                i <= ids@.len(),
                result@.map_values(|m: &Message| *m) == resolved_messages(self@, ids@, i as int),
            decreases ids@.len() - i,
        {
            let ghost before = result@.map_values(|m: &Message| *m);
            match self.get_message(&ids[i]) {
                Ok(message) => {
                    result.push(message);
                    assert(result@.map_values(|m: &Message| *m) =~= before.push(*message));
                },
                Err(_) => {},
            }
            i = i + 1;
        }
        result
    }
}

} // verus!
