//! One module's declarations, and lookup among them.

use crate::concept::{first_position, has_identity, position};
use crate::identifier::Identifier;
use crate::schema::{
    Action, Agent, Entity, Enum, Event, Field, Goal, Message, Plan, Project, Resource, Role,
    Service, Tactic,
};
use crate::text::{join3, join5};
use vstd::prelude::*;

verus! {

/// All that one module declares. Each collection keeps the order of
/// declaration; findings are reported in that order.
#[derive(Debug, Clone)]
pub struct Model {
    pub project: Project,
    pub enums: Vec<Enum>,
    pub teams: Vec<Agent>,
    pub agents: Vec<Agent>,
    pub tactics: Vec<Tactic>,
    pub roles: Vec<Role>,
    pub resources: Vec<Resource>,
    pub actions: Vec<Action>,
    pub goals: Vec<Goal>,
    pub plans: Vec<Plan>,
    pub messages: Vec<Message>,
    pub services: Vec<Service>,
    pub entities: Vec<Entity>,
    pub events: Vec<Event>,
}

/// Why a lookup by identifier failed.
#[derive(Debug, Clone)]
pub struct NotFoundError {
    pub message: String,
}

/// The sentence that reports a failed lookup of a concept of kind `what`.
pub open spec fn not_found_text(what: Seq<char>, id: Identifier, model_name: Seq<char>) -> Seq<
    char,
> {
    "Failed to get "@ + what + " '"@ + id.spec_qualified_name() + "': Does not exist in model '"@
        + model_name + "'"@
}

impl NotFoundError {
    fn new(what: &str, id: &Identifier, model_name: &str) -> (r: Self)
        ensures
            r.message@ == not_found_text(what@, *id, model_name@),
    {
        let name = id.qualified_name();
        let head = join3("Failed to get ", what, " '");
        let message = join5(
            head.as_str(),
            name.as_str(),
            "': Does not exist in model '",
            model_name,
            "'",
        );
        NotFoundError { message }
    }

    /// The sentence that says what was not found.
    pub fn to_string(&self) -> (r: String)
        ensures
            r@ == self.message@,
    {
        self.message.clone()
    }
}

impl Project {
    /// A project with nothing set.
    pub fn new() -> (r: Project)
        ensures
            r.spec_is_nil(),
    {
        Project {
            name: String::new(),
            bumpy_case: String::new(),
            namespaces: Vec::new(),
            major_version: String::new(),
            minor_version: String::new(),
            patch_version: String::new(),
            generator: String::new(),
            modules: Vec::new(),
            search_paths: Vec::new(),
        }
    }

    /// Whether nothing is set in the project.
    pub open spec fn spec_is_nil(&self) -> bool {
        &&& self.name@.len() == 0
        &&& self.bumpy_case@.len() == 0
        &&& self.namespaces@.len() == 0
        &&& self.major_version@.len() == 0
        &&& self.minor_version@.len() == 0
        &&& self.patch_version@.len() == 0
        &&& self.generator@.len() == 0
        &&& self.modules@.len() == 0
        &&& self.search_paths@.len() == 0
    }
}

impl Default for Model {
    fn default() -> (r: Self)
        ensures
            r.spec_is_nil(),
    {
        Model::new()
    }
}

impl Model {
    /// A model that declares nothing.
    pub fn new() -> (r: Model)
        ensures
            r.spec_is_nil(),
    {
        Model {
            project: Project::new(),
            enums: Vec::new(),
            teams: Vec::new(),
            agents: Vec::new(),
            tactics: Vec::new(),
            roles: Vec::new(),
            resources: Vec::new(),
            actions: Vec::new(),
            goals: Vec::new(),
            plans: Vec::new(),
            messages: Vec::new(),
            services: Vec::new(),
            entities: Vec::new(),
            events: Vec::new(),
        }
    }

    /// Whether the model declares nothing beyond its project.
    pub open spec fn spec_is_empty(&self) -> bool {
        &&& self.enums@.len() == 0
        &&& self.teams@.len() == 0
        &&& self.agents@.len() == 0
        &&& self.tactics@.len() == 0
        &&& self.roles@.len() == 0
        &&& self.resources@.len() == 0
        &&& self.actions@.len() == 0
        &&& self.goals@.len() == 0
        &&& self.plans@.len() == 0
        &&& self.messages@.len() == 0
        &&& self.services@.len() == 0
        &&& self.entities@.len() == 0
        &&& self.events@.len() == 0
    }

    /// Whether this is the nil model: nothing declared and no project set.
    /// It stands for "no module owns the identifier".
    pub open spec fn spec_is_nil(&self) -> bool {
        self.project.spec_is_nil() && self.spec_is_empty()
    }

    pub open spec fn spec_find_message(&self, id: Identifier) -> bool {
        has_identity(self.messages@, id.uuid@)
    }

    pub open spec fn spec_find_action(&self, id: Identifier) -> bool {
        has_identity(self.actions@, id.uuid@)
    }

    pub open spec fn spec_find_goal(&self, id: Identifier) -> bool {
        has_identity(self.goals@, id.uuid@)
    }

    pub open spec fn spec_find_plan(&self, id: Identifier) -> bool {
        has_identity(self.plans@, id.uuid@)
    }

    pub open spec fn spec_find_resource(&self, id: Identifier) -> bool {
        has_identity(self.resources@, id.uuid@)
    }

    pub open spec fn spec_find_role(&self, id: Identifier) -> bool {
        has_identity(self.roles@, id.uuid@)
    }

    pub open spec fn spec_find_service(&self, id: Identifier) -> bool {
        has_identity(self.services@, id.uuid@)
    }

    /// An unset identifier names no tactic.
    pub open spec fn spec_find_tactic(&self, id: Identifier) -> bool {
        id.name@.len() > 0 && has_identity(self.tactics@, id.uuid@)
    }

    /// Whether the module declares a message with the identity of
    /// `identifier`.
    pub fn find_message(&self, identifier: &Identifier) -> (r: bool)
        ensures
            r == self.spec_find_message(*identifier),
    {
        position(&self.messages, identifier).is_some()
    }

    /// Whether the module declares an action with the identity of
    /// `identifier`.
    pub fn find_action(&self, identifier: &Identifier) -> (r: bool)
        ensures
            r == self.spec_find_action(*identifier),
    {
        position(&self.actions, identifier).is_some()
    }

    /// Whether the module declares a goal with the identity of `identifier`.
    pub fn find_goal(&self, identifier: &Identifier) -> (r: bool)
        ensures
            r == self.spec_find_goal(*identifier),
    {
        position(&self.goals, identifier).is_some()
    }

    /// Whether the module declares a plan with the identity of `identifier`.
    pub fn find_plan(&self, identifier: &Identifier) -> (r: bool)
        ensures
            r == self.spec_find_plan(*identifier),
    {
        position(&self.plans, identifier).is_some()
    }

    /// Whether the module declares a resource with the identity of
    /// `identifier`.
    pub fn find_resource(&self, identifier: &Identifier) -> (r: bool)
        ensures
            r == self.spec_find_resource(*identifier),
    {
        position(&self.resources, identifier).is_some()
    }

    /// Whether the module declares a role with the identity of `identifier`.
    pub fn find_role(&self, identifier: &Identifier) -> (r: bool)
        ensures
            r == self.spec_find_role(*identifier),
    {
        position(&self.roles, identifier).is_some()
    }

    /// Whether the module declares a service with the identity of
    /// `identifier`.
    pub fn find_service(&self, identifier: &Identifier) -> (r: bool)
        ensures
            r == self.spec_find_service(*identifier),
    {
        position(&self.services, identifier).is_some()
    }

    /// Whether `identifier` is set and the module declares a tactic with its
    /// identity.
    pub fn find_tactic(&self, identifier: &Identifier) -> (r: bool)
        ensures
            r == self.spec_find_tactic(*identifier),
    {
        if identifier.name.as_str().is_empty() {
            false
        } else {
            position(&self.tactics, identifier).is_some()
        }
    }

    /// The fields of the message that `id` names; none where `id` is unset or
    /// names no message of the module.
    pub fn get_message_fields(&self, id: &Identifier) -> (r: Vec<Field>)
        ensures
            id.name@.len() > 0 && self.spec_find_message(*id) ==> r@ == self.messages@[first_position(
                self.messages@,
                id.uuid@,
            )].fields@,
            !(id.name@.len() > 0 && self.spec_find_message(*id)) ==> r@.len() == 0,
    {
        if !id.name.as_str().is_empty() {
            if let Some(i) = position(&self.messages, id) {
                let r = self.messages[i].fields.clone();
                assert(r@ =~= self.messages@[i as int].fields@);
                return r;
            }
        }
        Vec::new()
    }

    /// The message that `id` names: the first declared with its identity.
    /// The lookup fails where `id` is unset or names no message of the
    /// module.
    pub fn get_message(&self, id: &Identifier) -> (r: Result<&Message, NotFoundError>)
        ensures
            r is Ok <==> id.name@.len() > 0 && self.spec_find_message(*id),
            r is Ok ==> *r->Ok_0 == self.messages@[first_position(self.messages@, id.uuid@)],
            r is Err ==> r->Err_0.message@ == not_found_text("message"@, *id, self.project.name@),
    {
        if !id.name.as_str().is_empty() {
            if let Some(i) = position(&self.messages, id) {
                return Ok(&self.messages[i]);
            }
        }
        Err(NotFoundError::new("message", id, self.project.name.as_str()))
    }

    /// The goal that `id` names: the first declared with its identity. The
    /// lookup fails where `id` is unset or names no goal of the module.
    pub fn get_goal(&self, id: &Identifier) -> (r: Result<&Goal, NotFoundError>)
        ensures
            r is Ok <==> id.name@.len() > 0 && self.spec_find_goal(*id),
            r is Ok ==> *r->Ok_0 == self.goals@[first_position(self.goals@, id.uuid@)],
            r is Err ==> r->Err_0.message@ == not_found_text("goal"@, *id, self.project.name@),
    {
        if !id.name.as_str().is_empty() {
            if let Some(i) = position(&self.goals, id) {
                return Ok(&self.goals[i]);
            }
        }
        Err(NotFoundError::new("goal", id, self.project.name.as_str()))
    }

    /// The plan that `id` names: the first declared with its identity. The
    /// lookup fails where `id` is unset or names no plan of the module.
    pub fn get_plan(&self, id: &Identifier) -> (r: Result<&Plan, NotFoundError>)
        ensures
            r is Ok <==> id.name@.len() > 0 && self.spec_find_plan(*id),
            r is Ok ==> *r->Ok_0 == self.plans@[first_position(self.plans@, id.uuid@)],
            r is Err ==> r->Err_0.message@ == not_found_text("plan"@, *id, self.project.name@),
    {
        if !id.name.as_str().is_empty() {
            if let Some(i) = position(&self.plans, id) {
                return Ok(&self.plans[i]);
            }
        }
        Err(NotFoundError::new("plan", id, self.project.name.as_str()))
    }

    /// The role that `id` names: the first declared with its identity. The
    /// lookup fails where `id` is unset or names no role of the module.
    pub fn get_role(&self, id: &Identifier) -> (r: Result<&Role, NotFoundError>)
        ensures
            r is Ok <==> id.name@.len() > 0 && self.spec_find_role(*id),
            r is Ok ==> *r->Ok_0 == self.roles@[first_position(self.roles@, id.uuid@)],
            r is Err ==> r->Err_0.message@ == not_found_text("role"@, *id, self.project.name@),
    {
        if !id.name.as_str().is_empty() {
            if let Some(i) = position(&self.roles, id) {
                return Ok(&self.roles[i]);
            }
        }
        Err(NotFoundError::new("role", id, self.project.name.as_str()))
    }

    /// The action that `id` names: the first declared with its identity. The
    /// lookup fails where `id` is unset or names no action of the module.
    pub fn get_action(&self, id: &Identifier) -> (r: Result<&Action, NotFoundError>)
        ensures
            r is Ok <==> id.name@.len() > 0 && self.spec_find_action(*id),
            r is Ok ==> *r->Ok_0 == self.actions@[first_position(self.actions@, id.uuid@)],
            r is Err ==> r->Err_0.message@ == not_found_text("action"@, *id, self.project.name@),
    {
        if !id.name.as_str().is_empty() {
            if let Some(i) = position(&self.actions, id) {
                return Ok(&self.actions[i]);
            }
        }
        Err(NotFoundError::new("action", id, self.project.name.as_str()))
    }

    /// The request message of the action that `id` names, where there is
    /// such an action.
    pub fn get_action_request_msg_name(&self, id: &Identifier) -> (r: Option<Identifier>)
        ensures
            r is Some <==> id.name@.len() > 0 && self.spec_find_action(*id),
            r is Some ==> r->0 == self.actions@[first_position(self.actions@, id.uuid@)].request,
    {
        match self.get_action(id) {
            Ok(action) => Some(action.request.clone()),
            Err(_) => None,
        }
    }

    /// The reply message of the action that `id` names, where there is such
    /// an action.
    pub fn get_action_reply_msg_id(&self, id: &Identifier) -> (r: Option<Identifier>)
        ensures
            r is Some <==> id.name@.len() > 0 && self.spec_find_action(*id),
            r is Some ==> r->0 == self.actions@[first_position(self.actions@, id.uuid@)].reply,
    {
        match self.get_action(id) {
            Ok(action) => Some(action.reply.clone()),
            Err(_) => None,
        }
    }

    /// The service that `id` names: the first declared with its identity.
    pub fn get_service(&self, id: &Identifier) -> (r: Option<&Service>)
        ensures
            r is Some <==> self.spec_find_service(*id),
            r is Some ==> *r->0 == self.services@[first_position(self.services@, id.uuid@)],
    {
        match position(&self.services, id) {
            Some(i) => Some(&self.services[i]),
            None => None,
        }
    }
    /// The agent or team that `agent_id` names: the first agent with its
    /// identity where agents are searched and there is one, else the first
    /// such team where teams are searched.
    pub open spec fn spec_agent_internal(
        &self,
        agent_id: Identifier,
        search_agents: bool,
        search_teams: bool,
    ) -> Option<Agent> {
        if search_agents && has_identity(self.agents@, agent_id.uuid@) {
            Some(self.agents@[first_position(self.agents@, agent_id.uuid@)])
        } else if search_teams && has_identity(self.teams@, agent_id.uuid@) {
            Some(self.teams@[first_position(self.teams@, agent_id.uuid@)])
        } else {
            None
        }
    }

    /// The agent or team that `agent_id` names.
    pub fn get_agent_internal(
        &self,
        agent_id: &Identifier,
        search_agents: bool,
        search_teams: bool,
    ) -> (r: Option<&Agent>)
        ensures
            r is Some <==> self.spec_agent_internal(*agent_id, search_agents, search_teams) is Some,
            r is Some ==> *r->0 == self.spec_agent_internal(
                *agent_id,
                search_agents,
                search_teams,
            )->0,
    {
        if search_agents {
            if let Some(i) = position(&self.agents, agent_id) {
                return Some(&self.agents[i]);
            }
        }
        if search_teams {
            if let Some(i) = position(&self.teams, agent_id) {
                return Some(&self.teams[i]);
            }
        }
        None
    }

    /// The component messages among the first `n` messages, in order.
    pub open spec fn spec_component_messages(&self, n: int) -> Seq<Message>
        decreases n,
    {
        if n <= 0 {
            Seq::empty()
        } else if self.messages@[n - 1].component {
            self.spec_component_messages(n - 1).push(self.messages@[n - 1])
        } else {
            self.spec_component_messages(n - 1)
        }
    }

    /// The messages of the module that are components, in the order of
    /// declaration.
    pub fn get_component_messages(&self) -> (r: Vec<&Message>)
        ensures
            r@.map_values(|m: &Message| *m) == self.spec_component_messages(
                self.messages@.len() as int,
            ),
    {
        let mut result: Vec<&Message> = Vec::new();
        let mut i: usize = 0;
        assert(result@.map_values(|m: &Message| *m) =~= self.spec_component_messages(0));
        while i < self.messages.len()
            invariant
                i <= self.messages@.len(),
                result@.map_values(|m: &Message| *m) == self.spec_component_messages(i as int),
            decreases self.messages@.len() - i,
        {
            let ghost before = result@;
            if self.messages[i].component {
                result.push(&self.messages[i]);
                assert(result@.map_values(|m: &Message| *m) =~= before.map_values(
                    |m: &Message| *m,
                ).push(self.messages@[i as int]));
            }
            i = i + 1;
        }
        result
    }
}

} // verus!
