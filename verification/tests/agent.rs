use jack_make::concept::ModelConcept;
use jack_make::error::{ErrorType, ModelError};
use jack_make::identifier::Identifier;
use jack_make::model::Model;
use jack_make::schema::{
    Action, Agent, AgentGoal, AgentType, Goal, Message, MessagePerm, Plan, Resource, Role, Service,
    Tactic, Task, TaskType,
};
use jack_make::validate::Checked;
use jack_make::workspace::ProjectWorkspace;

fn ident(name: &str) -> Identifier {
    Identifier {
        uuid: format!("uuid-{}", name),
        name: name.to_string(),
        module: String::new(),
        bumpy_case: String::new(),
    }
}

fn kinds(errors: &Vec<ModelError>) -> Vec<ErrorType> {
    errors.iter().map(|e| e.error_type.clone()).collect()
}

fn check(agent: &Agent, model: &Model) -> Vec<ModelError> {
    agent.verify(ModelConcept::Agent, model, &ProjectWorkspace::default(), 0)
}

fn check_team(agent: &Agent, model: &Model, index: usize) -> Vec<ModelError> {
    agent.verify(ModelConcept::Team, model, &ProjectWorkspace::default(), index)
}

fn courier() -> Agent {
    let mut agent = Agent::default();
    agent.id = ident("Courier");
    agent
}

fn pursued(name: &str) -> AgentGoal {
    let mut goal = AgentGoal::default();
    goal.id = ident(name);
    goal
}

fn action_task(id: &str, action: &str) -> Task {
    let mut task = Task::default();
    task.id = id.to_string();
    task.task_type = TaskType::action;
    task.action = Some(ident(action));
    task.mappings = Some(vec![]);
    task
}

fn world() -> Model {
    let mut model = Model::default();
    for name in ["Position", "Speed", "Cargo"] {
        let mut message = Message::default();
        message.id = ident(name);
        model.messages.push(message);
    }
    for name in ["Drive", "Load"] {
        let mut action = Action::default();
        action.id = ident(name);
        model.actions.push(action);
    }
    let mut deliver = Goal::default();
    deliver.id = ident("Deliver");
    deliver.query_messages.push(ident("Position"));
    deliver.query_messages.push(ident("Cargo"));
    deliver.resources.push(ident("Fuel"));
    model.goals.push(deliver);
    let mut rest = Goal::default();
    rest.id = ident("Rest");
    model.goals.push(rest);
    let mut carry = Plan::default();
    carry.id = ident("CarryOut");
    carry.handles = ident("Deliver");
    carry.tasks.push(action_task("t0", "Load"));
    carry.tasks.push(action_task("t1", "Drive"));
    carry.tasks.push(action_task("t2", "Load"));
    model.plans.push(carry);
    let mut fuel = Resource::default();
    fuel.id = ident("Fuel");
    fuel.max = 10;
    model.resources.push(fuel);
    let mut driver = Role::default();
    driver.id = ident("Driver");
    driver.messages.push(MessagePerm { id: ident("Cargo"), read: true, write: false });
    model.roles.push(driver);
    let mut garage = Service::default();
    garage.id = ident("Garage");
    garage.action_handlers.push(ident("Load"));
    model.services.push(garage);
    let mut careful = Tactic::default();
    careful.id = ident("Careful");
    careful.goal = ident("Deliver");
    model.tactics.push(careful);
    model
}

#[test]
fn the_kind_of_an_agent_follows_its_collection() {
    assert_eq!(AgentType::of(ModelConcept::Team), AgentType::Team);
    assert_eq!(AgentType::of(ModelConcept::Agent), AgentType::Agent);
    assert_eq!(AgentType::Team.to_string(), "team");
    assert_eq!(AgentType::Agent.to_string(), "agent");
    assert_eq!(AgentType::Team.name(), "Team");
    assert_eq!(AgentType::Agent.lower(), "agent");
}

#[test]
fn an_agent_without_references_has_no_findings() {
    assert!(check(&courier(), &world()).is_empty());
}

#[test]
fn a_complete_agent_has_no_findings() {
    let mut agent = courier();
    agent.action_handlers.push(ident("Drive"));
    agent.beliefs.push(ident("Position"));
    agent.message_handlers.push(ident("Speed"));
    agent.goals.push(pursued("Deliver"));
    agent.goals[0].startup_tactic = ident("Careful");
    agent.plans.push(ident("CarryOut"));
    agent.resources.push(ident("Fuel"));
    agent.roles.push(ident("Driver"));
    agent.services.push(ident("Garage"));
    assert!(check(&agent, &world()).is_empty());
}

#[test]
fn every_list_of_an_agent_is_checked_for_unknown_entries() {
    let mut agent = courier();
    agent.action_handlers.push(ident("A"));
    agent.beliefs.push(ident("B"));
    agent.message_handlers.push(ident("M"));
    agent.goals.push(pursued("G"));
    agent.plans.push(ident("P"));
    agent.resources.push(ident("R"));
    agent.roles.push(ident("O"));
    agent.services.push(ident("S"));
    let out = check(&agent, &Model::default());
    assert_eq!(
        kinds(&out),
        vec![
            ErrorType::ActionNotFound,
            ErrorType::MessageNotFound,
            ErrorType::MessageNotFound,
            ErrorType::GoalNotFound,
            ErrorType::PlanNotFound,
            ErrorType::ResourceNotFound,
            ErrorType::RoleNotFound,
            ErrorType::ServiceNotFound,
        ]
    );
    let keys: Vec<String> = out.iter().map(|e| e.keys[0].clone()).collect();
    assert_eq!(
        keys,
        vec![
            "agents.Courier.action_handlers.A",
            "agents.Courier.beliefs.B",
            "agents.Courier.message_handlers.M",
            "agents.Courier.goals.G",
            "agents.Courier.plans.P",
            "agents.Courier.resources.R",
            "agents.Courier.roles.O",
            "agents.Courier.services.S",
        ]
    );
    let texts: Vec<String> = out.iter().map(|e| e.error_string.clone()).collect();
    assert_eq!(
        texts,
        vec![
            "Action A at index 0 cannot be found in messages.",
            "Belief B at index 0 cannot be found in messages.",
            "Message M at index 0 cannot be found in messages.",
            "Message G at index 0 cannot be found in messages.",
            "Plan P at index 0 cannot be found in plans.",
            "Resource R at index 0 cannot be found in resources.",
            "Role O at index 0 cannot be found in roles.",
            "Service S at index 0 cannot be found in services.",
        ]
    );
}

#[test]
fn unset_entries_of_a_team() {
    let mut team = courier();
    team.action_handlers.push(ident("Drive"));
    team.action_handlers.push(Identifier::default());
    team.roles.push(Identifier::default());
    let out = check_team(&team, &world(), 6);
    assert_eq!(
        kinds(&out),
        vec![
            ErrorType::ZeroSizeString,
            ErrorType::ActionNotFound,
            ErrorType::ZeroSizeString,
            ErrorType::RoleNotFound,
        ]
    );
    assert_eq!(out[0].keys, vec!["teams.Courier.action_handlers.1"]);
    assert_eq!(out[0].machine_keys, vec!["teams.6.action_handlers.1"]);
    assert_eq!(out[0].error_string, "Action at index 1 must not be empty.");
    assert_eq!(out[2].error_string, "Role at index 0 must not be empty.");
    assert_eq!(out[3].machine_keys, vec!["teams.6.roles.0"]);
}

#[test]
fn an_entry_listed_twice() {
    let mut team = courier();
    team.beliefs.push(ident("Position"));
    team.beliefs.push(ident("Speed"));
    team.beliefs.push(ident("Position"));
    let out = check_team(&team, &world(), 1);
    assert_eq!(kinds(&out), vec![ErrorType::DuplicateName]);
    assert_eq!(
        out[0].keys,
        vec!["teams.Courier.beliefs.Position", "teams.Courier.beliefs.Position"]
    );
    assert_eq!(out[0].machine_keys, vec!["teams.1.beliefs.2", "teams.1.beliefs.0"]);
    assert_eq!(
        out[0].error_string,
        "Team at Courier in beliefsets has duplicate entries of 'Position' at indicies 0 and 2."
    );
}

#[test]
fn an_agent_must_hold_the_beliefs_of_its_goals() {
    let mut agent = courier();
    agent.goals.push(pursued("Rest"));
    agent.goals.push(pursued("Deliver"));
    agent.resources.push(ident("Fuel"));
    let out = check(&agent, &world());
    assert_eq!(
        kinds(&out),
        vec![ErrorType::BeliefsetInGoalNotInAgent, ErrorType::BeliefsetInGoalNotInAgent]
    );
    assert_eq!(
        out[0].keys,
        vec!["agents.Courier.goals.Deliver", "goals.Deliver.beliefsets.Cargo"]
    );
    assert_eq!(out[0].machine_keys, vec!["agents.0.goals.1", "goals.0.beliefsets.1"]);
    assert_eq!(
        out[0].error_string,
        "Goal Deliver with beliefset Cargo cannot be found in agent or agent roles."
    );
    assert_eq!(
        out[1].keys,
        vec!["agents.Courier.goals.Deliver", "goals.Deliver.beliefsets.Position"]
    );
    assert_eq!(out[1].machine_keys, vec!["agents.0.goals.1", "goals.0.beliefsets.0"]);
}

#[test]
fn beliefs_can_be_held_through_a_role() {
    let mut agent = courier();
    agent.goals.push(pursued("Deliver"));
    agent.resources.push(ident("Fuel"));
    agent.beliefs.push(ident("Position"));
    agent.roles.push(ident("Driver"));
    assert!(check(&agent, &world()).is_empty());
    assert_eq!(agent.held_beliefs(&world()).len(), 2);
    agent.roles.clear();
    let out = check(&agent, &world());
    assert_eq!(kinds(&out), vec![ErrorType::BeliefsetInGoalNotInAgent]);
    assert_eq!(out[0].keys[1], "goals.Deliver.beliefsets.Cargo");
}

#[test]
fn a_startup_tactic_must_be_declared() {
    let mut agent = courier();
    agent.goals.push(pursued("Rest"));
    agent.goals[0].startup_tactic = ident("Hasty");
    let out = check(&agent, &world());
    assert_eq!(kinds(&out), vec![ErrorType::TacticNotFound]);
    assert_eq!(out[0].keys, vec!["agents.Courier.goals.Rest.startup_tactic.Hasty"]);
    assert_eq!(out[0].machine_keys, vec!["agents.0.goals.0.startup_tactic"]);
    assert_eq!(out[0].error_string, "Goal 'Rest' startup tactic 'Hasty' does not exist.");
    agent.goals[0].startup_tactic = ident("Careful");
    assert!(check(&agent, &world()).is_empty());
}

#[test]
fn an_agent_must_handle_the_actions_of_its_plans() {
    let mut agent = courier();
    agent.plans.push(ident("CarryOut"));
    let out = check(&agent, &world());
    assert_eq!(
        kinds(&out),
        vec![ErrorType::ActionHandlersNotInAgent, ErrorType::ActionHandlersNotInAgent]
    );
    assert_eq!(out[0].keys, vec!["agents.Courier.plans.CarryOut", "plans.CarryOut.tasks.Drive"]);
    assert_eq!(out[0].machine_keys, vec!["agents.0.plans.0", "plans.0.tasks.1"]);
    assert_eq!(
        out[0].error_string,
        "Plan CarryOut with action Drive cannot be found in Agent Courier Action Handlers."
    );
    assert_eq!(out[1].keys, vec!["agents.Courier.plans.CarryOut", "plans.CarryOut.tasks.Load"]);
    assert_eq!(out[1].machine_keys, vec!["agents.0.plans.0", "plans.0.tasks.0"]);
}

#[test]
fn actions_can_be_handled_by_a_service() {
    let mut agent = courier();
    agent.plans.push(ident("CarryOut"));
    agent.action_handlers.push(ident("Drive"));
    agent.services.push(ident("Garage"));
    assert!(check(&agent, &world()).is_empty());
    let handled = agent.handled_actions(&world());
    let names: Vec<String> = handled.iter().map(|id| id.name.clone()).collect();
    assert_eq!(names, vec!["Load", "Drive"]);
}

#[test]
fn an_agent_must_own_the_resources_of_its_goals() {
    let mut team = courier();
    team.goals.push(pursued("Deliver"));
    team.beliefs.push(ident("Position"));
    team.beliefs.push(ident("Cargo"));
    let out = check_team(&team, &world(), 2);
    assert_eq!(kinds(&out), vec![ErrorType::AgentGoalNoResource]);
    assert_eq!(out[0].keys, vec!["teams.Courier.goals.Deliver", "goals.Deliver.resources.Fuel"]);
    assert_eq!(out[0].machine_keys, vec!["teams.2.goals.0", "goals.0.resources.0"]);
    assert_eq!(
        out[0].error_string,
        "Goal Deliver with resource Fuel cannot be found in Team Courier Resources."
    );
}

#[test]
fn desires_and_tactics_of_an_agent() {
    let mut agent = courier();
    assert!(!agent.has_desires());
    assert!(!agent.has_tactics());
    assert!(agent.desires().is_empty());
    assert!(agent.tactics().is_empty());
    agent.goals.push(pursued("Rest"));
    agent.goals.push(pursued("Deliver"));
    agent.goals.push(pursued("Wander"));
    agent.goals[1].startup_goal = true;
    agent.goals[2].startup_goal = true;
    agent.goals[0].startup_tactic = ident("Careful");
    assert!(agent.has_desires());
    assert!(agent.has_tactics());
    let desires: Vec<String> = agent.desires().iter().map(|id| id.name.clone()).collect();
    assert_eq!(desires, vec!["Deliver", "Wander"]);
    let tactics: Vec<String> = agent.tactics().iter().map(|id| id.name.clone()).collect();
    assert_eq!(tactics, vec!["Careful"]);
}

#[test]
fn what_an_agent_lacks_is_reported_in_the_order_of_names() {
    let mut model = world();
    model.goals[0].resources.clear();
    for name in ["Zinc", "Fuel", "Brass", "Zinc", "Argon"] {
        model.goals[0].resources.push(ident(name));
    }
    let mut team = courier();
    team.goals.push(pursued("Deliver"));
    team.beliefs.push(ident("Position"));
    team.beliefs.push(ident("Cargo"));
    team.resources.push(ident("Fuel"));
    let out = check_team(&team, &model, 0);
    assert!(out.iter().all(|e| e.error_type == ErrorType::AgentGoalNoResource));
    let named: Vec<String> = out.iter().map(|e| e.keys[1].clone()).collect();
    assert_eq!(
        named,
        vec![
            "goals.Deliver.resources.Argon",
            "goals.Deliver.resources.Brass",
            "goals.Deliver.resources.Zinc",
        ]
    );
    let placed: Vec<String> = out.iter().map(|e| e.machine_keys[1].clone()).collect();
    assert_eq!(placed, vec!["goals.0.resources.4", "goals.0.resources.2", "goals.0.resources.0"]);
}
