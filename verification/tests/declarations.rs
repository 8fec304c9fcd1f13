use jack_make::concept::ModelConcept;
use jack_make::error::{ErrorType, ModelError};
use jack_make::identifier::Identifier;
use jack_make::model::Model;
use jack_make::schema::{Action, Agent, Enum, Event, Message, Resource, Role, Service};
use jack_make::validate::Declaration;
use jack_make::workspace::ProjectWorkspace;

fn ident(name: &str) -> Identifier {
    Identifier {
        uuid: format!("uuid-{}", name),
        name: name.to_string(),
        module: String::new(),
        bumpy_case: String::new(),
    }
}

fn named_model() -> Model {
    let mut model = Model::default();
    model.project.name = "Test".to_string();
    model
}

fn check(model: &Model) -> Vec<ModelError> {
    let mut workspace = ProjectWorkspace::default();
    workspace.add_models(vec![model.clone()]);
    model.verify(&workspace)
}

fn kinds(errors: &Vec<ModelError>) -> Vec<ErrorType> {
    errors.iter().map(|e| e.error_type.clone()).collect()
}

fn agent(name: &str) -> Agent {
    let mut agent = Agent::default();
    agent.id = ident(name);
    agent
}

fn service(name: &str) -> Service {
    let mut service = Service::default();
    service.id = ident(name);
    service
}

#[test]
fn a_named_agent_with_an_identity_has_no_findings() {
    let mut model = named_model();
    model.agents.push(agent("Courier"));
    assert!(check(&model).is_empty());
}

#[test]
fn an_agent_without_a_name() {
    let mut model = named_model();
    let mut nameless = agent("");
    nameless.id.uuid = "u".to_string();
    model.agents.push(nameless);
    let out = check(&model);
    assert_eq!(kinds(&out), vec![ErrorType::ZeroSizeString]);
    assert!(out[0].keys.is_empty());
    assert_eq!(out[0].machine_keys, vec!["agents.0"]);
    assert_eq!(out[0].error_string, "Agent name at index 0 must not be empty.");
}

#[test]
fn a_team_without_an_identity() {
    let mut model = named_model();
    model.teams.push(agent("Squad"));
    let mut second = agent("Crew");
    second.id.uuid = String::new();
    model.teams.push(second);
    let out = check(&model);
    assert_eq!(kinds(&out), vec![ErrorType::ZeroSizeString]);
    assert!(out[0].keys.is_empty());
    assert_eq!(out[0].machine_keys, vec!["teams.1"]);
    assert_eq!(
        out[0].error_string,
        "Team 'Crew' at index 1 does not have an UUID assigned to it."
    );
}

#[test]
fn every_kind_has_its_reserved_name() {
    let mut model = named_model();
    model.teams.push(agent("Team"));
    model.agents.push(agent("Agent"));
    model.services.push(service("Service"));
    let mut message = Message::default();
    message.id = ident("Message");
    model.messages.push(message);
    let mut role = Role::default();
    role.id = ident("Role");
    model.roles.push(role);
    let mut resource = Resource::default();
    resource.id = ident("Resource");
    resource.max = 1;
    model.resources.push(resource);
    let mut action = Action::default();
    action.id = ident("Action");
    model.actions.push(action);
    let mut enumeration = Enum::default();
    enumeration.id = ident("Enum");
    model.enums.push(enumeration);

    let out = check(&model);
    assert_eq!(out.len(), 8);
    assert!(out.iter().all(|e| e.error_type == ErrorType::NameSameAsType));
    assert_eq!(out[0].keys, vec!["teams.Team"]);
    assert_eq!(out[0].machine_keys, vec!["teams.0"]);
    assert_eq!(out[0].error_string, "Team at index 0 is using reserved name 'Team'.");
    assert_eq!(out[1].error_string, "Agent at index 0 is using reserved name 'Agent'.");
    assert_eq!(out[2].keys, vec!["messages.Message"]);
    assert_eq!(out[3].keys, vec!["roles.Role"]);
    assert_eq!(out[4].keys, vec!["resources.Resource"]);
    assert_eq!(out[5].keys, vec!["actions.Action"]);
    assert_eq!(out[6].keys, vec!["services.Service"]);
    assert_eq!(out[7].keys, vec!["enums.Enum"]);
}

#[test]
fn the_name_of_another_kind_is_not_reserved() {
    let mut model = named_model();
    model.agents.push(agent("Team"));
    model.teams.push(agent("Agent"));
    assert!(check(&model).is_empty());
}

#[test]
fn a_name_taken_by_another_kind_collides() {
    let mut model = named_model();
    model.teams.push(agent("Alpha"));
    let mut taken = service("Alpha");
    taken.id.uuid = "other".to_string();
    model.services.push(taken);
    let out = check(&model);
    assert_eq!(kinds(&out), vec![ErrorType::DuplicateName]);
    assert_eq!(out[0].keys, vec!["teams.Alpha", "services.Alpha"]);
    assert_eq!(out[0].machine_keys, vec!["teams.0", "services.0"]);
    assert_eq!(
        out[0].error_string,
        "Service 'Alpha' has a duplicated name with Team 'Alpha' (id of duplicated item is: 'other')"
    );
}

#[test]
fn a_third_declaration_of_a_name_is_held_against_the_first() {
    let mut model = named_model();
    for uuid in ["a", "b", "c"] {
        let mut next = agent("Twin");
        next.id.uuid = uuid.to_string();
        model.agents.push(next);
    }
    let out = check(&model);
    assert_eq!(kinds(&out), vec![ErrorType::DuplicateName, ErrorType::DuplicateName]);
    assert_eq!(out[0].machine_keys, vec!["agents.0", "agents.1"]);
    assert_eq!(out[1].machine_keys, vec!["agents.0", "agents.2"]);
}

#[test]
fn an_identity_taken_twice_collides() {
    let mut model = named_model();
    model.agents.push(agent("First"));
    let mut second = service("Second");
    second.id.uuid = "uuid-First".to_string();
    model.services.push(second);
    let out = check(&model);
    assert_eq!(kinds(&out), vec![ErrorType::DuplicateName]);
    assert_eq!(out[0].keys, vec!["agents.uuid-First", "services.uuid-First"]);
    assert_eq!(out[0].machine_keys, vec!["agents.0", "services.0"]);
    assert_eq!(
        out[0].error_string,
        "Service 'Second' has a duplicated UUID with Agent 'First' (id was: 'uuid-First')"
    );
}

#[test]
fn a_copy_of_a_declaration_collides_by_name_and_by_identity() {
    let mut model = named_model();
    model.teams.push(agent("Twin"));
    model.teams.push(agent("Twin"));
    let out = check(&model);
    assert_eq!(kinds(&out), vec![ErrorType::DuplicateName, ErrorType::DuplicateName]);
    assert_eq!(out[0].keys, vec!["teams.Twin", "teams.Twin"]);
    assert_eq!(out[1].keys, vec!["teams.uuid-Twin", "teams.uuid-Twin"]);
}

#[test]
fn collections_are_checked_in_a_fixed_order() {
    let mut model = named_model();
    let mut event = Event::default();
    event.id = ident("Event");
    event.message.id = ident("Payload");
    model.events.push(event);
    let mut enumeration = Enum::default();
    enumeration.id = ident("Enum");
    model.enums.push(enumeration);
    model.services.push(service("Service"));
    model.agents.push(agent("Agent"));
    model.teams.push(agent("Team"));
    let mut payload = Message::default();
    payload.id = ident("Payload");
    model.messages.push(payload);
    let out = check(&model);
    let paths: Vec<String> = out.iter().map(|e| e.machine_keys[0].clone()).collect();
    assert_eq!(paths, vec!["teams.0", "agents.0", "services.0", "enums.0", "events.0"]);
}

#[test]
fn the_single_checks_can_be_called_alone() {
    let model = Model::default();
    let metadata = ModelConcept::Goal.metadata();
    assert_eq!(metadata.error_key, "goals");
    assert_eq!(metadata.reserved_name, "Goal");
    let mut errors: Vec<ModelError> = Vec::new();
    let mut id = ident("Goal");
    id.uuid = String::new();
    model.check_zero_length_name(&metadata, &mut errors, &id, 4);
    assert!(errors.is_empty());
    model.check_zero_length_uuid(&metadata, &mut errors, &id, 4);
    assert_eq!(errors.len(), 1);
    model.check_name_is_not_reserved(&metadata, &mut errors, &id, 4);
    assert_eq!(errors.len(), 2);
    assert_eq!(errors[1].machine_keys, vec!["goals.4"]);
    let seen = vec![Declaration { concept: ModelConcept::Plan, index: 12, id: ident("Goal") }];
    model.check_duplicate_name(&seen, &metadata, &mut errors, &id, 4);
    assert_eq!(errors.len(), 3);
    assert_eq!(errors[2].keys, vec!["plans.Goal", "goals.Goal"]);
    assert_eq!(errors[2].machine_keys, vec!["plans.12", "goals.4"]);
    model.check_duplicate_uuid(&seen, &metadata, &mut errors, &id, 4);
    assert_eq!(errors.len(), 3);
}

#[test]
fn metadata_of_every_kind() {
    let all = [
        (ModelConcept::Nil, "nils", "Nil"),
        (ModelConcept::Team, "teams", "Team"),
        (ModelConcept::Agent, "agents", "Agent"),
        (ModelConcept::Message, "messages", "Message"),
        (ModelConcept::Goal, "goals", "Goal"),
        (ModelConcept::Plan, "plans", "Plan"),
        (ModelConcept::Role, "roles", "Role"),
        (ModelConcept::Resource, "resources", "Resource"),
        (ModelConcept::Tactic, "tactics", "Tactic"),
        (ModelConcept::Action, "actions", "Action"),
        (ModelConcept::Service, "services", "Service"),
        (ModelConcept::Enum, "enums", "Enum"),
        (ModelConcept::Event, "events", "Event"),
        (ModelConcept::Count, "counts", "Count"),
    ];
    for (concept, key, reserved) in all {
        let metadata = concept.metadata();
        assert_eq!(metadata.concept, concept);
        assert_eq!(metadata.error_key, key);
        assert_eq!(metadata.reserved_name, reserved);
    }
}
