use jack_make::identifier::Identifier;
use jack_make::iterate::{AgentIterator, EntityIterator};
use jack_make::model::Model;
use jack_make::schema::{
    Action, Agent, AgentGoal, Entity, Field, FieldType, Goal, Message, Role, Service, Topic,
};
use jack_make::workspace::ProjectWorkspace;

fn ident(name: &str) -> Identifier {
    Identifier {
        uuid: format!("uuid-{}", name),
        name: name.to_string(),
        module: String::new(),
        bumpy_case: name.to_string(),
    }
}

fn module(name: &str) -> Model {
    let mut model = Model::default();
    model.project.name = name.to_string();
    model.project.bumpy_case = name.to_string();
    model
}

fn message(name: &str, fields: usize) -> Message {
    let mut message = Message::default();
    message.id = ident(name);
    for i in 0..fields {
        let mut field = Field::default();
        field.name = format!("f{}", i);
        field.field_type = FieldType::I32;
        message.fields.push(field);
    }
    message
}

fn action(name: &str, request: &str, reply: &str) -> Action {
    let mut action = Action::default();
    action.id = ident(name);
    if !request.is_empty() {
        action.request = ident(request);
    }
    if !reply.is_empty() {
        action.reply = ident(reply);
    }
    action
}

fn agent(name: &str) -> Agent {
    let mut agent = Agent::default();
    agent.id = ident(name);
    agent
}

fn fleet() -> ProjectWorkspace {
    let mut root = module("Fleet");
    root.project.namespaces.push("aos".to_string());
    root.project.namespaces.push("fleet".to_string());
    let mut courier = agent("Courier");
    courier.action_handlers.push(ident("Drive"));
    courier.action_handlers.push(ident("Swim"));
    courier.action_handlers.push(ident("Load"));
    courier.beliefs.push(ident("Position"));
    let mut pursued = AgentGoal::default();
    pursued.id = ident("Deliver");
    courier.goals.push(pursued);
    root.agents.push(courier);
    root.teams.push(agent("Squad"));
    let mut deliver = Goal::default();
    deliver.id = ident("Deliver");
    deliver.message = ident("Parcel");
    root.goals.push(deliver);
    root.messages.push(message("Position", 2));
    root.messages.push(message("Parcel", 1));
    root.actions.push(action("Drive", "Route", "Arrival"));
    let mut garage = Service::default();
    garage.id = ident("Garage");
    garage.action_handlers.push(ident("Load"));
    garage.topics.push(Topic { name: "state".to_string(), message: ident("Position") });
    root.services.push(garage);
    let mut truck = Entity::default();
    truck.id = ident("Truck");
    root.entities.push(truck);

    let mut depot = module("Depot");
    depot.actions.push(action("Load", "Crate", ""));
    depot.messages.push(message("Route", 3));
    depot.messages.push(message("Arrival", 0));
    depot.messages.push(message("Crate", 1));
    depot.agents.push(agent("Loader"));
    let mut role = Role::default();
    role.id = ident("Driver");
    depot.roles.push(role);
    let mut shadow = Goal::default();
    shadow.id = ident("Deliver");
    shadow.note = "shadowed".to_string();
    depot.goals.push(shadow);

    let mut workspace = ProjectWorkspace::default();
    workspace.add_models(vec![root, depot]);
    workspace
}

#[test]
fn an_empty_workspace() {
    let workspace = ProjectWorkspace::new();
    assert!(workspace.models().is_empty());
    assert_eq!(workspace.project().name, "");
    assert_eq!(workspace.agents_len(), 0);
    assert_eq!(workspace.entities_len(), 0);
    let nowhere = workspace.lookup_model_with_id(&ident("Anything"));
    assert!(nowhere.goals.is_empty() && nowhere.project.name.is_empty());
    assert!(!workspace.find_goal(&ident("Anything")));
}

#[test]
fn modules_are_kept_in_order_and_the_first_is_the_root() {
    let workspace = fleet();
    let names: Vec<String> = workspace.models().iter().map(|m| m.project.name.clone()).collect();
    assert_eq!(names, vec!["Fleet", "Depot"]);
    assert_eq!(workspace.project().name, "Fleet");
}

#[test]
fn models_can_be_added_in_several_steps() {
    let mut workspace = ProjectWorkspace::default();
    workspace.add_models(vec![module("A")]);
    workspace.add_models(vec![]);
    let mut b = module("B");
    b.messages.push(message("Late", 0));
    workspace.add_models(vec![b, module("C")]);
    assert_eq!(workspace.models().len(), 3);
    assert_eq!(workspace.lookup_model_with_id(&ident("Late")).project.name, "B");
}

#[test]
fn an_identity_resolves_to_the_module_that_declares_it() {
    let workspace = fleet();
    assert_eq!(workspace.lookup_model_with_id(&ident("Position")).project.name, "Fleet");
    assert_eq!(workspace.lookup_model_with_id(&ident("Crate")).project.name, "Depot");
    assert_eq!(workspace.lookup_model_with_id(&ident("Truck")).project.name, "Fleet");
    assert_eq!(workspace.lookup_model_with_id(&ident("Driver")).project.name, "Depot");
    assert_eq!(workspace.lookup_model_with_id(&ident("Nothing")).project.name, "");
}

#[test]
fn lookup_goes_by_identity_not_by_name() {
    let workspace = fleet();
    let mut renamed = ident("Crate");
    renamed.name = "Box".to_string();
    renamed.module = "Elsewhere".to_string();
    assert_eq!(workspace.lookup_model_with_id(&renamed).project.name, "Depot");
    let mut other = ident("Crate");
    other.uuid = "unknown".to_string();
    assert_eq!(workspace.lookup_model_with_id(&other).project.name, "");
}

#[test]
fn the_first_module_that_declares_an_identity_owns_it() {
    let workspace = fleet();
    assert_eq!(workspace.lookup_model_with_id(&ident("Deliver")).project.name, "Fleet");
    let goal = workspace.get_goal(&ident("Deliver")).unwrap();
    assert_eq!(goal.note, "");
    assert_eq!(goal.message.name, "Parcel");
}

#[test]
fn finding_across_modules() {
    let workspace = fleet();
    assert!(workspace.find_action(&ident("Load")));
    assert!(workspace.find_action(&ident("Drive")));
    assert!(!workspace.find_action(&ident("Swim")));
    assert!(workspace.find_message(&ident("Route")));
    assert!(!workspace.find_message(&ident("Deliver")));
    assert!(workspace.find_goal(&ident("Deliver")));
    assert!(!workspace.find_goal(&ident("Position")));
}

#[test]
fn getting_across_modules() {
    let workspace = fleet();
    assert_eq!(workspace.get_action(&ident("Load")).unwrap().request.name, "Crate");
    assert_eq!(workspace.get_message(&ident("Route")).unwrap().fields.len(), 3);
    assert_eq!(workspace.get_role(&ident("Driver")).unwrap().id.name, "Driver");
    let missing = workspace.get_message(&ident("Swim")).unwrap_err();
    assert_eq!(
        missing.to_string(),
        "Failed to get message 'Swim': Does not exist in model ''"
    );
    let wrong_kind = workspace.get_action(&ident("Route")).unwrap_err();
    assert_eq!(
        wrong_kind.to_string(),
        "Failed to get action 'Route': Does not exist in model 'Depot'"
    );
    let mut unset = ident("Load");
    unset.name = String::new();
    assert!(workspace.get_action(&unset).is_err());
    assert!(workspace.find_action(&unset));
}

#[test]
fn getting_within_one_module() {
    let workspace = fleet();
    let root = &workspace.models()[0];
    assert!(root.find_goal(&ident("Deliver")));
    assert!(root.find_service(&ident("Garage")));
    assert!(!root.find_role(&ident("Driver")));
    assert!(!root.find_plan(&ident("Deliver")));
    assert!(!root.find_resource(&ident("Deliver")));
    assert!(!root.find_tactic(&ident("Deliver")));
    assert_eq!(root.get_message_fields(&ident("Position")).len(), 2);
    assert!(root.get_message_fields(&ident("Route")).is_empty());
    assert_eq!(root.get_action_request_msg_name(&ident("Drive")).unwrap().name, "Route");
    assert_eq!(root.get_action_reply_msg_id(&ident("Drive")).unwrap().name, "Arrival");
    assert!(root.get_action_request_msg_name(&ident("Load")).is_none());
    assert!(root.get_plan(&ident("Deliver")).is_err());
    assert_eq!(
        root.get_role(&ident("Driver")).unwrap_err().to_string(),
        "Failed to get role 'Driver': Does not exist in model 'Fleet'"
    );
    assert_eq!(root.get_agent_internal(&ident("Courier"), true, true).unwrap().id.name, "Courier");
    assert!(root.get_agent_internal(&ident("Courier"), false, true).is_none());
    assert_eq!(root.get_agent_internal(&ident("Squad"), true, true).unwrap().id.name, "Squad");
    assert!(root.get_agent_internal(&ident("Squad"), true, false).is_none());
    assert_eq!(root.get_service(&ident("Garage")).unwrap().id.name, "Garage");
}

#[test]
fn agents_and_entities_of_all_modules() {
    let workspace = fleet();
    let names: Vec<String> = workspace.agent_list().iter().map(|a| a.id.name.clone()).collect();
    assert_eq!(names, vec!["Courier", "Loader"]);
    assert_eq!(workspace.agents_len(), 2);
    let entities: Vec<String> =
        workspace.entity_list().iter().map(|e| e.id.name.clone()).collect();
    assert_eq!(entities, vec!["Truck"]);
    assert_eq!(workspace.entities_len(), 1);
}

#[test]
fn walking_the_agents_and_entities_of_all_modules() {
    let workspace = fleet();
    let mut agents = workspace.agents();
    assert_eq!(agents.next().unwrap().id.name, "Courier");
    let mut rest = agents;
    assert_eq!(agents.next().unwrap().id.name, "Loader");
    assert!(agents.next().is_none());
    assert!(agents.next().is_none());
    assert_eq!(rest.next().unwrap().id.name, "Loader");
    let mut entities = workspace.entities();
    assert_eq!(entities.next().unwrap().id.name, "Truck");
    assert!(entities.next().is_none());
    let empty = ProjectWorkspace::default();
    assert!(empty.agents().next().is_none());
    assert!(AgentIterator::new(&empty).next().is_none());
    assert!(EntityIterator::new(&empty).next().is_none());
}

#[test]
fn fields_and_request_of_a_message_across_modules() {
    let workspace = fleet();
    assert_eq!(workspace.get_message_fields(&ident("Route")).len(), 3);
    assert!(workspace.get_message_fields(&ident("Arrival")).is_empty());
    assert!(workspace.get_message_fields(&ident("Nothing")).is_empty());
    assert_eq!(workspace.get_action_request_msg_name(&ident("Load")).unwrap().name, "Crate");
    assert!(workspace.get_action_request_msg_name(&ident("Swim")).is_none());
}

#[test]
fn actions_used_by_an_agent_and_by_a_service() {
    let workspace = fleet();
    let used: Vec<String> = workspace
        .get_actions_used_by_entity(&ident("Courier"))
        .iter()
        .map(|a| a.id.name.clone())
        .collect();
    assert_eq!(used, vec!["Drive", "Load"]);
    let by_service: Vec<String> = workspace
        .get_actions_used_by_entity(&ident("Garage"))
        .iter()
        .map(|a| a.id.name.clone())
        .collect();
    assert_eq!(by_service, vec!["Load"]);
    assert!(workspace.get_actions_used_by_entity(&ident("Nobody")).is_empty());
}

#[test]
fn messages_used_by_a_service_come_in_the_order_of_their_names() {
    let workspace = fleet();
    let garage = workspace.models()[0].get_service(&ident("Garage")).unwrap();
    let used: Vec<String> =
        garage.get_messages_id(&workspace).iter().map(|id| id.name.clone()).collect();
    assert_eq!(used, vec!["Crate", "Position"]);
}

#[test]
fn messages_used_by_an_agent() {
    let workspace = fleet();
    let used: Vec<String> = workspace
        .get_messages_used_by_entity(&ident("Courier"))
        .iter()
        .map(|m| m.id.name.clone())
        .collect();
    assert_eq!(used, vec!["Arrival", "Crate", "Parcel", "Position", "Route"]);
    assert!(workspace.get_messages_used_by_entity(&ident("Nobody")).is_empty());
}

#[test]
fn parameters_of_an_action_handler() {
    let workspace = fleet();
    let drive = workspace.get_action(&ident("Drive")).unwrap();
    assert_eq!(
        workspace.get_action_cpp_function_prototype_args(drive),
        "const Route& request, aos::jack::ActionHandle handle"
    );
    assert_eq!(workspace.get_action_cpp_function_args(drive), "request, handle");
    let both = action("Both", "Route", "Crate");
    assert_eq!(
        workspace.get_action_cpp_function_prototype_args(&both),
        "const Route& request, Crate& reply, aos::jack::ActionHandle handle"
    );
    assert_eq!(workspace.get_action_cpp_function_args(&both), "request, reply, handle");
    let reply_only = action("Reply", "", "Crate");
    assert_eq!(
        workspace.get_action_cpp_function_prototype_args(&reply_only),
        "Crate& reply, aos::jack::ActionHandle handle"
    );
    let none = action("Bare", "", "Arrival");
    assert_eq!(
        workspace.get_action_cpp_function_prototype_args(&none),
        "aos::jack::ActionHandle handle"
    );
    assert_eq!(workspace.get_action_cpp_function_args(&none), "handle");
}

#[test]
fn the_include_line_of_a_message() {
    let workspace = fleet();
    assert_eq!(
        workspace.emit_cpp_message_include(&ident("Crate")),
        "#include <depot/meta/messages/cratemeta.h>"
    );
    assert_eq!(
        workspace.emit_cpp_message_include(&ident("Nothing")),
        "#include </meta/messages/nothingmeta.h>"
    );
}

#[test]
fn component_messages_of_a_module() {
    let mut model = module("M");
    model.messages.push(message("A", 0));
    model.messages.push(message("B", 0));
    model.messages.push(message("C", 0));
    model.messages[0].component = true;
    model.messages[2].component = true;
    let names: Vec<String> =
        model.get_component_messages().iter().map(|m| m.id.name.clone()).collect();
    assert_eq!(names, vec!["A", "C"]);
}
