use jack_make::identifier::Identifier;
use jack_make::migration::{ModuleIdentifierKind, ModuleSymbols};
use jack_make::model::Model;
use jack_make::repoint::{find_by, find_in, find_or_keep};
use jack_make::schema::{
    Action, Agent, AgentGoal, Enum, Field, FieldType, Goal, Message, MessagePerm, Plan, Resource,
    Role, Service, Tactic, Task, Topic,
};

fn named(name: &str) -> Identifier {
    Identifier {
        uuid: String::new(),
        name: name.to_string(),
        module: String::new(),
        bumpy_case: String::new(),
    }
}

fn placed(module: &str, name: &str) -> Identifier {
    let mut id = named(name);
    id.module = module.to_string();
    id
}

fn declared(name: &str) -> Identifier {
    let mut id = named(name);
    id.uuid = format!("uuid-{}", name);
    id
}

fn module() -> Model {
    let mut model = Model::default();
    model.project.name = "Fleet".to_string();
    for name in ["Position", "Parcel"] {
        let mut message = Message::default();
        message.id = declared(name);
        model.messages.push(message);
    }
    let mut colour = Enum::default();
    colour.id = declared("Colour");
    model.enums.push(colour);
    let mut drive = Action::default();
    drive.id = declared("Drive");
    drive.request = named("Position");
    drive.reply = placed("Depot", "Crate");
    drive.feedback = named("Position");
    model.actions.push(drive);
    let mut fuel = Resource::default();
    fuel.id = declared("Fuel");
    model.resources.push(fuel);
    let mut garage = Service::default();
    garage.id = declared("Garage");
    garage.action_handlers.push(named("Drive"));
    garage.action_handlers.push(named("Swim"));
    garage.topics.push(Topic { name: "t".to_string(), message: named("Position") });
    model.services.push(garage);
    let mut deliver = Goal::default();
    deliver.id = declared("Deliver");
    deliver.query_messages.push(named("Position"));
    deliver.query_messages.push(named("Nowhere"));
    deliver.resources.push(named("Fuel"));
    deliver.message = named("Parcel");
    model.goals.push(deliver);
    let mut carry = Plan::default();
    carry.id = declared("CarryOut");
    carry.handles = named("Deliver");
    carry.query_messages.push(placed("Depot", "Crate"));
    let mut step = Task::default();
    step.action = Some(named("Drive"));
    step.goal = Some(named("Unknown"));
    carry.tasks.push(step);
    carry.tasks.push(Task::default());
    model.plans.push(carry);
    let mut lost = Plan::default();
    lost.id = declared("Lost");
    lost.handles = named("Nothing");
    lost.handles.uuid = "kept".to_string();
    model.plans.push(lost);
    let mut driver = Role::default();
    driver.id = declared("Driver");
    driver.goals.push(named("Deliver"));
    driver.messages.push(MessagePerm { id: named("Position"), read: true, write: false });
    model.roles.push(driver);
    let mut careful = Tactic::default();
    careful.id = declared("Careful");
    careful.goal = named("Deliver");
    careful.plan_list.push(named("CarryOut"));
    careful.plan_list.push(named("Fly"));
    model.tactics.push(careful);
    let mut courier = Agent::default();
    courier.id = declared("Courier");
    courier.roles.push(named("Driver"));
    courier.beliefs.push(named("Position"));
    let mut pursued = AgentGoal::default();
    pursued.id = named("Deliver");
    pursued.startup_tactic = named("Careful");
    courier.goals.push(pursued);
    courier.services.push(named("Garage"));
    courier.plans.push(named("CarryOut"));
    courier.message_handlers.push(placed("Depot", "Crate"));
    courier.resources.push(named("Fuel"));
    courier.action_handlers.push(named("Drive"));
    model.agents.push(courier.clone());
    courier.id = declared("Squad");
    model.teams.push(courier);
    let mut pose = Message::default();
    pose.id = declared("Pose");
    let mut nested = Field::default();
    nested.name = "where".to_string();
    nested.field_type = FieldType::Custom(named("Position"));
    pose.fields.push(nested);
    let mut coloured = Field::default();
    coloured.name = "colour".to_string();
    coloured.field_type = FieldType::Enum(named("Colour"));
    pose.fields.push(coloured);
    let mut plain = Field::default();
    plain.name = "n".to_string();
    plain.field_type = FieldType::I32;
    pose.fields.push(plain);
    model.messages.push(pose);
    model
}

fn depot() -> Model {
    let mut model = Model::default();
    model.project.name = "Depot".to_string();
    let mut crate_message = Message::default();
    crate_message.id = declared("Crate");
    model.messages.push(crate_message);
    model
}

fn table(model: &Model) -> Vec<ModuleSymbols> {
    vec![
        ModuleSymbols {
            module: "Depot".to_string(),
            identifiers: depot().module_identifiers("Depot"),
        },
        ModuleSymbols { module: String::new(), identifiers: model.own_identifiers() },
    ]
}

#[test]
fn the_rows_of_the_table() {
    let own = module().own_identifiers();
    let names: Vec<String> = own.messages.iter().map(|id| id.name.clone()).collect();
    assert_eq!(names, vec!["Position", "Parcel", "Pose"]);
    assert_eq!(own.messages[0].module, "");
    assert_eq!(own.actions.len(), 1);
    assert_eq!(own.goals[0].uuid, "uuid-Deliver");
    assert_eq!(own.services[0].name, "Garage");
    assert!(own.entities.is_empty());
    let imported = depot().module_identifiers("Depot");
    assert_eq!(imported.messages[0].module, "Depot");
    assert_eq!(imported.messages[0].uuid, "uuid-Crate");
    assert_eq!(imported.messages[0].name, "Crate");
    let declared = module().declared_ids();
    assert_eq!(declared.enums[0].name, "Colour");
    assert_eq!(declared.plans.len(), 2);
    assert_eq!(declared.tactics[0].uuid, "uuid-Careful");
}

#[test]
fn what_single_references_find() {
    let model = module();
    let table = table(&model);
    let own = model.declared_ids();
    assert_eq!(find_in(&own.goals, &named("Deliver")).uuid, "uuid-Deliver");
    assert_eq!(find_in(&own.goals, &named("Fly")).uuid, "");
    assert_eq!(find_in(&own.goals, &named("Fly")).name, "");
    assert_eq!(find_in(&own.goals, &placed("Depot", "Deliver")).uuid, "");
    assert_eq!(find_by(&table, ModuleIdentifierKind::Message, &named("Position")).uuid, "uuid-Position");
    assert_eq!(find_by(&table, ModuleIdentifierKind::Message, &placed("Depot", "Crate")).uuid, "uuid-Crate");
    assert_eq!(find_by(&table, ModuleIdentifierKind::Goal, &named("Position")).uuid, "");
    assert_eq!(find_by(&table, ModuleIdentifierKind::Message, &placed("City", "Crate")).uuid, "");
    let kept = find_or_keep(&table, ModuleIdentifierKind::Goal, &named("Nothing"));
    assert_eq!(kept.name, "Nothing");
    assert_eq!(find_or_keep(&table, ModuleIdentifierKind::Goal, &named("Deliver")).uuid, "uuid-Deliver");
}

#[test]
fn every_reference_of_a_module_gets_the_identity_of_what_it_names() {
    let mut model = module();
    let table = table(&model);
    model.repoint_references(&table);

    assert_eq!(model.actions[0].id.uuid, "uuid-Drive");
    assert_eq!(model.actions[0].request.uuid, "uuid-Position");
    assert_eq!(model.actions[0].reply.uuid, "uuid-Crate");
    assert_eq!(model.actions[0].reply.module, "Depot");
    assert_eq!(model.actions[0].feedback.uuid, "");
    assert_eq!(model.actions[0].feedback.name, "Position");

    let garage = &model.services[0];
    assert_eq!(garage.action_handlers[0].uuid, "uuid-Drive");
    assert_eq!(garage.action_handlers[1].uuid, "");
    assert_eq!(garage.action_handlers[1].name, "");
    assert_eq!(garage.topics[0].message.uuid, "uuid-Position");
    assert_eq!(garage.topics[0].name, "t");

    let deliver = &model.goals[0];
    assert_eq!(deliver.query_messages[0].uuid, "uuid-Position");
    assert_eq!(deliver.query_messages[1].name, "");
    assert_eq!(deliver.resources[0].uuid, "uuid-Fuel");
    assert_eq!(deliver.message.uuid, "uuid-Parcel");

    let carry = &model.plans[0];
    assert_eq!(carry.handles.uuid, "uuid-Deliver");
    assert_eq!(carry.query_messages[0].uuid, "uuid-Crate");
    assert_eq!(carry.tasks[0].action.as_ref().unwrap().uuid, "uuid-Drive");
    assert_eq!(carry.tasks[0].goal.as_ref().unwrap().name, "Unknown");
    assert_eq!(carry.tasks[0].goal.as_ref().unwrap().uuid, "");
    assert!(carry.tasks[1].action.is_none() && carry.tasks[1].goal.is_none());
    assert_eq!(model.plans[1].handles.name, "Nothing");
    assert_eq!(model.plans[1].handles.uuid, "kept");

    assert_eq!(model.roles[0].goals[0].uuid, "uuid-Deliver");
    assert_eq!(model.roles[0].messages[0].id.uuid, "uuid-Position");
    assert!(model.roles[0].messages[0].read);

    assert_eq!(model.tactics[0].goal.uuid, "uuid-Deliver");
    assert_eq!(model.tactics[0].plan_list[0].uuid, "uuid-CarryOut");
    assert_eq!(model.tactics[0].plan_list[1].name, "");

    for agent in [&model.agents[0], &model.teams[0]] {
        assert_eq!(agent.roles[0].uuid, "uuid-Driver");
        assert_eq!(agent.beliefs[0].uuid, "uuid-Position");
        assert_eq!(agent.goals[0].id.uuid, "uuid-Deliver");
        assert_eq!(agent.goals[0].startup_tactic.uuid, "uuid-Careful");
        assert_eq!(agent.services[0].uuid, "uuid-Garage");
        assert_eq!(agent.plans[0].uuid, "uuid-CarryOut");
        assert_eq!(agent.message_handlers[0].uuid, "uuid-Crate");
        assert_eq!(agent.resources[0].uuid, "uuid-Fuel");
        assert_eq!(agent.action_handlers[0].uuid, "uuid-Drive");
    }
    assert_eq!(model.agents[0].id.uuid, "uuid-Courier");
    assert_eq!(model.teams[0].id.uuid, "uuid-Squad");

    let pose = &model.messages[2];
    assert!(matches!(&pose.fields[0].field_type, FieldType::Custom(id) if id.uuid == "uuid-Position"));
    assert!(matches!(&pose.fields[1].field_type, FieldType::Enum(id) if id.uuid == "uuid-Colour"));
    assert!(matches!(&pose.fields[2].field_type, FieldType::I32));
    assert_eq!(pose.fields[0].name, "where");
}
