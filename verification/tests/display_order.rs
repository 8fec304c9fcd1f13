use jack_make::display::{display_all, displayed};
use jack_make::identifier::Identifier;
use jack_make::model::Model;
use jack_make::order::put;
use jack_make::schema::{
    Action, Agent, AgentGoal, Entity, Enum, EnumField, Event, Field, FieldType, Goal, Message,
    MessagePerm, Plan, Resource, Role, Service, Tactic, Task, Topic,
};
use jack_make::usage::gather;

fn ident(name: &str) -> Identifier {
    Identifier {
        uuid: format!("uuid-{}", name),
        name: name.to_string(),
        module: String::new(),
        bumpy_case: String::new(),
    }
}

fn names(ids: &Vec<Identifier>) -> Vec<String> {
    ids.iter().map(|id| id.qualified_name()).collect()
}

#[test]
fn the_display_name_of_an_identifier() {
    let shown = displayed(&ident("fly to base"));
    assert_eq!(shown.bumpy_case, "flyToBase");
    assert_eq!(shown.name, "fly to base");
    assert_eq!(shown.uuid, "uuid-fly to base");
    let mut list = vec![ident("a b"), ident("c"), ident("")];
    display_all(&mut list);
    let shown: Vec<String> = list.iter().map(|id| id.bumpy_case.clone()).collect();
    assert_eq!(shown, vec!["aB", "c", ""]);
}

#[test]
fn every_display_name_of_a_model_is_derived() {
    let mut model = Model::default();
    model.project.name = "my fleet".to_string();
    let mut agent = Agent::default();
    agent.id = ident("big truck");
    agent.roles.push(ident("the driver"));
    agent.beliefs.push(ident("own position"));
    let mut pursued = AgentGoal::default();
    pursued.id = ident("bring it");
    pursued.startup_tactic = ident("stay calm");
    agent.goals.push(pursued);
    agent.services.push(ident("the garage"));
    agent.plans.push(ident("carry out"));
    agent.message_handlers.push(ident("own speed"));
    agent.resources.push(ident("the fuel"));
    agent.action_handlers.push(ident("drive on"));
    model.agents.push(agent.clone());
    model.teams.push(agent);
    let mut service = Service::default();
    service.id = ident("the garage");
    service.action_handlers.push(ident("drive on"));
    service.topics.push(Topic { name: "t".to_string(), message: ident("own position") });
    model.services.push(service);
    let mut message = Message::default();
    message.id = ident("own position");
    let mut nested = Field::default();
    nested.name = "the frame".to_string();
    nested.field_type = FieldType::Custom(ident("a frame"));
    message.fields.push(nested);
    let mut coloured = Field::default();
    coloured.name = "the colour".to_string();
    coloured.field_type = FieldType::Enum(ident("a colour"));
    message.fields.push(coloured);
    model.messages.push(message);
    let mut goal = Goal::default();
    goal.id = ident("bring it");
    goal.message = ident("the parcel");
    goal.query_messages.push(ident("own position"));
    goal.resources.push(ident("the fuel"));
    model.goals.push(goal);
    let mut plan = Plan::default();
    plan.id = ident("carry out");
    plan.handles = ident("bring it");
    plan.query_messages.push(ident("own speed"));
    let mut task = Task::default();
    task.goal = Some(ident("rest now"));
    task.action = Some(ident("drive on"));
    plan.tasks.push(task);
    plan.tasks.push(Task::default());
    model.plans.push(plan);
    let mut role = Role::default();
    role.id = ident("the driver");
    role.goals.push(ident("bring it"));
    role.messages.push(MessagePerm { id: ident("own speed"), read: true, write: false });
    model.roles.push(role);
    let mut resource = Resource::default();
    resource.id = ident("the fuel");
    resource.min = 3;
    model.resources.push(resource);
    let mut tactic = Tactic::default();
    tactic.id = ident("stay calm");
    tactic.goal = ident("bring it");
    tactic.plan_list.push(ident("carry out"));
    tactic.plan_loop = 9;
    model.tactics.push(tactic);
    let mut action = Action::default();
    action.id = ident("drive on");
    action.request = ident("the route");
    action.reply = ident("the arrival");
    action.feedback = ident("the progress");
    model.actions.push(action);
    let mut enumeration = Enum::default();
    enumeration.id = ident("a colour");
    enumeration.fields.push(EnumField {
        name: "dark red".to_string(),
        note: String::new(),
        bumpy_case: String::new(),
        value: 4,
    });
    model.enums.push(enumeration);
    let mut entity = Entity::default();
    entity.id = ident("a truck");
    entity.children.push(ident("a wheel"));
    entity.messages.push(ident("own position"));
    entity.services.push(ident("the garage"));
    model.entities.push(entity);
    let mut event = Event::default();
    event.id = ident("an alarm");
    event.message.id = ident("the bell");
    model.events.push(event);

    model.derive_display_names(false);

    assert_eq!(model.project.bumpy_case, "my_fleet");
    for agent in [&model.agents[0], &model.teams[0]] {
        assert_eq!(agent.id.bumpy_case, "bigTruck");
        assert_eq!(agent.roles[0].bumpy_case, "theDriver");
        assert_eq!(agent.beliefs[0].bumpy_case, "ownPosition");
        assert_eq!(agent.goals[0].id.bumpy_case, "bringIt");
        assert_eq!(agent.goals[0].startup_tactic.bumpy_case, "");
        assert_eq!(agent.services[0].bumpy_case, "theGarage");
        assert_eq!(agent.plans[0].bumpy_case, "carryOut");
        assert_eq!(agent.message_handlers[0].bumpy_case, "ownSpeed");
        assert_eq!(agent.resources[0].bumpy_case, "theFuel");
        assert_eq!(agent.action_handlers[0].bumpy_case, "driveOn");
    }
    assert_eq!(model.services[0].id.bumpy_case, "theGarage");
    assert_eq!(model.services[0].action_handlers[0].bumpy_case, "driveOn");
    assert_eq!(model.services[0].topics[0].message.bumpy_case, "ownPosition");
    assert_eq!(model.services[0].topics[0].name, "t");
    assert_eq!(model.messages[0].id.bumpy_case, "ownPosition");
    assert_eq!(model.messages[0].fields[0].bumpy_case, "theFrame");
    assert!(
        matches!(&model.messages[0].fields[0].field_type, FieldType::Custom(id) if id.bumpy_case == "aFrame")
    );
    assert!(
        matches!(&model.messages[0].fields[1].field_type, FieldType::Enum(id) if id.bumpy_case.is_empty())
    );
    assert_eq!(model.goals[0].id.bumpy_case, "bringIt");
    assert_eq!(model.goals[0].id.module, "");
    assert_eq!(model.goals[0].message.bumpy_case, "theParcel");
    assert_eq!(model.goals[0].query_messages[0].bumpy_case, "ownPosition");
    assert_eq!(model.goals[0].resources[0].bumpy_case, "theFuel");
    assert_eq!(model.plans[0].id.bumpy_case, "carryOut");
    assert_eq!(model.plans[0].handles.bumpy_case, "bringIt");
    assert_eq!(model.plans[0].query_messages[0].bumpy_case, "ownSpeed");
    assert_eq!(model.plans[0].tasks[0].goal.as_ref().unwrap().bumpy_case, "restNow");
    assert_eq!(model.plans[0].tasks[0].action.as_ref().unwrap().bumpy_case, "driveOn");
    assert!(model.plans[0].tasks[1].goal.is_none() && model.plans[0].tasks[1].action.is_none());
    assert_eq!(model.roles[0].id.bumpy_case, "theDriver");
    assert_eq!(model.roles[0].goals[0].bumpy_case, "bringIt");
    assert_eq!(model.roles[0].messages[0].id.bumpy_case, "ownSpeed");
    assert!(model.roles[0].messages[0].read);
    assert_eq!(model.resources[0].id.bumpy_case, "theFuel");
    assert_eq!(model.resources[0].min, 3);
    assert_eq!(model.tactics[0].id.bumpy_case, "stayCalm");
    assert_eq!(model.tactics[0].goal.bumpy_case, "bringIt");
    assert_eq!(model.tactics[0].plan_list[0].bumpy_case, "carryOut");
    assert_eq!(model.tactics[0].plan_loop, 9);
    assert_eq!(model.actions[0].id.bumpy_case, "driveOn");
    assert_eq!(model.actions[0].request.bumpy_case, "theRoute");
    assert_eq!(model.actions[0].reply.bumpy_case, "theArrival");
    assert_eq!(model.actions[0].feedback.bumpy_case, "");
    assert_eq!(model.enums[0].id.bumpy_case, "aColour");
    assert_eq!(model.enums[0].fields[0].bumpy_case, "darkRed");
    assert_eq!(model.enums[0].fields[0].value, 4);
    assert_eq!(model.entities[0].id.bumpy_case, "aTruck");
    assert_eq!(model.entities[0].children[0].bumpy_case, "aWheel");
    assert_eq!(model.entities[0].messages[0].bumpy_case, "ownPosition");
    assert_eq!(model.entities[0].services[0].bumpy_case, "theGarage");
    assert_eq!(model.events[0].id.bumpy_case, "anAlarm");
    assert_eq!(model.events[0].message.id.bumpy_case, "theBell");
}

#[test]
fn goals_of_an_imported_module_get_its_name() {
    let mut model = Model::default();
    model.project.name = "depot".to_string();
    let mut plain = Goal::default();
    plain.id = ident("load");
    model.goals.push(plain);
    let mut placed = Goal::default();
    placed.id = ident("unload");
    placed.id.module = "harbour".to_string();
    model.goals.push(placed);
    model.derive_display_names(true);
    assert_eq!(model.goals[0].id.module, "depot");
    assert_eq!(model.goals[0].id.qualified_name(), "depot.load");
    assert_eq!(model.goals[1].id.module, "harbour");
}

#[test]
fn putting_keeps_a_list_in_order_and_each_name_once() {
    let mut list: Vec<Identifier> = Vec::new();
    for name in ["m", "c", "x", "a", "c", "z", "m", "b"] {
        put(&mut list, ident(name));
    }
    assert_eq!(names(&list), vec!["a", "b", "c", "m", "x", "z"]);
}

#[test]
fn of_two_identifiers_with_one_name_the_first_is_kept() {
    let mut first = ident("same");
    first.uuid = "first".to_string();
    let mut second = ident("same");
    second.uuid = "second".to_string();
    let gathered = gather(&vec![ident("z"), first, second, ident("a")]);
    assert_eq!(names(&gathered), vec!["a", "same", "z"]);
    assert_eq!(gathered[1].uuid, "first");
}

#[test]
fn texts_can_be_put_in_order_too() {
    let mut lines: Vec<String> = Vec::new();
    for line in ["b", "a", "b", "", "ab"] {
        put(&mut lines, line.to_string());
    }
    assert_eq!(lines, vec!["", "a", "ab", "b"]);
}

#[test]
fn the_module_takes_part_in_the_order() {
    let mut in_module = ident("alpha");
    in_module.module = "zoo".to_string();
    let gathered = gather(&vec![in_module, ident("beta")]);
    assert_eq!(names(&gathered), vec!["beta", "zoo.alpha"]);
}
