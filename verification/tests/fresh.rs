use jack_make::fresh::{renew_entities, renew_records, Renewed};
use jack_make::identifier::Identifier;
use jack_make::migration::ModuleSymbols;
use jack_make::model::Model;
use jack_make::schema::{Agent, Entity, Enum, Goal, Message, Plan};

fn named(name: &str) -> Identifier {
    Identifier {
        uuid: String::new(),
        name: name.to_string(),
        module: "depot".to_string(),
        bumpy_case: name.to_string(),
    }
}

fn supply(n: usize) -> Vec<String> {
    (0..n).map(|k| format!("id-{}", k)).collect()
}

fn sample() -> Model {
    let mut model = Model::default();
    model.project.name = "Depot".to_string();
    let mut colour = Enum::default();
    colour.id = named("Colour");
    model.enums.push(colour);
    let mut position = Message::default();
    position.id = named("Position");
    model.messages.push(position);
    let mut truck = Entity::default();
    truck.id = named("Truck");
    truck.children.push(named("Wheel"));
    truck.children.push(named("Crane"));
    model.entities.push(truck);
    let mut yard = Entity::default();
    yard.id = named("Yard");
    model.entities.push(yard);
    let mut deliver = Goal::default();
    deliver.id = named("Deliver");
    deliver.query_messages.push(named("Position"));
    model.goals.push(deliver);
    let mut carry = Plan::default();
    carry.id = named("CarryOut");
    carry.handles = named("Deliver");
    model.plans.push(carry);
    let mut courier = Agent::default();
    courier.id = named("Courier");
    model.agents.push(courier);
    let mut fleet = Agent::default();
    fleet.id = named("Fleet");
    model.teams.push(fleet);
    model
}

#[test]
fn every_declaration_takes_the_next_identity_of_the_supply() {
    let mut model = sample();
    assert!(model.has_identities_enough(10));
    assert!(model.renew_identities(&supply(10)));
    assert_eq!(model.enums[0].id.uuid, "id-0");
    assert_eq!(model.messages[0].id.uuid, "id-1");
    assert_eq!(model.entities[0].id.uuid, "id-2");
    assert_eq!(model.entities[0].children[0].uuid, "id-3");
    assert_eq!(model.entities[0].children[1].uuid, "id-4");
    assert_eq!(model.entities[1].id.uuid, "id-5");
    assert_eq!(model.goals[0].id.uuid, "id-6");
    assert_eq!(model.plans[0].id.uuid, "id-7");
    assert_eq!(model.agents[0].id.uuid, "id-8");
    assert_eq!(model.teams[0].id.uuid, "id-9");
}

#[test]
fn identities_leave_names_and_references_as_they_were() {
    let mut model = sample();
    assert!(model.renew_identities(&supply(12)));
    assert_eq!(model.goals[0].id.name, "Deliver");
    assert_eq!(model.goals[0].id.module, "depot");
    assert_eq!(model.goals[0].id.bumpy_case, "Deliver");
    assert_eq!(model.goals[0].query_messages[0].name, "Position");
    assert_eq!(model.goals[0].query_messages[0].uuid, "");
    assert_eq!(model.plans[0].handles.uuid, "");
    assert_eq!(model.entities[0].children[0].name, "Wheel");
    assert_eq!(model.project.name, "Depot");
}

#[test]
fn a_supply_that_is_too_small_changes_nothing() {
    let mut model = sample();
    assert!(!model.has_identities_enough(9));
    assert!(!model.renew_identities(&supply(9)));
    assert_eq!(model.enums[0].id.uuid, "");
    assert_eq!(model.entities[0].children[1].uuid, "");
    assert_eq!(model.teams[0].id.uuid, "");
}

#[test]
fn a_module_without_declarations_needs_no_identity() {
    let mut model = Model::default();
    assert!(model.has_identities_enough(0));
    assert!(model.renew_identities(&Vec::new()));
}

#[test]
fn records_take_identities_from_a_place_in_the_supply() {
    let mut goals = Vec::new();
    for name in ["Survey", "Deliver", "Return"] {
        let mut goal = Goal::default();
        goal.id = named(name);
        goals.push(goal);
    }
    renew_records(&mut goals, &supply(5), 2);
    let given: Vec<&str> = goals.iter().map(|g| g.id.uuid.as_str()).collect();
    assert_eq!(given, vec!["id-2", "id-3", "id-4"]);
    let names: Vec<&str> = goals.iter().map(|g| g.id.name.as_str()).collect();
    assert_eq!(names, vec!["Survey", "Deliver", "Return"]);
}

#[test]
fn an_entity_takes_one_identity_more_for_each_child() {
    let mut truck = Entity::default();
    truck.id = named("Truck");
    truck.children.push(named("Wheel"));
    let mut yard = Entity::default();
    yard.id = named("Yard");
    let mut entities = vec![truck, yard];
    renew_entities(&mut entities, &supply(4), 1);
    assert_eq!(entities[0].id.uuid, "id-1");
    assert_eq!(entities[0].children[0].uuid, "id-2");
    assert_eq!(entities[1].id.uuid, "id-3");
}

#[test]
fn one_record_takes_the_identity_it_is_given() {
    let mut plan = Plan::default();
    plan.id = named("CarryOut");
    plan.renew("fresh".to_string());
    assert_eq!(plan.id.uuid, "fresh");
    assert_eq!(plan.id.name, "CarryOut");
}

fn unplaced(name: &str) -> Identifier {
    let mut id = named(name);
    id.module = String::new();
    id
}

#[test]
fn a_module_brought_to_identities_refers_to_what_it_declares() {
    let mut model = Model::default();
    model.project.name = "Depot".to_string();
    let mut position = Message::default();
    position.id = unplaced("Position");
    model.messages.push(position);
    let mut deliver = Goal::default();
    deliver.id = unplaced("Deliver");
    deliver.query_messages.push(unplaced("Position"));
    model.goals.push(deliver);
    let mut carry = Plan::default();
    carry.id = unplaced("CarryOut");
    carry.handles = unplaced("Deliver");
    model.plans.push(carry);

    assert!(model.identify(Vec::new(), &supply(3)));
    assert_eq!(model.messages[0].id.uuid, "id-0");
    assert_eq!(model.goals[0].id.uuid, "id-1");
    assert_eq!(model.plans[0].id.uuid, "id-2");
    assert_eq!(model.goals[0].query_messages[0].uuid, "id-0");
    assert_eq!(model.goals[0].query_messages[0].name, "Position");
    assert_eq!(model.plans[0].handles.uuid, "id-1");
}

#[test]
fn a_reference_into_an_imported_module_takes_the_identity_from_its_row() {
    let mut imported = Model::default();
    imported.project.name = "Fleet".to_string();
    let mut parcel = Message::default();
    parcel.id = unplaced("Parcel");
    parcel.id.uuid = "fleet-parcel".to_string();
    imported.messages.push(parcel);
    let row = ModuleSymbols {
        module: "Fleet".to_string(),
        identifiers: imported.module_identifiers("Fleet"),
    };

    let mut model = Model::default();
    let mut deliver = Goal::default();
    deliver.id = unplaced("Deliver");
    let mut wanted = unplaced("Parcel");
    wanted.module = "Fleet".to_string();
    deliver.query_messages.push(wanted);
    model.goals.push(deliver);

    assert!(model.identify(vec![row], &supply(1)));
    assert_eq!(model.goals[0].id.uuid, "id-0");
    assert_eq!(model.goals[0].query_messages[0].uuid, "fleet-parcel");
}

#[test]
fn a_module_is_not_brought_to_identities_by_a_supply_too_small() {
    let mut model = sample();
    assert!(!model.identify(Vec::new(), &supply(3)));
    assert_eq!(model.goals[0].id.uuid, "");
    assert_eq!(model.goals[0].query_messages[0].uuid, "");
}
