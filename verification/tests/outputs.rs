use jack_make::identifier::Identifier;
use jack_make::model::Model;
use jack_make::outputs::Output;
use jack_make::schema::{Agent, Goal, Message, Plan, Resource, Service};
use jack_make::templates::Template;

fn shown(name: &str) -> Identifier {
    Identifier {
        uuid: format!("uuid-{}", name),
        name: name.to_string(),
        module: String::new(),
        bumpy_case: name.replace(' ', ""),
    }
}

fn depot() -> Model {
    let mut model = Model::default();
    model.project.name = "Depot".to_string();
    model.project.bumpy_case = "Depot".to_string();
    let mut fleet = Agent::default();
    fleet.id = shown("Fleet");
    model.teams.push(fleet);
    let mut courier = Agent::default();
    courier.id = shown("Courier");
    model.agents.push(courier);
    let mut radio = Service::default();
    radio.id = shown("Radio");
    model.services.push(radio);
    for name in ["Position", "Parcel Note"] {
        let mut message = Message::default();
        message.id = shown(name);
        model.messages.push(message);
    }
    let mut fuel = Resource::default();
    fuel.id = shown("Fuel");
    model.resources.push(fuel);
    let mut deliver = Goal::default();
    deliver.id = shown("Deliver");
    model.goals.push(deliver);
    let mut carry = Plan::default();
    carry.id = shown("Carry Out");
    model.plans.push(carry);
    model
}

fn listed(outputs: &Vec<Output>) -> Vec<(Template, usize, String, bool)> {
    outputs.iter().map(|o| (o.template, o.subject, o.name.clone(), o.is_meta_file)).collect()
}

fn files(outputs: &Vec<Output>) -> Vec<String> {
    outputs.iter().map(|o| o.template.output_filename(&o.name)).collect()
}

#[test]
fn a_program_gets_its_files_in_the_order_of_generation() {
    let out = depot().planned_outputs(true, false);
    assert_eq!(
        files(&out),
        vec![
            "impl/depotsampleentrypoint.cpp",
            "impl/teams/fleetimpl.h",
            "impl/teams/fleetimpl.cpp",
            "impl/agents/courierimpl.h",
            "impl/agents/courierimpl.cpp",
            "impl/services/radioimpl.h",
            "impl/services/radioimpl.cpp",
            "impl/goals/deliverimpl.h",
            "impl/goals/deliverimpl.cpp",
            "impl/plans/carryoutimpl.h",
            "impl/plans/carryoutimpl.cpp",
            "meta/depot.cmake",
            "meta/depotproject.h",
            "meta/depotproject.cpp",
            "meta/teams/fleetmeta.h",
            "meta/teams/fleetmeta.cpp",
            "meta/agents/couriermeta.h",
            "meta/agents/couriermeta.cpp",
            "meta/services/radiometa.h",
            "meta/services/radiometa.cpp",
            "meta/messages/positionmeta.h",
            "meta/messages/positionmeta.cpp",
            "meta/messages/parcelnotemeta.h",
            "meta/messages/parcelnotemeta.cpp",
            "meta/resources/fuelmeta.h",
            "meta/goals/delivermeta.h",
            "meta/goals/delivermeta.cpp",
            "meta/plans/carryoutmeta.h",
            "meta/plans/carryoutmeta.cpp",
            "meta/depotenumsmeta.h",
            "meta/depotenumsmeta.cpp",
            "meta/depottemplates.json",
            "meta/depotevents.h",
            "meta/depotservicecomponents.h",
        ]
    );
    assert!(out[..11].iter().all(|o| !o.is_meta_file));
    assert!(out[11..].iter().all(|o| o.is_meta_file));
}

#[test]
fn a_module_has_no_entry_point_and_its_own_header() {
    let out = depot().planned_outputs(false, false);
    let kinds: Vec<Template> = out.iter().map(|o| o.template).collect();
    assert!(!kinds.contains(&Template::MainCpp));
    assert!(!kinds.contains(&Template::ProjectH));
    assert!(!kinds.contains(&Template::ProjectCpp));
    assert_eq!(out[0].template, Template::TeamImplH);
    assert_eq!(out[10].template, Template::ProjectCMake);
    assert_eq!(out[11].template, Template::ModuleH);
    assert_eq!(out[12].template, Template::ModuleCpp);
    assert_eq!(files(&out)[11], "meta/depotmodule.h");
    assert_eq!(out.len(), 33);
}

#[test]
fn message_files_of_ros_come_after_the_project_files() {
    let out = depot().planned_outputs(true, true);
    assert_eq!(out.len(), 36);
    assert_eq!(
        listed(&out)[14..16].to_vec(),
        vec![
            (Template::Ros2IdlMetaMsg, 0, "Position".to_string(), true),
            (Template::Ros2IdlMetaMsg, 1, "ParcelNote".to_string(), true),
        ]
    );
    assert_eq!(files(&out)[15], "meta/msgs/ParcelNote.msg");
    assert_eq!(out[16].template, Template::TeamMetaH);
}

#[test]
fn every_file_names_the_place_of_its_subject() {
    let mut model = depot();
    let mut scout = Agent::default();
    scout.id = shown("Scout");
    model.agents.push(scout);
    let out = model.planned_outputs(true, false);
    assert_eq!(
        listed(&out)[3..7].to_vec(),
        vec![
            (Template::AgentImplH, 0, "Courier".to_string(), false),
            (Template::AgentImplCpp, 0, "Courier".to_string(), false),
            (Template::AgentImplH, 1, "Scout".to_string(), false),
            (Template::AgentImplCpp, 1, "Scout".to_string(), false),
        ]
    );
}

#[test]
fn a_module_without_declarations_still_gets_its_project_files() {
    let mut model = Model::default();
    model.project.bumpy_case = "Bare".to_string();
    let out = model.planned_outputs(true, false);
    assert_eq!(
        files(&out),
        vec![
            "impl/baresampleentrypoint.cpp",
            "meta/bare.cmake",
            "meta/bareproject.h",
            "meta/bareproject.cpp",
            "meta/bareenumsmeta.h",
            "meta/bareenumsmeta.cpp",
            "meta/baretemplates.json",
            "meta/bareevents.h",
            "meta/bareservicecomponents.h",
        ]
    );
}
