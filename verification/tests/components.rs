use jack_make::components::{ends_with, is_among};
use jack_make::identifier::Identifier;
use jack_make::schema::{Entity, Service};

fn part(name: &str) -> Identifier {
    Identifier {
        uuid: format!("uuid-{}", name),
        name: name.to_string(),
        module: String::new(),
        bumpy_case: name.replace(' ', ""),
    }
}

fn services() -> Vec<String> {
    vec!["Radio".to_string(), "Road Map".to_string()]
}

#[test]
fn the_agent_component_marks_the_entity_and_is_dropped() {
    let mut entity = Entity::default();
    entity.take_component(part("AgentComponent"), &services());
    assert!(entity.agent);
    assert!(entity.messages.is_empty());
    assert!(entity.services.is_empty());
}

#[test]
fn a_component_of_a_service_joins_the_services_under_its_name() {
    let mut entity = Entity::default();
    entity.take_component(part("Road Map Component"), &services());
    assert!(!entity.agent);
    assert!(entity.messages.is_empty());
    assert_eq!(entity.services.len(), 1);
    assert_eq!(entity.services[0].name, "Road Map");
    assert_eq!(entity.services[0].uuid, "uuid-Road Map Component");
    assert_eq!(entity.services[0].bumpy_case, "RoadMapComponent");
}

#[test]
fn a_component_that_names_no_service_joins_the_messages() {
    let mut entity = Entity::default();
    entity.take_component(part("Engine Component"), &services());
    entity.take_component(part("Position"), &services());
    entity.take_component(part("Radio"), &services());
    assert!(entity.services.is_empty());
    let names: Vec<&str> = entity.messages.iter().map(|m| m.name.as_str()).collect();
    assert_eq!(names, vec!["Engine Component", "Position", "Radio"]);
}

#[test]
fn components_keep_their_order_in_each_list() {
    let mut entity = Entity::default();
    for name in ["Position", "Radio Component", "AgentComponent", "Parcel", "Road Map Component"] {
        entity.take_component(part(name), &services());
    }
    assert!(entity.agent);
    let messages: Vec<&str> = entity.messages.iter().map(|m| m.name.as_str()).collect();
    assert_eq!(messages, vec!["Position", "Parcel"]);
    let held: Vec<&str> = entity.services.iter().map(|m| m.name.as_str()).collect();
    assert_eq!(held, vec!["Radio", "Road Map"]);
}

#[test]
fn a_bare_ending_names_the_service_without_a_name_only_if_there_is_one() {
    let mut entity = Entity::default();
    entity.take_component(part(" Component"), &services());
    assert!(entity.services.is_empty());
    assert_eq!(entity.messages.len(), 1);
    let mut other = Entity::default();
    other.take_component(part(" Component"), &vec![String::new()]);
    assert_eq!(other.services.len(), 1);
    assert_eq!(other.services[0].name, "");
}

#[test]
fn a_topic_is_named_after_the_qualified_name_of_its_message() {
    let mut message = part("Position");
    let topic = Service::topic_for(message.clone());
    assert_eq!(topic.name, "Position Topic");
    assert_eq!(topic.message.uuid, "uuid-Position");
    message.module = "fleet".to_string();
    assert_eq!(Service::topic_for(message).name, "fleet.Position Topic");
}

#[test]
fn endings_are_compared_character_by_character() {
    assert!(ends_with("Radio Component", " Component"));
    assert!(ends_with(" Component", " Component"));
    assert!(ends_with("anything", ""));
    assert!(!ends_with("Component", " Component"));
    assert!(!ends_with("Radio component", " Component"));
    assert!(ends_with("Grüße Component", " Component"));
}

#[test]
fn a_name_is_found_among_names_only_as_a_whole() {
    assert!(is_among(&services(), &"Radio".to_string()));
    assert!(!is_among(&services(), &"Road".to_string()));
    assert!(!is_among(&Vec::new(), &"Radio".to_string()));
}
