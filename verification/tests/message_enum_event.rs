use jack_make::concept::ModelConcept;
use jack_make::error::{ErrorType, ModelError};
use jack_make::identifier::Identifier;
use jack_make::model::Model;
use jack_make::schema::{
    Enum, EnumField, Event, EventMessageDefaultValue, Field, FieldType, Message,
};
use jack_make::validate::Checked;
use jack_make::workspace::ProjectWorkspace;

fn ident(name: &str) -> Identifier {
    Identifier {
        uuid: format!("uuid-{}", name),
        name: name.to_string(),
        module: String::new(),
        bumpy_case: String::new(),
    }
}

fn kinds(errors: &Vec<ModelError>) -> Vec<ErrorType> {
    errors.iter().map(|e| e.error_type.clone()).collect()
}

fn field(name: &str, field_type: FieldType) -> Field {
    let mut field = Field::default();
    field.name = name.to_string();
    field.field_type = field_type;
    field
}

fn message(name: &str) -> Message {
    let mut message = Message::default();
    message.id = ident(name);
    message
}

fn workspace_of(models: Vec<Model>) -> ProjectWorkspace {
    let mut workspace = ProjectWorkspace::default();
    workspace.add_models(models);
    workspace
}

fn preset(name: &str) -> EventMessageDefaultValue {
    EventMessageDefaultValue { name: name.to_string(), note: String::new(), value: "1".to_string() }
}

#[test]
fn fields_of_plain_types_with_different_names() {
    let mut pose = message("Pose");
    pose.fields.push(field("x", FieldType::I32));
    pose.fields.push(field("y", FieldType::I32));
    pose.fields.push(field("label", FieldType::String));
    let mut model = Model::default();
    model.messages.push(pose.clone());
    let out = pose.verify(ModelConcept::Message, &model, &workspace_of(vec![model.clone()]), 0);
    assert!(out.is_empty());
}

#[test]
fn two_fields_of_one_name() {
    let mut pose = message("Pose");
    pose.fields.push(field("x", FieldType::I32));
    pose.fields.push(field("y", FieldType::I32));
    pose.fields.push(field("x", FieldType::Bool));
    let out = pose.verify(ModelConcept::Message, &Model::default(), &ProjectWorkspace::default(), 4);
    assert_eq!(kinds(&out), vec![ErrorType::MessageDuplicateFields]);
    assert_eq!(out[0].keys, vec!["messages.Pose.fields.2", "messages.Pose.fields.0"]);
    assert_eq!(out[0].machine_keys, vec!["messages.4.fields.2", "messages.4.fields.0"]);
    assert_eq!(out[0].error_string, "Duplicate fields with name x in Message Pose.");
}

#[test]
fn a_field_whose_type_is_an_unknown_message() {
    let mut pose = message("Pose");
    pose.fields.push(field("x", FieldType::I32));
    pose.fields.push(field("frame", FieldType::Custom(ident("Frame"))));
    let mut model = Model::default();
    model.messages.push(pose.clone());
    let workspace = workspace_of(vec![model.clone()]);
    let out = pose.verify(ModelConcept::Message, &model, &workspace, 0);
    assert_eq!(kinds(&out), vec![ErrorType::CustomTypeNotFound]);
    assert_eq!(out[0].keys, vec!["messages.Pose.fields.1"]);
    assert_eq!(out[0].machine_keys, vec!["messages.0.fields.1"]);
    assert_eq!(
        out[0].error_string,
        "Custom field Frame at index 1 in Message Pose cannot be found in Messages."
    );
}

#[test]
fn a_field_whose_type_is_a_message_of_another_module() {
    let mut pose = message("Pose");
    pose.fields.push(field("frame", FieldType::Custom(ident("Frame"))));
    let mut root = Model::default();
    root.project.name = "root".to_string();
    root.messages.push(pose.clone());
    let mut library = Model::default();
    library.project.name = "library".to_string();
    library.messages.push(message("Frame"));
    let workspace = workspace_of(vec![root.clone(), library]);
    assert!(pose.verify(ModelConcept::Message, &root, &workspace, 0).is_empty());
    assert!(!root.find_message(&ident("Frame")));
    assert!(workspace.find_message(&ident("Frame")));
}

#[test]
fn a_message_must_not_hold_itself() {
    let mut pose = message("Pose");
    pose.fields.push(field("inner", FieldType::Custom(ident("Pose"))));
    let mut model = Model::default();
    model.messages.push(pose.clone());
    let workspace = workspace_of(vec![model.clone()]);
    let out = pose.verify(ModelConcept::Message, &model, &workspace, 0);
    assert_eq!(kinds(&out), vec![ErrorType::CustomTypeIsCurrentMessage]);
    assert_eq!(
        out[0].error_string,
        "Custom field Pose at index 0 in Message Pose cannot be current Message."
    );
    let alone = pose.verify(ModelConcept::Message, &model, &ProjectWorkspace::default(), 0);
    assert_eq!(
        kinds(&alone),
        vec![ErrorType::CustomTypeNotFound, ErrorType::CustomTypeIsCurrentMessage]
    );
    let mut errors: Vec<ModelError> = Vec::new();
    pose.check_field(&mut errors, &workspace, 0, 0);
    assert_eq!(errors.len(), 1);
}

#[test]
fn fields_of_an_enumeration() {
    let mut colour = Enum::default();
    colour.id = ident("Colour");
    for (name, value) in [("red", 0), ("green", 1), ("red", 2), ("blue", 1), ("red", 0)] {
        colour.fields.push(EnumField {
            name: name.to_string(),
            note: String::new(),
            bumpy_case: String::new(),
            value,
        });
    }
    let out = colour.verify(ModelConcept::Enum, &Model::default(), &ProjectWorkspace::default(), 1);
    assert_eq!(out.len(), 4);
    assert!(out.iter().all(|e| e.error_type == ErrorType::MessageDuplicateFields));
    assert_eq!(out[0].keys, vec!["enums.Colour.fields.2", "enums.Colour.fields.0"]);
    assert_eq!(out[0].machine_keys, vec!["enums.1.fields.2", "enums.1.fields.0"]);
    assert_eq!(out[0].error_string, "Duplicate fields with name red in Enum Colour.");
    assert_eq!(out[1].machine_keys, vec!["enums.1.fields.3", "enums.1.fields.1"]);
    assert_eq!(out[1].error_string, "Duplicate value with name blue in Enum Colour.");
    assert_eq!(out[2].machine_keys, vec!["enums.1.fields.4", "enums.1.fields.0"]);
    assert_eq!(out[2].error_string, "Duplicate fields with name red in Enum Colour.");
    assert_eq!(out[3].machine_keys, vec!["enums.1.fields.4", "enums.1.fields.0"]);
    assert_eq!(out[3].error_string, "Duplicate value with name red in Enum Colour.");
    let mut errors: Vec<ModelError> = Vec::new();
    colour.check_field(&mut errors, 1, 1);
    assert!(errors.is_empty());
}

#[test]
fn an_event_whose_message_is_unknown() {
    let mut event = Event::default();
    event.id = ident("Alarm");
    event.message.id = ident("Bell");
    event.message.defaults.push(preset("volume"));
    let out = event.verify(ModelConcept::Event, &Model::default(), &ProjectWorkspace::default(), 2);
    assert_eq!(kinds(&out), vec![ErrorType::MessageNotFound]);
    assert_eq!(out[0].keys, vec!["events.Alarm.id"]);
    assert_eq!(out[0].machine_keys, vec!["events.2.id"]);
    assert_eq!(out[0].error_string, "Event uses a message 'Alarm' that does not exist.");
}

#[test]
fn presets_of_an_event() {
    let mut bell = message("Bell");
    bell.fields.push(field("volume", FieldType::I32));
    bell.fields.push(field("pitch", FieldType::I32));
    let mut model = Model::default();
    model.messages.push(bell);
    let mut event = Event::default();
    event.id = ident("Alarm");
    event.message.id = ident("Bell");
    event.message.defaults.push(preset("volume"));
    event.message.defaults.push(preset("pitch"));
    assert!(event
        .verify(ModelConcept::Event, &model, &ProjectWorkspace::default(), 0)
        .is_empty());

    event.message.defaults.push(preset("colour"));
    event.message.defaults.push(preset("volume"));
    let out = event.verify(ModelConcept::Event, &model, &ProjectWorkspace::default(), 3);
    assert_eq!(
        kinds(&out),
        vec![ErrorType::DefaultValueFieldNotFound, ErrorType::MessageDuplicateFields]
    );
    assert_eq!(out[0].keys, vec!["events.Alarm.defaults.colour"]);
    assert_eq!(out[0].machine_keys, vec!["events.3.defaults.2"]);
    assert_eq!(
        out[0].error_string,
        "Event 'Alarm' specifies a default value for field 'colour' which does not exist in message 'Bell'"
    );
    assert_eq!(out[1].keys, vec!["events.Alarm.fields.3", "events.Alarm.fields.0"]);
    assert_eq!(out[1].machine_keys, vec!["events.3.fields.3", "events.3.fields.0"]);
    assert_eq!(
        out[1].error_string,
        "Event 'Alarm' specifies duplicate a default value for field 'volume' in message 'Bell'"
    );
}
