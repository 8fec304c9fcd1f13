use jack_make::field::GenerateError;
use jack_make::identifier::Identifier;
use jack_make::model::Model;
use jack_make::schema::{
    EmitNamespace, Event, Field, FieldType, Mapping, Message, Plan, Project, Task, TaskType,
};
use jack_make::workspace::ProjectWorkspace;

fn ident(name: &str) -> Identifier {
    Identifier {
        uuid: format!("uuid-{}", name),
        name: name.to_string(),
        module: String::new(),
        bumpy_case: name.to_string(),
    }
}

fn project(name: &str, namespaces: &[&str]) -> Project {
    let mut project = Project::new();
    project.name = name.to_string();
    for segment in namespaces {
        project.namespaces.push(segment.to_string());
    }
    project
}

fn field(field_type: FieldType, is_array: bool, default: &str) -> Field {
    let mut field = Field::default();
    field.name = "value".to_string();
    field.field_type = field_type;
    field.is_array = is_array;
    field.default = default.to_string();
    field
}

fn fleet() -> ProjectWorkspace {
    let mut root = Model::default();
    root.project = project("Fleet", &["aos", "fleet"]);
    let mut pose = Message::default();
    pose.id = ident("robot pose");
    root.messages.push(pose);
    let mut bare = Model::default();
    bare.project = project("Bare", &[]);
    let mut plain = Message::default();
    plain.id = ident("plain");
    bare.messages.push(plain);
    let mut workspace = ProjectWorkspace::default();
    workspace.add_models(vec![root, bare]);
    workspace
}

fn mapped_task() -> Task {
    let mut task = Task::default();
    task.mappings = Some(vec![
        Mapping { from: "true".to_string(), to: "flag".to_string() },
        Mapping { from: "42".to_string(), to: "count".to_string() },
        Mapping { from: "-7".to_string(), to: "offset".to_string() },
        Mapping { from: "source".to_string(), to: "target".to_string() },
        Mapping { from: "false".to_string(), to: "flag".to_string() },
        Mapping { from: "99999999999".to_string(), to: "huge".to_string() },
        Mapping { from: "True".to_string(), to: "shout".to_string() },
    ]);
    task
}

#[test]
fn a_new_project_has_nothing_set() {
    let project = Project::new();
    assert_eq!(project.name, "");
    assert!(project.namespaces.is_empty());
    assert!(project.modules.is_empty());
    assert_eq!(project.generator, "");
}

#[test]
fn the_namespace_path_of_a_project() {
    assert_eq!(project("P", &[]).namespace_string("::"), "");
    assert_eq!(project("P", &["aos"]).namespace_string("::"), "aos");
    assert_eq!(project("P", &["aos", "fleet", "x"]).namespace_string("_"), "aos_fleet_x");
    assert_eq!(project("P", &["aos", "fleet"]).cpp_namespace_string(), "aos::fleet");
    assert_eq!(project("P", &["", "b"]).cpp_namespace_string(), "::b");
}

#[test]
fn include_guards_are_in_upper_case_with_underscores() {
    let project = project("my fleet", &[]);
    assert_eq!(
        project.emit_cpp_header_guard_begin("robot pose", "_META"),
        "#ifndef MY_FLEET_ROBOT_POSE_META_H\n#define MY_FLEET_ROBOT_POSE_META_H"
    );
    assert_eq!(
        project.emit_cpp_header_guard_end("robot pose", "_META"),
        "#endif /// MY_FLEET_ROBOT_POSE_META_H"
    );
}

#[test]
fn the_comment_of_generated_files() {
    let text = Project::new().emit_cpp_is_automatically_generated_comment();
    let lines: Vec<&str> = text.split('\n').collect();
    assert_eq!(lines.len(), 3);
    assert_eq!(lines[0].len(), 79);
    assert!(lines[0].starts_with("/***"));
    assert_eq!(lines[1], " * This file has been automatically generated by jack-make");
    assert!(lines[2].ends_with("***/"));
}

#[test]
fn opening_and_closing_the_namespace() {
    assert_eq!(project("P", &[]).emit_cpp_namespace_begin(), "");
    assert_eq!(project("P", &[]).emit_cpp_namespace_end(), "");
    assert_eq!(
        project("P", &["aos", "fleet"]).emit_cpp_namespace_begin(),
        "namespace aos::fleet\n{"
    );
    assert_eq!(
        project("P", &["aos", "fleet"]).emit_cpp_namespace_end(),
        "} /// namespace aos::fleet"
    );
}

#[test]
fn property_types_of_field_types() {
    let named = [
        (FieldType::Bool, "Bool"),
        (FieldType::I8, "I8"),
        (FieldType::I16, "I16"),
        (FieldType::I32, "I32"),
        (FieldType::I64, "I64"),
        (FieldType::U8, "U8"),
        (FieldType::U16, "U16"),
        (FieldType::U32, "U32"),
        (FieldType::U64, "U64"),
        (FieldType::F32, "F32"),
        (FieldType::F64, "F64"),
        (FieldType::String, "String"),
        (FieldType::Custom(ident("Pose")), "Pose"),
        (FieldType::Enum(ident("Colour")), "I32"),
        (FieldType::Vec2, "V2"),
    ];
    for (field_type, name) in named {
        assert_eq!(field_type.to_prop_type().unwrap(), name);
    }
    assert_eq!(FieldType::Nil.to_prop_type(), Err(GenerateError::FieldTypeNotSet));
    assert_eq!(GenerateError::FieldTypeNotSet.to_string(), "FieldType set to None, invalid.");
    assert!(FieldType::Custom(ident("Pose")).is_custom());
    assert!(!FieldType::Enum(ident("Pose")).is_custom());
    assert!(matches!(FieldType::default(), FieldType::Nil));
}

#[test]
fn what_a_field_says_of_its_type() {
    let custom = field(FieldType::Custom(ident("Pose")), true, "");
    assert!(custom.is_custom() && !custom.is_enum() && custom.is_array());
    assert!(matches!(custom.get_type(), FieldType::Custom(id) if id.name == "Pose"));
    assert_eq!(custom.enum_type(), "");
    assert_eq!(custom.to_prop_type().unwrap(), "Pose[]");
    assert_eq!(custom.to_schema_prop_type().unwrap(), "Message");
    let coloured = field(FieldType::Enum(ident("traffic light")), false, "");
    assert!(coloured.is_enum() && !coloured.is_custom() && !coloured.is_array());
    assert_eq!(coloured.enum_type(), "trafficLight");
    assert_eq!(coloured.to_prop_type().unwrap(), "I32");
    assert_eq!(coloured.to_schema_prop_type().unwrap(), "I32");
    let unset = field(FieldType::Nil, true, "");
    assert!(unset.to_prop_type().is_err());
    assert!(unset.to_schema_prop_type().is_err());
}

#[test]
fn cpp_types_of_field_types() {
    let workspace = fleet();
    let named = [
        (FieldType::Bool, "bool", "false"),
        (FieldType::I8, "int8_t", "int8_t{0}"),
        (FieldType::I16, "int16_t", "int16_t{0}"),
        (FieldType::I32, "int32_t", "int32_t{0}"),
        (FieldType::I64, "int64_t", "int64_t{0}"),
        (FieldType::U8, "uint8_t", "uint8_t{0}"),
        (FieldType::U16, "uint16_t", "uint16_t{0}"),
        (FieldType::U32, "uint32_t", "uint32_t{0}"),
        (FieldType::U64, "uint64_t", "uint64_t{0}"),
        (FieldType::F32, "float", "0.0f"),
        (FieldType::F64, "double", "0.0"),
        (FieldType::String, "std::string", "std::string{}"),
        (FieldType::Enum(ident("Colour")), "int32_t", "0"),
        (FieldType::Vec2, "aos::jack::V2", "aos::jack::V2{0.0f,0.0f}"),
    ];
    for (field_type, cpp, default) in named {
        assert_eq!(field_type.to_cpp_type(&workspace, &EmitNamespace::Cpp).unwrap(), cpp);
        assert_eq!(field_type.to_cpp_default(&workspace).unwrap(), default);
    }
    assert!(FieldType::Nil.to_cpp_type(&workspace, &EmitNamespace::Cpp).is_err());
    assert!(FieldType::Nil.to_cpp_default(&workspace).is_err());
}

#[test]
fn the_cpp_type_of_a_nested_message() {
    let workspace = fleet();
    let pose = FieldType::Custom(ident("robot pose"));
    assert_eq!(pose.to_cpp_type(&workspace, &EmitNamespace::Cpp).unwrap(), "aos::fleet::robotPose");
    assert_eq!(pose.to_cpp_type(&workspace, &EmitNamespace::ROS).unwrap(), "aos_fleet::robotPose");
    assert_eq!(pose.to_cpp_type(&workspace, &EmitNamespace::Nil).unwrap(), "robotPose");
    assert_eq!(pose.to_cpp_default(&workspace).unwrap(), "aos::fleet::robotPose()");
    let plain = FieldType::Custom(ident("plain"));
    assert_eq!(plain.to_cpp_type(&workspace, &EmitNamespace::Cpp).unwrap(), "plain");
    let unknown = FieldType::Custom(ident("un known"));
    assert_eq!(unknown.to_cpp_type(&workspace, &EmitNamespace::Cpp).unwrap(), "unKnown");
}

#[test]
fn cpp_types_of_fields() {
    let workspace = fleet();
    let list = field(FieldType::I32, true, "");
    assert_eq!(list.to_cpp_type(&workspace).unwrap(), "std::vector<int32_t>");
    assert_eq!(list.to_cpp_inner_type(&workspace).unwrap(), "int32_t");
    assert_eq!(list.to_schema_cpp_type(&workspace).unwrap(), "int32_t");
    assert_eq!(list.to_cpp_json_type(&workspace).unwrap(), "std::vector<int32_t>");
    let single = field(FieldType::Custom(ident("robot pose")), false, "");
    assert_eq!(single.to_cpp_type(&workspace).unwrap(), "aos::fleet::robotPose");
    assert_eq!(single.to_cpp_json_type(&workspace).unwrap(), "aos::fleet::robotPose::JsonConfig");
    let many = field(FieldType::Custom(ident("robot pose")), true, "");
    assert_eq!(
        many.to_cpp_json_type(&workspace).unwrap(),
        "std::vector<aos::fleet::robotPose::JsonConfig>"
    );
    let coloured = field(FieldType::Enum(ident("traffic light")), true, "");
    assert_eq!(coloured.to_cpp_json_type(&workspace).unwrap(), "trafficLight");
    assert!(field(FieldType::Nil, false, "").to_cpp_json_type(&workspace).is_err());
    assert_eq!(single.get_owning_model(&workspace).project.name, "Fleet");
    assert_eq!(list.get_owning_model(&workspace).project.name, "");
}

#[test]
fn cpp_defaults_of_fields() {
    let workspace = fleet();
    assert_eq!(field(FieldType::I32, false, "").to_cpp_default(&workspace, false).unwrap(), "int32_t{0}");
    assert_eq!(field(FieldType::I32, false, "5").to_cpp_default(&workspace, true).unwrap(), "5");
    assert_eq!(field(FieldType::F32, false, "5").to_cpp_default(&workspace, true).unwrap(), "5.f");
    assert_eq!(field(FieldType::F32, false, "5.5").to_cpp_default(&workspace, true).unwrap(), "5.5f");
    assert_eq!(field(FieldType::F32, false, "5.5f").to_cpp_default(&workspace, true).unwrap(), "5.5f");
    assert_eq!(field(FieldType::F32, false, "five").to_cpp_default(&workspace, false).unwrap(), "five");
    assert_eq!(field(FieldType::F64, false, "5").to_cpp_default(&workspace, true).unwrap(), "5");
    assert_eq!(
        field(FieldType::F32, true, "1, 2").to_cpp_default(&workspace, false).unwrap(),
        "std::vector<float>{1, 2}"
    );
    assert_eq!(
        field(FieldType::U8, true, "").to_cpp_default(&workspace, false).unwrap(),
        "std::vector<uint8_t>{}"
    );
    assert!(field(FieldType::Nil, false, "").to_cpp_default(&workspace, false).is_err());
    assert!(field(FieldType::Nil, true, "1").to_cpp_default(&workspace, false).is_err());
    assert_eq!(field(FieldType::Nil, false, "1").to_cpp_default(&workspace, false).unwrap(), "1");
}

#[test]
fn what_a_message_holds() {
    let mut message = Message::default();
    message.id = ident("robot pose");
    message.id.bumpy_case = "robotPose".to_string();
    assert!(!message.contains_simple() && !message.contains_array() && !message.contains_enum());
    message.fields.push(field(FieldType::I32, true, ""));
    assert!(!message.contains_simple() && message.contains_array() && !message.contains_enum());
    message.fields.push(field(FieldType::Enum(ident("Colour")), false, ""));
    assert!(message.contains_simple() && message.contains_array() && message.contains_enum());
    let workspace = fleet();
    assert_eq!(message.to_cpp_type(&workspace), "aos::fleet::robotPose");
    assert_eq!(message.get_owning_model(&workspace).project.name, "Fleet");
    assert_eq!(message.namespaced_cpp_name(&workspace.models()[0]), "aos::fleetrobotPose");
    let mut event = Event::default();
    event.id.bumpy_case = "alarm".to_string();
    assert_eq!(event.namespaced_cpp_name(&workspace.models()[0]), "aos::fleetalarm");
    assert_eq!(event.namespaced_cpp_name(&workspace.models()[1]), "alarm");
}

#[test]
fn labels_of_tasks() {
    let mut task = Task::default();
    assert_eq!(task.get_type(), TaskType::Nil);
    assert_eq!(task.get_label(), "");
    task.task_type = TaskType::sleep;
    assert_eq!(task.get_label(), "Sleep");
    task.task_type = TaskType::action;
    let mut drive = ident("drive home");
    drive.module = "fleet".to_string();
    task.action = Some(drive);
    assert_eq!(task.get_label(), "fleet_drive home");
    assert_eq!(task.get_bumpy_case_label(), "fleet_driveHome");
    task.task_type = TaskType::goal;
    task.goal = Some(ident("rest"));
    assert_eq!(task.get_label(), "rest");
    task.task_type = TaskType::condition;
    task.conditiontext = Some("is it late".to_string());
    assert_eq!(task.get_label(), "is it late");
    assert_eq!(task.get_condition_text(), "isItLate");
    assert_eq!(Task::default().get_condition_text(), "");
}

#[test]
fn whether_a_task_runs_asynchronously() {
    let mut task = Task::default();
    assert!(!task.is_async());
    task.is_async = Some(false);
    assert!(!task.is_async());
    task.is_async = Some(true);
    assert!(task.is_async());
}

#[test]
fn mappings_of_a_task() {
    let task = mapped_task();
    assert_eq!(task.get_mapping("flag"), Some("true".to_string()));
    assert_eq!(task.get_mapping("target"), Some("source".to_string()));
    assert_eq!(task.get_mapping("source"), None);
    assert!(task.has_mapping("count"));
    assert!(!task.has_mapping("missing"));
    assert!(!Task::default().has_mapping("flag"));
    assert_eq!(Task::default().get_mapping("flag"), None);
}

#[test]
fn kinds_of_mapped_values() {
    let task = mapped_task();
    assert!(task.is_mapping_bool("flag"));
    assert!(!task.is_mapping_bool("count"));
    assert!(!task.is_mapping_bool("shout"));
    assert!(!task.is_mapping_bool("missing"));
    assert!(task.is_mapping_int("count"));
    assert!(task.is_mapping_int("offset"));
    assert!(!task.is_mapping_int("flag"));
    assert!(!task.is_mapping_int("huge"));
    assert!(!task.is_mapping_int("missing"));
}

#[test]
fn an_id_as_two_hexadecimal_literals() {
    let plan = Plan::default();
    assert_eq!(
        plan.id32_to_hex16_pair_string("0123456789abcdef-0123456789ABCDEF"),
        "0x0123456789abcdefULL, 0x0123456789ABCDEFULL"
    );
    assert_eq!(
        plan.id32_to_hex16_pair_string("01234567-89ab-cdef-0123-456789abcdef"),
        "0x0123456789abcdefULL, 0x0123456789abcdefULL"
    );
    assert_eq!(plan.id32_to_hex16_pair_string("abc"), "0xaULL, 0xbcULL");
    assert_eq!(plan.id32_to_hex16_pair_string(""), "0xULL, 0xULL");
}

#[test]
fn labels_of_tasks_by_their_id() {
    let mut plan = Plan::default();
    plan.id = ident("CarryOut");
    let mut first = Task::default();
    first.id = "a".to_string();
    first.task_type = TaskType::sleep;
    let mut second = Task::default();
    second.id = "b".to_string();
    second.task_type = TaskType::condition;
    second.conditiontext = Some("is it late".to_string());
    let mut third = Task::default();
    third.id = "a".to_string();
    third.task_type = TaskType::goal;
    third.goal = Some(ident("rest now"));
    plan.tasks.push(first);
    plan.tasks.push(second);
    plan.tasks.push(third);
    assert_eq!(plan.task_number_id_label("b"), "1isItLate");
    assert_eq!(plan.task_number_id_label("a"), "0Sleep2restNow");
    assert_eq!(
        plan.task_number_id_label("c"),
        "Task ID not found in plan [plan=CarryOut, id=c]"
    );
}
