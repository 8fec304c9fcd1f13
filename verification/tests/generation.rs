use jack_make::assignment::{write_accessor, write_accessors, FieldAssignmentCppCode};
use jack_make::identifier::Identifier;
use jack_make::includes::{emit_cpp_forward_decls_for_messages, join_lines, messages_resolve};
use jack_make::migration::{
    knows_module, lookup_id_from_array_0_6_0, lookup_id_from_symbol_table_0_6_0,
    ModuleIdentifierKind, ModuleIdentifiers_0_6_0, ModuleSymbols,
};
use jack_make::model::Model;
use jack_make::schema::{
    EventMessageDefaultValue, Field, FieldType, Goal, Mapping, Message, Service, Task, Topic,
};
use jack_make::workspace::ProjectWorkspace;

fn ident(name: &str) -> Identifier {
    Identifier {
        uuid: format!("uuid-{}", name),
        name: name.to_string(),
        module: String::new(),
        bumpy_case: name.to_string(),
    }
}

fn placed(module: &str, name: &str) -> Identifier {
    Identifier {
        uuid: format!("{}-{}", module, name),
        name: name.to_string(),
        module: module.to_string(),
        bumpy_case: String::new(),
    }
}

fn preset(name: &str, value: &str) -> EventMessageDefaultValue {
    EventMessageDefaultValue { name: name.to_string(), note: String::new(), value: value.to_string() }
}

fn field(name: &str, field_type: FieldType) -> Field {
    let mut field = Field::default();
    field.name = name.to_string();
    field.field_type = field_type;
    field
}

fn message(name: &str) -> Message {
    let mut message = Message::default();
    message.id = ident(name);
    message
}

fn module(name: &str, namespaces: &[&str], messages: &[&str]) -> Model {
    let mut model = Model::default();
    model.project.name = name.to_string();
    model.project.bumpy_case = name.to_string();
    for segment in namespaces {
        model.project.namespaces.push(segment.to_string());
    }
    for name in messages {
        model.messages.push(message(name));
    }
    model
}

fn fleet() -> ProjectWorkspace {
    let mut workspace = ProjectWorkspace::default();
    workspace.add_models(vec![
        module("Zoo", &["zoo"], &["Lion", "Bear"]),
        module("Plain", &[], &["Dot"]),
        module("Farm", &["aos", "farm"], &["Cow", "Colour"]),
    ]);
    workspace
}

fn mapped(to: &str, from: &str) -> Task {
    let mut task = Task::default();
    task.mappings = Some(vec![Mapping { from: from.to_string(), to: to.to_string() }]);
    task
}

#[test]
fn a_segment_as_cpp_writes_it() {
    assert_eq!(write_accessor("pos"), "pos()");
    assert_eq!(write_accessor("points[3]"), "points()[3]");
    assert_eq!(write_accessor("grid[3][14]"), "grid()[3][14]");
    assert_eq!(write_accessor("gap[]"), "gap()");
    assert_eq!(write_accessor("odd]"), "odd]()[odd]");
    assert_eq!(write_accessor("open[1"), "open()");
    assert_eq!(write_accessor("a[b[c]"), "a()[c]");
}

#[test]
fn a_path_as_cpp_writes_it() {
    assert_eq!(write_accessors("monster.pos.x"), "monster().pos().x()");
    assert_eq!(write_accessors("pose.points[3].x"), "pose().points()[3].x()");
    assert_eq!(write_accessors("..a...b."), "a().b()");
    assert_eq!(write_accessors(""), "");
    assert_eq!(write_accessors("..."), "");
    assert_eq!(write_accessors("x"), "x()");
}

#[test]
fn a_preset_as_an_assignment() {
    assert_eq!(
        preset("monster.pos.x", "{32, 64}").field_member_assignment_string_to_cpp_code("msg."),
        "msg.monster().pos().x() = {32, 64};"
    );
    assert_eq!(
        preset("list[2]", "7").field_member_assignment_string_to_cpp_code(""),
        "list()[2] = 7;"
    );
    assert_eq!(preset("", "7").field_member_assignment_string_to_cpp_code("msg."), "");
    assert_eq!(preset("x", "").field_member_assignment_string_to_cpp_code("msg."), "");
}

#[test]
fn identifiers_are_looked_up_by_name_and_module() {
    let list = vec![placed("zoo", "Lion"), placed("farm", "Cow"), placed("farm", "Lion")];
    assert_eq!(lookup_id_from_array_0_6_0(&list, "Lion", "farm").uuid, "farm-Lion");
    assert_eq!(lookup_id_from_array_0_6_0(&list, "Lion", "zoo").uuid, "zoo-Lion");
    let missing = lookup_id_from_array_0_6_0(&list, "Cow", "zoo");
    assert!(missing.uuid.is_empty() && missing.name.is_empty() && missing.module.is_empty());
    let unset = lookup_id_from_array_0_6_0(&list, "", "zoo");
    assert!(unset.uuid.is_empty());
    let messages = vec![message("Lion")];
    assert_eq!(lookup_id_from_array_0_6_0(&messages, "Lion", "").uuid, "uuid-Lion");
}

#[test]
fn identifiers_are_looked_up_in_the_table_of_their_module() {
    let mut zoo = ModuleIdentifiers_0_6_0::default();
    zoo.messages.push(placed("zoo", "Lion"));
    zoo.goals.push(placed("zoo", "Feed"));
    let mut farm = ModuleIdentifiers_0_6_0::default();
    farm.messages.push(placed("farm", "Cow"));
    farm.actions.push(placed("farm", "Milk"));
    farm.services.push(placed("farm", "Barn"));
    farm.entities.push(placed("farm", "Tractor"));
    let table = vec![
        ModuleSymbols { module: "zoo".to_string(), identifiers: zoo },
        ModuleSymbols { module: "farm".to_string(), identifiers: farm },
    ];
    assert!(knows_module(&table, "farm"));
    assert!(!knows_module(&table, "city"));
    let find = |kind, name: &str, module: &str| {
        lookup_id_from_symbol_table_0_6_0(&table, kind, name, module).uuid
    };
    assert_eq!(find(ModuleIdentifierKind::Message, "Cow", "farm"), "farm-Cow");
    assert_eq!(find(ModuleIdentifierKind::Message, "Lion", "zoo"), "zoo-Lion");
    assert_eq!(find(ModuleIdentifierKind::Message, "Lion", "farm"), "");
    assert_eq!(find(ModuleIdentifierKind::Goal, "Feed", "zoo"), "zoo-Feed");
    assert_eq!(find(ModuleIdentifierKind::Goal, "Lion", "zoo"), "");
    assert_eq!(find(ModuleIdentifierKind::Action, "Milk", "farm"), "farm-Milk");
    assert_eq!(find(ModuleIdentifierKind::Service, "Barn", "farm"), "farm-Barn");
    assert_eq!(find(ModuleIdentifierKind::Entity, "Tractor", "farm"), "farm-Tractor");
}

#[test]
fn literals_of_the_types_of_fields() {
    let literal = |text: &str, field_type: FieldType, float: bool| {
        mapped("value", text).is_literal_mapping(field("value", field_type), float)
    };
    assert!(literal("true", FieldType::Bool, false));
    assert!(!literal("yes", FieldType::Bool, false));
    assert!(literal("127", FieldType::I8, false));
    assert!(!literal("128", FieldType::I8, false));
    assert!(literal("-128", FieldType::I8, false));
    assert!(literal("+5", FieldType::I8, false));
    assert!(literal("-32768", FieldType::I16, false));
    assert!(!literal("32768", FieldType::I16, false));
    assert!(literal("2147483647", FieldType::I32, false));
    assert!(!literal("2147483648", FieldType::I32, false));
    assert!(literal("9223372036854775807", FieldType::I64, false));
    assert!(!literal("9223372036854775808", FieldType::I64, false));
    assert!(literal("255", FieldType::U8, false));
    assert!(!literal("256", FieldType::U8, false));
    assert!(!literal("-1", FieldType::U8, false));
    assert!(literal("65535", FieldType::U16, false));
    assert!(!literal("65536", FieldType::U16, false));
    assert!(literal("4294967295", FieldType::U32, false));
    assert!(!literal("4294967296", FieldType::U32, false));
    assert!(literal("18446744073709551615", FieldType::U64, false));
    assert!(!literal("18446744073709551616", FieldType::U64, false));
    assert!(!literal("", FieldType::U64, false));
    assert!(!literal("1 ", FieldType::I32, false));
    assert!(literal("anything", FieldType::F32, true));
    assert!(!literal("1.5", FieldType::F32, false));
    assert!(literal("1.5", FieldType::F64, true));
    assert!(literal("1, 2", FieldType::Vec2, true));
    assert!(!literal("1, 2", FieldType::Vec2, false));
    assert!(literal("\"text\"", FieldType::String, false));
    assert!(literal("\"", FieldType::String, false));
    assert!(!literal("text\"", FieldType::String, false));
    assert!(!literal("\"text", FieldType::String, false));
    assert!(!literal("{}", FieldType::Custom(ident("Lion")), true));
    assert!(literal("3", FieldType::Enum(ident("Colour")), false));
    assert!(!literal("red", FieldType::Enum(ident("Colour")), false));
    assert!(!literal("1", FieldType::Nil, true));
    assert!(!mapped("other", "1").is_literal_mapping(field("value", FieldType::I32), false));
    assert!(!Task::default().is_literal_mapping(field("value", FieldType::I32), false));
}

#[test]
fn lines_are_joined_with_a_divider() {
    assert_eq!(join_lines(&vec![], "\n"), "");
    assert_eq!(join_lines(&vec!["a".to_string()], "\n"), "a");
    assert_eq!(join_lines(&vec!["a".to_string(), "b".to_string(), "c".to_string()], ", "), "a, b, c");
}

#[test]
fn include_lines_of_a_message() {
    let workspace = fleet();
    let mut message = message("Scene");
    assert_eq!(message.emit_cpp_includes(&workspace), "");
    message.fields.push(field("n", FieldType::I32));
    message.fields.push(field("lion", FieldType::Custom(ident("Lion"))));
    message.fields.push(field("cow", FieldType::Custom(ident("Cow"))));
    message.fields.push(field("other lion", FieldType::Custom(ident("Lion"))));
    message.fields.push(field("colour", FieldType::Enum(ident("Colour"))));
    message.fields.push(field("ghost", FieldType::Custom(ident("big Ghost"))));
    assert_eq!(
        message.emit_cpp_includes(&workspace),
        "#include </meta/messages/bigghostmeta.h>\n\
         #include <farm/meta/farmenumsmeta.h>\n\
         #include <farm/meta/messages/cowmeta.h>\n\
         #include <zoo/meta/messages/lionmeta.h>"
    );
}

#[test]
fn forward_declarations_are_grouped_by_namespace() {
    let workspace = fleet();
    let messages = vec![ident("Lion"), ident("Cow"), ident("Dot"), ident("Bear")];
    assert!(messages_resolve(&workspace, &messages));
    assert_eq!(
        emit_cpp_forward_decls_for_messages(&workspace, &messages),
        "class Dot;\naos::farm\n{\nclass aos::farm::Cow;\n\n}\nzoo\n{\nclass zoo::Lion;\nclass zoo::Bear;\n\n}\n"
    );
    assert_eq!(emit_cpp_forward_decls_for_messages(&workspace, &vec![]), "");
    assert!(!messages_resolve(&workspace, &vec![ident("Lion"), ident("Ghost")]));
}

#[test]
fn forward_declarations_of_goals_and_services() {
    let workspace = fleet();
    let mut goal = Goal::default();
    goal.query_messages.push(ident("Bear"));
    assert_eq!(goal.emit_cpp_forward_decls(&workspace), "zoo\n{\nclass zoo::Bear;\n\n}\n");
    let mut service = Service::default();
    service.topics.push(Topic { name: "t".to_string(), message: ident("Dot") });
    service.topics.push(Topic { name: "u".to_string(), message: ident("Dot") });
    assert_eq!(service.emit_cpp_forward_decls(&workspace), "class Dot;\n");
}

#[test]
fn the_parts_of_a_pair_of_coordinates() {
    assert_eq!(Task::vec2_parts("1,2"), Some(("1".to_string(), "2".to_string())));
    assert_eq!(Task::vec2_parts(" 1.5 ,\t-2 "), Some(("1.5".to_string(), "-2".to_string())));
    assert_eq!(Task::vec2_parts(","), Some((String::new(), String::new())));
    assert_eq!(Task::vec2_parts("a,"), Some(("a".to_string(), String::new())));
    assert_eq!(Task::vec2_parts("12"), None);
    assert_eq!(Task::vec2_parts(""), None);
    assert_eq!(Task::vec2_parts("1,2,3"), None);
    assert_eq!(Task::vec2_parts(",,"), None);
}

#[test]
fn integers_are_read_with_an_optional_sign_and_digits_only() {
    let reads = |text: &str| mapped("value", text).is_mapping_int("value");
    for text in ["0", "-0", "+0", "007", "-5", "+5", "2147483647", "-2147483648", "0000000000000001"] {
        assert!(reads(text));
    }
    for text in ["", "+", "-", "+-5", "--5", "5-", " 5", "5 ", "1_000", "0x10", "1.0", "2147483648", "-2147483649", "٣"] {
        assert!(!reads(text));
    }
}
