use jack_make::identifier::Identifier;
use std::cmp::Ordering;

fn ident(uuid: &str, module: &str, name: &str) -> Identifier {
    Identifier {
        uuid: uuid.to_string(),
        name: name.to_string(),
        module: module.to_string(),
        bumpy_case: String::new(),
    }
}

#[test]
fn qualified_name_joins_module_and_name() {
    assert_eq!(ident("1", "fleet", "Deliver").qualified_name(), "fleet.Deliver");
}

#[test]
fn qualified_name_without_module_is_the_name() {
    assert_eq!(ident("1", "", "Deliver").qualified_name(), "Deliver");
}

#[test]
fn qualified_name_of_an_unset_identifier_is_empty() {
    assert_eq!(ident("1", "fleet", "").qualified_name(), "");
    assert_eq!(Identifier::default().qualified_name(), "");
}

#[test]
fn variable_name_joins_with_an_underscore() {
    assert_eq!(ident("1", "fleet", "Deliver").variable_name(), "fleet_Deliver");
    assert_eq!(ident("1", "", "Deliver").variable_name(), "Deliver");
    assert_eq!(ident("1", "fleet", "").variable_name(), "fleet_");
}

#[test]
fn identifiers_are_equal_by_uuid_alone() {
    assert!(ident("1", "a", "x") == ident("1", "b", "y"));
    assert!(ident("1", "a", "x") != ident("2", "a", "x"));
}

#[test]
fn identifiers_are_ordered_by_qualified_name() {
    let a = ident("9", "fleet", "Alpha");
    let b = ident("1", "fleet", "Beta");
    assert_eq!(a.partial_cmp(&b), Some(Ordering::Less));
    assert_eq!(b.partial_cmp(&a), Some(Ordering::Greater));
    assert!(a < b);
    assert!(a.precedes(&b));
    assert!(!b.precedes(&a));
}

#[test]
fn order_and_equality_are_independent() {
    let a = ident("1", "", "Same");
    let b = ident("2", "", "Same");
    assert_eq!(a.partial_cmp(&b), Some(Ordering::Equal));
    assert!(a != b);
    let moved = ident("1", "other", "Same");
    assert!(a == moved);
    assert_eq!(a.partial_cmp(&moved), Some(Ordering::Less));
}

#[test]
fn a_clone_keeps_every_field() {
    let a = Identifier {
        uuid: "u".to_string(),
        name: "n".to_string(),
        module: "m".to_string(),
        bumpy_case: "b".to_string(),
    };
    let c = a.clone();
    assert_eq!(c.uuid, "u");
    assert_eq!(c.name, "n");
    assert_eq!(c.module, "m");
    assert_eq!(c.bumpy_case, "b");
}
