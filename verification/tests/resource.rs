use jack_make::concept::ModelConcept;
use jack_make::error::ErrorType;
use jack_make::identifier::Identifier;
use jack_make::model::Model;
use jack_make::schema::Resource;
use jack_make::validate::Checked;
use jack_make::workspace::ProjectWorkspace;

fn resource(min: i32, max: i32) -> Resource {
    let mut resource = Resource::default();
    resource.id = Identifier {
        uuid: "u".to_string(),
        name: "Fuel".to_string(),
        module: "depot".to_string(),
        bumpy_case: String::new(),
    };
    resource.min = min;
    resource.max = max;
    resource
}

fn check(resource: &Resource, index: usize) -> Vec<jack_make::error::ModelError> {
    resource.verify(ModelConcept::Resource, &Model::default(), &ProjectWorkspace::default(), index)
}

#[test]
fn bounds_with_room_have_no_finding() {
    assert!(check(&resource(0, 1), 0).is_empty());
    assert!(check(&resource(-5, 5), 0).is_empty());
    assert!(check(&resource(i32::MIN, i32::MAX), 0).is_empty());
}

#[test]
fn swapped_bounds_have_exactly_one_finding() {
    let out = check(&resource(2, 1), 3);
    assert_eq!(out.len(), 1);
    assert_eq!(out[0].error_type, ErrorType::ResourceMinMaxSwapped);
    assert_eq!(out[0].keys, vec!["resources.depot.Fuel"]);
    assert_eq!(out[0].machine_keys, vec!["resources.3"]);
    assert_eq!(out[0].error_string, "Resouce has its min and max values swapped.");
}

#[test]
fn equal_bounds_have_exactly_one_finding() {
    let out = check(&resource(7, 7), 12);
    assert_eq!(out.len(), 1);
    assert_eq!(out[0].error_type, ErrorType::ResourceMinMaxEqual);
    assert_eq!(out[0].keys, vec!["resources.depot.Fuel"]);
    assert_eq!(out[0].machine_keys, vec!["resources.12"]);
    assert_eq!(out[0].error_string, "Resouce has its min and max values that are equal.");
}

#[test]
fn the_two_findings_on_bounds_never_come_together() {
    for (min, max) in [(0, 0), (1, 0), (0, 1), (i32::MAX, i32::MIN), (i32::MIN, i32::MIN)] {
        let out = check(&resource(min, max), 0);
        let swapped = out.iter().filter(|e| e.error_type == ErrorType::ResourceMinMaxSwapped).count();
        let equal = out.iter().filter(|e| e.error_type == ErrorType::ResourceMinMaxEqual).count();
        assert_eq!(swapped, if min > max { 1 } else { 0 });
        assert_eq!(equal, if min == max { 1 } else { 0 });
        assert!(swapped + equal <= 1);
    }
}
