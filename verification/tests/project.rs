use jack_make::error::ErrorType;
use jack_make::schema::Project;

#[test]
fn project_name_zero_name_length__1_5() {
    let pro = Project::default();

    let out = pro.verify();

    for o in out.iter() {
        println!("{:?}", o);
    }

    assert!(out.len() == 1);

    assert!(out[0].keys[0] == "project.name");
    assert!(out[0].error_type == ErrorType::ZeroSizeString)
}

#[test]
fn project_name_non_zero_name_length__1_5() {
    let mut pro = Project::default();

    pro.name = "Test".to_string();

    let out = pro.verify();

    for o in out.iter() {
        println!("{:?}", o);
    }

    assert!(out.len() == 0);
}

#[test]
fn project_name_is_project__9_1() {
    let mut pro = Project::default();

    pro.name = "Project".to_string();

    let out = pro.verify();

    for o in out.iter() {
        println!("{:?}", o);
    }

    assert!(out.len() == 1);
    assert!(out[0].error_type == ErrorType::NameSameAsType);
}

#[test]
fn project_name_zero_namespaces_length__1_1() {
    let mut pro = Project::default();

    pro.name = "Test".to_string();

    pro.namespaces.push("".to_string());

    let out = pro.verify();

    for o in out.iter() {
        println!("{:?}", o);
    }

    assert!(out.len() == 1);

    assert!(out[0].keys[0] == "project.namespaces.0");
    assert!(out[0].error_type == ErrorType::ZeroSizeString);
}

#[test]
fn project_name_non_zero_namespaces_length__1_1() {
    let mut pro = Project::default();

    pro.name = "Test".to_string();
    pro.namespaces.push("Test".to_string());

    let out = pro.verify();

    for o in out.iter() {
        println!("{:?}", o);
    }

    assert!(out.len() == 0);
}
