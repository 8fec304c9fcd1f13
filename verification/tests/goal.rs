use jack_make::concept::ModelConcept;
use jack_make::error::{ErrorType, ModelError};
use jack_make::identifier::Identifier;
use jack_make::model::Model;
use jack_make::schema::{Goal, Message, Plan, Resource};
use jack_make::validate::Checked;
use jack_make::workspace::ProjectWorkspace;

fn ident(name: &str) -> Identifier {
    Identifier {
        uuid: format!("uuid-{}", name),
        name: name.to_string(),
        module: String::new(),
        bumpy_case: String::new(),
    }
}

fn kinds(errors: &Vec<ModelError>) -> Vec<ErrorType> {
    errors.iter().map(|e| e.error_type.clone()).collect()
}

fn check(goal: &Goal, model: &Model, index: usize) -> Vec<ModelError> {
    goal.verify(ModelConcept::Goal, model, &ProjectWorkspace::default(), index)
}

fn covered_model() -> Model {
    let mut model = Model::default();
    let mut plan = Plan::default();
    plan.id = ident("CarryOut");
    plan.handles = ident("Deliver");
    model.plans.push(plan);
    let mut position = Message::default();
    position.id = ident("Position");
    model.messages.push(position);
    let mut fuel = Resource::default();
    fuel.id = ident("Fuel");
    model.resources.push(fuel);
    model
}

fn deliver() -> Goal {
    let mut goal = Goal::default();
    goal.id = ident("Deliver");
    goal
}

#[test]
fn a_handled_goal_with_resolving_references_has_no_findings() {
    let mut goal = deliver();
    goal.query_messages.push(ident("Position"));
    goal.resources.push(ident("Fuel"));
    goal.message = ident("Position");
    assert!(check(&goal, &covered_model(), 0).is_empty());
    assert!(goal.is_handled(&covered_model()));
}

#[test]
fn a_goal_without_plans() {
    let goal = deliver();
    let out = check(&goal, &Model::default(), 5);
    assert_eq!(kinds(&out), vec![ErrorType::NoPlansForGoal]);
    assert_eq!(out[0].keys, vec!["goals.Deliver"]);
    assert_eq!(out[0].machine_keys, vec!["goals.5"]);
    assert!(!goal.is_handled(&Model::default()));
}

#[test]
fn a_plan_handles_a_goal_by_identity_not_by_name() {
    let mut model = covered_model();
    model.plans[0].handles.name = "Renamed".to_string();
    assert!(check(&deliver(), &model, 0).is_empty());
    model.plans[0].handles = ident("Deliver");
    model.plans[0].handles.uuid = "someone-else".to_string();
    assert_eq!(kinds(&check(&deliver(), &model, 0)), vec![ErrorType::NoPlansForGoal]);
}

#[test]
fn beliefs_of_a_goal_must_be_set_and_declared() {
    let mut goal = deliver();
    goal.query_messages.push(Identifier::default());
    goal.query_messages.push(ident("Speed"));
    let out = check(&goal, &covered_model(), 2);
    assert_eq!(
        kinds(&out),
        vec![ErrorType::ZeroSizeString, ErrorType::MessageNotFound, ErrorType::MessageNotFound]
    );
    assert_eq!(out[0].keys, vec!["goals.Deliver.query_messages.0"]);
    assert_eq!(out[0].machine_keys, vec!["goals.2.query_messages.0"]);
    assert_eq!(out[0].error_string, "Message at index 0 must not be empty.");
    assert_eq!(out[1].keys, vec!["goals.Deliver.query_messages."]);
    assert_eq!(out[1].error_string, "Message  at index 0 cannot be found in messages.");
    assert_eq!(out[2].keys, vec!["goals.Deliver.query_messages.Speed"]);
    assert_eq!(out[2].machine_keys, vec!["goals.2.query_messages.1"]);
    assert_eq!(out[2].error_string, "Message Speed at index 1 cannot be found in messages.");
}

#[test]
fn the_message_of_a_goal_must_be_declared_where_it_is_set() {
    let mut goal = deliver();
    goal.message = ident("Parcel");
    let out = check(&goal, &covered_model(), 1);
    assert_eq!(kinds(&out), vec![ErrorType::MessageNotFound]);
    assert_eq!(out[0].keys, vec!["goals.Deliver.message"]);
    assert_eq!(out[0].machine_keys, vec!["goals.1.message"]);
    assert_eq!(
        out[0].error_string,
        "Goal message with name 'Parcel' cannot be found in messages."
    );
}

#[test]
fn a_belief_read_twice() {
    let mut goal = deliver();
    goal.query_messages.push(ident("Position"));
    goal.query_messages.push(ident("Position"));
    let out = check(&goal, &covered_model(), 0);
    assert_eq!(kinds(&out), vec![ErrorType::DuplicateName]);
    assert_eq!(
        out[0].keys,
        vec!["goals.Deliver.query_messages.Position", "goals.Deliver.query_messages.Position"]
    );
    assert_eq!(
        out[0].machine_keys,
        vec!["goals.0.query_messages.1", "goals.0.query_messages.0"]
    );
    assert_eq!(
        out[0].error_string,
        "goals at Deliver in query_messages has duplicate entries of 'Position' at indicies 0 and 1."
    );
}

#[test]
fn resources_of_a_goal_must_be_set_declared_and_single() {
    let mut goal = deliver();
    goal.resources.push(ident("Fuel"));
    goal.resources.push(ident("Water"));
    goal.resources.push(ident("Fuel"));
    let out = check(&goal, &covered_model(), 0);
    assert_eq!(kinds(&out), vec![ErrorType::ResourceNotFound, ErrorType::DuplicateName]);
    assert_eq!(out[0].keys, vec!["goals.Deliver.resources.Water"]);
    assert_eq!(out[0].machine_keys, vec!["goals.0.resources.1"]);
    assert_eq!(out[0].error_string, "Resource Water at index 1 cannot be found in resources.");
    assert_eq!(out[1].machine_keys, vec!["goals.0.resources.2", "goals.0.resources.0"]);
    assert_eq!(
        out[1].error_string,
        "goals at Deliver in resources has duplicate entries of 'Fuel' at indicies 0 and 2."
    );
}

#[test]
fn findings_on_a_goal_come_in_the_order_of_its_checks() {
    let mut goal = deliver();
    goal.query_messages.push(ident("Speed"));
    goal.query_messages.push(ident("Speed"));
    goal.message = ident("Parcel");
    goal.resources.push(ident("Water"));
    let out = check(&goal, &Model::default(), 0);
    assert_eq!(
        kinds(&out),
        vec![
            ErrorType::MessageNotFound,
            ErrorType::MessageNotFound,
            ErrorType::MessageNotFound,
            ErrorType::DuplicateName,
            ErrorType::ResourceNotFound,
            ErrorType::NoPlansForGoal,
        ]
    );
    assert_eq!(out[2].keys, vec!["goals.Deliver.message"]);
}
