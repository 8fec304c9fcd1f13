use jack_make::concept::ModelConcept;
use jack_make::error::{ErrorType, ModelError};
use jack_make::identifier::Identifier;
use jack_make::model::Model;
use jack_make::schema::{Action, Goal, Message, MessagePerm, Plan, Role, Service, Tactic};
use jack_make::validate::Checked;
use jack_make::workspace::ProjectWorkspace;

fn ident(name: &str) -> Identifier {
    Identifier {
        uuid: format!("uuid-{}", name),
        name: name.to_string(),
        module: String::new(),
        bumpy_case: String::new(),
    }
}

fn kinds(errors: &Vec<ModelError>) -> Vec<ErrorType> {
    errors.iter().map(|e| e.error_type.clone()).collect()
}

fn world() -> Model {
    let mut model = Model::default();
    for name in ["Position", "Speed"] {
        let mut message = Message::default();
        message.id = ident(name);
        model.messages.push(message);
    }
    for name in ["Deliver", "Rest"] {
        let mut goal = Goal::default();
        goal.id = ident(name);
        model.goals.push(goal);
    }
    for (name, handles) in [("CarryOut", "Deliver"), ("Haul", "Deliver"), ("Sleep", "Rest")] {
        let mut plan = Plan::default();
        plan.id = ident(name);
        plan.handles = ident(handles);
        model.plans.push(plan);
    }
    model
}

fn grant(name: &str) -> MessagePerm {
    MessagePerm { id: ident(name), read: true, write: true }
}

fn tactic() -> Tactic {
    let mut tactic = Tactic::default();
    tactic.id = ident("Careful");
    tactic.goal = ident("Deliver");
    tactic
}

fn check_tactic(tactic: &Tactic, index: usize) -> Vec<ModelError> {
    tactic.verify(ModelConcept::Tactic, &world(), &ProjectWorkspace::default(), index)
}

#[test]
fn a_role_with_resolving_grants_and_goals() {
    let mut role = Role::default();
    role.id = ident("Driver");
    role.messages.push(grant("Position"));
    role.messages.push(grant("Speed"));
    role.goals.push(ident("Deliver"));
    let out = role.verify(ModelConcept::Role, &world(), &ProjectWorkspace::default(), 0);
    assert!(out.is_empty());
}

#[test]
fn findings_on_the_grants_of_a_role_come_grant_by_grant() {
    let mut role = Role::default();
    role.id = ident("Driver");
    role.messages.push(grant("Position"));
    role.messages.push(grant("Cargo"));
    role.messages.push(grant("Position"));
    role.messages.push(MessagePerm::default());
    let out = role.verify(ModelConcept::Role, &world(), &ProjectWorkspace::default(), 3);
    assert_eq!(
        kinds(&out),
        vec![
            ErrorType::MessageNotFound,
            ErrorType::DuplicateName,
            ErrorType::ZeroSizeString,
            ErrorType::MessageNotFound,
        ]
    );
    assert_eq!(out[0].keys, vec!["roles.Driver.messages.Cargo"]);
    assert_eq!(out[0].machine_keys, vec!["roles.3.messages.1"]);
    assert_eq!(out[0].error_string, "Message Cargo at index 1 cannot be found in messages.");
    assert_eq!(
        out[1].keys,
        vec!["roles.Driver.messages.Position", "roles.Driver.messages.Position"]
    );
    assert_eq!(out[1].machine_keys, vec!["roles.3.messages.0", "roles.3.messages.2"]);
    assert_eq!(
        out[1].error_string,
        "Role at Driver specified message that has duplicate entries of 'Position' at indicies 0 and 2."
    );
    assert_eq!(out[2].error_string, "Message at index 3 must not be empty.");
}

#[test]
fn goals_of_a_role() {
    let mut role = Role::default();
    role.id = ident("Driver");
    role.goals.push(ident("Fly"));
    role.goals.push(ident("Rest"));
    role.goals.push(ident("Rest"));
    let out = role.verify(ModelConcept::Role, &world(), &ProjectWorkspace::default(), 0);
    assert_eq!(kinds(&out), vec![ErrorType::GoalNotFound, ErrorType::DuplicateName]);
    assert_eq!(out[0].keys, vec!["roles.Driver.goals.Fly"]);
    assert_eq!(out[0].error_string, "Message Fly at index 0 cannot be found in messages.");
    assert_eq!(out[1].machine_keys, vec!["roles.0.goals.2", "roles.0.goals.1"]);
    assert_eq!(
        out[1].error_string,
        "roles at Driver in goals has duplicate entries of 'Rest' at indicies 1 and 2."
    );
}

#[test]
fn a_tactic_whose_plans_handle_its_goal() {
    let mut tactic = tactic();
    tactic.plan_list.push(ident("CarryOut"));
    tactic.plan_list.push(ident("Haul"));
    assert!(check_tactic(&tactic, 0).is_empty());
}

#[test]
fn a_tactic_without_a_goal() {
    let mut tactic = tactic();
    tactic.goal = Identifier::default();
    let out = check_tactic(&tactic, 8);
    assert_eq!(kinds(&out), vec![ErrorType::ZeroSizeString, ErrorType::GoalNotFound]);
    assert_eq!(out[0].keys, vec!["tactics.Careful.goal"]);
    assert_eq!(out[0].machine_keys, vec!["tactics.8.goal"]);
    assert_eq!(out[0].error_string, "Goal handle at 8 must not be empty.");
    assert_eq!(out[1].error_string, "Goal  that tactic handles cannot be found in goals.");
}

#[test]
fn a_tactic_with_an_unknown_goal() {
    let mut tactic = tactic();
    tactic.goal = ident("Fly");
    let out = check_tactic(&tactic, 0);
    assert_eq!(kinds(&out), vec![ErrorType::GoalNotFound]);
    assert_eq!(out[0].error_string, "Goal Fly that tactic handles cannot be found in goals.");
}

#[test]
fn each_plan_with_another_goal_is_one_finding() {
    let mut tactic = tactic();
    tactic.plan_list.push(ident("Sleep"));
    tactic.plan_list.push(ident("CarryOut"));
    tactic.plan_list.push(ident("Sleep"));
    let out = check_tactic(&tactic, 2);
    assert_eq!(
        kinds(&out),
        vec![
            ErrorType::TacticGoalNotSupportedByPlan,
            ErrorType::TacticGoalNotSupportedByPlan,
            ErrorType::DuplicateName,
        ]
    );
    assert_eq!(out[0].keys, vec!["tactics.Careful.plan_list.Sleep"]);
    assert_eq!(out[0].machine_keys, vec!["tactics.2.plan_list.0"]);
    assert_eq!(
        out[0].error_string,
        "Tactic uses plan 'Sleep' with a different goal 'Rest' than the goal 'Deliver' supported by the tactic cannot be found in plans."
    );
    assert_eq!(out[1].machine_keys, vec!["tactics.2.plan_list.2"]);
    assert_eq!(out[2].machine_keys, vec!["tactics.2.plan_list.2", "tactics.2.plan_list.0"]);
    assert_eq!(
        out[2].error_string,
        "tactics at Careful in plans has duplicate entries of 'Sleep' at indicies 0 and 2."
    );
}

#[test]
fn unknown_and_unset_plans_of_a_tactic() {
    let mut tactic = tactic();
    tactic.plan_list.push(ident("Fly"));
    tactic.plan_list.push(Identifier::default());
    let out = check_tactic(&tactic, 0);
    assert_eq!(
        kinds(&out),
        vec![ErrorType::PlanNotFound, ErrorType::ZeroSizeString, ErrorType::PlanNotFound]
    );
    assert_eq!(out[0].keys, vec!["tactics.Careful.plan_list.Fly"]);
    assert_eq!(out[0].error_string, "Tactic 'Careful' references non-existent plan 'Fly'");
    assert_eq!(out[1].keys, vec!["tactics.Careful.plan_list.1"]);
    assert_eq!(out[1].error_string, "Plan at index 1 must not be empty.");
    assert_eq!(out[2].error_string, "Tactic 'Careful' references non-existent plan ''");
    let mut errors: Vec<ModelError> = Vec::new();
    tactic.check_plan(&mut errors, &world(), 0, 0);
    assert_eq!(kinds(&errors), vec![ErrorType::PlanNotFound]);
}

#[test]
fn the_plan_loop_count_has_bounds() {
    for (count, fine) in [
        (-1i64, true),
        (0, true),
        (1, true),
        (4294967295, true),
        (4294967296, false),
        (-2, false),
        (i64::MIN, false),
        (i64::MAX, false),
    ] {
        let mut tactic = tactic();
        tactic.plan_loop = count;
        let out = check_tactic(&tactic, 1);
        if fine {
            assert!(out.is_empty());
        } else {
            assert_eq!(kinds(&out), vec![ErrorType::TacticPlanLoopValueOutOfBounds]);
            assert_eq!(out[0].keys, vec!["tactics.Careful.plan_loop"]);
            assert_eq!(out[0].machine_keys, vec!["tactics.1.plan_loop"]);
            assert_eq!(
                out[0].error_string,
                format!(
                    "Tactic 'Careful' plan loop value: {}, is not an acceptable value, it must in the following range [-1, 2^32)",
                    count
                )
            );
        }
    }
}

#[test]
fn messages_of_an_action() {
    let mut action = Action::default();
    action.id = ident("Drive");
    let check = |action: &Action| {
        action.verify(ModelConcept::Action, &world(), &ProjectWorkspace::default(), 5)
    };
    assert!(check(&action).is_empty());
    action.request = ident("Position");
    action.reply = ident("Speed");
    action.feedback = ident("Nowhere");
    assert!(check(&action).is_empty());
    action.request = ident("Where");
    action.reply = ident("HowFast");
    let out = check(&action);
    assert_eq!(kinds(&out), vec![ErrorType::MessageNotFound, ErrorType::MessageNotFound]);
    assert_eq!(out[0].keys, vec!["actions.Drive.request"]);
    assert_eq!(out[0].machine_keys, vec!["actions.5.request"]);
    assert_eq!(out[0].error_string, "Action uses a request message 'Where' that does not exist.");
    assert_eq!(out[1].keys, vec!["actions.Drive.reply"]);
    assert_eq!(out[1].machine_keys, vec!["actions.5.reply"]);
    assert_eq!(out[1].error_string, "Action uses a reply message 'HowFast' that does not exist.");
}

#[test]
fn a_service_has_no_checks_of_its_own() {
    let mut service = Service::default();
    service.id = ident("Garage");
    service.action_handlers.push(ident("Nothing"));
    let out = service.verify(ModelConcept::Service, &world(), &ProjectWorkspace::default(), 0);
    assert!(out.is_empty());
}
