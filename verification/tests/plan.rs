use jack_make::concept::ModelConcept;
use jack_make::error::{ErrorType, ModelError};
use jack_make::identifier::Identifier;
use jack_make::model::Model;
use jack_make::schema::{Action, Goal, Mapping, Message, Plan, Task, TaskType};
use jack_make::validate::Checked;
use jack_make::workspace::ProjectWorkspace;

fn ident(name: &str) -> Identifier {
    Identifier {
        uuid: format!("uuid-{}", name),
        name: name.to_string(),
        module: String::new(),
        bumpy_case: String::new(),
    }
}

fn kinds(errors: &Vec<ModelError>) -> Vec<ErrorType> {
    errors.iter().map(|e| e.error_type.clone()).collect()
}

fn check(plan: &Plan, model: &Model, index: usize) -> Vec<ModelError> {
    plan.verify(ModelConcept::Plan, model, &ProjectWorkspace::default(), index)
}

fn model() -> Model {
    let mut model = Model::default();
    let mut deliver = Goal::default();
    deliver.id = ident("Deliver");
    model.goals.push(deliver);
    let mut refuel = Goal::default();
    refuel.id = ident("Refuel");
    refuel.message = ident("Amount");
    model.goals.push(refuel);
    let mut drive = Action::default();
    drive.id = ident("Drive");
    model.actions.push(drive);
    let mut position = Message::default();
    position.id = ident("Position");
    model.messages.push(position);
    model
}

fn plan() -> Plan {
    let mut plan = Plan::default();
    plan.id = ident("CarryOut");
    plan.handles = ident("Deliver");
    plan
}

fn task(id: &str, task_type: TaskType) -> Task {
    let mut task = Task::default();
    task.id = id.to_string();
    task.task_type = task_type;
    task
}

fn with_task(task: Task) -> Plan {
    let mut plan = plan();
    plan.tasks.push(task);
    plan
}

#[test]
fn a_plan_without_tasks_that_handles_a_declared_goal() {
    assert!(check(&plan(), &model(), 0).is_empty());
}

#[test]
fn a_plan_whose_goal_is_unset_or_unknown() {
    let mut unset = plan();
    unset.handles = Identifier::default();
    let out = check(&unset, &model(), 4);
    assert_eq!(kinds(&out), vec![ErrorType::GoalNotFound]);
    assert_eq!(out[0].keys, vec!["plans.CarryOut.handles"]);
    assert_eq!(out[0].machine_keys, vec!["plans.4.handles"]);
    assert_eq!(out[0].error_string, "Plan CarryOut handles a goal  that cannot be found.");

    let mut unknown = plan();
    unknown.handles = ident("Fly");
    let out = check(&unknown, &model(), 4);
    assert_eq!(kinds(&out), vec![ErrorType::GoalNotFound]);
    assert_eq!(out[0].error_string, "Plan CarryOut handles a goal Fly that cannot be found.");
}

#[test]
fn beliefs_of_a_plan() {
    let mut plan = plan();
    plan.query_messages.push(ident("Position"));
    plan.query_messages.push(ident("Speed"));
    plan.query_messages.push(Identifier::default());
    plan.query_messages.push(ident("Position"));
    let out = check(&plan, &model(), 1);
    assert_eq!(
        kinds(&out),
        vec![
            ErrorType::MessageNotFound,
            ErrorType::ZeroSizeString,
            ErrorType::MessageNotFound,
            ErrorType::DuplicateName,
        ]
    );
    assert_eq!(out[0].keys, vec!["plans.CarryOut.query_messages.Speed"]);
    assert_eq!(out[0].machine_keys, vec!["plans.1.query_messages.1"]);
    assert_eq!(out[0].error_string, "Query message Speed at index 1 cannot be found in messages.");
    assert_eq!(out[1].error_string, "Query message at index 2 must not be empty.");
    assert_eq!(
        out[3].keys,
        vec!["plans.CarryOut.beliefsets.Position", "plans.CarryOut.beliefsets.Position"]
    );
    assert_eq!(out[3].machine_keys, vec!["plans.1.beliefsets.3", "plans.1.beliefsets.0"]);
    assert_eq!(
        out[3].error_string,
        "plans at CarryOut in beliefsets has duplicate entries of 'Position' at indicies 0 and 3."
    );
}

#[test]
fn a_complete_action_task() {
    let mut step = task("t1", TaskType::action);
    step.action = Some(ident("Drive"));
    step.mappings = Some(vec![Mapping { from: "a".to_string(), to: "b".to_string() }]);
    assert!(check(&with_task(step), &model(), 0).is_empty());
}

#[test]
fn an_action_task_with_an_unknown_action() {
    let mut step = task("t1", TaskType::action);
    step.action = Some(ident("Swim"));
    step.mappings = Some(vec![]);
    let out = check(&with_task(step), &model(), 2);
    assert_eq!(kinds(&out), vec![ErrorType::ActionNotFound]);
    assert_eq!(out[0].keys, vec!["plans.CarryOut.tasks.t1"]);
    assert_eq!(out[0].machine_keys, vec!["plans.2.tasks.0"]);
    assert_eq!(
        out[0].error_string,
        "Action task t1 uses action Swim at index 0 of tasks in Plan CarryOut cannot be found in actions."
    );
}

#[test]
fn a_complete_goal_task() {
    let mut step = task("t1", TaskType::goal);
    step.goal = Some(ident("Deliver"));
    step.is_async = Some(false);
    step.mappings = Some(vec![]);
    assert!(check(&with_task(step), &model(), 0).is_empty());
}

#[test]
fn a_goal_task_that_lacks_everything() {
    let step = task("t1", TaskType::goal);
    let out = check(&with_task(step), &model(), 0);
    assert_eq!(
        kinds(&out),
        vec![ErrorType::TaskAsyncNotFound, ErrorType::TaskMappingsNotFound, ErrorType::GoalNotFound]
    );
    assert_eq!(
        out[0].error_string,
        "Goal task t1 at index 0 of Tasks in Plan CarryOut does not have r#async field."
    );
    assert_eq!(
        out[1].error_string,
        "Goal task t1 at index 0 of Tasks in Plan CarryOut does not have a mappings field."
    );
    assert_eq!(
        out[2].error_string,
        "Pursue t1 at index 0 of Tasks in Plan CarryOut does not have a goal defined."
    );
}

#[test]
fn a_goal_task_with_an_unknown_sub_goal() {
    let mut step = task("t1", TaskType::goal);
    step.goal = Some(ident("Fly"));
    step.is_async = Some(true);
    step.mappings = Some(vec![]);
    let mut plan = plan();
    plan.tasks.push(task("t0", TaskType::condition));
    plan.tasks.push(step);
    let out = check(&plan, &model(), 0);
    assert_eq!(kinds(&out), vec![ErrorType::GoalNotFound]);
    assert_eq!(out[0].machine_keys, vec!["plans.0.tasks.1"]);
    assert_eq!(
        out[0].error_string,
        "Task 1 in plan 'CarryOut' for goal 'Deliver' is trying to sub-goal to a non-existent goal 'Fly'"
    );
}

#[test]
fn a_goal_task_whose_sub_goal_has_an_unknown_message() {
    let mut step = task("t1", TaskType::goal);
    step.goal = Some(ident("Refuel"));
    step.is_async = Some(true);
    step.mappings = Some(vec![]);
    let out = check(&with_task(step.clone()), &model(), 0);
    assert_eq!(kinds(&out), vec![ErrorType::MessageNotFound]);
    assert_eq!(
        out[0].error_string,
        "Task 0 in plan 'CarryOut' for goal 'Deliver' executes the sub-goal 'Refuel' but the goal parameters (message 'Amount') does not exist"
    );

    let mut complete = model();
    let mut amount = Message::default();
    amount.id = ident("Amount");
    complete.messages.push(amount);
    assert!(check(&with_task(step), &complete, 0).is_empty());
}

#[test]
fn a_sleep_task_needs_a_duration() {
    let mut step = task("nap", TaskType::sleep);
    let out = check(&with_task(step.clone()), &model(), 0);
    assert_eq!(kinds(&out), vec![ErrorType::TaskSleepDurationNotFound]);
    assert_eq!(
        out[0].error_string,
        "Sleep nap at index 0 of Tasks in Plan CarryOut does not have a duration."
    );
    step.duration = Some(0);
    assert!(check(&with_task(step), &model(), 0).is_empty());
}

#[test]
fn a_condition_task_is_not_checked() {
    assert!(check(&with_task(task("c", TaskType::condition)), &model(), 0).is_empty());
}

#[test]
fn a_task_without_a_type_is_always_a_finding() {
    let out = check(&with_task(task("x", TaskType::Nil)), &model(), 0);
    assert_eq!(kinds(&out), vec![ErrorType::TaskIsNone]);
    assert_eq!(
        out[0].error_string,
        "Task x at index 0 of Tasks in Plan CarryOut is None. This should not happen."
    );
    assert_eq!(TaskType::default(), TaskType::Nil);
}

#[test]
fn a_task_without_an_id() {
    let mut step = task("", TaskType::sleep);
    step.duration = Some(5);
    let out = check(&with_task(step), &model(), 3);
    assert_eq!(kinds(&out), vec![ErrorType::ZeroSizeString]);
    assert_eq!(out[0].keys, vec!["plans.CarryOut.tasks.0"]);
    assert_eq!(out[0].machine_keys, vec!["plans.3.tasks.0"]);
    assert_eq!(
        out[0].error_string,
        "Task at index 0 of Tasks in Plan CarryOut cannot have an empty id."
    );
}

#[test]
fn tasks_are_reported_one_after_the_other() {
    let mut plan = plan();
    plan.tasks.push(task("a", TaskType::Nil));
    plan.tasks.push(task("b", TaskType::sleep));
    plan.tasks.push(task("c", TaskType::Nil));
    let out = check(&plan, &model(), 0);
    let paths: Vec<String> = out.iter().map(|e| e.machine_keys[0].clone()).collect();
    assert_eq!(paths, vec!["plans.0.tasks.0", "plans.0.tasks.1", "plans.0.tasks.2"]);
    let mut errors: Vec<ModelError> = Vec::new();
    plan.check_task(&mut errors, &model(), 0, 1);
    assert_eq!(kinds(&errors), vec![ErrorType::TaskSleepDurationNotFound]);
}
