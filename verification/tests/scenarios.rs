use jack_make::error::{ErrorType, ModelError};
use jack_make::identifier::Identifier;
use jack_make::model::Model;
use jack_make::schema::{
    Agent, AgentGoal, Goal, Message, Plan, Resource, Tactic, Task, TaskType,
};
use jack_make::workspace::ProjectWorkspace;

fn ident(name: &str) -> Identifier {
    Identifier {
        uuid: format!("uuid-{}", name),
        name: name.to_string(),
        module: String::new(),
        bumpy_case: String::new(),
    }
}

fn named_model() -> Model {
    let mut model = Model::default();
    model.project.name = "Test".to_string();
    model
}

fn check(model: &Model) -> Vec<ModelError> {
    let mut workspace = ProjectWorkspace::default();
    workspace.add_models(vec![model.clone()]);
    model.verify(&workspace)
}

fn kinds(errors: &Vec<ModelError>) -> Vec<ErrorType> {
    errors.iter().map(|e| e.error_type.clone()).collect()
}

fn goal(name: &str) -> Goal {
    let mut goal = Goal::default();
    goal.id = ident(name);
    goal
}

fn plan(name: &str, handles: &str) -> Plan {
    let mut plan = Plan::default();
    plan.id = ident(name);
    plan.handles = ident(handles);
    plan
}

fn resource(name: &str, min: i32, max: i32) -> Resource {
    let mut resource = Resource::default();
    resource.id = ident(name);
    resource.min = min;
    resource.max = max;
    resource
}

#[test]
fn an_empty_model_with_a_valid_project_has_no_findings() {
    let mut model = named_model();
    model.project.namespaces.push("aos".to_string());
    model.project.namespaces.push("fleet".to_string());
    assert!(check(&model).is_empty());
}

#[test]
fn an_empty_workspace_serves_an_empty_model() {
    let model = named_model();
    let workspace = ProjectWorkspace::default();
    assert!(model.verify(&workspace).is_empty());
}

#[test]
fn verifying_twice_gives_the_same_report() {
    let mut model = named_model();
    let mut deliver = goal("Deliver");
    deliver.resources.push(ident("Fuel"));
    deliver.query_messages.push(ident("Position"));
    model.goals.push(deliver);
    model.goals.push(goal("Deliver"));
    model.resources.push(resource("Fuel", 3, 3));
    let mut tactic = Tactic::default();
    tactic.id = ident("Careful");
    tactic.plan_loop = -7;
    model.tactics.push(tactic);
    let mut workspace = ProjectWorkspace::default();
    workspace.add_models(vec![model.clone()]);
    let first = model.verify(&workspace);
    let second = model.verify(&workspace);
    assert!(!first.is_empty());
    assert_eq!(first, second);
}

#[test]
fn a_goal_that_needs_fuel_pursued_by_an_agent_without_fuel_and_plans() {
    let mut model = named_model();
    let mut deliver = goal("Deliver");
    deliver.resources.push(ident("Fuel"));
    model.goals.push(deliver);
    model.resources.push(resource("Fuel", 0, 10));
    let mut agent = Agent::default();
    agent.id = ident("Courier");
    let mut pursued = AgentGoal::default();
    pursued.id = ident("Deliver");
    agent.goals.push(pursued);
    model.agents.push(agent);

    let out = check(&model);
    assert_eq!(kinds(&out), vec![ErrorType::AgentGoalNoResource, ErrorType::NoPlansForGoal]);

    assert_eq!(out[0].keys, vec!["agents.Courier.goals.Deliver", "goals.Deliver.resources.Fuel"]);
    assert_eq!(out[0].machine_keys, vec!["agents.0.goals.0", "goals.0.resources.0"]);
    assert_eq!(
        out[0].error_string,
        "Goal Deliver with resource Fuel cannot be found in Agent Courier Resources."
    );
    assert_eq!(out[1].keys, vec!["goals.Deliver"]);
    assert_eq!(out[1].machine_keys, vec!["goals.0"]);
    assert_eq!(out[1].error_string, "Goal Deliver has no plans that handle it.");
}

#[test]
fn two_goals_of_one_name_in_one_module() {
    let mut model = named_model();
    let mut first = goal("Deliver");
    first.id.uuid = "one".to_string();
    let mut second = goal("Deliver");
    second.id.uuid = "two".to_string();
    model.goals.push(first);
    model.goals.push(second);
    let mut a = plan("CarryOut", "x");
    a.handles.uuid = "one".to_string();
    a.handles.name = "Deliver".to_string();
    let mut b = plan("CarryOn", "x");
    b.handles.uuid = "two".to_string();
    b.handles.name = "Deliver".to_string();
    model.plans.push(a);
    model.plans.push(b);

    let out = check(&model);
    assert_eq!(kinds(&out), vec![ErrorType::DuplicateName]);
    assert_eq!(out[0].keys, vec!["goals.Deliver", "goals.Deliver"]);
    assert_eq!(out[0].machine_keys, vec!["goals.0", "goals.1"]);
    assert_eq!(
        out[0].error_string,
        "Goal 'Deliver' has a duplicated name with Goal 'Deliver' (id of duplicated item is: 'two')"
    );
}

#[test]
fn two_goals_of_one_name_in_two_modules_do_not_collide() {
    let mut root = named_model();
    root.goals.push(goal("Deliver"));
    root.plans.push(plan("CarryOut", "Deliver"));
    let mut module = Model::default();
    module.project.name = "Other".to_string();
    let mut theirs = goal("Deliver");
    theirs.id.uuid = "theirs".to_string();
    module.goals.push(theirs);
    let mut their_plan = plan("TheirPlan", "Deliver");
    their_plan.handles.uuid = "theirs".to_string();
    module.plans.push(their_plan);

    let mut workspace = ProjectWorkspace::default();
    workspace.add_models(vec![root.clone(), module.clone()]);
    assert!(root.verify(&workspace).is_empty());
    assert!(module.verify(&workspace).is_empty());
}

#[test]
fn an_action_task_without_mappings_and_without_action() {
    let mut model = named_model();
    model.goals.push(goal("Deliver"));
    let mut carry = plan("CarryOut", "Deliver");
    let mut task = Task::default();
    task.id = "t1".to_string();
    task.task_type = TaskType::action;
    carry.tasks.push(task);
    model.plans.push(carry);

    let out = check(&model);
    assert_eq!(kinds(&out), vec![ErrorType::TaskMappingsNotFound, ErrorType::MessageNotFound]);
    assert_eq!(out[0].keys, vec!["plans.CarryOut.tasks.t1"]);
    assert_eq!(out[0].machine_keys, vec!["plans.0.tasks.0"]);
    assert_eq!(
        out[0].error_string,
        "Action task t1 at index 0 of Tasks in Plan CarryOut does not have a mappings field."
    );
    assert_eq!(out[1].keys, vec!["plans.CarryOut.tasks.t1"]);
    assert_eq!(out[1].machine_keys, vec!["plans.0.tasks.0"]);
    assert_eq!(
        out[1].error_string,
        "Action task t1 at index 0 of tasks in Plan CarryOut does not have an action defined."
    );
}

#[test]
fn an_entity_with_many_defects_has_as_many_findings() {
    let mut model = named_model();
    let mut tactic = Tactic::default();
    tactic.id = ident("Tactic");
    tactic.id.uuid = String::new();
    tactic.plan_loop = 4294967296;
    tactic.plan_list.push(Identifier::default());
    model.tactics.push(tactic);

    let out = check(&model);
    assert_eq!(
        kinds(&out),
        vec![
            ErrorType::ZeroSizeString,
            ErrorType::NameSameAsType,
            ErrorType::ZeroSizeString,
            ErrorType::GoalNotFound,
            ErrorType::ZeroSizeString,
            ErrorType::PlanNotFound,
            ErrorType::TacticPlanLoopValueOutOfBounds,
        ]
    );
}

#[test]
fn adding_a_plan_removes_only_the_coverage_finding() {
    let mut model = named_model();
    let mut deliver = goal("Deliver");
    deliver.query_messages.push(ident("Position"));
    deliver.message = ident("Parcel");
    model.goals.push(deliver);
    let before = check(&model);
    assert_eq!(
        kinds(&before),
        vec![ErrorType::MessageNotFound, ErrorType::MessageNotFound, ErrorType::NoPlansForGoal]
    );

    model.plans.push(plan("CarryOut", "Deliver"));
    let after = check(&model);
    assert_eq!(after.len(), 2);
    assert_eq!(after[..], before[..2]);
}

#[test]
fn a_plan_in_another_module_does_not_cover_a_goal() {
    let mut root = named_model();
    root.goals.push(goal("Deliver"));
    let mut module = Model::default();
    module.project.name = "Other".to_string();
    module.plans.push(plan("CarryOut", "Deliver"));

    let mut workspace = ProjectWorkspace::default();
    workspace.add_models(vec![root.clone(), module.clone()]);
    let out = root.verify(&workspace);
    assert_eq!(kinds(&out), vec![ErrorType::NoPlansForGoal]);
}

#[test]
fn renaming_a_declaration_breaks_no_reference() {
    let mut model = named_model();
    model.goals.push(goal("Deliver"));
    model.plans.push(plan("CarryOut", "Deliver"));
    let mut position = Message::default();
    position.id = ident("Position");
    model.messages.push(position);
    model.goals[0].query_messages.push(ident("Position"));
    let mut agent = Agent::default();
    agent.id = ident("Courier");
    agent.beliefs.push(ident("Position"));
    let mut pursued = AgentGoal::default();
    pursued.id = ident("Deliver");
    agent.goals.push(pursued);
    agent.plans.push(ident("CarryOut"));
    model.agents.push(agent);
    assert!(check(&model).is_empty());

    model.messages[0].id.name = "Whereabouts".to_string();
    model.goals[0].id.name = "Bring".to_string();
    model.plans[0].id.name = "Haul".to_string();
    assert!(check(&model).is_empty());
}

#[test]
fn renaming_to_a_reserved_or_taken_name_is_a_finding_of_its_own() {
    let mut model = named_model();
    model.goals.push(goal("Deliver"));
    model.plans.push(plan("CarryOut", "Deliver"));
    model.plans[0].id.name = "Deliver".to_string();
    assert_eq!(kinds(&check(&model)), vec![ErrorType::DuplicateName]);
    model.plans[0].id.name = "Plan".to_string();
    assert_eq!(kinds(&check(&model)), vec![ErrorType::NameSameAsType]);
}

#[test]
fn renaming_keeps_every_finding_that_does_not_come_of_a_name() {
    let mut model = named_model();
    model.goals.push(goal("Deliver"));
    model.goals[0].resources.push(ident("Fuel"));
    model.goals[0].query_messages.push(ident("Position"));
    model.plans.push(plan("CarryOut", "Elsewhere"));
    model.resources.push(resource("Water", 4, 4));
    let mut agent = Agent::default();
    agent.id = ident("Courier");
    let mut pursued = AgentGoal::default();
    pursued.id = ident("Deliver");
    agent.goals.push(pursued);
    model.agents.push(agent);
    let before = check(&model);
    assert!(!before.is_empty());

    model.goals[0].id.name = "Plan".to_string();
    model.plans[0].id.name = "Plan".to_string();
    model.resources[0].id.name = String::new();
    model.agents[0].id.name = "Agent".to_string();
    let after = check(&model);

    let of_a_name = |e: &ModelError| {
        matches!(
            e.error_type,
            ErrorType::ZeroSizeString | ErrorType::NameSameAsType | ErrorType::DuplicateName
        )
    };
    let rest = |errors: &Vec<ModelError>| -> Vec<(ErrorType, Vec<String>)> {
        errors
            .iter()
            .filter(|e| !of_a_name(e))
            .map(|e| (e.error_type.clone(), e.machine_keys.clone()))
            .collect()
    };
    assert_eq!(rest(&after), rest(&before));
    assert!(after.iter().filter(|e| of_a_name(e)).count() > before.iter().filter(|e| of_a_name(e)).count());
}

#[test]
fn a_new_plan_takes_one_finding_out_of_the_report_and_leaves_the_rest() {
    let mut model = named_model();
    model.goals.push(goal("Survey"));
    model.goals.push(goal("Deliver"));
    model.goals[1].resources.push(ident("Fuel"));
    model.plans.push(plan("Scan", "Elsewhere"));
    model.resources.push(resource("Water", 4, 4));
    let mut agent = Agent::default();
    agent.id = ident("Courier");
    agent.plans.push(ident("Scan"));
    agent.plans.push(ident("Absent"));
    model.agents.push(agent);
    let mut tactic = Tactic::default();
    tactic.id = ident("Quick");
    tactic.goal = ident("Deliver");
    tactic.plan_list.push(ident("Scan"));
    model.tactics.push(tactic);
    let before = check(&model);
    let at = before
        .iter()
        .position(|e| {
            e.error_type == ErrorType::NoPlansForGoal && e.machine_keys == vec!["goals.1".to_string()]
        })
        .expect("the goal has no plan");

    model.plans.push(plan("CarryOut", "Deliver"));
    let after = check(&model);

    let mut expected = before.clone();
    expected.remove(at);
    assert_eq!(after.len(), expected.len());
    for (now, then) in after.iter().zip(expected.iter()) {
        assert_eq!(now.error_type, then.error_type);
        assert_eq!(now.keys, then.keys);
        assert_eq!(now.machine_keys, then.machine_keys);
        assert_eq!(now.error_string, then.error_string);
    }
}
