//! The checks of a plan and of its tasks.

use crate::concept::{first_position, position, ModelConcept};
use crate::error::{finding, findings, report, report_all, ErrorType, ModelError, ModelErrorView};
use crate::identifier::Identifier;
use crate::model::Model;
use crate::references::{
    check_duplicates, check_references, duplicate_findings, reference_findings, Reference, Wording,
};
use crate::schema::{Plan, Task, TaskType};
use crate::text::{decimal, index_to_string, join3, join4, join5, join7};
use crate::validate::Checked;
use crate::workspace::ProjectWorkspace;
use vstd::prelude::*;
use vstd::string::StringExecFns;

verus! {

/// A sentence about the task `id` at position `i` of the plan `plan`.
pub open spec fn task_sentence(
    lead: Seq<char>,
    id: Seq<char>,
    i: int,
    place: Seq<char>,
    plan: Seq<char>,
    tail: Seq<char>,
) -> Seq<char> {
    lead + id + " at index "@ + decimal(i as nat) + place + plan + tail
}

fn sentence(lead: &str, id: &str, at: &str, place: &str, plan: &str, tail: &str) -> (r: String)
    ensures
        r@ == lead@ + id@ + " at index "@ + at@ + place@ + plan@ + tail@,
{
    join7(lead, id, " at index ", at, place, plan, tail)
}

impl Plan {
    /// A finding on the task at `i`: its paths name the task by its id and
    /// by its position.
    pub open spec fn spec_task_finding(
        &self,
        index: int,
        i: int,
        error_type: ErrorType,
        text: Seq<char>,
    ) -> ModelErrorView {
        finding(
            "plans."@ + self.id.spec_qualified_name() + ".tasks."@ + self.tasks@[i].id@,
            "plans."@ + decimal(index as nat) + ".tasks."@ + decimal(i as nat),
            error_type,
            text,
        )
    }

    /// The finding on a task without an id.
    pub open spec fn spec_task_id_findings(&self, index: int, i: int) -> Seq<ModelErrorView> {
        if self.tasks@[i].id@.len() == 0 {
            seq![
                finding(
                    "plans."@ + self.id.spec_qualified_name() + ".tasks."@ + decimal(
                        i as nat,
                    ),
                    "plans."@ + decimal(index as nat) + ".tasks."@ + decimal(i as nat),
                    ErrorType::ZeroSizeString,
                    "Task at index "@ + decimal(i as nat) + " of Tasks in Plan "@
                        + self.id.spec_qualified_name() + " cannot have an empty id."@,
                ),
            ]
        } else {
            Seq::empty()
        }
    }

    /// The finding on a task that needs mappings and has none.
    pub open spec fn spec_mappings_findings(&self, index: int, i: int, lead: Seq<char>) -> Seq<
        ModelErrorView,
    > {
        if self.tasks@[i].mappings is None {
            seq![
                self.spec_task_finding(
                    index,
                    i,
                    ErrorType::TaskMappingsNotFound,
                    task_sentence(
                        lead,
                        self.tasks@[i].id@,
                        i,
                        " of Tasks in Plan "@,
                        self.id.spec_qualified_name(),
                        " does not have a mappings field."@,
                    ),
                ),
            ]
        } else {
            Seq::empty()
        }
    }

    /// The findings on an action task: it needs mappings, and an action
    /// that the module declares.
    pub open spec fn spec_action_task_findings(&self, model: Model, index: int, i: int) -> Seq<
        ModelErrorView,
    > {
        let task = self.tasks@[i];
        let name = self.id.spec_qualified_name();
        self.spec_mappings_findings(index, i, "Action task "@) + match task.action {
            Some(action) => if !model.spec_find_action(action) {
                seq![
                    self.spec_task_finding(
                        index,
                        i,
                        ErrorType::ActionNotFound,
                        "Action task "@ + task.id@ + " uses action "@
                            + action.spec_qualified_name() + " at index "@ + decimal(i as nat)
                            + " of tasks in Plan "@ + name + " cannot be found in actions."@,
                    ),
                ]
            } else {
                Seq::empty()
            },
            None => seq![
                self.spec_task_finding(
                    index,
                    i,
                    ErrorType::MessageNotFound,
                    task_sentence(
                        "Action task "@,
                        task.id@,
                        i,
                        " of tasks in Plan "@,
                        name,
                        " does not have an action defined."@,
                    ),
                ),
            ],
        }
    }

    /// The finding on the sub-goal of a goal task: the module must declare
    /// the goal, and the message of the goal where it has one.
    pub open spec fn spec_sub_goal_findings(
        &self,
        model: Model,
        index: int,
        i: int,
        goal: Identifier,
    ) -> Seq<ModelErrorView> {
        let name = self.id.spec_qualified_name();
        if !model.spec_find_goal(goal) {
            seq![
                self.spec_task_finding(
                    index,
                    i,
                    ErrorType::GoalNotFound,
                    "Task "@ + decimal(i as nat) + " in plan '"@ + name + "' for goal '"@
                        + self.handles.spec_qualified_name()
                        + "' is trying to sub-goal to a non-existent goal '"@
                        + goal.spec_qualified_name() + "'"@,
                ),
            ]
        } else {
            let message = model.goals@[first_position(model.goals@, goal.uuid@)].message;
            if message.name@.len() > 0 && !model.spec_find_message(message) {
                seq![
                    self.spec_task_finding(
                        index,
                        i,
                        ErrorType::MessageNotFound,
                        "Task "@ + decimal(i as nat) + " in plan '"@ + name + "' for goal '"@
                            + self.handles.spec_qualified_name() + "' executes the sub-goal '"@
                            + goal.spec_qualified_name()
                            + "' but the goal parameters (message '"@
                            + message.spec_qualified_name() + "') does not exist"@,
                    ),
                ]
            } else {
                Seq::empty()
            }
        }
    }

    /// The findings on a goal task: it needs to say whether it runs
    /// asynchronously, it needs mappings, and a sub-goal that resolves.
    pub open spec fn spec_goal_task_findings(&self, model: Model, index: int, i: int) -> Seq<
        ModelErrorView,
    > {
        let task = self.tasks@[i];
        let name = self.id.spec_qualified_name();
        let asynchronous = if task.is_async is None {
            seq![
                self.spec_task_finding(
                    index,
                    i,
                    ErrorType::TaskAsyncNotFound,
                    task_sentence(
                        "Goal task "@,
                        task.id@,
                        i,
                        " of Tasks in Plan "@,
                        name,
                        " does not have r#async field."@,
                    ),
                ),
            ]
        } else {
            Seq::empty()
        };
        asynchronous + self.spec_mappings_findings(index, i, "Goal task "@) + match task.goal {
            Some(goal) => self.spec_sub_goal_findings(model, index, i, goal),
            None => seq![
                self.spec_task_finding(
                    index,
                    i,
                    ErrorType::GoalNotFound,
                    task_sentence(
                        "Pursue "@,
                        task.id@,
                        i,
                        " of Tasks in Plan "@,
                        name,
                        " does not have a goal defined."@,
                    ),
                ),
            ],
        }
    }

    /// The findings on the task at `i`: one where it has no id, then those
    /// that its type calls for. A condition task has none; a task without a
    /// type always has one.
    pub open spec fn spec_task_findings(&self, model: Model, index: int, i: int) -> Seq<
        ModelErrorView,
    > {
        let task = self.tasks@[i];
        let name = self.id.spec_qualified_name();
        self.spec_task_id_findings(index, i) + match task.task_type {
            TaskType::action => self.spec_action_task_findings(model, index, i),
            TaskType::goal => self.spec_goal_task_findings(model, index, i),
            TaskType::sleep => if task.duration is None {
                seq![
                    self.spec_task_finding(
                        index,
                        i,
                        ErrorType::TaskSleepDurationNotFound,
                        task_sentence(
                            "Sleep "@,
                            task.id@,
                            i,
                            " of Tasks in Plan "@,
                            name,
                            " does not have a duration."@,
                        ),
                    ),
                ]
            } else {
                Seq::empty()
            },
            TaskType::condition => Seq::empty(),
            TaskType::Nil => seq![
                self.spec_task_finding(
                    index,
                    i,
                    ErrorType::TaskIsNone,
                    task_sentence(
                        "Task "@,
                        task.id@,
                        i,
                        " of Tasks in Plan "@,
                        name,
                        " is None. This should not happen."@,
                    ),
                ),
            ],
        }
    }

    /// The findings on the first `n` tasks, task by task.
    pub open spec fn spec_tasks_findings(&self, model: Model, index: int, n: int) -> Seq<
        ModelErrorView,
    >
        decreases n,
    {
        if n <= 0 {
            Seq::empty()
        } else {
            self.spec_tasks_findings(model, index, n - 1) + self.spec_task_findings(
                model,
                index,
                n - 1,
            )
        }
    }

    /// The finding on a plan whose goal the module does not declare. An
    /// unset goal is not declared.
    pub open spec fn spec_handles_findings(&self, model: Model, index: int) -> Seq<
        ModelErrorView,
    > {
        if !model.spec_find_goal(self.handles) {
            seq![
                finding(
                    "plans."@ + self.id.spec_qualified_name() + ".handles"@,
                    "plans."@ + decimal(index as nat) + ".handles"@,
                    ErrorType::GoalNotFound,
                    "Plan "@ + self.id.spec_qualified_name() + " handles a goal "@
                        + self.handles.spec_qualified_name() + " that cannot be found."@,
                ),
            ]
        } else {
            Seq::empty()
        }
    }

    fn task_error(&self, index: usize, i: usize, error_type: ErrorType, text: String) -> (r:
        ModelError)
        requires
            i < self.tasks@.len(),
        ensures
            r@ == self.spec_task_finding(index as int, i as int, error_type, text@),
    {
        let name = self.id.qualified_name();
        let at = index_to_string(index);
        let at_i = index_to_string(i);
        ModelError::at(
            join4("plans.", name.as_str(), ".tasks.", self.tasks[i].id.as_str()),
            join4("plans.", at.as_str(), ".tasks.", at_i.as_str()),
            error_type,
            text,
        )
    }

    fn check_mappings(&self, errors: &mut Vec<ModelError>, index: usize, i: usize, lead: &str)
        requires
            i < self.tasks@.len(),
        ensures
            findings(final(errors)@) == findings(old(errors)@) + self.spec_mappings_findings(
                index as int,
                i as int,
                lead@,
            ),
    {
        if self.tasks[i].mappings.is_none() {
            let name = self.id.qualified_name();
            let at_i = index_to_string(i);
            let text = sentence(
                lead,
                self.tasks[i].id.as_str(),
                at_i.as_str(),
                " of Tasks in Plan ",
                name.as_str(),
                " does not have a mappings field.",
            );
            report(errors, self.task_error(index, i, ErrorType::TaskMappingsNotFound, text));
        }
        assert(findings(errors@) =~= findings(old(errors)@) + self.spec_mappings_findings(
            index as int,
            i as int,
            lead@,
        ));
    }

    fn check_action_task(&self, errors: &mut Vec<ModelError>, model: &Model, index: usize, i: usize)
        requires
            i < self.tasks@.len(),
        ensures
            findings(final(errors)@) == findings(old(errors)@) + self.spec_action_task_findings(
                *model,
                index as int,
                i as int,
            ),
    {
        let task = &self.tasks[i];
        let name = self.id.qualified_name();
        let at_i = index_to_string(i);
        self.check_mappings(errors, index, i, "Action task ");
        let ghost before = findings(errors@);
        match &task.action {
            Some(action) => {
                if !model.find_action(action) {
                    let action_name = action.qualified_name();
                    let mut text = join7(
                        "Action task ",
                        task.id.as_str(),
                        " uses action ",
                        action_name.as_str(),
                        " at index ",
                        at_i.as_str(),
                        " of tasks in Plan ",
                    );
                    text.append(name.as_str());
                    text.append(" cannot be found in actions.");
                    report(errors, self.task_error(index, i, ErrorType::ActionNotFound, text));
                }
            },
            None => {
                let text = sentence(
                    "Action task ",
                    task.id.as_str(),
                    at_i.as_str(),
                    " of tasks in Plan ",
                    name.as_str(),
                    " does not have an action defined.",
                );
                report(errors, self.task_error(index, i, ErrorType::MessageNotFound, text));
            },
        }
        assert(findings(errors@) =~= findings(old(errors)@) + self.spec_action_task_findings(
            *model,
            index as int,
            i as int,
        ));
    }

    fn check_sub_goal(
        &self,
        errors: &mut Vec<ModelError>,
        model: &Model,
        index: usize,
        i: usize,
        goal: &Identifier,
    )
        requires
            i < self.tasks@.len(),
        ensures
            findings(final(errors)@) == findings(old(errors)@) + self.spec_sub_goal_findings(
                *model,
                index as int,
                i as int,
                *goal,
            ),
    {
        let name = self.id.qualified_name();
        let at_i = index_to_string(i);
        let handled = self.handles.qualified_name();
        let goal_name = goal.qualified_name();
        match position(&model.goals, goal) {
            None => {
                let mut text = join7(
                    "Task ",
                    at_i.as_str(),
                    " in plan '",
                    name.as_str(),
                    "' for goal '",
                    handled.as_str(),
                    "' is trying to sub-goal to a non-existent goal '",
                );
                text.append(goal_name.as_str());
                text.append("'");
                report(errors, self.task_error(index, i, ErrorType::GoalNotFound, text));
            },
            Some(at) => {
                let message = &model.goals[at].message;
                if !message.name.as_str().is_empty() && !model.find_message(message) {
                    let message_name = message.qualified_name();
                    let mut text = join7(
                        "Task ",
                        at_i.as_str(),
                        " in plan '",
                        name.as_str(),
                        "' for goal '",
                        handled.as_str(),
                        "' executes the sub-goal '",
                    );
                    text.append(goal_name.as_str());
                    text.append("' but the goal parameters (message '");
                    text.append(message_name.as_str());
                    text.append("') does not exist");
                    report(errors, self.task_error(index, i, ErrorType::MessageNotFound, text));
                }
            },
        }
        assert(findings(errors@) =~= findings(old(errors)@) + self.spec_sub_goal_findings(
            *model,
            index as int,
            i as int,
            *goal,
        ));
    }

    fn check_goal_task(&self, errors: &mut Vec<ModelError>, model: &Model, index: usize, i: usize)
        requires
            i < self.tasks@.len(),
        ensures
            findings(final(errors)@) == findings(old(errors)@) + self.spec_goal_task_findings(
                *model,
                index as int,
                i as int,
            ),
    {
        let task = &self.tasks[i];
        let name = self.id.qualified_name();
        let at_i = index_to_string(i);
        if task.is_async.is_none() {
            let text = sentence(
                "Goal task ",
                task.id.as_str(),
                at_i.as_str(),
                " of Tasks in Plan ",
                name.as_str(),
                " does not have r#async field.",
            );
            report(errors, self.task_error(index, i, ErrorType::TaskAsyncNotFound, text));
        }
        self.check_mappings(errors, index, i, "Goal task ");
        match &task.goal {
            Some(goal) => {
                self.check_sub_goal(errors, model, index, i, goal);
            },
            None => {
                let text = sentence(
                    "Pursue ",
                    task.id.as_str(),
                    at_i.as_str(),
                    " of Tasks in Plan ",
                    name.as_str(),
                    " does not have a goal defined.",
                );
                report(errors, self.task_error(index, i, ErrorType::GoalNotFound, text));
            },
        }
        assert(findings(errors@) =~= findings(old(errors)@) + self.spec_goal_task_findings(
            *model,
            index as int,
            i as int,
        ));
    }

    /// Checks the task at `i`.
    pub fn check_task(&self, errors: &mut Vec<ModelError>, model: &Model, index: usize, i: usize)
        requires
            i < self.tasks@.len(),
        ensures
            findings(final(errors)@) == findings(old(errors)@) + self.spec_task_findings(
                *model,
                index as int,
                i as int,
            ),
    {
        let task = &self.tasks[i];
        let name = self.id.qualified_name();
        let at = index_to_string(index);
        let at_i = index_to_string(i);
        if task.id.as_str().is_empty() {
            report(
                errors,
                ModelError::at(
                    join4("plans.", name.as_str(), ".tasks.", at_i.as_str()),
                    join4("plans.", at.as_str(), ".tasks.", at_i.as_str()),
                    ErrorType::ZeroSizeString,
                    join5(
                        "Task at index ",
                        at_i.as_str(),
                        " of Tasks in Plan ",
                        name.as_str(),
                        " cannot have an empty id.",
                    ),
                ),
            );
        }
        assert(findings(errors@) =~= findings(old(errors)@) + self.spec_task_id_findings(
            index as int,
            i as int,
        ));
        match task.task_type {
            TaskType::action => {
                self.check_action_task(errors, model, index, i);
            },
            TaskType::goal => {
                self.check_goal_task(errors, model, index, i);
            },
            TaskType::sleep => {
                if task.duration.is_none() {
                    let text = sentence(
                        "Sleep ",
                        task.id.as_str(),
                        at_i.as_str(),
                        " of Tasks in Plan ",
                        name.as_str(),
                        " does not have a duration.",
                    );
                    report(
                        errors,
                        self.task_error(index, i, ErrorType::TaskSleepDurationNotFound, text),
                    );
                }
            },
            TaskType::condition => {},
            TaskType::Nil => {
                let text = sentence(
                    "Task ",
                    task.id.as_str(),
                    at_i.as_str(),
                    " of Tasks in Plan ",
                    name.as_str(),
                    " is None. This should not happen.",
                );
                report(errors, self.task_error(index, i, ErrorType::TaskIsNone, text));
            },
        }
        assert(findings(errors@) =~= findings(old(errors)@) + self.spec_task_findings(
            *model,
            index as int,
            i as int,
        ));
    }
}

impl Checked for Plan {
    /// The findings on a plan: those on the beliefs it reads, one where its
    /// goal is not declared, those on its tasks, and those on beliefs that
    /// it reads twice.
    open spec fn spec_verify(
        &self,
        concept: ModelConcept,
        model: Model,
        workspace: Seq<Model>,
        index: int,
    ) -> Seq<ModelErrorView> {
        let name = self.id.spec_qualified_name();
        let at = decimal(index as nat);
        reference_findings(
            self.query_messages@,
            Reference::Message,
            model,
            "plans."@ + name + ".query_messages"@,
            "plans."@ + at + ".query_messages"@,
            Wording { unset: "Query message", missing: "Query message", place: "messages" },
            self.query_messages@.len() as int,
        ) + self.spec_handles_findings(model, index) + self.spec_tasks_findings(
            model,
            index,
            self.tasks@.len() as int,
        ) + duplicate_findings(
            self.query_messages@,
            "plans."@ + name + ".beliefsets"@,
            "plans."@ + at + ".beliefsets"@,
            "plans"@,
            name,
            "beliefsets"@,
            self.query_messages@.len() as int,
        )
    }

    fn verify(
        &self,
        concept: ModelConcept,
        model: &Model,
        workspace: &ProjectWorkspace,
        index: usize,
    ) -> (r: Vec<ModelError>) {
        let name = self.id.qualified_name();
        let at = index_to_string(index);
        let mut errors = check_references(
            &self.query_messages,
            Reference::Message,
            model,
            join3("plans.", name.as_str(), ".query_messages").as_str(),
            join3("plans.", at.as_str(), ".query_messages").as_str(),
            Wording { unset: "Query message", missing: "Query message", place: "messages" },
        );
        if !model.find_goal(&self.handles) {
            let handled = self.handles.qualified_name();
            report(
                &mut errors,
                ModelError::at(
                    join3("plans.", name.as_str(), ".handles"),
                    join3("plans.", at.as_str(), ".handles"),
                    ErrorType::GoalNotFound,
                    join5(
                        "Plan ",
                        name.as_str(),
                        " handles a goal ",
                        handled.as_str(),
                        " that cannot be found.",
                    ),
                ),
            );
        }
        let ghost head = findings(errors@);
        assert(head =~= reference_findings(
            self.query_messages@,
            Reference::Message,
            *model,
            "plans."@ + name@ + ".query_messages"@,
            "plans."@ + at@ + ".query_messages"@,
            Wording { unset: "Query message", missing: "Query message", place: "messages" },
            self.query_messages@.len() as int,
        ) + self.spec_handles_findings(*model, index as int));
        let mut i: usize = 0;
        assert(findings(errors@) =~= head + self.spec_tasks_findings(*model, index as int, 0));
        while i < self.tasks.len()
            invariant
                i <= self.tasks@.len(),
                findings(errors@) == head + self.spec_tasks_findings(
                    *model,
                    index as int,
                    i as int,
                ),
            decreases self.tasks@.len() - i,
        {
            self.check_task(&mut errors, model, index, i);
            assert(findings(errors@) =~= head + self.spec_tasks_findings(
                *model,
                index as int,
                i + 1,
            ));
            i = i + 1;
        }
        report_all(
            &mut errors,
            check_duplicates(
                &self.query_messages,
                join3("plans.", name.as_str(), ".beliefsets").as_str(),
                join3("plans.", at.as_str(), ".beliefsets").as_str(),
                "plans",
                name.as_str(),
                "beliefsets",
            ),
        );
        errors
    }
}

} // verus!
