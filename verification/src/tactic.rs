//! The checks of a tactic.

use crate::concept::{first_position, position, ModelConcept};
use crate::error::{finding, findings, report, report_all, ErrorType, ModelError, ModelErrorView};
use crate::model::Model;
use crate::references::{check_duplicates, duplicate_findings};
use crate::schema::Tactic;
use crate::text::{decimal, i64_to_string, index_to_string, join3, join5, join7, signed_decimal};
use crate::validate::Checked;
use crate::workspace::ProjectWorkspace;
use vstd::prelude::*;

verus! {

/// The plans of a tactic are tried for ever (-1) or a number of times that
/// fits 32 bits.
pub open spec fn plan_loop_in_range(plan_loop: int) -> bool {
    -1 <= plan_loop < 0x1_0000_0000
}

impl Tactic {
    /// The path by name of the plan list and of what stands in it.
    pub open spec fn spec_plans_key(&self) -> Seq<char> {
        "tactics."@ + self.id.spec_qualified_name() + ".plan_list"@
    }

    /// The path by position of the plan list.
    pub open spec fn spec_plans_machine_key(&self, index: int) -> Seq<char> {
        "tactics."@ + decimal(index as nat) + ".plan_list"@
    }

    /// The findings on the goal of the tactic: one where it is unset, one
    /// where the module does not declare it.
    pub open spec fn spec_goal_findings(&self, model: Model, index: int) -> Seq<ModelErrorView> {
        let key = "tactics."@ + self.id.spec_qualified_name() + ".goal"@;
        let machine_key = "tactics."@ + decimal(index as nat) + ".goal"@;
        let unset = if self.goal.name@.len() == 0 {
            seq![
                finding(
                    key,
                    machine_key,
                    ErrorType::ZeroSizeString,
                    "Goal handle at "@ + decimal(index as nat) + " must not be empty."@,
                ),
            ]
        } else {
            Seq::empty()
        };
        let missing = if !model.spec_find_goal(self.goal) {
            seq![
                finding(
                    key,
                    machine_key,
                    ErrorType::GoalNotFound,
                    "Goal "@ + self.goal.spec_qualified_name()
                        + " that tactic handles cannot be found in goals."@,
                ),
            ]
        } else {
            Seq::empty()
        };
        unset + missing
    }

    /// Whether the entry at `i` of the plan list names a plan of the
    /// module: it is set, and a plan is declared with its identity.
    pub open spec fn spec_plan_resolves(&self, model: Model, i: int) -> bool {
        self.plan_list@[i].name@.len() > 0 && model.spec_find_plan(self.plan_list@[i])
    }

    /// Whether the entry at `i` names a plan that handles another goal than
    /// that of the tactic.
    pub open spec fn spec_plan_mismatch(&self, model: Model, i: int) -> bool {
        self.spec_plan_resolves(model, i) && model.plans@[first_position(
            model.plans@,
            self.plan_list@[i].uuid@,
        )].handles.uuid@ != self.goal.uuid@
    }

    /// The finding on an entry whose plan handles another goal.
    pub open spec fn spec_mismatch(&self, model: Model, index: int, i: int) -> ModelErrorView {
        let plan = self.plan_list@[i];
        finding(
            self.spec_plans_key() + "."@ + plan.spec_qualified_name(),
            self.spec_plans_machine_key(index) + "."@ + decimal(i as nat),
            ErrorType::TacticGoalNotSupportedByPlan,
            "Tactic uses plan '"@ + plan.spec_qualified_name() + "' with a different goal '"@
                + model.plans@[first_position(
                model.plans@,
                plan.uuid@,
            )].handles.spec_qualified_name() + "' than the goal '"@
                + self.goal.spec_qualified_name()
                + "' supported by the tactic cannot be found in plans."@,
        )
    }

    /// The findings on the entry at `i` of the plan list: one where it is
    /// unset; then one where it names no plan, or one where its plan
    /// handles another goal than that of the tactic.
    pub open spec fn spec_plan_findings(&self, model: Model, index: int, i: int) -> Seq<
        ModelErrorView,
    > {
        let plan = self.plan_list@[i];
        let unset = if plan.name@.len() == 0 {
            seq![
                finding(
                    self.spec_plans_key() + "."@ + decimal(i as nat),
                    self.spec_plans_machine_key(index) + "."@ + decimal(i as nat),
                    ErrorType::ZeroSizeString,
                    "Plan at index "@ + decimal(i as nat) + " must not be empty."@,
                ),
            ]
        } else {
            Seq::empty()
        };
        let resolved = if !self.spec_plan_resolves(model, i) {
            seq![
                finding(
                    self.spec_plans_key() + "."@ + plan.spec_qualified_name(),
                    self.spec_plans_machine_key(index) + "."@ + decimal(i as nat),
                    ErrorType::PlanNotFound,
                    "Tactic '"@ + self.id.spec_qualified_name()
                        + "' references non-existent plan '"@ + plan.spec_qualified_name()
                        + "'"@,
                ),
            ]
        } else if self.spec_plan_mismatch(model, i) {
            seq![self.spec_mismatch(model, index, i)]
        } else {
            Seq::empty()
        };
        unset + resolved
    }

    /// The findings on the first `n` entries of the plan list.
    pub open spec fn spec_plans_findings(&self, model: Model, index: int, n: int) -> Seq<
        ModelErrorView,
    >
        decreases n,
    {
        if n <= 0 {
            Seq::empty()
        } else {
            self.spec_plans_findings(model, index, n - 1) + self.spec_plan_findings(
                model,
                index,
                n - 1,
            )
        }
    }

    /// The finding on a plan loop count out of range.
    pub open spec fn spec_loop_findings(&self, index: int) -> Seq<ModelErrorView> {
        if !plan_loop_in_range(self.plan_loop as int) {
            seq![
                finding(
                    "tactics."@ + self.id.spec_qualified_name() + ".plan_loop"@,
                    "tactics."@ + decimal(index as nat) + ".plan_loop"@,
                    ErrorType::TacticPlanLoopValueOutOfBounds,
                    "Tactic '"@ + self.id.spec_qualified_name() + "' plan loop value: "@
                        + signed_decimal(self.plan_loop as int)
                        + ", is not an acceptable value, it must in the following range [-1, 2^32)"@,
                ),
            ]
        } else {
            Seq::empty()
        }
    }

    /// Checks the entry at `i` of the plan list.
    pub fn check_plan(&self, errors: &mut Vec<ModelError>, model: &Model, index: usize, i: usize)
        requires
            i < self.plan_list@.len(),
        ensures
            findings(final(errors)@) == findings(old(errors)@) + self.spec_plan_findings(
                *model,
                index as int,
                i as int,
            ),
    {
        let plan = &self.plan_list[i];
        let name = self.id.qualified_name();
        let at = index_to_string(index);
        let at_i = index_to_string(i);
        let plan_name = plan.qualified_name();
        let key = join3("tactics.", name.as_str(), ".plan_list");
        let machine_key = join3("tactics.", at.as_str(), ".plan_list");
        if plan.name.as_str().is_empty() {
            report(
                errors,
                ModelError::at(
                    join3(key.as_str(), ".", at_i.as_str()),
                    join3(machine_key.as_str(), ".", at_i.as_str()),
                    ErrorType::ZeroSizeString,
                    join3("Plan at index ", at_i.as_str(), " must not be empty."),
                ),
            );
        }
        match model.get_plan(plan) {
            Ok(found) => {
                if !(&found.handles == &self.goal) {
                    let handled = found.handles.qualified_name();
                    let goal = self.goal.qualified_name();
                    report(
                        errors,
                        ModelError::at(
                            join3(key.as_str(), ".", plan_name.as_str()),
                            join3(machine_key.as_str(), ".", at_i.as_str()),
                            ErrorType::TacticGoalNotSupportedByPlan,
                            join7(
                                "Tactic uses plan '",
                                plan_name.as_str(),
                                "' with a different goal '",
                                handled.as_str(),
                                "' than the goal '",
                                goal.as_str(),
                                "' supported by the tactic cannot be found in plans.",
                            ),
                        ),
                    );
                }
            },
            Err(_) => {
                report(
                    errors,
                    ModelError::at(
                        join3(key.as_str(), ".", plan_name.as_str()),
                        join3(machine_key.as_str(), ".", at_i.as_str()),
                        ErrorType::PlanNotFound,
                        join5(
                            "Tactic '",
                            name.as_str(),
                            "' references non-existent plan '",
                            plan_name.as_str(),
                            "'",
                        ),
                    ),
                );
            },
        }
        assert(findings(errors@) =~= findings(old(errors)@) + self.spec_plan_findings(
            *model,
            index as int,
            i as int,
        ));
    }
}

impl Checked for Tactic {
    /// The findings on a tactic: those on its goal, those on the entries of
    /// its plan list, one on its plan loop count, and those on plans that
    /// it lists twice.
    open spec fn spec_verify(
        &self,
        concept: ModelConcept,
        model: Model,
        workspace: Seq<Model>,
        index: int,
    ) -> Seq<ModelErrorView> {
        self.spec_goal_findings(model, index) + self.spec_plans_findings(
            model,
            index,
            self.plan_list@.len() as int,
        ) + self.spec_loop_findings(index) + duplicate_findings(
            self.plan_list@,
            self.spec_plans_key(),
            self.spec_plans_machine_key(index),
            "tactics"@,
            self.id.spec_qualified_name(),
            "plans"@,
            self.plan_list@.len() as int,
        )
    }

    fn verify(
        &self,
        concept: ModelConcept,
        model: &Model,
        workspace: &ProjectWorkspace,
        index: usize,
    ) -> (r: Vec<ModelError>) {
        let name = self.id.qualified_name();
        let at = index_to_string(index);
        let mut errors: Vec<ModelError> = Vec::new();
        assert(findings(errors@) =~= Seq::empty());
        if self.goal.name.as_str().is_empty() {
            report(
                &mut errors,
                ModelError::at(
                    join3("tactics.", name.as_str(), ".goal"),
                    join3("tactics.", at.as_str(), ".goal"),
                    ErrorType::ZeroSizeString,
                    join3("Goal handle at ", at.as_str(), " must not be empty."),
                ),
            );
        }
        if !model.find_goal(&self.goal) {
            let goal = self.goal.qualified_name();
            report(
                &mut errors,
                ModelError::at(
                    join3("tactics.", name.as_str(), ".goal"),
                    join3("tactics.", at.as_str(), ".goal"),
                    ErrorType::GoalNotFound,
                    join3("Goal ", goal.as_str(), " that tactic handles cannot be found in goals."),
                ),
            );
        }
        let ghost head = findings(errors@);
        assert(head =~= self.spec_goal_findings(*model, index as int));
        assert(findings(errors@) =~= head + self.spec_plans_findings(*model, index as int, 0));
        let mut i: usize = 0;
        while i < self.plan_list.len()
            invariant
                i <= self.plan_list@.len(),
                findings(errors@) == head + self.spec_plans_findings(
                    *model,
                    index as int,
                    i as int,
                ),
            decreases self.plan_list@.len() - i,
        {
            self.check_plan(&mut errors, model, index, i);
            assert(findings(errors@) =~= head + self.spec_plans_findings(
                *model,
                index as int,
                i + 1,
            ));
            i = i + 1;
        }
        if self.plan_loop < -1 || self.plan_loop > 0xffff_ffff {
            let count = i64_to_string(self.plan_loop);
            report(
                &mut errors,
                ModelError::at(
                    join3("tactics.", name.as_str(), ".plan_loop"),
                    join3("tactics.", at.as_str(), ".plan_loop"),
                    ErrorType::TacticPlanLoopValueOutOfBounds,
                    join5(
                        "Tactic '",
                        name.as_str(),
                        "' plan loop value: ",
                        count.as_str(),
                        ", is not an acceptable value, it must in the following range [-1, 2^32)",
                    ),
                ),
            );
        }
        assert(findings(errors@) =~= head + self.spec_plans_findings(
            *model,
            index as int,
            self.plan_list@.len() as int,
        ) + self.spec_loop_findings(index as int));
        report_all(
            &mut errors,
            check_duplicates(
                &self.plan_list,
                join3("tactics.", name.as_str(), ".plan_list").as_str(),
                join3("tactics.", at.as_str(), ".plan_list").as_str(),
                "tactics",
                name.as_str(),
                "plans",
            ),
        );
        errors
    }
}

} // verus!
