//! The checks of a goal.

use crate::concept::ModelConcept;
use crate::error::{finding, findings, report, report_all, ErrorType, ModelError, ModelErrorView};
use crate::model::Model;
use crate::references::{
    check_duplicates, check_references, duplicate_findings, reference_findings, Reference, Wording,
};
use crate::schema::{Goal, Plan};
use crate::text::{decimal, index_to_string, join2, join3};
use crate::validate::Checked;
use crate::workspace::ProjectWorkspace;
use vstd::prelude::*;

verus! {

/// Whether one of `plans` handles the goal with the identity `uuid`.
pub open spec fn handled_by(plans: Seq<Plan>, uuid: Seq<char>) -> bool {
    exists|p: int| 0 <= p < plans.len() && (#[trigger] plans[p]).handles.uuid@ == uuid
}

impl Goal {
    /// The finding on a message of the goal that is set and not declared.
    pub open spec fn spec_message_findings(&self, model: Model, index: int) -> Seq<
        ModelErrorView,
    > {
        if self.message.name@.len() > 0 && !model.spec_find_message(self.message) {
            seq![
                finding(
                    "goals."@ + self.id.spec_qualified_name() + ".message"@,
                    "goals."@ + decimal(index as nat) + ".message"@,
                    ErrorType::MessageNotFound,
                    "Goal message with name '"@ + self.message.spec_qualified_name()
                        + "' cannot be found in messages."@,
                ),
            ]
        } else {
            Seq::empty()
        }
    }

    /// The finding on a goal that no plan handles.
    pub open spec fn spec_no_plans(&self, index: int) -> ModelErrorView {
        finding(
            "goals."@ + self.id.spec_qualified_name(),
            "goals."@ + decimal(index as nat),
            ErrorType::NoPlansForGoal,
            "Goal "@ + self.id.spec_qualified_name() + " has no plans that handle it."@,
        )
    }

    /// A goal is covered where a plan of its module handles it.
    pub open spec fn spec_coverage_findings(&self, model: Model, index: int) -> Seq<
        ModelErrorView,
    > {
        if handled_by(model.plans@, self.id.uuid@) {
            Seq::empty()
        } else {
            seq![self.spec_no_plans(index)]
        }
    }

    /// The findings that do not depend on the plans of the module: those on
    /// the beliefs that the goal reads, on its message and on the resources
    /// that it requires.
    pub open spec fn spec_reference_findings(&self, model: Model, index: int) -> Seq<
        ModelErrorView,
    > {
        let name = self.id.spec_qualified_name();
        let at = decimal(index as nat);
        reference_findings(
            self.query_messages@,
            Reference::Message,
            model,
            "goals."@ + name + ".query_messages"@,
            "goals."@ + at + ".query_messages"@,
            Wording { unset: "Message", missing: "Message", place: "messages" },
            self.query_messages@.len() as int,
        ) + self.spec_message_findings(model, index) + duplicate_findings(
            self.query_messages@,
            "goals."@ + name + ".query_messages"@,
            "goals."@ + at + ".query_messages"@,
            "goals"@,
            name,
            "query_messages"@,
            self.query_messages@.len() as int,
        ) + reference_findings(
            self.resources@,
            Reference::Resource,
            model,
            "goals."@ + name + ".resources"@,
            "goals."@ + at + ".resources"@,
            Wording { unset: "Resource", missing: "Resource", place: "resources" },
            self.resources@.len() as int,
        ) + duplicate_findings(
            self.resources@,
            "goals."@ + name + ".resources"@,
            "goals."@ + at + ".resources"@,
            "goals"@,
            name,
            "resources"@,
            self.resources@.len() as int,
        )
    }

    /// Whether a plan of `model` handles the goal.
    pub fn is_handled(&self, model: &Model) -> (r: bool)
        ensures
            r == handled_by(model.plans@, self.id.uuid@),
    {
        let mut p: usize = 0;
        while p < model.plans.len()
            invariant
                p <= model.plans@.len(),
                forall|q: int| 0 <= q < p ==> (#[trigger] model.plans@[q]).handles.uuid@ != self.id.uuid@,
            decreases model.plans@.len() - p,
        {
            if &model.plans[p].handles == &self.id {
                return true;
            }
            p = p + 1;
        }
        false
    }
}

impl Checked for Goal {
    /// The findings on a goal: those on its references, then one where no
    /// plan of the module handles it.
    open spec fn spec_verify(
        &self,
        concept: ModelConcept,
        model: Model,
        workspace: Seq<Model>,
        index: int,
    ) -> Seq<ModelErrorView> {
        self.spec_reference_findings(model, index) + self.spec_coverage_findings(model, index)
    }

    fn verify(
        &self,
        concept: ModelConcept,
        model: &Model,
        workspace: &ProjectWorkspace,
        index: usize,
    ) -> (r: Vec<ModelError>) {
        let name = self.id.qualified_name();
        let at = index_to_string(index);
        let beliefs_key = join3("goals.", name.as_str(), ".query_messages");
        let beliefs_machine_key = join3("goals.", at.as_str(), ".query_messages");
        let resources_key = join3("goals.", name.as_str(), ".resources");
        let resources_machine_key = join3("goals.", at.as_str(), ".resources");
        let mut errors = check_references(
            &self.query_messages,
            Reference::Message,
            model,
            beliefs_key.as_str(),
            beliefs_machine_key.as_str(),
            Wording { unset: "Message", missing: "Message", place: "messages" },
        );
        if !self.message.name.as_str().is_empty() && !model.find_message(&self.message) {
            let message = self.message.qualified_name();
            report(
                &mut errors,
                ModelError::at(
                    join3("goals.", name.as_str(), ".message"),
                    join3("goals.", at.as_str(), ".message"),
                    ErrorType::MessageNotFound,
                    join3(
                        "Goal message with name '",
                        message.as_str(),
                        "' cannot be found in messages.",
                    ),
                ),
            );
        }
        report_all(
            &mut errors,
            check_duplicates(
                &self.query_messages,
                beliefs_key.as_str(),
                beliefs_machine_key.as_str(),
                "goals",
                name.as_str(),
                "query_messages",
            ),
        );
        report_all(
            &mut errors,
            check_references(
                &self.resources,
                Reference::Resource,
                model,
                resources_key.as_str(),
                resources_machine_key.as_str(),
                Wording { unset: "Resource", missing: "Resource", place: "resources" },
            ),
        );
        report_all(
            &mut errors,
            check_duplicates(
                &self.resources,
                resources_key.as_str(),
                resources_machine_key.as_str(),
                "goals",
                name.as_str(),
                "resources",
            ),
        );
        assert(findings(errors@) =~= self.spec_reference_findings(*model, index as int));
        if !self.is_handled(model) {
            report(
                &mut errors,
                ModelError::at(
                    join2("goals.", name.as_str()),
                    join2("goals.", at.as_str()),
                    ErrorType::NoPlansForGoal,
                    join3("Goal ", name.as_str(), " has no plans that handle it."),
                ),
            );
        }
        assert(findings(errors@) =~= self.spec_verify(concept, *model, workspace@, index as int));
        errors
    }
}

} // verus!
