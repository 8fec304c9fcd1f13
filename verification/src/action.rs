//! The checks of an action.

use crate::concept::ModelConcept;
use crate::error::{finding, findings, report, ErrorType, ModelError, ModelErrorView};
use crate::identifier::Identifier;
use crate::model::Model;
use crate::schema::Action;
use crate::text::{decimal, index_to_string, join4, join5};
use crate::validate::Checked;
use crate::workspace::ProjectWorkspace;
use vstd::prelude::*;

verus! {

impl Action {
    /// The finding on the message `message` of the action, which stands in
    /// its field `role`: where it is set, the module must declare it.
    pub open spec fn spec_message_findings(
        &self,
        model: Model,
        index: int,
        message: Identifier,
        role: Seq<char>,
    ) -> Seq<ModelErrorView> {
        if message.name@.len() > 0 && !model.spec_find_message(message) {
            seq![
                finding(
                    "actions."@ + self.id.spec_qualified_name() + "."@ + role,
                    "actions."@ + decimal(index as nat) + "."@ + role,
                    ErrorType::MessageNotFound,
                    "Action uses a "@ + role + " message '"@ + message.spec_qualified_name()
                        + "' that does not exist."@,
                ),
            ]
        } else {
            Seq::empty()
        }
    }

    fn check_message(
        &self,
        errors: &mut Vec<ModelError>,
        model: &Model,
        index: usize,
        message: &Identifier,
        role: &str,
    )
        ensures
            findings(final(errors)@) == findings(old(errors)@) + self.spec_message_findings(
                *model,
                index as int,
                *message,
                role@,
            ),
    {
        if !message.name.as_str().is_empty() && !model.find_message(message) {
            let name = self.id.qualified_name();
            let at = index_to_string(index);
            let message_name = message.qualified_name();
            report(
                errors,
                ModelError::at(
                    join4("actions.", name.as_str(), ".", role),
                    join4("actions.", at.as_str(), ".", role),
                    ErrorType::MessageNotFound,
                    join5(
                        "Action uses a ",
                        role,
                        " message '",
                        message_name.as_str(),
                        "' that does not exist.",
                    ),
                ),
            );
        }
        assert(findings(errors@) =~= findings(old(errors)@) + self.spec_message_findings(
            *model,
            index as int,
            *message,
            role@,
        ));
    }
}

impl Checked for Action {
    /// The findings on an action: one on its request and one on its reply,
    /// each where the message is set and the module does not declare it.
    open spec fn spec_verify(
        &self,
        concept: ModelConcept,
        model: Model,
        workspace: Seq<Model>,
        index: int,
    ) -> Seq<ModelErrorView> {
        self.spec_message_findings(model, index, self.request, "request"@)
            + self.spec_message_findings(model, index, self.reply, "reply"@)
    }

    fn verify(
        &self,
        concept: ModelConcept,
        model: &Model,
        workspace: &ProjectWorkspace,
        index: usize,
    ) -> (r: Vec<ModelError>) {
        let mut errors: Vec<ModelError> = Vec::new();
        assert(findings(errors@) =~= Seq::empty());
        self.check_message(&mut errors, model, index, &self.request, "request");
        self.check_message(&mut errors, model, index, &self.reply, "reply");
        errors
    }
}

} // verus!
