//! The checks of a resource.

use crate::concept::ModelConcept;
use crate::error::{finding, findings, report, ErrorType, ModelError, ModelErrorView};
use crate::model::Model;
use crate::schema::Resource;
use crate::text::{decimal, index_to_string, join2};
use crate::validate::Checked;
use crate::workspace::ProjectWorkspace;
use vstd::prelude::*;
use vstd::string::StringExecFns;

verus! {

impl Resource {
    /// The finding on bounds that are the wrong way round.
    pub open spec fn spec_swapped(&self, index: int) -> ModelErrorView {
        finding(
            "resources."@ + self.id.spec_qualified_name(),
            "resources."@ + decimal(index as nat),
            ErrorType::ResourceMinMaxSwapped,
            "Resouce has its min and max values swapped."@,
        )
    }

    /// The finding on bounds that leave no room.
    pub open spec fn spec_equal(&self, index: int) -> ModelErrorView {
        finding(
            "resources."@ + self.id.spec_qualified_name(),
            "resources."@ + decimal(index as nat),
            ErrorType::ResourceMinMaxEqual,
            "Resouce has its min and max values that are equal."@,
        )
    }
}

impl Checked for Resource {
    /// A resource must have room between its bounds: a minimum above the
    /// maximum is one finding, equal bounds are another, and never both.
    open spec fn spec_verify(
        &self,
        concept: ModelConcept,
        model: Model,
        workspace: Seq<Model>,
        index: int,
    ) -> Seq<ModelErrorView> {
        if self.min > self.max {
            seq![self.spec_swapped(index)]
        } else if self.min == self.max {
            seq![self.spec_equal(index)]
        } else {
            Seq::empty()
        }
    }

    fn verify(
        &self,
        concept: ModelConcept,
        model: &Model,
        workspace: &ProjectWorkspace,
        index: usize,
    ) -> (r: Vec<ModelError>) {
        let mut errors: Vec<ModelError> = Vec::new();
        assert(findings(errors@) =~= Seq::empty());
        let name = self.id.qualified_name();
        let at = index_to_string(index);
        if self.min > self.max {
            report(
                &mut errors,
                ModelError::at(
                    join2("resources.", name.as_str()),
                    join2("resources.", at.as_str()),
                    ErrorType::ResourceMinMaxSwapped,
                    String::from_str("Resouce has its min and max values swapped."),
                ),
            );
        }
        if self.min == self.max {
            report(
                &mut errors,
                ModelError::at(
                    join2("resources.", name.as_str()),
                    join2("resources.", at.as_str()),
                    ErrorType::ResourceMinMaxEqual,
                    String::from_str("Resouce has its min and max values that are equal."),
                ),
            );
        }
        assert(findings(errors@) =~= self.spec_verify(concept, *model, workspace@, index as int));
        errors
    }
}

} // verus!
