//! The checks of a service.

use crate::concept::ModelConcept;
use crate::error::{findings, ModelError, ModelErrorView};
use crate::model::Model;
use crate::schema::Service;
use crate::validate::Checked;
use crate::workspace::ProjectWorkspace;
use vstd::prelude::*;

verus! {

impl Checked for Service {
    /// A service has no checks of its own: it gets the checks that every
    /// declaration gets, and no more.
    open spec fn spec_verify(
        &self,
        concept: ModelConcept,
        model: Model,
        workspace: Seq<Model>,
        index: int,
    ) -> Seq<ModelErrorView> {
        Seq::empty()
    }

    fn verify(
        &self,
        concept: ModelConcept,
        model: &Model,
        workspace: &ProjectWorkspace,
        index: usize,
    ) -> (r: Vec<ModelError>) {
        let errors: Vec<ModelError> = Vec::new();
        assert(findings(errors@) =~= Seq::empty());
        errors
    }
}

} // verus!
