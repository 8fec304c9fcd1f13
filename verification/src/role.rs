//! The checks of a role.

use crate::concept::{first_position, lemma_first_position, position, ModelConcept};
use crate::error::{finding_pair, findings, report, report_all, ErrorType, ModelError, ModelErrorView};
use crate::model::Model;
use crate::references::{
    check_duplicates, check_reference, check_references, duplicate_findings, reference_findings,
    reference_findings_at, Reference, Wording,
};
use crate::schema::Role;
use crate::text::{decimal, index_to_string, join3, join7};
use crate::validate::Checked;
use crate::workspace::ProjectWorkspace;
use vstd::prelude::*;
use vstd::string::StringExecFns;

verus! {

impl Role {
    /// The path of the belief grants by name.
    pub open spec fn spec_grants_key(&self) -> Seq<char> {
        "roles."@ + self.id.spec_qualified_name() + ".messages"@
    }

    /// The path of the belief grants by position.
    pub open spec fn spec_grants_machine_key(&self, index: int) -> Seq<char> {
        "roles."@ + decimal(index as nat) + ".messages"@
    }

    /// The finding on the grant at `i` where an earlier grant is for the
    /// same belief: it names both grants, the earlier one first.
    pub open spec fn spec_repeated_grant(&self, index: int, i: int) -> Seq<ModelErrorView> {
        let belief = self.messages@[i].id;
        let first = first_position(self.messages@, belief.uuid@);
        if first < i {
            seq![
                finding_pair(
                    self.spec_grants_key() + "."@ + self.messages@[first].id.spec_qualified_name(),
                    self.spec_grants_key() + "."@ + belief.spec_qualified_name(),
                    self.spec_grants_machine_key(index) + "."@ + decimal(first as nat),
                    self.spec_grants_machine_key(index) + "."@ + decimal(i as nat),
                    ErrorType::DuplicateName,
                    "Role at "@ + self.id.spec_qualified_name()
                        + " specified message that has duplicate entries of '"@
                        + belief.spec_qualified_name() + "' at indicies "@ + decimal(first as nat)
                        + " and "@ + decimal(i as nat) + "."@,
                ),
            ]
        } else {
            Seq::empty()
        }
    }

    /// The findings on the grant at `i`: that it is set, that its belief is
    /// declared, and that no earlier grant is for the same belief.
    pub open spec fn spec_grant_findings(&self, model: Model, index: int, i: int) -> Seq<
        ModelErrorView,
    > {
        reference_findings_at(
            self.messages@,
            Reference::Message,
            model,
            self.spec_grants_key(),
            self.spec_grants_machine_key(index),
            Wording { unset: "Message", missing: "Message", place: "messages" },
            i,
        ) + self.spec_repeated_grant(index, i)
    }

    /// The findings on the first `n` grants, grant by grant.
    pub open spec fn spec_grants_findings(&self, model: Model, index: int, n: int) -> Seq<
        ModelErrorView,
    >
        decreases n,
    {
        if n <= 0 {
            Seq::empty()
        } else {
            self.spec_grants_findings(model, index, n - 1) + self.spec_grant_findings(
                model,
                index,
                n - 1,
            )
        }
    }

    /// Checks the belief grants.
    fn check_grants(&self, model: &Model, index: usize) -> (r: Vec<ModelError>)
        ensures
            findings(r@) == self.spec_grants_findings(
                *model,
                index as int,
                self.messages@.len() as int,
            ),
    {
        let name = self.id.qualified_name();
        let at = index_to_string(index);
        let key = join3("roles.", name.as_str(), ".messages");
        let machine_key = join3("roles.", at.as_str(), ".messages");
        let mut errors: Vec<ModelError> = Vec::new();
        assert(findings(errors@) =~= Seq::empty());
        let mut i: usize = 0;
        while i < self.messages.len()
            invariant
                i <= self.messages@.len(),
                key@ == self.spec_grants_key(),
                machine_key@ == self.spec_grants_machine_key(index as int),
                name@ == self.id.spec_qualified_name(),
                findings(errors@) == self.spec_grants_findings(*model, index as int, i as int),
            decreases self.messages@.len() - i,
        {
            let ghost before = findings(errors@);
            check_reference(
                &mut errors,
                &self.messages,
                Reference::Message,
                model,
                key.as_str(),
                machine_key.as_str(),
                Wording { unset: "Message", missing: "Message", place: "messages" },
                i,
            );
            let belief = &self.messages[i].id;
            proof {
                lemma_first_position(self.messages@, belief.uuid@);
            }
            if let Some(first) = position(&self.messages, belief) {
                if first < i {
                    let belief_name = belief.qualified_name();
                    let first_name = self.messages[first].id.qualified_name();
                    let at_i = index_to_string(i);
                    let at_first = index_to_string(first);
                    let mut text = join7(
                        "Role at ",
                        name.as_str(),
                        " specified message that has duplicate entries of '",
                        belief_name.as_str(),
                        "' at indicies ",
                        at_first.as_str(),
                        " and ",
                    );
                    text.append(at_i.as_str());
                    text.append(".");
                    report(
                        &mut errors,
                        ModelError::between(
                            join3(key.as_str(), ".", first_name.as_str()),
                            join3(key.as_str(), ".", belief_name.as_str()),
                            join3(machine_key.as_str(), ".", at_first.as_str()),
                            join3(machine_key.as_str(), ".", at_i.as_str()),
                            ErrorType::DuplicateName,
                            text,
                        ),
                    );
                }
            }
            assert(findings(errors@) =~= before + self.spec_grant_findings(
                *model,
                index as int,
                i as int,
            ));
            i = i + 1;
        }
        errors
    }
}

impl Checked for Role {
    /// The findings on a role: those on its belief grants, then those on
    /// its goals.
    open spec fn spec_verify(
        &self,
        concept: ModelConcept,
        model: Model,
        workspace: Seq<Model>,
        index: int,
    ) -> Seq<ModelErrorView> {
        let name = self.id.spec_qualified_name();
        let at = decimal(index as nat);
        self.spec_grants_findings(model, index, self.messages@.len() as int) + reference_findings(
            self.goals@,
            Reference::Goal,
            model,
            "roles."@ + name + ".goals"@,
            "roles."@ + at + ".goals"@,
            Wording { unset: "Goal", missing: "Message", place: "messages" },
            self.goals@.len() as int,
        ) + duplicate_findings(
            self.goals@,
            "roles."@ + name + ".goals"@,
            "roles."@ + at + ".goals"@,
            "roles"@,
            name,
            "goals"@,
            self.goals@.len() as int,
        )
    }

    fn verify(
        &self,
        concept: ModelConcept,
        model: &Model,
        workspace: &ProjectWorkspace,
        index: usize,
    ) -> (r: Vec<ModelError>) {
        let name = self.id.qualified_name();
        let at = index_to_string(index);
        let key = join3("roles.", name.as_str(), ".goals");
        let machine_key = join3("roles.", at.as_str(), ".goals");
        let mut errors = self.check_grants(model, index);
        report_all(
            &mut errors,
            check_references(
                &self.goals,
                Reference::Goal,
                model,
                key.as_str(),
                machine_key.as_str(),
                Wording { unset: "Goal", missing: "Message", place: "messages" },
            ),
        );
        report_all(
            &mut errors,
            check_duplicates(
                &self.goals,
                key.as_str(),
                machine_key.as_str(),
                "roles",
                name.as_str(),
                "goals",
            ),
        );
        errors
    }
}

} // verus!
