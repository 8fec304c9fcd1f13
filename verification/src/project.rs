//! The checks of a project.

use crate::error::{finding, findings, report, ErrorType, ModelError, ModelErrorView};
use crate::schema::Project;
use crate::text::{decimal, index_to_string, join2, join3};
use vstd::prelude::*;
use vstd::string::StringExecFns;

verus! {

impl Project {
    /// The findings on the name: one where it is empty, one where it is the
    /// reserved name `Project`.
    pub open spec fn spec_name_findings(&self) -> Seq<ModelErrorView> {
        let unset = if self.name@.len() == 0 {
            seq![
                finding(
                    "project.name"@,
                    "project.name"@,
                    ErrorType::ZeroSizeString,
                    "Project Name must not be empty."@,
                ),
            ]
        } else {
            Seq::empty()
        };
        let reserved = if self.name@ == "Project"@ {
            seq![
                finding(
                    "project.name"@,
                    "project.name"@,
                    ErrorType::NameSameAsType,
                    "Project Name must not be \"Project\"."@,
                ),
            ]
        } else {
            Seq::empty()
        };
        unset + reserved
    }

    /// The finding on the namespace segment at `i` where it is empty.
    pub open spec fn spec_namespace_findings(&self, i: int) -> Seq<ModelErrorView> {
        if self.namespaces@[i]@.len() == 0 {
            seq![
                finding(
                    "project.namespaces."@ + decimal(i as nat),
                    "project.namespaces."@ + decimal(i as nat),
                    ErrorType::ZeroSizeString,
                    "Project Namespace at index "@ + decimal(i as nat) + " must not be empty."@,
                ),
            ]
        } else {
            Seq::empty()
        }
    }

    /// The findings on the first `n` namespace segments.
    pub open spec fn spec_namespaces_findings(&self, n: int) -> Seq<ModelErrorView>
        decreases n,
    {
        if n <= 0 {
            Seq::empty()
        } else {
            self.spec_namespaces_findings(n - 1) + self.spec_namespace_findings(n - 1)
        }
    }

    /// The findings on a project: those on its name, then those on its
    /// namespace segments.
    pub open spec fn spec_verify(&self) -> Seq<ModelErrorView> {
        self.spec_name_findings() + self.spec_namespaces_findings(self.namespaces@.len() as int)
    }

    /// Whether the project has a name that is not reserved and no empty
    /// namespace segment.
    pub open spec fn spec_is_valid(&self) -> bool {
        &&& self.name@.len() > 0
        &&& self.name@ != "Project"@
        &&& forall|i: int| 0 <= i < self.namespaces@.len() ==> (#[trigger] self.namespaces@[i])@.len() > 0
    }

    /// Checks the project and reports every finding.
    pub fn verify(&self) -> (r: Vec<ModelError>)
        ensures
            findings(r@) == self.spec_verify(),
    {
        let mut errors: Vec<ModelError> = Vec::new();
        assert(findings(errors@) =~= Seq::empty());
        if self.name.as_str().is_empty() {
            report(
                &mut errors,
                ModelError::at(
                    String::from_str("project.name"),
                    String::from_str("project.name"),
                    ErrorType::ZeroSizeString,
                    String::from_str("Project Name must not be empty."),
                ),
            );
        }
        if self.name == String::from_str("Project") {
            report(
                &mut errors,
                ModelError::at(
                    String::from_str("project.name"),
                    String::from_str("project.name"),
                    ErrorType::NameSameAsType,
                    String::from_str("Project Name must not be \"Project\"."),
                ),
            );
        }
        let ghost head = findings(errors@);
        assert(head =~= self.spec_name_findings());
        assert(findings(errors@) =~= head + self.spec_namespaces_findings(0));
        let mut i: usize = 0;
        while i < self.namespaces.len()
            invariant
                i <= self.namespaces@.len(),
                findings(errors@) == head + self.spec_namespaces_findings(i as int),
            decreases self.namespaces@.len() - i,
        {
            let ghost before = findings(errors@);
            if self.namespaces[i].as_str().is_empty() {
                let at = index_to_string(i);
                report(
                    &mut errors,
                    ModelError::at(
                        join2("project.namespaces.", at.as_str()),
                        join2("project.namespaces.", at.as_str()),
                        ErrorType::ZeroSizeString,
                        join3("Project Namespace at index ", at.as_str(), " must not be empty."),
                    ),
                );
            }
            assert(findings(errors@) =~= before + self.spec_namespace_findings(i as int));
            i = i + 1;
        }
        errors
    }
}

} // verus!
