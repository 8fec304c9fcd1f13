//! The checks of a message.

use crate::concept::ModelConcept;
use crate::error::{finding, findings, report, ErrorType, ModelError, ModelErrorView};
use crate::identifier::Identifier;
use crate::model::Model;
use crate::references::{check_repeated_name, repeated_name_findings};
use crate::schema::{FieldType, Message};
use crate::text::{decimal, index_to_string, join3, join5, join7};
use crate::validate::Checked;
use crate::workspace::{workspace_find_message, ProjectWorkspace};
use vstd::prelude::*;

verus! {

impl Message {
    /// The path of the fields by name.
    pub open spec fn spec_fields_key(&self) -> Seq<char> {
        "messages."@ + self.id.spec_qualified_name() + ".fields"@
    }

    /// The path of the fields by position.
    pub open spec fn spec_fields_machine_key(&self, index: int) -> Seq<char> {
        "messages."@ + decimal(index as nat) + ".fields"@
    }

    /// A finding on the field at `i`, whose type is the message `custom`.
    pub open spec fn spec_custom_finding(
        &self,
        index: int,
        i: int,
        custom: Identifier,
        error_type: ErrorType,
        tail: Seq<char>,
    ) -> ModelErrorView {
        finding(
            self.spec_fields_key() + "."@ + decimal(i as nat),
            self.spec_fields_machine_key(index) + "."@ + decimal(i as nat),
            error_type,
            "Custom field "@ + custom.spec_qualified_name() + " at index "@ + decimal(i as nat)
                + " in Message "@ + self.id.spec_qualified_name() + tail,
        )
    }

    /// The findings on the type of the field at `i`: where it is another
    /// message, a module of the workspace must declare that message, and
    /// it must not be this message itself.
    pub open spec fn spec_type_findings(&self, workspace: Seq<Model>, index: int, i: int) -> Seq<
        ModelErrorView,
    > {
        match self.fields@[i].field_type {
            FieldType::Custom(custom) => {
                let missing = if !workspace_find_message(workspace, custom) {
                    seq![
                        self.spec_custom_finding(
                            index,
                            i,
                            custom,
                            ErrorType::CustomTypeNotFound,
                            " cannot be found in Messages."@,
                        ),
                    ]
                } else {
                    Seq::empty()
                };
                let nested = if custom.uuid@ == self.id.uuid@ {
                    seq![
                        self.spec_custom_finding(
                            index,
                            i,
                            custom,
                            ErrorType::CustomTypeIsCurrentMessage,
                            " cannot be current Message."@,
                        ),
                    ]
                } else {
                    Seq::empty()
                };
                missing + nested
            },
            _ => Seq::empty(),
        }
    }

    /// The findings on the field at `i`: one where an earlier field has its
    /// name, then those on its type.
    pub open spec fn spec_field_findings(&self, workspace: Seq<Model>, index: int, i: int) -> Seq<
        ModelErrorView,
    > {
        repeated_name_findings(
            self.fields@,
            self.spec_fields_key(),
            self.spec_fields_machine_key(index),
            "Duplicate fields with name "@ + self.fields@[i].name@ + " in Message "@
                + self.id.spec_qualified_name() + "."@,
            i,
        ) + self.spec_type_findings(workspace, index, i)
    }

    /// The findings on the first `n` fields, field by field.
    pub open spec fn spec_fields_findings(&self, workspace: Seq<Model>, index: int, n: int) -> Seq<
        ModelErrorView,
    >
        decreases n,
    {
        if n <= 0 {
            Seq::empty()
        } else {
            self.spec_fields_findings(workspace, index, n - 1) + self.spec_field_findings(
                workspace,
                index,
                n - 1,
            )
        }
    }

    fn custom_error(
        &self,
        index: usize,
        i: usize,
        custom: &Identifier,
        error_type: ErrorType,
        tail: &str,
    ) -> (r: ModelError)
        ensures
            r@ == self.spec_custom_finding(index as int, i as int, *custom, error_type, tail@),
    {
        let name = self.id.qualified_name();
        let at = index_to_string(index);
        let at_i = index_to_string(i);
        let custom_name = custom.qualified_name();
        ModelError::at(
            join5("messages.", name.as_str(), ".fields", ".", at_i.as_str()),
            join5("messages.", at.as_str(), ".fields", ".", at_i.as_str()),
            error_type,
            join7(
                "Custom field ",
                custom_name.as_str(),
                " at index ",
                at_i.as_str(),
                " in Message ",
                name.as_str(),
                tail,
            ),
        )
    }

    /// Checks the field at `i`.
    pub fn check_field(
        &self,
        errors: &mut Vec<ModelError>,
        workspace: &ProjectWorkspace,
        index: usize,
        i: usize,
    )
        requires
            i < self.fields@.len(),
        ensures
            findings(final(errors)@) == findings(old(errors)@) + self.spec_field_findings(
                workspace@,
                index as int,
                i as int,
            ),
    {
        let name = self.id.qualified_name();
        let at = index_to_string(index);
        let key = join3("messages.", name.as_str(), ".fields");
        let machine_key = join3("messages.", at.as_str(), ".fields");
        let text = join5(
            "Duplicate fields with name ",
            self.fields[i].name.as_str(),
            " in Message ",
            name.as_str(),
            ".",
        );
        check_repeated_name(errors, &self.fields, key.as_str(), machine_key.as_str(), text, i);
        let ghost before = findings(errors@);
        match &self.fields[i].field_type {
            FieldType::Custom(custom) => {
                if !workspace.find_message(custom) {
                    report(
                        errors,
                        self.custom_error(
                            index,
                            i,
                            custom,
                            ErrorType::CustomTypeNotFound,
                            " cannot be found in Messages.",
                        ),
                    );
                }
                if custom == &self.id {
                    report(
                        errors,
                        self.custom_error(
                            index,
                            i,
                            custom,
                            ErrorType::CustomTypeIsCurrentMessage,
                            " cannot be current Message.",
                        ),
                    );
                }
            },
            _ => {},
        }
        assert(findings(errors@) =~= before + self.spec_type_findings(
            workspace@,
            index as int,
            i as int,
        ));
    }
}

impl Checked for Message {
    /// The findings on a message are those on its fields.
    open spec fn spec_verify(
        &self,
        concept: ModelConcept,
        model: Model,
        workspace: Seq<Model>,
        index: int,
    ) -> Seq<ModelErrorView> {
        self.spec_fields_findings(workspace, index, self.fields@.len() as int)
    }

    fn verify(
        &self,
        concept: ModelConcept,
        model: &Model,
        workspace: &ProjectWorkspace,
        index: usize,
    ) -> (r: Vec<ModelError>) {
        let mut errors: Vec<ModelError> = Vec::new();
        assert(findings(errors@) =~= Seq::empty());
        let mut i: usize = 0;
        while i < self.fields.len()
            invariant
                i <= self.fields@.len(),
                findings(errors@) == self.spec_fields_findings(workspace@, index as int, i as int),
            decreases self.fields@.len() - i,
        {
            self.check_field(&mut errors, workspace, index, i);
            i = i + 1;
        }
        errors
    }
}

} // verus!
