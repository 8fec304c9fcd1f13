//! The checks of an enumeration.

use crate::concept::ModelConcept;
use crate::error::{finding_pair, findings, report, ErrorType, ModelError, ModelErrorView};
use crate::model::Model;
use crate::references::{check_repeated_name, repeated_name_findings};
use crate::schema::{Enum, EnumField};
use crate::text::{decimal, index_to_string, join3, join5};
use crate::validate::Checked;
use crate::workspace::ProjectWorkspace;
use vstd::prelude::*;

verus! {

/// The position of the first of `fields`, from `start` on, with the value
/// `value`; the length of `fields` where there is none.
pub open spec fn value_position_from(fields: Seq<EnumField>, value: i32, start: int) -> int
    decreases fields.len() - start,
{
    if start < 0 || start >= fields.len() {
        fields.len() as int
    } else if fields[start].value == value {
        start
    } else {
        value_position_from(fields, value, start + 1)
    }
}

/// The position of the first of `fields` with the value `value`.
pub open spec fn first_valued(fields: Seq<EnumField>, value: i32) -> int {
    value_position_from(fields, value, 0)
}

/// `value_position_from` finds the first field with the value at or after
/// `start`.
pub proof fn lemma_value_position_from(fields: Seq<EnumField>, value: i32, start: int)
    requires
        0 <= start <= fields.len(),
    ensures
        start <= value_position_from(fields, value, start) <= fields.len(),
        value_position_from(fields, value, start) < fields.len() ==> fields[value_position_from(
            fields,
            value,
            start,
        )].value == value,
        forall|j: int|
            start <= j < value_position_from(fields, value, start) ==> (#[trigger] fields[j]).value
                != value,
    decreases fields.len() - start,
{
    if start < fields.len() && fields[start].value != value {
        lemma_value_position_from(fields, value, start + 1);
    }
}

/// Finds the first of `fields` with the value `value`.
pub fn value_position(fields: &Vec<EnumField>, value: i32) -> (r: Option<usize>)
    ensures
        r is Some ==> r->0 < fields@.len() && r->0 as int == first_valued(fields@, value),
        r is None ==> first_valued(fields@, value) == fields@.len(),
{
    let mut i: usize = 0;
    while i < fields.len()
        invariant
            i <= fields@.len(),
            value_position_from(fields@, value, 0) == value_position_from(fields@, value, i as int),
        decreases fields@.len() - i,
    {
        if fields[i].value == value {
            return Some(i);
        }
        i = i + 1;
    }
    None
}

impl Enum {
    /// The path of the fields by name.
    pub open spec fn spec_fields_key(&self) -> Seq<char> {
        "enums."@ + self.id.spec_qualified_name() + ".fields"@
    }

    /// The path of the fields by position.
    pub open spec fn spec_fields_machine_key(&self, index: int) -> Seq<char> {
        "enums."@ + decimal(index as nat) + ".fields"@
    }

    /// The finding on the field at `i` where an earlier field has the same
    /// value.
    pub open spec fn spec_repeated_value(&self, index: int, i: int) -> Seq<ModelErrorView> {
        let first = first_valued(self.fields@, self.fields@[i].value);
        if first < i {
            seq![
                finding_pair(
                    self.spec_fields_key() + "."@ + decimal(i as nat),
                    self.spec_fields_key() + "."@ + decimal(first as nat),
                    self.spec_fields_machine_key(index) + "."@ + decimal(i as nat),
                    self.spec_fields_machine_key(index) + "."@ + decimal(first as nat),
                    ErrorType::MessageDuplicateFields,
                    "Duplicate value with name "@ + self.fields@[i].name@ + " in Enum "@
                        + self.id.spec_qualified_name() + "."@,
                ),
            ]
        } else {
            Seq::empty()
        }
    }

    /// The findings on the field at `i`: one where an earlier field has its
    /// name, one where an earlier field has its value.
    pub open spec fn spec_field_findings(&self, index: int, i: int) -> Seq<ModelErrorView> {
        repeated_name_findings(
            self.fields@,
            self.spec_fields_key(),
            self.spec_fields_machine_key(index),
            "Duplicate fields with name "@ + self.fields@[i].name@ + " in Enum "@
                + self.id.spec_qualified_name() + "."@,
            i,
        ) + self.spec_repeated_value(index, i)
    }

    /// The findings on the first `n` fields, field by field.
    pub open spec fn spec_fields_findings(&self, index: int, n: int) -> Seq<ModelErrorView>
        decreases n,
    {
        if n <= 0 {
            Seq::empty()
        } else {
            self.spec_fields_findings(index, n - 1) + self.spec_field_findings(index, n - 1)
        }
    }

    /// Checks the field at `i`.
    pub fn check_field(&self, errors: &mut Vec<ModelError>, index: usize, i: usize)
        requires
            i < self.fields@.len(),
        ensures
            findings(final(errors)@) == findings(old(errors)@) + self.spec_field_findings(
                index as int,
                i as int,
            ),
    {
        let name = self.id.qualified_name();
        let at = index_to_string(index);
        let key = join3("enums.", name.as_str(), ".fields");
        let machine_key = join3("enums.", at.as_str(), ".fields");
        let text = join5(
            "Duplicate fields with name ",
            self.fields[i].name.as_str(),
            " in Enum ",
            name.as_str(),
            ".",
        );
        check_repeated_name(errors, &self.fields, key.as_str(), machine_key.as_str(), text, i);
        let ghost before = findings(errors@);
        proof {
            lemma_value_position_from(self.fields@, self.fields@[i as int].value, 0);
        }
        if let Some(first) = value_position(&self.fields, self.fields[i].value) {
            if first < i {
                let at_i = index_to_string(i);
                let at_first = index_to_string(first);
                report(
                    errors,
                    ModelError::between(
                        join3(key.as_str(), ".", at_i.as_str()),
                        join3(key.as_str(), ".", at_first.as_str()),
                        join3(machine_key.as_str(), ".", at_i.as_str()),
                        join3(machine_key.as_str(), ".", at_first.as_str()),
                        ErrorType::MessageDuplicateFields,
                        join5(
                            "Duplicate value with name ",
                            self.fields[i].name.as_str(),
                            " in Enum ",
                            name.as_str(),
                            ".",
                        ),
                    ),
                );
            }
        }
        assert(findings(errors@) =~= before + self.spec_repeated_value(index as int, i as int));
    }
}

impl Checked for Enum {
    /// The findings on an enumeration are those on its fields: no two may
    /// share a name, no two a value.
    open spec fn spec_verify(
        &self,
        concept: ModelConcept,
        model: Model,
        workspace: Seq<Model>,
        index: int,
    ) -> Seq<ModelErrorView> {
        self.spec_fields_findings(index, self.fields@.len() as int)
    }

    fn verify(
        &self,
        concept: ModelConcept,
        model: &Model,
        workspace: &ProjectWorkspace,
        index: usize,
    ) -> (r: Vec<ModelError>) {
        let mut errors: Vec<ModelError> = Vec::new();
        assert(findings(errors@) =~= Seq::empty());
        let mut i: usize = 0;
        while i < self.fields.len()
            invariant
                i <= self.fields@.len(),
                findings(errors@) == self.spec_fields_findings(index as int, i as int),
            decreases self.fields@.len() - i,
        {
            self.check_field(&mut errors, index, i);
            i = i + 1;
        }
        errors
    }
}

} // verus!
