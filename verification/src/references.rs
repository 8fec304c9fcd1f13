//! The checks that every list of references gets: each entry is set, each
//! resolves in the module, and none stands twice.

use crate::concept::{
    first_named, first_position, lemma_first_position, lemma_name_position_from, named_position,
    position, Identified, Named,
};
use crate::error::{finding, finding_pair, findings, report, ErrorType, ModelError, ModelErrorView};
use crate::identifier::Identifier;
use crate::model::Model;
use crate::text::{decimal, index_to_string, join3, join4, join7};
use vstd::prelude::*;
use vstd::string::StringExecFns;

verus! {

/// The kind of concept that a reference must name.
#[derive(Debug, Clone, Copy, PartialEq, Eq, Structural)]
pub enum Reference {
    Action,
    Message,
    Goal,
    Plan,
    Resource,
    Role,
    Service,
}

/// The words with which the findings on one list of references are told.
#[derive(Debug, Clone, Copy)]
pub struct Wording {
    /// What an entry is called where it is unset.
    pub unset: &'static str,
    /// What an entry is called where it does not resolve.
    pub missing: &'static str,
    /// Where an entry was looked for.
    pub place: &'static str,
}

impl Reference {
    /// The finding for a reference of this kind that does not resolve.
    pub open spec fn spec_missing(self) -> ErrorType {
        match self {
            Reference::Action => ErrorType::ActionNotFound,
            Reference::Message => ErrorType::MessageNotFound,
            Reference::Goal => ErrorType::GoalNotFound,
            Reference::Plan => ErrorType::PlanNotFound,
            Reference::Resource => ErrorType::ResourceNotFound,
            Reference::Role => ErrorType::RoleNotFound,
            Reference::Service => ErrorType::ServiceNotFound,
        }
    }

    /// The finding for a reference of this kind that does not resolve.
    pub fn missing(self) -> (r: ErrorType)
        ensures
            r == self.spec_missing(),
    {
        match self {
            Reference::Action => ErrorType::ActionNotFound,
            Reference::Message => ErrorType::MessageNotFound,
            Reference::Goal => ErrorType::GoalNotFound,
            Reference::Plan => ErrorType::PlanNotFound,
            Reference::Resource => ErrorType::ResourceNotFound,
            Reference::Role => ErrorType::RoleNotFound,
            Reference::Service => ErrorType::ServiceNotFound,
        }
    }
}

impl Model {
    /// Whether the module declares a concept of the given kind with the
    /// identity of `id`.
    pub open spec fn spec_resolves(&self, kind: Reference, id: Identifier) -> bool {
        match kind {
            Reference::Action => self.spec_find_action(id),
            Reference::Message => self.spec_find_message(id),
            Reference::Goal => self.spec_find_goal(id),
            Reference::Plan => self.spec_find_plan(id),
            Reference::Resource => self.spec_find_resource(id),
            Reference::Role => self.spec_find_role(id),
            Reference::Service => self.spec_find_service(id),
        }
    }

    /// Whether the module declares a concept of the given kind with the
    /// identity of `id`.
    pub fn resolves(&self, kind: Reference, id: &Identifier) -> (r: bool)
        ensures
            r == self.spec_resolves(kind, *id),
    {
        match kind {
            Reference::Action => self.find_action(id),
            Reference::Message => self.find_message(id),
            Reference::Goal => self.find_goal(id),
            Reference::Plan => self.find_plan(id),
            Reference::Resource => self.find_resource(id),
            Reference::Role => self.find_role(id),
            Reference::Service => self.find_service(id),
        }
    }
}

/// The finding on an unset entry at position `i` of the list at `key`.
pub open spec fn unset_finding(
    key: Seq<char>,
    machine_key: Seq<char>,
    label: Seq<char>,
    i: int,
) -> ModelErrorView {
    finding(
        key + "."@ + decimal(i as nat),
        machine_key + "."@ + decimal(i as nat),
        ErrorType::ZeroSizeString,
        label + " at index "@ + decimal(i as nat) + " must not be empty."@,
    )
}

/// The finding on the entry `id` at position `i` of the list at `key` that
/// does not resolve.
pub open spec fn missing_finding(
    id: Identifier,
    kind: Reference,
    key: Seq<char>,
    machine_key: Seq<char>,
    wording: Wording,
    i: int,
) -> ModelErrorView {
    finding(
        key + "."@ + id.spec_qualified_name(),
        machine_key + "."@ + decimal(i as nat),
        kind.spec_missing(),
        wording.missing@ + " "@ + id.spec_qualified_name() + " at index "@ + decimal(i as nat)
            + " cannot be found in "@ + wording.place@ + "."@,
    )
}

/// The findings on entry `i` alone: one where it is unset, then one where
/// it does not resolve.
pub open spec fn reference_findings_at<T: Identified>(
    items: Seq<T>,
    kind: Reference,
    model: Model,
    key: Seq<char>,
    machine_key: Seq<char>,
    wording: Wording,
    i: int,
) -> Seq<ModelErrorView> {
    let id = items[i].spec_id();
    let unset = if id.name@.len() == 0 {
        seq![unset_finding(key, machine_key, wording.unset@, i)]
    } else {
        Seq::empty()
    };
    let missing = if !model.spec_resolves(kind, id) {
        seq![missing_finding(id, kind, key, machine_key, wording, i)]
    } else {
        Seq::empty()
    };
    unset + missing
}

/// The findings on the first `n` entries, entry by entry.
pub open spec fn reference_findings<T: Identified>(
    items: Seq<T>,
    kind: Reference,
    model: Model,
    key: Seq<char>,
    machine_key: Seq<char>,
    wording: Wording,
    n: int,
) -> Seq<ModelErrorView>
    decreases n,
{
    if n <= 0 {
        Seq::empty()
    } else {
        reference_findings(items, kind, model, key, machine_key, wording, n - 1)
            + reference_findings_at(items, kind, model, key, machine_key, wording, n - 1)
    }
}

/// Checks entry `i` of a list of references: that it is set, and that it
/// names a concept of the given kind in `model`.
pub fn check_reference<T: Identified>(
    errors: &mut Vec<ModelError>,
    items: &Vec<T>,
    kind: Reference,
    model: &Model,
    key: &str,
    machine_key: &str,
    wording: Wording,
    i: usize,
)
    requires
        i < items@.len(),
    ensures
        findings(final(errors)@) == findings(old(errors)@) + reference_findings_at(
            items@,
            kind,
            *model,
            key@,
            machine_key@,
            wording,
            i as int,
        ),
{
    let id = items[i].get_id();
    let at = index_to_string(i);
    if id.name.as_str().is_empty() {
        report(
            errors,
            ModelError::at(
                join3(key, ".", at.as_str()),
                join3(machine_key, ".", at.as_str()),
                ErrorType::ZeroSizeString,
                join4(wording.unset, " at index ", at.as_str(), " must not be empty."),
            ),
        );
    }
    if !model.resolves(kind, id) {
        let name = id.qualified_name();
        let mut text = join7(
            wording.missing,
            " ",
            name.as_str(),
            " at index ",
            at.as_str(),
            " cannot be found in ",
            wording.place,
        );
        text.append(".");
        report(
            errors,
            ModelError::at(
                join3(key, ".", name.as_str()),
                join3(machine_key, ".", at.as_str()),
                kind.missing(),
                text,
            ),
        );
    }
    assert(findings(errors@) =~= findings(old(errors)@) + reference_findings_at(
        items@,
        kind,
        *model,
        key@,
        machine_key@,
        wording,
        i as int,
    ));
}

/// Checks that each entry of a list of references is set and names a concept
/// of the given kind in `model`. `key` and `machine_key` are the paths of
/// the list by name and by position.
pub fn check_references<T: Identified>(
    items: &Vec<T>,
    kind: Reference,
    model: &Model,
    key: &str,
    machine_key: &str,
    wording: Wording,
) -> (r: Vec<ModelError>)
    ensures
        findings(r@) == reference_findings(
            items@,
            kind,
            *model,
            key@,
            machine_key@,
            wording,
            items@.len() as int,
        ),
{
    let mut errors: Vec<ModelError> = Vec::new();
    let mut i: usize = 0;
    assert(findings(errors@) =~= Seq::empty());
    while i < items.len()
        invariant
            i <= items@.len(),
            findings(errors@) == reference_findings(
                items@,
                kind,
                *model,
                key@,
                machine_key@,
                wording,
                i as int,
            ),
        decreases items@.len() - i,
    {
        check_reference(&mut errors, items, kind, model, key, machine_key, wording, i);
        i = i + 1;
    }
    errors
}

/// The finding on entry `i` where an earlier entry has the same identity:
/// it names both entries, the later one first.
pub open spec fn duplicate_findings_at<T: Identified>(
    items: Seq<T>,
    field_id: Seq<char>,
    machine_id: Seq<char>,
    object_type: Seq<char>,
    object_name: Seq<char>,
    field_name: Seq<char>,
    i: int,
) -> Seq<ModelErrorView> {
    let id = items[i].spec_id();
    let first = first_position(items, id.uuid@);
    if first < i {
        seq![
            finding_pair(
                field_id + "."@ + id.spec_qualified_name(),
                field_id + "."@ + items[first].spec_id().spec_qualified_name(),
                machine_id + "."@ + decimal(i as nat),
                machine_id + "."@ + decimal(first as nat),
                ErrorType::DuplicateName,
                object_type + " at "@ + object_name + " in "@ + field_name
                    + " has duplicate entries of '"@ + id.spec_qualified_name()
                    + "' at indicies "@ + decimal(first as nat) + " and "@ + decimal(i as nat)
                    + "."@,
            ),
        ]
    } else {
        Seq::empty()
    }
}

/// The duplicate findings on the first `n` entries, entry by entry.
pub open spec fn duplicate_findings<T: Identified>(
    items: Seq<T>,
    field_id: Seq<char>,
    machine_id: Seq<char>,
    object_type: Seq<char>,
    object_name: Seq<char>,
    field_name: Seq<char>,
    n: int,
) -> Seq<ModelErrorView>
    decreases n,
{
    if n <= 0 {
        Seq::empty()
    } else {
        duplicate_findings(items, field_id, machine_id, object_type, object_name, field_name, n - 1)
            + duplicate_findings_at(
            items,
            field_id,
            machine_id,
            object_type,
            object_name,
            field_name,
            n - 1,
        )
    }
}

/// Checks that no entry of a list stands twice: an entry with the identity
/// of an earlier one is reported together with the first such entry.
pub fn check_duplicates<T: Identified>(
    items: &Vec<T>,
    field_id: &str,
    machine_id: &str,
    object_type: &str,
    object_name: &str,
    field_name: &str,
) -> (r: Vec<ModelError>)
    ensures
        findings(r@) == duplicate_findings(
            items@,
            field_id@,
            machine_id@,
            object_type@,
            object_name@,
            field_name@,
            items@.len() as int,
        ),
{
    let mut errors: Vec<ModelError> = Vec::new();
    let mut i: usize = 0;
    assert(findings(errors@) =~= Seq::empty());
    while i < items.len()
        invariant
            i <= items@.len(),
            findings(errors@) == duplicate_findings(
                items@,
                field_id@,
                machine_id@,
                object_type@,
                object_name@,
                field_name@,
                i as int,
            ),
        decreases items@.len() - i,
    {
        let ghost before = findings(errors@);
        let id = items[i].get_id();
        proof {
            lemma_first_position(items@, id.uuid@);
        }
        match position(items, id) {
            Some(first) => {
                if first < i {
                    let name = id.qualified_name();
                    let first_name = items[first].get_id().qualified_name();
                    let at = index_to_string(i);
                    let first_at = index_to_string(first);
                    let mut text = join7(
                        object_type,
                        " at ",
                        object_name,
                        " in ",
                        field_name,
                        " has duplicate entries of '",
                        name.as_str(),
                    );
                    text.append("' at indicies ");
                    text.append(first_at.as_str());
                    text.append(" and ");
                    text.append(at.as_str());
                    text.append(".");
                    report(
                        &mut errors,
                        ModelError::between(
                            join3(field_id, ".", name.as_str()),
                            join3(field_id, ".", first_name.as_str()),
                            join3(machine_id, ".", at.as_str()),
                            join3(machine_id, ".", first_at.as_str()),
                            ErrorType::DuplicateName,
                            text,
                        ),
                    );
                }
            },
            None => {},
        }
        assert(findings(errors@) =~= before + duplicate_findings_at(
            items@,
            field_id@,
            machine_id@,
            object_type@,
            object_name@,
            field_name@,
            i as int,
        ));
        i = i + 1;
    }
    errors
}

/// Checks that no identifier of `input` stands twice. `field_id` and
/// `machine_id` are the paths of the list by name and by position; the
/// other texts say, for the reader, which list of which object it is.
pub fn verify_no_duplicate_fields(
    input: &Vec<Identifier>,
    field_id: &String,
    machine_id: &String,
    object_type: &String,
    object_name: &String,
    field_name: &String,
) -> (r: Vec<ModelError>)
    ensures
        findings(r@) == duplicate_findings(
            input@,
            field_id@,
            machine_id@,
            object_type@,
            object_name@,
            field_name@,
            input@.len() as int,
        ),
{
    check_duplicates(
        input,
        field_id.as_str(),
        machine_id.as_str(),
        object_type.as_str(),
        object_name.as_str(),
        field_name.as_str(),
    )
}

/// The finding on entry `i` of a list of named entries where an earlier
/// entry has the same name: it names both entries by position, the later
/// one first, and says `text`.
pub open spec fn repeated_name_findings<T: Named>(
    items: Seq<T>,
    key: Seq<char>,
    machine_key: Seq<char>,
    text: Seq<char>,
    i: int,
) -> Seq<ModelErrorView> {
    let first = first_named(items, items[i].spec_name());
    if first < i {
        seq![
            finding_pair(
                key + "."@ + decimal(i as nat),
                key + "."@ + decimal(first as nat),
                machine_key + "."@ + decimal(i as nat),
                machine_key + "."@ + decimal(first as nat),
                ErrorType::MessageDuplicateFields,
                text,
            ),
        ]
    } else {
        Seq::empty()
    }
}

/// Checks that no earlier entry has the name of entry `i`.
pub fn check_repeated_name<T: Named>(
    errors: &mut Vec<ModelError>,
    items: &Vec<T>,
    key: &str,
    machine_key: &str,
    text: String,
    i: usize,
)
    requires
        i < items@.len(),
    ensures
        findings(final(errors)@) == findings(old(errors)@) + repeated_name_findings(
            items@,
            key@,
            machine_key@,
            text@,
            i as int,
        ),
{
    proof {
        lemma_name_position_from(items@, items@[i as int].spec_name(), 0);
    }
    if let Some(first) = named_position(items, items[i].get_name()) {
        if first < i {
            let at = index_to_string(i);
            let first_at = index_to_string(first);
            report(
                errors,
                ModelError::between(
                    join3(key, ".", at.as_str()),
                    join3(key, ".", first_at.as_str()),
                    join3(machine_key, ".", at.as_str()),
                    join3(machine_key, ".", first_at.as_str()),
                    ErrorType::MessageDuplicateFields,
                    text,
                ),
            );
        }
    }
    assert(findings(errors@) =~= findings(old(errors)@) + repeated_name_findings(
        items@,
        key@,
        machine_key@,
        text@,
        i as int,
    ));
}

} // verus!
