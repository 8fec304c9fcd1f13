//! What every declaration is checked for, and the checks of a whole module.

use crate::concept::{
    first_named, first_position, lemma_first_position, lemma_name_position_from, named_position,
    position, Identified, ModelConcept, ModelErrorMetadata, Named,
};
use crate::error::{
    finding, finding_pair, finding_unnamed, findings, report, report_all, ErrorType, ModelError,
    ModelErrorView,
};
use crate::identifier::Identifier;
use crate::model::Model;
use crate::text::{decimal, index_to_string, join3, join4, join5, join6, join7};
use crate::workspace::ProjectWorkspace;
use vstd::prelude::*;
use vstd::string::StringExecFns;

verus! {

/// A declaration with checks of its own.
///
/// `spec_verify` states the findings on one declaration: it stands at
/// position `index` of its collection in `model`, which is one of the
/// modules of `workspace`. `concept` says which collection it is.
pub trait Checked: Identified {
    spec fn spec_verify(
        &self,
        concept: ModelConcept,
        model: Model,
        workspace: Seq<Model>,
        index: int,
    ) -> Seq<ModelErrorView>;

    /// Checks the declaration and reports every finding, in the order of
    /// the checks.
    fn verify(
        &self,
        concept: ModelConcept,
        model: &Model,
        workspace: &ProjectWorkspace,
        index: usize,
    ) -> (r: Vec<ModelError>)
        ensures
            findings(r@) == self.spec_verify(concept, *model, workspace@, index as int),
    ;
}

/// What is remembered of a declaration that was checked: its kind, its
/// position in its collection, and its identifier.
#[derive(Debug, Clone)]
pub struct Declaration {
    pub concept: ModelConcept,
    pub index: usize,
    pub id: Identifier,
}

impl Identified for Declaration {
    open spec fn spec_id(&self) -> Identifier {
        self.id
    }

    fn get_id(&self) -> (r: &Identifier) {
        &self.id
    }
}

impl Named for Declaration {
    open spec fn spec_name(&self) -> Seq<char> {
        self.id.name@
    }

    fn get_name(&self) -> (r: &String) {
        &self.id.name
    }
}

/// The declarations of one collection, in order.
pub open spec fn declarations<T: Identified>(concept: ModelConcept, items: Seq<T>) -> Seq<
    Declaration,
> {
    Seq::new(
        items.len(),
        |i: int| Declaration { concept, index: i as usize, id: items[i].spec_id() },
    )
}

/// The path of a declaration by position, in the collection at `key`.
pub open spec fn machine_path(key: Seq<char>, index: int) -> Seq<char> {
    key + "."@ + decimal(index as nat)
}

/// The path of a declaration by what tells it apart: its name, or its
/// identity.
pub open spec fn named_path(key: Seq<char>, name: Seq<char>) -> Seq<char> {
    key + "."@ + name
}

/// The finding on a declaration without a name.
pub open spec fn unnamed_findings(
    key: Seq<char>,
    kind: Seq<char>,
    id: Identifier,
    index: int,
) -> Seq<ModelErrorView> {
    if id.name@.len() == 0 {
        seq![
            finding_unnamed(
                machine_path(key, index),
                ErrorType::ZeroSizeString,
                kind + " name at index "@ + decimal(index as nat) + " must not be empty."@,
            ),
        ]
    } else {
        Seq::empty()
    }
}

/// The finding on a declaration without an identity.
pub open spec fn unidentified_findings(
    key: Seq<char>,
    kind: Seq<char>,
    id: Identifier,
    index: int,
) -> Seq<ModelErrorView> {
    if id.uuid@.len() == 0 {
        seq![
            finding_unnamed(
                machine_path(key, index),
                ErrorType::ZeroSizeString,
                kind + " '"@ + id.name@ + "' at index "@ + decimal(index as nat)
                    + " does not have an UUID assigned to it."@,
            ),
        ]
    } else {
        Seq::empty()
    }
}

/// The finding on a declaration that is named like its own kind.
pub open spec fn reserved_findings(
    key: Seq<char>,
    kind: Seq<char>,
    id: Identifier,
    index: int,
) -> Seq<ModelErrorView> {
    if id.name@ == kind {
        seq![
            finding(
                named_path(key, id.name@),
                machine_path(key, index),
                ErrorType::NameSameAsType,
                kind + " at index "@ + decimal(index as nat) + " is using reserved name '"@ + kind
                    + "'."@,
            ),
        ]
    } else {
        Seq::empty()
    }
}

/// The finding on a declaration whose name an earlier declaration of the
/// module has, of whatever kind: it names the first such declaration, then
/// this one.
pub open spec fn same_name_findings(
    key: Seq<char>,
    kind: Seq<char>,
    seen: Seq<Declaration>,
    id: Identifier,
    index: int,
) -> Seq<ModelErrorView> {
    let first = first_named(seen, id.name@);
    if first < seen.len() {
        let other = seen[first];
        seq![
            finding_pair(
                named_path(other.concept.spec_error_key(), other.id.name@),
                named_path(key, id.name@),
                machine_path(other.concept.spec_error_key(), other.index as int),
                machine_path(key, index),
                ErrorType::DuplicateName,
                kind + " '"@ + id.name@ + "' has a duplicated name with "@
                    + other.concept.spec_reserved_name() + " '"@ + id.name@
                    + "' (id of duplicated item is: '"@ + id.uuid@ + "')"@,
            ),
        ]
    } else {
        Seq::empty()
    }
}

/// The finding on a declaration whose identity an earlier declaration of
/// the module has, of whatever kind: it names the first such declaration,
/// then this one.
pub open spec fn same_identity_findings(
    key: Seq<char>,
    kind: Seq<char>,
    seen: Seq<Declaration>,
    id: Identifier,
    index: int,
) -> Seq<ModelErrorView> {
    let first = first_position(seen, id.uuid@);
    if first < seen.len() {
        let other = seen[first];
        seq![
            finding_pair(
                named_path(other.concept.spec_error_key(), other.id.uuid@),
                named_path(key, id.uuid@),
                machine_path(other.concept.spec_error_key(), other.index as int),
                machine_path(key, index),
                ErrorType::DuplicateName,
                kind + " '"@ + id.name@ + "' has a duplicated UUID with "@
                    + other.concept.spec_reserved_name() + " '"@ + other.id.name@
                    + "' (id was: '"@ + id.uuid@ + "')"@,
            ),
        ]
    } else {
        Seq::empty()
    }
}

/// The findings of the checks that every declaration gets, in their order:
/// it must have a name and an identity, must not be named like its kind,
/// and must share neither name nor identity with a declaration in `seen`,
/// those checked before it.
pub open spec fn declaration_findings(
    concept: ModelConcept,
    seen: Seq<Declaration>,
    id: Identifier,
    index: int,
) -> Seq<ModelErrorView> {
    let key = concept.spec_error_key();
    let kind = concept.spec_reserved_name();
    unnamed_findings(key, kind, id, index) + unidentified_findings(key, kind, id, index)
        + reserved_findings(key, kind, id, index) + same_name_findings(key, kind, seen, id, index)
        + same_identity_findings(key, kind, seen, id, index)
}

/// The findings on the first `n` declarations of one collection: for each
/// in turn, those of the checks that every declaration gets, then those of
/// its own checks. `earlier` holds the declarations of the collections
/// checked before.
pub open spec fn concept_findings<T: Checked>(
    items: Seq<T>,
    concept: ModelConcept,
    earlier: Seq<Declaration>,
    model: Model,
    workspace: Seq<Model>,
    n: int,
) -> Seq<ModelErrorView>
    decreases n,
{
    if n <= 0 {
        Seq::empty()
    } else {
        concept_findings(items, concept, earlier, model, workspace, n - 1) + declaration_findings(
            concept,
            earlier + declarations(concept, items).take(n - 1),
            items[n - 1].spec_id(),
            n - 1,
        ) + items[n - 1].spec_verify(concept, model, workspace, n - 1)
    }
}

impl Model {
    /// Checks that a declaration has a name.
    pub fn check_zero_length_name(
        &self,
        metadata: &ModelErrorMetadata,
        errors: &mut Vec<ModelError>,
        id: &Identifier,
        error_index: usize,
    )
        ensures
            findings(final(errors)@) == findings(old(errors)@) + unnamed_findings(
                metadata.error_key@,
                metadata.reserved_name@,
                *id,
                error_index as int,
            ),
    {
        if id.name.as_str().is_empty() {
            let at = index_to_string(error_index);
            report(
                errors,
                ModelError::unnamed(
                    join3(metadata.error_key, ".", at.as_str()),
                    ErrorType::ZeroSizeString,
                    join4(
                        metadata.reserved_name,
                        " name at index ",
                        at.as_str(),
                        " must not be empty.",
                    ),
                ),
            );
        }
        assert(findings(errors@) =~= findings(old(errors)@) + unnamed_findings(
            metadata.error_key@,
            metadata.reserved_name@,
            *id,
            error_index as int,
        ));
    }

    /// Checks that a declaration has an identity.
    pub fn check_zero_length_uuid(
        &self,
        metadata: &ModelErrorMetadata,
        errors: &mut Vec<ModelError>,
        id: &Identifier,
        error_index: usize,
    )
        ensures
            findings(final(errors)@) == findings(old(errors)@) + unidentified_findings(
                metadata.error_key@,
                metadata.reserved_name@,
                *id,
                error_index as int,
            ),
    {
        if id.uuid.as_str().is_empty() {
            let at = index_to_string(error_index);
            let mut text = join5(
                metadata.reserved_name,
                " '",
                id.name.as_str(),
                "' at index ",
                at.as_str(),
            );
            text.append(" does not have an UUID assigned to it.");
            report(
                errors,
                ModelError::unnamed(
                    join3(metadata.error_key, ".", at.as_str()),
                    ErrorType::ZeroSizeString,
                    text,
                ),
            );
        }
        assert(findings(errors@) =~= findings(old(errors)@) + unidentified_findings(
            metadata.error_key@,
            metadata.reserved_name@,
            *id,
            error_index as int,
        ));
    }

    /// Checks that a declaration is not named like its own kind.
    pub fn check_name_is_not_reserved(
        &self,
        metadata: &ModelErrorMetadata,
        errors: &mut Vec<ModelError>,
        id: &Identifier,
        error_index: usize,
    )
        ensures
            findings(final(errors)@) == findings(old(errors)@) + reserved_findings(
                metadata.error_key@,
                metadata.reserved_name@,
                *id,
                error_index as int,
            ),
    {
        if id.name == String::from_str(metadata.reserved_name) {
            let at = index_to_string(error_index);
            report(
                errors,
                ModelError::at(
                    join3(metadata.error_key, ".", id.name.as_str()),
                    join3(metadata.error_key, ".", at.as_str()),
                    ErrorType::NameSameAsType,
                    join6(
                        metadata.reserved_name,
                        " at index ",
                        at.as_str(),
                        " is using reserved name '",
                        metadata.reserved_name,
                        "'.",
                    ),
                ),
            );
        }
        assert(findings(errors@) =~= findings(old(errors)@) + reserved_findings(
            metadata.error_key@,
            metadata.reserved_name@,
            *id,
            error_index as int,
        ));
    }

    /// Checks that no declaration in `seen` has the name of this one.
    pub fn check_duplicate_name(
        &self,
        seen: &Vec<Declaration>,
        metadata: &ModelErrorMetadata,
        errors: &mut Vec<ModelError>,
        id: &Identifier,
        error_index: usize,
    )
        ensures
            findings(final(errors)@) == findings(old(errors)@) + same_name_findings(
                metadata.error_key@,
                metadata.reserved_name@,
                seen@,
                *id,
                error_index as int,
            ),
    {
        proof {
            lemma_name_position_from(seen@, id.name@, 0);
        }
        if let Some(first) = named_position(seen, &id.name) {
            let other = &seen[first];
            let there = other.concept.metadata();
            let at = index_to_string(error_index);
            let other_at = index_to_string(other.index);
            let mut text = join7(
                metadata.reserved_name,
                " '",
                id.name.as_str(),
                "' has a duplicated name with ",
                there.reserved_name,
                " '",
                id.name.as_str(),
            );
            text.append("' (id of duplicated item is: '");
            text.append(id.uuid.as_str());
            text.append("')");
            report(
                errors,
                ModelError::between(
                    join3(there.error_key, ".", other.id.name.as_str()),
                    join3(metadata.error_key, ".", id.name.as_str()),
                    join3(there.error_key, ".", other_at.as_str()),
                    join3(metadata.error_key, ".", at.as_str()),
                    ErrorType::DuplicateName,
                    text,
                ),
            );
        }
        assert(findings(errors@) =~= findings(old(errors)@) + same_name_findings(
            metadata.error_key@,
            metadata.reserved_name@,
            seen@,
            *id,
            error_index as int,
        ));
    }

    /// Checks that no declaration in `seen` has the identity of this one.
    pub fn check_duplicate_uuid(
        &self,
        seen: &Vec<Declaration>,
        metadata: &ModelErrorMetadata,
        errors: &mut Vec<ModelError>,
        id: &Identifier,
        error_index: usize,
    )
        ensures
            findings(final(errors)@) == findings(old(errors)@) + same_identity_findings(
                metadata.error_key@,
                metadata.reserved_name@,
                seen@,
                *id,
                error_index as int,
            ),
    {
        proof {
            lemma_first_position(seen@, id.uuid@);
        }
        if let Some(first) = position(seen, id) {
            let other = &seen[first];
            let there = other.concept.metadata();
            let at = index_to_string(error_index);
            let other_at = index_to_string(other.index);
            let mut text = join7(
                metadata.reserved_name,
                " '",
                id.name.as_str(),
                "' has a duplicated UUID with ",
                there.reserved_name,
                " '",
                other.id.name.as_str(),
            );
            text.append("' (id was: '");
            text.append(id.uuid.as_str());
            text.append("')");
            report(
                errors,
                ModelError::between(
                    join3(there.error_key, ".", other.id.uuid.as_str()),
                    join3(metadata.error_key, ".", id.uuid.as_str()),
                    join3(there.error_key, ".", other_at.as_str()),
                    join3(metadata.error_key, ".", at.as_str()),
                    ErrorType::DuplicateName,
                    text,
                ),
            );
        }
        assert(findings(errors@) =~= findings(old(errors)@) + same_identity_findings(
            metadata.error_key@,
            metadata.reserved_name@,
            seen@,
            *id,
            error_index as int,
        ));
    }

    /// Checks the declarations of one collection, in order, and remembers
    /// them in `seen`.
    pub fn verify_concept<T: Checked>(
        &self,
        errors: &mut Vec<ModelError>,
        seen: &mut Vec<Declaration>,
        items: &Vec<T>,
        concept: ModelConcept,
        workspace: &ProjectWorkspace,
    )
        ensures
            findings(final(errors)@) == findings(old(errors)@) + concept_findings(
                items@,
                concept,
                old(seen)@,
                *self,
                workspace@,
                items@.len() as int,
            ),
            final(seen)@ == old(seen)@ + declarations(concept, items@),
    {
        let metadata = concept.metadata();
        let mut i: usize = 0;
        assert(findings(errors@) =~= findings(old(errors)@) + concept_findings(
            items@,
            concept,
            old(seen)@,
            *self,
            workspace@,
            0,
        ));
        assert(seen@ =~= old(seen)@ + declarations(concept, items@).take(0));
        while i < items.len()
            invariant
                i <= items@.len(),
                metadata.concept == concept,
                metadata.error_key@ == concept.spec_error_key(),
                metadata.reserved_name@ == concept.spec_reserved_name(),
                findings(errors@) == findings(old(errors)@) + concept_findings(
                    items@,
                    concept,
                    old(seen)@,
                    *self,
                    workspace@,
                    i as int,
                ),
                seen@ == old(seen)@ + declarations(concept, items@).take(i as int),
            decreases items@.len() - i,
        {
            let ghost before = findings(errors@);
            let ghost known = seen@;
            let id = items[i].get_id();
            self.check_zero_length_name(&metadata, errors, id, i);
            self.check_zero_length_uuid(&metadata, errors, id, i);
            self.check_name_is_not_reserved(&metadata, errors, id, i);
            self.check_duplicate_name(seen, &metadata, errors, id, i);
            self.check_duplicate_uuid(seen, &metadata, errors, id, i);
            assert(findings(errors@) =~= before + declaration_findings(
                concept,
                known,
                *id,
                i as int,
            ));
            report_all(errors, items[i].verify(concept, self, workspace, i));
            seen.push(Declaration { concept, index: i, id: id.clone() });
            assert(seen@ =~= old(seen)@ + declarations(concept, items@).take(i + 1));
            assert(findings(errors@) =~= findings(old(errors)@) + concept_findings(
                items@,
                concept,
                old(seen)@,
                *self,
                workspace@,
                i + 1,
            ));
            i = i + 1;
        }
        assert(declarations(concept, items@).take(items@.len() as int) =~= declarations(
            concept,
            items@,
        ));
    }

    /// The findings on a module, as one of the modules of `workspace`:
    /// those on its project; then those on its teams, agents, messages,
    /// goals, plans, roles, resources, tactics, actions, services, enums
    /// and events, in this order and each collection in the order of
    /// declaration. Every check runs, whatever the checks before it found.
    pub open spec fn spec_verify(&self, workspace: Seq<Model>) -> Seq<ModelErrorView> {
        let teams = declarations(ModelConcept::Team, self.teams@);
        let agents = teams + declarations(ModelConcept::Agent, self.agents@);
        let messages = agents + declarations(ModelConcept::Message, self.messages@);
        let goals = messages + declarations(ModelConcept::Goal, self.goals@);
        let plans = goals + declarations(ModelConcept::Plan, self.plans@);
        let roles = plans + declarations(ModelConcept::Role, self.roles@);
        let resources = roles + declarations(ModelConcept::Resource, self.resources@);
        let tactics = resources + declarations(ModelConcept::Tactic, self.tactics@);
        let actions = tactics + declarations(ModelConcept::Action, self.actions@);
        let services = actions + declarations(ModelConcept::Service, self.services@);
        let enums = services + declarations(ModelConcept::Enum, self.enums@);
        self.project.spec_verify() + concept_findings(
            self.teams@,
            ModelConcept::Team,
            Seq::empty(),
            *self,
            workspace,
            self.teams@.len() as int,
        ) + concept_findings(
            self.agents@,
            ModelConcept::Agent,
            teams,
            *self,
            workspace,
            self.agents@.len() as int,
        ) + concept_findings(
            self.messages@,
            ModelConcept::Message,
            agents,
            *self,
            workspace,
            self.messages@.len() as int,
        ) + concept_findings(
            self.goals@,
            ModelConcept::Goal,
            messages,
            *self,
            workspace,
            self.goals@.len() as int,
        ) + concept_findings(
            self.plans@,
            ModelConcept::Plan,
            goals,
            *self,
            workspace,
            self.plans@.len() as int,
        ) + concept_findings(
            self.roles@,
            ModelConcept::Role,
            plans,
            *self,
            workspace,
            self.roles@.len() as int,
        ) + concept_findings(
            self.resources@,
            ModelConcept::Resource,
            roles,
            *self,
            workspace,
            self.resources@.len() as int,
        ) + concept_findings(
            self.tactics@,
            ModelConcept::Tactic,
            resources,
            *self,
            workspace,
            self.tactics@.len() as int,
        ) + concept_findings(
            self.actions@,
            ModelConcept::Action,
            tactics,
            *self,
            workspace,
            self.actions@.len() as int,
        ) + concept_findings(
            self.services@,
            ModelConcept::Service,
            actions,
            *self,
            workspace,
            self.services@.len() as int,
        ) + concept_findings(
            self.enums@,
            ModelConcept::Enum,
            services,
            *self,
            workspace,
            self.enums@.len() as int,
        ) + concept_findings(
            self.events@,
            ModelConcept::Event,
            enums,
            *self,
            workspace,
            self.events@.len() as int,
        )
    }

    /// Checks the module as one of the modules of `workspace` and reports
    /// every finding, in the order of the checks.
    pub fn verify(&self, workspace: &ProjectWorkspace) -> (r: Vec<ModelError>)
        ensures
            findings(r@) == self.spec_verify(workspace@),
    {
        let mut errors = self.project.verify();
        let mut seen: Vec<Declaration> = Vec::new();
        assert(seen@ =~= Seq::empty());
        self.verify_concept(&mut errors, &mut seen, &self.teams, ModelConcept::Team, workspace);
        assert(seen@ =~= declarations(ModelConcept::Team, self.teams@));
        self.verify_concept(&mut errors, &mut seen, &self.agents, ModelConcept::Agent, workspace);
        self.verify_concept(
            &mut errors,
            &mut seen,
            &self.messages,
            ModelConcept::Message,
            workspace,
        );
        self.verify_concept(&mut errors, &mut seen, &self.goals, ModelConcept::Goal, workspace);
        self.verify_concept(&mut errors, &mut seen, &self.plans, ModelConcept::Plan, workspace);
        self.verify_concept(&mut errors, &mut seen, &self.roles, ModelConcept::Role, workspace);
        self.verify_concept(
            &mut errors,
            &mut seen,
            &self.resources,
            ModelConcept::Resource,
            workspace,
        );
        self.verify_concept(
            &mut errors,
            &mut seen,
            &self.tactics,
            ModelConcept::Tactic,
            workspace,
        );
        self.verify_concept(
            &mut errors,
            &mut seen,
            &self.actions,
            ModelConcept::Action,
            workspace,
        );
        self.verify_concept(
            &mut errors,
            &mut seen,
            &self.services,
            ModelConcept::Service,
            workspace,
        );
        self.verify_concept(&mut errors, &mut seen, &self.enums, ModelConcept::Enum, workspace);
        self.verify_concept(&mut errors, &mut seen, &self.events, ModelConcept::Event, workspace);
        errors
    }
}

} // verus!
