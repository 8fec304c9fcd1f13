//! The checks of an event.

use crate::concept::{first_named, first_position, named_position, ModelConcept};
use crate::error::{finding, findings, report, ErrorType, ModelError, ModelErrorView};
use crate::model::Model;
use crate::references::{check_repeated_name, repeated_name_findings};
use crate::schema::{Event, Message};
use crate::text::{decimal, index_to_string, join3, join4, join7};
use crate::validate::Checked;
use crate::workspace::ProjectWorkspace;
use vstd::prelude::*;

verus! {

impl Event {
    /// Whether the module declares the message of the event: the message
    /// is set, and a message is declared with its identity.
    pub open spec fn spec_message_resolves(&self, model: Model) -> bool {
        self.message.id.name@.len() > 0 && model.spec_find_message(self.message.id)
    }

    /// The message of the event, where the module declares it.
    pub open spec fn spec_message(&self, model: Model) -> Message {
        model.messages@[first_position(model.messages@, self.message.id.uuid@)]
    }

    /// The sentence on the preset at `i`, which says `what` is wrong.
    pub open spec fn spec_preset_text(&self, i: int, what: Seq<char>, link: Seq<char>) -> Seq<
        char,
    > {
        "Event '"@ + self.id.spec_qualified_name() + what + self.message.defaults@[i].name@ + link
            + self.message.id.spec_qualified_name() + "'"@
    }

    /// The finding on the preset at `i` where the message has no field of
    /// its name.
    pub open spec fn spec_unknown_field(&self, model: Model, index: int, i: int) -> Seq<
        ModelErrorView,
    > {
        let preset = self.message.defaults@[i];
        let fields = self.spec_message(model).fields@;
        if first_named(fields, preset.name@) == fields.len() {
            seq![
                finding(
                    "events."@ + self.id.spec_qualified_name() + ".defaults."@ + preset.name@,
                    "events."@ + decimal(index as nat) + ".defaults."@ + decimal(i as nat),
                    ErrorType::DefaultValueFieldNotFound,
                    self.spec_preset_text(
                        i,
                        "' specifies a default value for field '"@,
                        "' which does not exist in message '"@,
                    ),
                ),
            ]
        } else {
            Seq::empty()
        }
    }

    /// The findings on the preset at `i`: one where the message has no such
    /// field, one where an earlier preset is for the same field.
    pub open spec fn spec_preset_findings(&self, model: Model, index: int, i: int) -> Seq<
        ModelErrorView,
    > {
        self.spec_unknown_field(model, index, i) + repeated_name_findings(
            self.message.defaults@,
            "events."@ + self.id.spec_qualified_name() + ".fields"@,
            "events."@ + decimal(index as nat) + ".fields"@,
            self.spec_preset_text(
                i,
                "' specifies duplicate a default value for field '"@,
                "' in message '"@,
            ),
            i,
        )
    }

    /// The findings on the first `n` presets, preset by preset.
    pub open spec fn spec_presets_findings(&self, model: Model, index: int, n: int) -> Seq<
        ModelErrorView,
    >
        decreases n,
    {
        if n <= 0 {
            Seq::empty()
        } else {
            self.spec_presets_findings(model, index, n - 1) + self.spec_preset_findings(
                model,
                index,
                n - 1,
            )
        }
    }

    /// The finding on an event whose message the module does not declare.
    pub open spec fn spec_no_message(&self, index: int) -> ModelErrorView {
        finding(
            "events."@ + self.id.spec_qualified_name() + ".id"@,
            "events."@ + decimal(index as nat) + ".id"@,
            ErrorType::MessageNotFound,
            "Event uses a message '"@ + self.id.spec_qualified_name() + "' that does not exist."@,
        )
    }

    fn preset_text(&self, i: usize, what: &str, link: &str) -> (r: String)
        requires
            i < self.message.defaults@.len(),
        ensures
            r@ == self.spec_preset_text(i as int, what@, link@),
    {
        let name = self.id.qualified_name();
        let message = self.message.id.qualified_name();
        join7(
            "Event '",
            name.as_str(),
            what,
            self.message.defaults[i].name.as_str(),
            link,
            message.as_str(),
            "'",
        )
    }

    /// Checks the preset at `i` against the message `message` of the event.
    pub fn check_preset(
        &self,
        errors: &mut Vec<ModelError>,
        model: &Model,
        message: &Message,
        index: usize,
        i: usize,
    )
        requires
            i < self.message.defaults@.len(),
            self.spec_message_resolves(*model),
            *message == self.spec_message(*model),
        ensures
            findings(final(errors)@) == findings(old(errors)@) + self.spec_preset_findings(
                *model,
                index as int,
                i as int,
            ),
    {
        let name = self.id.qualified_name();
        let at = index_to_string(index);
        let at_i = index_to_string(i);
        let preset = &self.message.defaults[i];
        if named_position(&message.fields, &preset.name).is_none() {
            report(
                errors,
                ModelError::at(
                    join4("events.", name.as_str(), ".defaults.", preset.name.as_str()),
                    join4("events.", at.as_str(), ".defaults.", at_i.as_str()),
                    ErrorType::DefaultValueFieldNotFound,
                    self.preset_text(
                        i,
                        "' specifies a default value for field '",
                        "' which does not exist in message '",
                    ),
                ),
            );
        }
        assert(findings(errors@) =~= findings(old(errors)@) + self.spec_unknown_field(
            *model,
            index as int,
            i as int,
        ));
        check_repeated_name(
            errors,
            &self.message.defaults,
            join3("events.", name.as_str(), ".fields").as_str(),
            join3("events.", at.as_str(), ".fields").as_str(),
            self.preset_text(i, "' specifies duplicate a default value for field '", "' in message '"),
            i,
        );
    }
}

impl Checked for Event {
    /// The findings on an event: where the module declares its message,
    /// those on the presets; else one on the message.
    open spec fn spec_verify(
        &self,
        concept: ModelConcept,
        model: Model,
        workspace: Seq<Model>,
        index: int,
    ) -> Seq<ModelErrorView> {
        if self.spec_message_resolves(model) {
            self.spec_presets_findings(model, index, self.message.defaults@.len() as int)
        } else {
            seq![self.spec_no_message(index)]
        }
    }

    fn verify(
        &self,
        concept: ModelConcept,
        model: &Model,
        workspace: &ProjectWorkspace,
        index: usize,
    ) -> (r: Vec<ModelError>) {
        let mut errors: Vec<ModelError> = Vec::new();
        assert(findings(errors@) =~= Seq::empty());
        match model.get_message(&self.message.id) {
            Ok(message) => {
                let mut i: usize = 0;
                while i < self.message.defaults.len()
                    invariant
                        i <= self.message.defaults@.len(),
                        self.spec_message_resolves(*model),
                        *message == self.spec_message(*model),
                        findings(errors@) == self.spec_presets_findings(
                            *model,
                            index as int,
                            i as int,
                        ),
                    decreases self.message.defaults@.len() - i,
                {
                    self.check_preset(&mut errors, model, message, index, i);
                    i = i + 1;
                }
            },
            Err(_) => {
                let name = self.id.qualified_name();
                let at = index_to_string(index);
                report(
                    &mut errors,
                    ModelError::at(
                        join3("events.", name.as_str(), ".id"),
                        join3("events.", at.as_str(), ".id"),
                        ErrorType::MessageNotFound,
                        join3("Event uses a message '", name.as_str(), "' that does not exist."),
                    ),
                );
                assert(findings(errors@) =~= seq![self.spec_no_message(index as int)]);
            },
        }
        errors
    }
}

} // verus!
