//! The records that validation reports.

use crate::text::{join3, push_char};
use vstd::prelude::*;
use vstd::string::StrSliceExecFns;

verus! {

/// The closed set of findings that validation can report.
#[derive(Debug, Clone, PartialEq, Eq, Structural)]
pub enum ErrorType {
    /// The model could not be read from its serialized form.
    JsonDeserialisationFailure,
    /// The findings could not be written in serialized form.
    JsonSerialisationFailure,
    /// A text that must have content is empty.
    ZeroSizeString,
    /// A referenced message is not declared.
    MessageNotFound,
    /// A referenced action is not declared.
    ActionNotFound,
    /// Two fields of one message or enum collide.
    MessageDuplicateFields,
    /// A sleep task has no duration.
    TaskSleepDurationNotFound,
    /// A goal task does not say whether it runs asynchronously.
    TaskAsyncNotFound,
    /// An action or goal task has no mappings.
    TaskMappingsNotFound,
    /// A task lacks a field.
    TaskMissingField,
    /// A task has no type.
    TaskIsNone,
    /// A referenced goal is not declared.
    GoalNotFound,
    /// A referenced plan is not declared.
    PlanNotFound,
    /// A plan handles no goal.
    PlanMissingGoalToHandle,
    /// A referenced resource is not declared.
    ResourceNotFound,
    /// A resource's minimum lies above its maximum.
    ResourceMinMaxSwapped,
    /// A resource's minimum equals its maximum.
    ResourceMinMaxEqual,
    /// A referenced role is not declared.
    RoleNotFound,
    /// A referenced tactic is not declared.
    TacticNotFound,
    /// Two declarations, or two entries of one list, collide.
    DuplicateName,
    /// No plan handles the goal.
    NoPlansForGoal,
    /// No plan can pursue the goal.
    NoPlansCanPursueGoal,
    /// A goal reads a belief that its agent does not hold.
    BeliefsetInGoalNotInAgent,
    /// A plan uses an action that its agent does not handle.
    ActionHandlersNotInAgent,
    /// A goal requires a resource that its agent does not own.
    AgentGoalNoResource,
    /// A field's custom type is not a declared message.
    CustomTypeNotFound,
    /// A referenced service is not declared.
    ServiceNotFound,
    /// A declaration is named like its own kind.
    NameSameAsType,
    /// A message is named like a message kind.
    NameSameAsMessageType,
    /// A field's custom type is the message that holds the field.
    CustomTypeIsCurrentMessage,
    /// A tactic lists a plan that handles another goal.
    TacticGoalNotSupportedByPlan,
    /// A tactic's plan loop count is out of range.
    TacticPlanLoopValueOutOfBounds,
    /// An event presets a field that its message does not have.
    DefaultValueFieldNotFound,
    /// No finding; never reported.
    Nil,
}

impl Default for ErrorType {
    fn default() -> (r: Self)
        ensures
            r == ErrorType::Nil,
    {
        ErrorType::Nil
    }
}

/// One finding: where it is, by name and by position, what it is, and a
/// sentence for a human reader.
#[derive(Debug, Default, Clone, PartialEq, Eq)]
pub struct ModelError {
    /// Dotted paths by name, such as `goals.MyGoal.resources.Fuel`.
    pub keys: Vec<String>,
    /// Dotted paths by position, such as `goals.3.resources.1`.
    pub machine_keys: Vec<String>,
    pub error_type: ErrorType,
    pub error_string: String,
}

/// A finding as plain mathematical data.
pub struct ModelErrorView {
    pub keys: Seq<Seq<char>>,
    pub machine_keys: Seq<Seq<char>>,
    pub error_type: ErrorType,
    pub error_string: Seq<char>,
}

/// The texts that a list of strings holds.
pub open spec fn texts(v: Seq<String>) -> Seq<Seq<char>> {
    v.map_values(|s: String| s@)
}

impl View for ModelError {
    type V = ModelErrorView;

    open spec fn view(&self) -> ModelErrorView {
        ModelErrorView {
            keys: texts(self.keys@),
            machine_keys: texts(self.machine_keys@),
            error_type: self.error_type,
            error_string: self.error_string@,
        }
    }
}

/// The findings that a list of error records holds, in order.
pub open spec fn findings(v: Seq<ModelError>) -> Seq<ModelErrorView> {
    v.map_values(|e: ModelError| e@)
}

/// A finding at one location.
pub open spec fn finding(
    key: Seq<char>,
    machine_key: Seq<char>,
    error_type: ErrorType,
    error_string: Seq<char>,
) -> ModelErrorView {
    ModelErrorView { keys: seq![key], machine_keys: seq![machine_key], error_type, error_string }
}

/// A finding at a location that has no path by name.
pub open spec fn finding_unnamed(
    machine_key: Seq<char>,
    error_type: ErrorType,
    error_string: Seq<char>,
) -> ModelErrorView {
    ModelErrorView {
        keys: Seq::empty(),
        machine_keys: seq![machine_key],
        error_type,
        error_string,
    }
}

/// A finding that relates two locations; both path lists name them in the
/// same order.
pub open spec fn finding_pair(
    key: Seq<char>,
    other_key: Seq<char>,
    machine_key: Seq<char>,
    other_machine_key: Seq<char>,
    error_type: ErrorType,
    error_string: Seq<char>,
) -> ModelErrorView {
    ModelErrorView {
        keys: seq![key, other_key],
        machine_keys: seq![machine_key, other_machine_key],
        error_type,
        error_string,
    }
}

impl ModelError {
    /// A finding with the given paths, kind and sentence.
    pub fn new(
        keys: Vec<String>,
        machine_keys: Vec<String>,
        error_type: ErrorType,
        error_string: String,
    ) -> (r: Self)
        ensures
            r.keys == keys,
            r.machine_keys == machine_keys,
            r.error_type == error_type,
            r.error_string == error_string,
    {
        ModelError { keys, machine_keys, error_type, error_string }
    }

    /// The record of a finding at one location.
    pub fn at(key: String, machine_key: String, error_type: ErrorType, error_string: String) -> (r:
        Self)
        ensures
            r@ == finding(key@, machine_key@, error_type, error_string@),
    {
        let mut keys: Vec<String> = Vec::new();
        keys.push(key);
        let mut machine_keys: Vec<String> = Vec::new();
        machine_keys.push(machine_key);
        let r = ModelError::new(keys, machine_keys, error_type, error_string);
        assert(r@.keys =~= seq![key@]);
        assert(r@.machine_keys =~= seq![machine_key@]);
        r
    }

    /// The record of a finding at a location that has no path by name.
    pub fn unnamed(machine_key: String, error_type: ErrorType, error_string: String) -> (r: Self)
        ensures
            r@ == finding_unnamed(machine_key@, error_type, error_string@),
    {
        let keys: Vec<String> = Vec::new();
        let mut machine_keys: Vec<String> = Vec::new();
        machine_keys.push(machine_key);
        let r = ModelError::new(keys, machine_keys, error_type, error_string);
        assert(r@.keys =~= Seq::empty());
        assert(r@.machine_keys =~= seq![machine_key@]);
        r
    }

    /// The record of a finding that relates two locations.
    pub fn between(
        key: String,
        other_key: String,
        machine_key: String,
        other_machine_key: String,
        error_type: ErrorType,
        error_string: String,
    ) -> (r: Self)
        ensures
            r@ == finding_pair(
                key@,
                other_key@,
                machine_key@,
                other_machine_key@,
                error_type,
                error_string@,
            ),
    {
        let mut keys: Vec<String> = Vec::new();
        keys.push(key);
        keys.push(other_key);
        let mut machine_keys: Vec<String> = Vec::new();
        machine_keys.push(machine_key);
        machine_keys.push(other_machine_key);
        let r = ModelError::new(keys, machine_keys, error_type, error_string);
        assert(r@.keys =~= seq![key@, other_key@]);
        assert(r@.machine_keys =~= seq![machine_key@, other_machine_key@]);
        r
    }
}

/// The character that writes the hexadecimal digit `d`.
pub open spec fn hex_digit(d: int) -> char {
    if d >= 0 && 10 > d {
        ('0' as u8 + d) as char
    } else {
        ('a' as u8 + (d - 10)) as char
    }
}

/// A character as a JSON text holds it: a double quote and a backslash
/// each after a backslash, a control character by its number, any other
/// character as it is.
pub open spec fn json_escaped_char(c: char) -> Seq<char> {
    if c == '"' {
        seq!['\\', '"']
    } else if c == '\\' {
        seq!['\\', '\\']
    } else if ' ' > c {
        seq!['\\', 'u', '0', '0', hex_digit((c as int) / 16), hex_digit((c as int) % 16)]
    } else {
        seq![c]
    }
}

/// The first `n` characters of a text as a JSON text holds them.
pub open spec fn json_escaped(text: Seq<char>, n: int) -> Seq<char>
    decreases n,
{
    if n <= 0 {
        Seq::empty()
    } else {
        json_escaped(text, n - 1) + json_escaped_char(text[n - 1])
    }
}

/// The report, written by hand as JSON, that stands in for a report that
/// could not be read or written: a list of one finding without paths that
/// says `message`. It is JSON whatever the message holds.
pub open spec fn failure_report(message: Seq<char>) -> Seq<char> {
    "[{ \"keys\" : [], \"machine_keys\" : [], \"error_type\" : \"JsonSerialisationFailure\", \"error_string\" : \""@
        + json_escaped(message, message.len() as int) + "\" }]"@
}

fn hex_char(d: u8) -> (r: char)
    requires
        d < 16,
    ensures
        r == hex_digit(d as int),
{
    if d < 10 {
        (48u8 + d) as char
    } else {
        (87u8 + d) as char
    }
}

/// Writes a text as a JSON text holds it.
pub fn escape_json(text: &str) -> (r: String)
    ensures
        r@ == json_escaped(text@, text@.len() as int),
{
    let mut result = String::new();
    let n = text.unicode_len();
    let mut i: usize = 0;
    assert(result@ =~= json_escaped(text@, 0));
    while i < n
        invariant
            i <= n,
            n == text@.len(),
            result@ == json_escaped(text@, i as int),
        decreases n - i,
    {
        let ghost before = result@;
        let c = text.get_char(i);
        if c == '"' {
            push_char(&mut result, '\\');
            push_char(&mut result, '"');
        } else if c == '\\' {
            push_char(&mut result, '\\');
            push_char(&mut result, '\\');
        } else if ' ' > c {
            let code = c as u8;
            push_char(&mut result, '\\');
            push_char(&mut result, 'u');
            push_char(&mut result, '0');
            push_char(&mut result, '0');
            push_char(&mut result, hex_char(code / 16));
            push_char(&mut result, hex_char(code % 16));
        } else {
            push_char(&mut result, c);
        }
        assert(result@ =~= before + json_escaped_char(c));
        i = i + 1;
    }
    result
}

/// Writes the report that stands in for one that could not be read or
/// written.
pub fn write_failure_report(message: &str) -> (r: String)
    ensures
        r@ == failure_report(message@),
{
    let escaped = escape_json(message);
    join3(
        "[{ \"keys\" : [], \"machine_keys\" : [], \"error_type\" : \"JsonSerialisationFailure\", \"error_string\" : \"",
        escaped.as_str(),
        "\" }]",
    )
}

/// Adds one finding at the end of a report.
pub fn report(errors: &mut Vec<ModelError>, error: ModelError)
    ensures
        findings(final(errors)@) == findings(old(errors)@).push(error@),
{
    errors.push(error);
    assert(findings(errors@) =~= findings(old(errors)@).push(error@));
}

/// Adds the findings of `more` at the end of a report, in their order.
pub fn report_all(errors: &mut Vec<ModelError>, more: Vec<ModelError>)
    ensures
        findings(final(errors)@) == findings(old(errors)@) + findings(more@),
{
    let mut more = more;
    let ghost added = more@;
    errors.append(&mut more);
    assert(findings(errors@) =~= findings(old(errors)@) + findings(added));
}

} // verus!
