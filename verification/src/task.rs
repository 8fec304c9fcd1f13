//! What generated code needs to know of a task, and the labels of the tasks
//! of a plan.

use crate::concept::{first_named, lemma_name_position_from, named_position, Named};
use crate::schema::{Field, FieldType, Mapping, Plan, Task, TaskType};
use crate::text::{
    bumpy_case, convert_to_bumpy_case, decimal, index_to_string, join5, reads_within,
    remove_char, without,
};
use vstd::prelude::*;
use vstd::string::{StrSliceExecFns, StringExecFns};

verus! {

/// Whether a text reads as an 8-bit signed integer: it writes an integer
/// in decimal that the type holds.
pub open spec fn reads_as_i8(text: Seq<char>) -> bool {
    reads_within(text, true, -0x80, 0x7f)
}

/// Whether a text reads as an 8-bit signed integer. This is `str::parse` of
/// the standard library at the type `i8`, of which only success is asked.
/// It reads an optional sign and then decimal digits only, and fails on an
/// empty text, on any other character and on a number that the type does
/// not hold; this is taken on trust.
#[verifier::external_body]
fn parses_as_i8(text: &str) -> (r: bool)
    ensures
        r == reads_as_i8(text@),
{
    text.parse::<i8>().is_ok()
}

/// Whether a text reads as a 16-bit signed integer: it writes an integer
/// in decimal that the type holds.
pub open spec fn reads_as_i16(text: Seq<char>) -> bool {
    reads_within(text, true, -0x8000, 0x7fff)
}

/// Whether a text reads as a 16-bit signed integer. This is `str::parse` of
/// the standard library at the type `i16`, of which only success is asked.
/// It reads an optional sign and then decimal digits only, and fails on an
/// empty text, on any other character and on a number that the type does
/// not hold; this is taken on trust.
#[verifier::external_body]
fn parses_as_i16(text: &str) -> (r: bool)
    ensures
        r == reads_as_i16(text@),
{
    text.parse::<i16>().is_ok()
}

/// Whether a text reads as a 32-bit signed integer: it writes an integer
/// in decimal that the type holds.
pub open spec fn reads_as_i32(text: Seq<char>) -> bool {
    reads_within(text, true, -0x8000_0000, 0x7fff_ffff)
}

/// Whether a text reads as a 32-bit signed integer. This is `str::parse` of
/// the standard library at the type `i32`, of which only success is asked.
/// It reads an optional sign and then decimal digits only, and fails on an
/// empty text, on any other character and on a number that the type does
/// not hold; this is taken on trust.
#[verifier::external_body]
fn parses_as_i32(text: &str) -> (r: bool)
    ensures
        r == reads_as_i32(text@),
{
    text.parse::<i32>().is_ok()
}

/// Whether a text reads as a 64-bit signed integer: it writes an integer
/// in decimal that the type holds.
pub open spec fn reads_as_i64(text: Seq<char>) -> bool {
    reads_within(text, true, -0x8000_0000_0000_0000, 0x7fff_ffff_ffff_ffff)
}

/// Whether a text reads as a 64-bit signed integer. This is `str::parse` of
/// the standard library at the type `i64`, of which only success is asked.
/// It reads an optional sign and then decimal digits only, and fails on an
/// empty text, on any other character and on a number that the type does
/// not hold; this is taken on trust.
#[verifier::external_body]
fn parses_as_i64(text: &str) -> (r: bool)
    ensures
        r == reads_as_i64(text@),
{
    text.parse::<i64>().is_ok()
}

/// Whether a text reads as an 8-bit unsigned integer: it writes an integer
/// in decimal that the type holds.
pub open spec fn reads_as_u8(text: Seq<char>) -> bool {
    reads_within(text, false, 0, 0xff)
}

/// Whether a text reads as an 8-bit unsigned integer. This is `str::parse` of
/// the standard library at the type `u8`, of which only success is asked.
/// It reads an optional sign and then decimal digits only, and fails on an
/// empty text, on any other character and on a number that the type does
/// not hold; this is taken on trust.
#[verifier::external_body]
fn parses_as_u8(text: &str) -> (r: bool)
    ensures
        r == reads_as_u8(text@),
{
    text.parse::<u8>().is_ok()
}

/// Whether a text reads as a 16-bit unsigned integer: it writes an integer
/// in decimal that the type holds.
pub open spec fn reads_as_u16(text: Seq<char>) -> bool {
    reads_within(text, false, 0, 0xffff)
}

/// Whether a text reads as a 16-bit unsigned integer. This is `str::parse` of
/// the standard library at the type `u16`, of which only success is asked.
/// It reads an optional sign and then decimal digits only, and fails on an
/// empty text, on any other character and on a number that the type does
/// not hold; this is taken on trust.
#[verifier::external_body]
fn parses_as_u16(text: &str) -> (r: bool)
    ensures
        r == reads_as_u16(text@),
{
    text.parse::<u16>().is_ok()
}

/// Whether a text reads as a 32-bit unsigned integer: it writes an integer
/// in decimal that the type holds.
pub open spec fn reads_as_u32(text: Seq<char>) -> bool {
    reads_within(text, false, 0, 0xffff_ffff)
}

/// Whether a text reads as a 32-bit unsigned integer. This is `str::parse` of
/// the standard library at the type `u32`, of which only success is asked.
/// It reads an optional sign and then decimal digits only, and fails on an
/// empty text, on any other character and on a number that the type does
/// not hold; this is taken on trust.
#[verifier::external_body]
fn parses_as_u32(text: &str) -> (r: bool)
    ensures
        r == reads_as_u32(text@),
{
    text.parse::<u32>().is_ok()
}

/// Whether a text reads as a 64-bit unsigned integer: it writes an integer
/// in decimal that the type holds.
pub open spec fn reads_as_u64(text: Seq<char>) -> bool {
    reads_within(text, false, 0, 0xffff_ffff_ffff_ffff)
}

/// Whether a text reads as a 64-bit unsigned integer. This is `str::parse` of
/// the standard library at the type `u64`, of which only success is asked.
/// It reads an optional sign and then decimal digits only, and fails on an
/// empty text, on any other character and on a number that the type does
/// not hold; this is taken on trust.
#[verifier::external_body]
fn parses_as_u64(text: &str) -> (r: bool)
    ensures
        r == reads_as_u64(text@),
{
    text.parse::<u64>().is_ok()
}

/// A text without the white space at its start and at its end, as the
/// standard library's `str::trim` gives it.
pub uninterp spec fn trimmed(text: Seq<char>) -> Seq<char>;

/// Takes the white space off both ends of a text. This is `str::trim` of
/// the standard library, whose result depends on the text alone; the
/// result is named, not described.
#[verifier::external_body]
fn trim(text: &str) -> (r: String)
    ensures
        r@ == trimmed(text@),
{
    text.trim().to_string()
}

/// The position of the first comma of a text at or after `start`; the
/// length of the text where there is none.
pub open spec fn comma_from(text: Seq<char>, start: int) -> int
    decreases text.len() - start,
{
    if start < 0 || start >= text.len() {
        text.len() as int
    } else if text[start] == ',' {
        start
    } else {
        comma_from(text, start + 1)
    }
}

/// The two parts of a pair of coordinates: what stands before and after
/// the comma, each without white space at its ends. A text without a comma
/// or with more than one is no pair.
pub open spec fn pair_parts(text: Seq<char>) -> Option<(Seq<char>, Seq<char>)> {
    let comma = comma_from(text, 0);
    if comma < text.len() && comma_from(text, comma + 1) == text.len() {
        Some(
            (
                trimmed(text.subrange(0, comma)),
                trimmed(text.subrange(comma + 1, text.len() as int)),
            ),
        )
    } else {
        None
    }
}

proof fn lemma_comma_from(text: Seq<char>, start: int)
    requires
        0 <= start <= text.len(),
    ensures
        start <= comma_from(text, start) <= text.len(),
    decreases text.len() - start,
{
    if start < text.len() && text[start] != ',' {
        lemma_comma_from(text, start + 1);
    }
}

fn find_comma(text: &str, start: usize) -> (r: usize)
    requires
        start <= text@.len(),
    ensures
        r as int == comma_from(text@, start as int),
        start <= r <= text@.len(),
{
    let n = text.unicode_len();
    let mut i: usize = start;
    proof {
        lemma_comma_from(text@, start as int);
    }
    while i < n
        invariant
            start <= i <= n,
            n == text@.len(),
            comma_from(text@, start as int) == comma_from(text@, i as int),
        decreases n - i,
    {
        if text.get_char(i) == ',' {
            return i;
        }
        i = i + 1;
    }
    i
}

/// A mapping is told apart by the parameter that it binds.
impl Named for Mapping {
    open spec fn spec_name(&self) -> Seq<char> {
        self.to@
    }

    fn get_name(&self) -> (r: &String) {
        &self.to
    }
}

impl Task {
    /// The type of the task.
    pub fn get_type(&self) -> (r: TaskType)
        ensures
            r == self.task_type,
    {
        self.task_type
    }

    /// Whether the task has what its label is made of: an action task its
    /// action, a goal task its goal, a condition task its text.
    pub open spec fn spec_has_label(&self) -> bool {
        match self.task_type {
            TaskType::action => self.action is Some,
            TaskType::goal => self.goal is Some,
            TaskType::condition => self.conditiontext is Some,
            _ => true,
        }
    }

    /// The label of the task: the variable name of its action or goal, its
    /// condition text, or `Sleep`; empty for a task without a type.
    pub open spec fn spec_label(&self) -> Seq<char> {
        match self.task_type {
            TaskType::action => self.action->0.spec_variable_name(),
            TaskType::sleep => "Sleep"@,
            TaskType::goal => self.goal->0.spec_variable_name(),
            TaskType::condition => self.conditiontext->0@,
            TaskType::Nil => Seq::empty(),
        }
    }

    /// The label of the task. The task must have what its label is made of.
    pub fn get_label(&self) -> (r: String)
        requires
            self.spec_has_label(),
        ensures
            r@ == self.spec_label(),
    {
        match self.task_type {
            TaskType::action => match &self.action {
                Some(action) => action.variable_name(),
                None => String::new(),
            },
            TaskType::sleep => String::from_str("Sleep"),
            TaskType::goal => match &self.goal {
                Some(goal) => goal.variable_name(),
                None => String::new(),
            },
            TaskType::condition => match &self.conditiontext {
                Some(text) => text.clone(),
                None => String::new(),
            },
            TaskType::Nil => String::new(),
        }
    }

    /// The label of the task in bumpy case.
    pub fn get_bumpy_case_label(&self) -> (r: String)
        requires
            self.spec_has_label(),
        ensures
            r@ == bumpy_case(self.spec_label(), self.spec_label().len() as int),
    {
        let label = self.get_label();
        convert_to_bumpy_case(label.as_str())
    }

    /// The condition text in bumpy case; empty where the task has none.
    pub fn get_condition_text(&self) -> (r: String)
        ensures
            r@ == match self.conditiontext {
                Some(text) => bumpy_case(text@, text@.len() as int),
                None => Seq::empty(),
            },
    {
        match &self.conditiontext {
            Some(val) => convert_to_bumpy_case(val.as_str()),
            None => String::new(),
        }
    }

    /// Whether the task is marked to run asynchronously.
    pub fn is_async(&self) -> (r: bool)
        ensures
            r == (self.is_async == Some(true)),
    {
        match self.is_async {
            Some(val) => val,
            None => false,
        }
    }

    /// What is bound to the parameter `param_name`: the source of the first
    /// mapping to it, where the task has mappings and one of them binds the
    /// parameter.
    pub open spec fn spec_mapping(&self, param_name: Seq<char>) -> Option<Seq<char>> {
        match self.mappings {
            Some(mappings) => if first_named(mappings@, param_name) < mappings@.len() {
                Some(mappings@[first_named(mappings@, param_name)].from@)
            } else {
                None
            },
            None => None,
        }
    }

    /// What is bound to the parameter `param_name`.
    pub fn get_mapping(&self, param_name: &str) -> (r: Option<String>)
        ensures
            r is Some <==> self.spec_mapping(param_name@) is Some,
            r is Some ==> r->0@ == self.spec_mapping(param_name@)->0,
    {
        match &self.mappings {
            Some(mappings) => {
                let wanted = String::from_str(param_name);
                proof {
                    lemma_name_position_from(mappings@, param_name@, 0);
                }
                match named_position(mappings, &wanted) {
                    Some(i) => Some(mappings[i].from.clone()),
                    None => None,
                }
            },
            None => None,
        }
    }

    /// Whether something is bound to the parameter `param_name`.
    pub fn has_mapping(&self, param_name: &str) -> (r: bool)
        ensures
            r == self.spec_mapping(param_name@) is Some,
    {
        self.get_mapping(param_name).is_some()
    }

    /// Whether a truth value is bound to the parameter `param_name`: the
    /// text `true` or the text `false`.
    pub fn is_mapping_bool(&self, param_name: &str) -> (r: bool)
        ensures
            r == (self.spec_mapping(param_name@) is Some && (self.spec_mapping(param_name@)->0
                == "true"@ || self.spec_mapping(param_name@)->0 == "false"@)),
    {
        match self.get_mapping(param_name) {
            Some(from) => from == String::from_str("true") || from == String::from_str("false"),
            None => false,
        }
    }

    /// The two parts of a text that writes a pair of coordinates, each to
    /// be read as a number; none where the text is no pair.
    pub fn vec2_parts(text: &str) -> (r: Option<(String, String)>)
        ensures
            match (r, pair_parts(text@)) {
                (Some(parts), Some(pair)) => parts.0@ == pair.0 && parts.1@ == pair.1,
                (None, None) => true,
                _ => false,
            },
    {
        let n = text.unicode_len();
        let comma = find_comma(text, 0);
        if comma < n {
            let next = find_comma(text, comma + 1);
            if next == n {
                let first = trim(text.substring_char(0, comma));
                let second = trim(text.substring_char(comma + 1, n));
                return Some((first, second));
            }
        }
        None
    }

    /// Whether `text` is a literal of the type `field_type`. `reads_as_float`
    /// says whether the text reads as what a field of a floating-point
    /// type holds: a number, or for a pair of coordinates that both parts
    /// of the pair are numbers. A text literal stands in double quotes; a nested
    /// message has no literals.
    pub open spec fn spec_literal_of(
        text: Seq<char>,
        field_type: FieldType,
        reads_as_float: bool,
    ) -> bool {
        match field_type {
            FieldType::Bool => text == "true"@ || text == "false"@,
            FieldType::I8 => reads_as_i8(text),
            FieldType::I16 => reads_as_i16(text),
            FieldType::I32 => reads_as_i32(text),
            FieldType::I64 => reads_as_i64(text),
            FieldType::U8 => reads_as_u8(text),
            FieldType::U16 => reads_as_u16(text),
            FieldType::U32 => reads_as_u32(text),
            FieldType::U64 => reads_as_u64(text),
            FieldType::F32 => reads_as_float,
            FieldType::F64 => reads_as_float,
            FieldType::String => text.len() > 0 && text[0] == '"' && text.last() == '"',
            FieldType::Custom(_) => false,
            FieldType::Enum(_) => reads_as_i32(text),
            FieldType::Vec2 => reads_as_float,
            FieldType::Nil => false,
        }
    }

    /// Whether a literal of the type of `field` is bound to the parameter
    /// of its name.
    pub fn is_literal_mapping(&self, field: Field, reads_as_float: bool) -> (r: bool)
        ensures
            r == (self.spec_mapping(field.name@) is Some && Task::spec_literal_of(
                self.spec_mapping(field.name@)->0,
                field.field_type,
                reads_as_float,
            )),
    {
        match self.get_mapping(field.name.as_str()) {
            Some(text) => match field.field_type {
                FieldType::Bool => text == String::from_str("true") || text == String::from_str(
                    "false",
                ),
                FieldType::I8 => parses_as_i8(text.as_str()),
                FieldType::I16 => parses_as_i16(text.as_str()),
                FieldType::I32 => parses_as_i32(text.as_str()),
                FieldType::I64 => parses_as_i64(text.as_str()),
                FieldType::U8 => parses_as_u8(text.as_str()),
                FieldType::U16 => parses_as_u16(text.as_str()),
                FieldType::U32 => parses_as_u32(text.as_str()),
                FieldType::U64 => parses_as_u64(text.as_str()),
                FieldType::F32 => reads_as_float,
                FieldType::F64 => reads_as_float,
                FieldType::String => {
                    let n = text.as_str().unicode_len();
                    n > 0 && text.as_str().get_char(0) == '"' && text.as_str().get_char(n - 1)
                        == '"'
                },
                FieldType::Custom(_) => false,
                FieldType::Enum(_) => parses_as_i32(text.as_str()),
                FieldType::Vec2 => reads_as_float,
                FieldType::Nil => false,
            },
            None => false,
        }
    }

    /// Whether a 32-bit integer is bound to the parameter `param_name`.
    pub fn is_mapping_int(&self, param_name: &str) -> (r: bool)
        ensures
            r == (self.spec_mapping(param_name@) is Some && reads_as_i32(
                self.spec_mapping(param_name@)->0,
            )),
    {
        match self.get_mapping(param_name) {
            Some(from) => parses_as_i32(from.as_str()),
            None => false,
        }
    }
}

/// The labels of the first `n` of `tasks` that have the id `id`, each as
/// its position followed by its label in bumpy case, in a row.
pub open spec fn numbered_labels(tasks: Seq<Task>, id: Seq<char>, n: int) -> Seq<char>
    decreases n,
{
    if n <= 0 {
        Seq::empty()
    } else if tasks[n - 1].id@ == id {
        numbered_labels(tasks, id, n - 1) + decimal((n - 1) as nat) + bumpy_case(
            tasks[n - 1].spec_label(),
            tasks[n - 1].spec_label().len() as int,
        )
    } else {
        numbered_labels(tasks, id, n - 1)
    }
}

impl Plan {
    /// A 32-digit id as two 64-bit literals: the hyphens are left out, and
    /// each half of what remains is written as a hexadecimal literal.
    pub open spec fn spec_hex16_pair(id: Seq<char>) -> Seq<char> {
        let digits = without(id, '-', id.len() as int);
        let half = digits.len() / 2;
        "0x"@ + digits.subrange(0, half as int) + "ULL, 0x"@ + digits.subrange(
            half as int,
            digits.len() as int,
        ) + "ULL"@
    }

    /// A 32-digit id as two 64-bit literals.
    pub fn id32_to_hex16_pair_string(&self, id: &str) -> (r: String)
        ensures
            r@ == Plan::spec_hex16_pair(id@),
    {
        let input = remove_char(id, '-');
        let n = input.as_str().unicode_len();
        let half = n / 2;
        let first = input.as_str().substring_char(0, half);
        let second = input.as_str().substring_char(half, n);
        join5("0x", first, "ULL, 0x", second, "ULL")
    }

    /// Whether every task with the id `id` has what its label is made of.
    pub open spec fn spec_labelled(&self, id: Seq<char>) -> bool {
        forall|i: int|
            0 <= i < self.tasks@.len() && (#[trigger] self.tasks@[i]).id@ == id
                ==> self.tasks@[i].spec_has_label()
    }

    /// The label of the task with the id `id`: its position in the plan,
    /// then its label in bumpy case. Where the plan has no such task, a
    /// sentence that says so.
    pub open spec fn spec_task_number_id_label(&self, id: Seq<char>) -> Seq<char> {
        let label = numbered_labels(self.tasks@, id, self.tasks@.len() as int);
        if label.len() == 0 {
            "Task ID not found in plan [plan="@ + self.id.spec_qualified_name() + ", id="@ + id
                + "]"@
        } else {
            label
        }
    }

    /// The label of the task with the id `id`. Every such task must have
    /// what its label is made of.
    pub fn task_number_id_label(&self, id: &str) -> (r: String)
        requires
            self.spec_labelled(id@),
        ensures
            r@ == self.spec_task_number_id_label(id@),
    {
        let wanted = String::from_str(id);
        let mut label = String::new();
        let mut i: usize = 0;
        assert(label@ =~= numbered_labels(self.tasks@, id@, 0));
        while i < self.tasks.len()
            invariant
                i <= self.tasks@.len(),
                wanted@ == id@,
                self.spec_labelled(id@),
                label@ == numbered_labels(self.tasks@, id@, i as int),
            decreases self.tasks@.len() - i,
        {
            if self.tasks[i].id == wanted {
                let at = index_to_string(i);
                let name = self.tasks[i].get_bumpy_case_label();
                label.append(at.as_str());
                label.append(name.as_str());
            }
            i = i + 1;
        }
        if label.as_str().is_empty() {
            let name = self.id.qualified_name();
            join5("Task ID not found in plan [plan=", name.as_str(), ", id=", id, "]")
        } else {
            label
        }
    }
}

} // verus!
