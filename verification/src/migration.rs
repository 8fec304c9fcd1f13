//! Giving references their identity: a reference that names a declaration
//! by name and module is replaced by the identifier of that declaration.

use crate::concept::Identified;
use crate::identifier::Identifier;
use crate::text::integer_read;
use vstd::prelude::*;
use vstd::string::StringExecFns;

verus! {

/// The version of the current schema.
pub const VERSION_MAJOR: u32 = 0;

pub const VERSION_MINOR: u32 = 6;

pub const VERSION_PATCH: u32 = 0;

/// The version of the schema in which a model is written.
#[derive(Debug, Clone, Copy, PartialEq, Eq, Structural)]
pub struct ModelVersion {
    pub major: u32,
    pub minor: u32,
    pub patch: u32,
}

/// What the header of a model file holds for one part of its version.
#[derive(Debug, Clone)]
pub enum VersionField {
    /// The part is not there.
    Missing,
    /// The part is there and is no text.
    NotText,
    /// The part as it is written.
    Text(String),
}

/// Why the header of a model file gives no version.
#[derive(Debug, Clone, Copy, PartialEq, Eq, Structural)]
pub enum VersionError {
    /// Some parts of the version are there, others are not.
    FieldsMissing,
    /// A part of the version is no text.
    FieldsNotText,
    /// A part of the version is no number of 32 bits.
    NotNumbers,
}

/// The steps by which a model of an earlier schema is brought to the
/// current one.
#[allow(non_camel_case_types)]
#[derive(Debug, Clone, Copy, PartialEq, Eq, Structural)]
pub enum Migration {
    From_0_4_11_To_0_5_0,
    From_0_5_0_To_0_5_1,
    From_0_5_1_To_0_5_2,
    From_0_5_2_To_0_5_3,
    From_0_5_3_To_0_6_0,
}

/// The number that a text writes, where it writes an unsigned number of 32
/// bits in decimal; none where it writes none.
pub open spec fn read_u32(text: Seq<char>) -> Option<u32> {
    match integer_read(text, false) {
        Some(value) => if 0 <= value && value <= 0xffff_ffff {
            Some(value as u32)
        } else {
            None
        },
        None => None,
    }
}

/// Reads an unsigned number of 32 bits. This is `str::parse` of the
/// standard library at the type `u32`. It reads an optional plus sign and
/// then decimal digits only, and fails on an empty text, on any other
/// character and on a number above 32 bits; this is taken on trust.
#[verifier::external_body]
fn parse_u32(text: &str) -> (r: Option<u32>)
    ensures
        r == read_u32(text@),
{
    text.parse::<u32>().ok()
}

impl Migration {
    /// The version that the step leaves a model in.
    pub open spec fn spec_target(self) -> ModelVersion {
        match self {
            Migration::From_0_4_11_To_0_5_0 => ModelVersion { major: 0, minor: 5, patch: 0 },
            Migration::From_0_5_0_To_0_5_1 => ModelVersion { major: 0, minor: 5, patch: 1 },
            Migration::From_0_5_1_To_0_5_2 => ModelVersion { major: 0, minor: 5, patch: 2 },
            Migration::From_0_5_2_To_0_5_3 => ModelVersion { major: 0, minor: 5, patch: 3 },
            Migration::From_0_5_3_To_0_6_0 => ModelVersion { major: 0, minor: 6, patch: 0 },
        }
    }

    /// The version that the step leaves a model in.
    pub fn target(self) -> (r: ModelVersion)
        ensures
            r == self.spec_target(),
    {
        match self {
            Migration::From_0_4_11_To_0_5_0 => ModelVersion { major: 0, minor: 5, patch: 0 },
            Migration::From_0_5_0_To_0_5_1 => ModelVersion { major: 0, minor: 5, patch: 1 },
            Migration::From_0_5_1_To_0_5_2 => ModelVersion { major: 0, minor: 5, patch: 2 },
            Migration::From_0_5_2_To_0_5_3 => ModelVersion { major: 0, minor: 5, patch: 3 },
            Migration::From_0_5_3_To_0_6_0 => ModelVersion { major: 0, minor: 6, patch: 0 },
        }
    }
}

impl ModelVersion {
    /// The version that a header gives. A header without any part of a
    /// version is that of a model written before versions were: 0.4.11.
    pub open spec fn spec_detect(
        major: VersionField,
        minor: VersionField,
        patch: VersionField,
    ) -> Result<ModelVersion, VersionError> {
        if major is Missing && minor is Missing && patch is Missing {
            Ok(ModelVersion { major: 0, minor: 4, patch: 11 })
        } else if major is Missing || minor is Missing || patch is Missing {
            Err(VersionError::FieldsMissing)
        } else if major is NotText || minor is NotText || patch is NotText {
            Err(VersionError::FieldsNotText)
        } else {
            match (
                read_u32(major->Text_0@),
                read_u32(minor->Text_0@),
                read_u32(patch->Text_0@),
            ) {
                (Some(major), Some(minor), Some(patch)) => Ok(ModelVersion { major, minor, patch }),
                _ => Err(VersionError::NotNumbers),
            }
        }
    }

    /// The version that a header gives, from the three parts of it.
    pub fn detect(major: &VersionField, minor: &VersionField, patch: &VersionField) -> (r: Result<
        ModelVersion,
        VersionError,
    >)
        ensures
            r == ModelVersion::spec_detect(*major, *minor, *patch),
    {
        match (major, minor, patch) {
            (VersionField::Missing, VersionField::Missing, VersionField::Missing) => Ok(
                ModelVersion { major: 0, minor: 4, patch: 11 },
            ),
            (VersionField::Missing, _, _) => Err(VersionError::FieldsMissing),
            (_, VersionField::Missing, _) => Err(VersionError::FieldsMissing),
            (_, _, VersionField::Missing) => Err(VersionError::FieldsMissing),
            (VersionField::Text(major), VersionField::Text(minor), VersionField::Text(patch)) => {
                match (
                    parse_u32(major.as_str()),
                    parse_u32(minor.as_str()),
                    parse_u32(patch.as_str()),
                ) {
                    (Some(major), Some(minor), Some(patch)) => Ok(
                        ModelVersion { major, minor, patch },
                    ),
                    _ => Err(VersionError::NotNumbers),
                }
            },
            _ => Err(VersionError::FieldsNotText),
        }
    }

    /// Whether the version is that of the current schema.
    pub open spec fn spec_is_current(self) -> bool {
        self.major == VERSION_MAJOR && self.minor == VERSION_MINOR && self.patch == VERSION_PATCH
    }

    /// Whether the version is that of the current schema.
    pub fn is_current(&self) -> (r: bool)
        ensures
            r == self.spec_is_current(),
    {
        self.major == VERSION_MAJOR && self.minor == VERSION_MINOR && self.patch == VERSION_PATCH
    }

    /// The step that a model of this version needs next; none for a model
    /// of the current schema, and none for a version that no step starts
    /// from.
    pub open spec fn spec_next_migration(self) -> Option<Migration> {
        if self.major != 0 {
            None
        } else if self.minor == 4 {
            Some(Migration::From_0_4_11_To_0_5_0)
        } else if self.minor == 5 && self.patch == 0 {
            Some(Migration::From_0_5_0_To_0_5_1)
        } else if self.minor == 5 && self.patch == 1 {
            Some(Migration::From_0_5_1_To_0_5_2)
        } else if self.minor == 5 && self.patch == 2 {
            Some(Migration::From_0_5_2_To_0_5_3)
        } else if self.minor == 5 && self.patch == 3 {
            Some(Migration::From_0_5_3_To_0_6_0)
        } else {
            None
        }
    }

    /// The step that a model of this version needs next.
    pub fn next_migration(&self) -> (r: Option<Migration>)
        ensures
            r == self.spec_next_migration(),
    {
        if self.major != 0 {
            None
        } else if self.minor == 4 {
            Some(Migration::From_0_4_11_To_0_5_0)
        } else if self.minor == 5 && self.patch == 0 {
            Some(Migration::From_0_5_0_To_0_5_1)
        } else if self.minor == 5 && self.patch == 1 {
            Some(Migration::From_0_5_1_To_0_5_2)
        } else if self.minor == 5 && self.patch == 2 {
            Some(Migration::From_0_5_2_To_0_5_3)
        } else if self.minor == 5 && self.patch == 3 {
            Some(Migration::From_0_5_3_To_0_6_0)
        } else {
            None
        }
    }

    /// The version that a model of this version has after `steps` steps,
    /// each the next that it needs.
    pub open spec fn spec_after(self, steps: nat) -> ModelVersion
        decreases steps,
    {
        if steps == 0 {
            self
        } else {
            match self.spec_next_migration() {
                Some(step) => step.spec_target().spec_after((steps - 1) as nat),
                None => self,
            }
        }
    }
}

/// The chain of steps ends: a model that needs a step is at the current
/// schema after five steps at most, and a model of the current schema
/// needs none.
pub proof fn migration_reaches_the_current_schema(version: ModelVersion)
    requires
        version.spec_next_migration() is Some,
    ensures
        version.spec_after(5).spec_is_current(),
        version.spec_after(5).spec_next_migration() is None,
{
    reveal_with_fuel(ModelVersion::spec_after, 6);
}

/// The kinds of declaration that modules offer to each other.
#[derive(Debug, Clone, Copy, PartialEq, Eq, Structural)]
pub enum ModuleIdentifierKind {
    Action,
    Message,
    Goal,
    Service,
    Entity,
}

/// The identifiers that one module offers to others, by kind.
#[allow(non_camel_case_types)]
#[derive(Debug, Default, Clone)]
pub struct ModuleIdentifiers_0_6_0 {
    pub messages: Vec<Identifier>,
    pub actions: Vec<Identifier>,
    pub goals: Vec<Identifier>,
    pub services: Vec<Identifier>,
    pub entities: Vec<Identifier>,
}

/// The identifiers that the module `module` offers.
#[derive(Debug, Default, Clone)]
pub struct ModuleSymbols {
    pub module: String,
    pub identifiers: ModuleIdentifiers_0_6_0,
}

/// The position of the first of `items`, from `start` on, that is declared
/// as `name` in `module`; the length of `items` where there is none.
pub open spec fn declared_from<T: Identified>(
    items: Seq<T>,
    name: Seq<char>,
    module: Seq<char>,
    start: int,
) -> int
    decreases items.len() - start,
{
    if start < 0 || start >= items.len() {
        items.len() as int
    } else if items[start].spec_id().name@ == name && items[start].spec_id().module@ == module {
        start
    } else {
        declared_from(items, name, module, start + 1)
    }
}

/// What `declared_from` finds is the first declaration as `name` in
/// `module` at or after `start`.
pub proof fn declared_from_finds_the_first<T: Identified>(
    items: Seq<T>,
    name: Seq<char>,
    module: Seq<char>,
    start: int,
)
    requires
        0 <= start <= items.len(),
    ensures
        start <= declared_from(items, name, module, start) <= items.len(),
        declared_from(items, name, module, start) < items.len() ==> {
            let found = items[declared_from(items, name, module, start)].spec_id();
            found.name@ == name && found.module@ == module
        },
        forall|j: int|
            start <= j < declared_from(items, name, module, start) ==> !((
            #[trigger] items[j]).spec_id().name@ == name && items[j].spec_id().module@ == module),
    decreases items.len() - start,
{
    if start < items.len() && !(items[start].spec_id().name@ == name
        && items[start].spec_id().module@ == module) {
        declared_from_finds_the_first(items, name, module, start + 1);
    }
}

/// Whether `id` is the unset identifier.
pub open spec fn is_unset(id: Identifier) -> bool {
    &&& id.uuid@.len() == 0
    &&& id.name@.len() == 0
    &&& id.module@.len() == 0
    &&& id.bumpy_case@.len() == 0
}

/// The identifier under which `name` is declared in `module` among
/// `array`: that of the first such declaration. The unset identifier where
/// `name` is empty or nothing is declared so.
pub fn lookup_id_from_array_0_6_0<T: Identified>(array: &Vec<T>, name: &str, module: &str) -> (r:
    Identifier)
    ensures
        name@.len() > 0 && declared_from(array@, name@, module@, 0) < array@.len() ==> r
            == array@[declared_from(array@, name@, module@, 0)].spec_id(),
        !(name@.len() > 0 && declared_from(array@, name@, module@, 0) < array@.len())
            ==> is_unset(r),
{
    if name.is_empty() {
        return Identifier::default();
    }
    let wanted_name = String::from_str(name);
    let wanted_module = String::from_str(module);
    let mut i: usize = 0;
    while i < array.len()
        invariant
            i <= array@.len(),
            name@.len() > 0,
            wanted_name@ == name@,
            wanted_module@ == module@,
            declared_from(array@, name@, module@, 0) == declared_from(
                array@,
                name@,
                module@,
                i as int,
            ),
        decreases array@.len() - i,
    {
        let id = array[i].get_id();
        if id.name == wanted_name && id.module == wanted_module {
            return id.clone();
        }
        i = i + 1;
    }
    Identifier::default()
}

/// The position of the first row of `table`, from `start` on, for the
/// module `module`; the length of `table` where there is none.
pub open spec fn module_row_from(table: Seq<ModuleSymbols>, module: Seq<char>, start: int) -> int
    decreases table.len() - start,
{
    if start < 0 || start >= table.len() {
        table.len() as int
    } else if table[start].module@ == module {
        start
    } else {
        module_row_from(table, module, start + 1)
    }
}

/// The identifiers of one kind that a module offers.
pub open spec fn offered(identifiers: ModuleIdentifiers_0_6_0, kind: ModuleIdentifierKind) -> Seq<
    Identifier,
> {
    match kind {
        ModuleIdentifierKind::Action => identifiers.actions@,
        ModuleIdentifierKind::Message => identifiers.messages@,
        ModuleIdentifierKind::Goal => identifiers.goals@,
        ModuleIdentifierKind::Service => identifiers.services@,
        ModuleIdentifierKind::Entity => identifiers.entities@,
    }
}

/// The identifier of the declaration of kind `kind` that the module
/// `module` offers as `name`; the unset identifier where the module offers
/// none such. The table must have a row for the module.
pub fn lookup_id_from_symbol_table_0_6_0(
    table: &Vec<ModuleSymbols>,
    kind: ModuleIdentifierKind,
    name: &str,
    module: &str,
) -> (r: Identifier)
    requires
        module_row_from(table@, module@, 0) < table@.len(),
    ensures
        ({
            let list = offered(table@[module_row_from(table@, module@, 0)].identifiers, kind);
            let at = declared_from(list, name@, module@, 0);
            if at < list.len() {
                r == list[at]
            } else {
                is_unset(r)
            }
        }),
{
    let wanted_name = String::from_str(name);
    let wanted_module = String::from_str(module);
    let mut row: usize = 0;
    while row < table.len()
        invariant
            row <= table@.len(),
            wanted_name@ == name@,
            wanted_module@ == module@,
            module_row_from(table@, module@, 0) == module_row_from(table@, module@, row as int),
        decreases table@.len() - row,
    {
        if table[row].module == wanted_module {
            let list = match kind {
                ModuleIdentifierKind::Action => &table[row].identifiers.actions,
                ModuleIdentifierKind::Message => &table[row].identifiers.messages,
                ModuleIdentifierKind::Goal => &table[row].identifiers.goals,
                ModuleIdentifierKind::Service => &table[row].identifiers.services,
                ModuleIdentifierKind::Entity => &table[row].identifiers.entities,
            };
            let mut i: usize = 0;
            while i < list.len()
                invariant
                    i <= list@.len(),
                    row < table@.len(),
                    row as int == module_row_from(table@, module@, 0),
                    list@ == offered(table@[row as int].identifiers, kind),
                    wanted_name@ == name@,
                    wanted_module@ == module@,
                    declared_from(list@, name@, module@, 0) == declared_from(
                        list@,
                        name@,
                        module@,
                        i as int,
                    ),
                decreases list@.len() - i,
            {
                if list[i].name == wanted_name && list[i].module == wanted_module {
                    return list[i].clone();
                }
                i = i + 1;
            }
            return Identifier::default();
        }
        row = row + 1;
    }
    Identifier::default()
}

/// Whether `table` has a row for the module `module`.
pub fn knows_module(table: &Vec<ModuleSymbols>, module: &str) -> (r: bool)
    ensures
        r == (module_row_from(table@, module@, 0) < table@.len()),
{
    let wanted = String::from_str(module);
    let mut row: usize = 0;
    while row < table.len()
        invariant
            row <= table@.len(),
            wanted@ == module@,
            module_row_from(table@, module@, 0) == module_row_from(table@, module@, row as int),
        decreases table@.len() - row,
    {
        if table[row].module == wanted {
            return true;
        }
        row = row + 1;
    }
    false
}

} // verus!
