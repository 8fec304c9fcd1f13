//! The C++ types and values that generated code writes for fields and
//! messages.

use crate::emit::joined;
use crate::field::GenerateError;
use crate::identifier::Identifier;
use crate::model::Model;
use crate::schema::{EmitNamespace, Event, Field, FieldType, Message};
use crate::text::{bumpy_case, convert_to_bumpy_case, join2, join3, join4};
use crate::workspace::{owner, ProjectWorkspace};
use vstd::prelude::*;
use vstd::string::{StrSliceExecFns, StringExecFns};

verus! {

/// The namespace path of the module that owns the identity `uuid`, with
/// `divider` between its segments; empty where no module owns it.
pub open spec fn owner_namespace(models: Seq<Model>, uuid: Seq<char>, divider: Seq<char>) -> Seq<
    char,
> {
    match owner(models, uuid) {
        Some(p) => joined(
            models[p].project.namespaces@,
            divider,
            models[p].project.namespaces@.len() as int,
        ),
        None => Seq::empty(),
    }
}

/// The C++ name of the message `id`: its name in bumpy case, qualified by
/// the namespace of its module where one is asked for and there is one.
pub open spec fn custom_cpp_type(models: Seq<Model>, id: Identifier, emit: EmitNamespace) -> Seq<
    char,
> {
    let divider = if emit == EmitNamespace::Cpp {
        "::"@
    } else {
        "_"@
    };
    let namespace = owner_namespace(models, id.uuid@, divider);
    if namespace.len() > 0 && emit != EmitNamespace::Nil {
        namespace + "::"@ + bumpy_case(id.name@, id.name@.len() as int)
    } else {
        bumpy_case(id.name@, id.name@.len() as int)
    }
}

impl FieldType {
    /// The C++ type of the field type.
    pub open spec fn spec_cpp_type(&self, models: Seq<Model>, emit: EmitNamespace) -> Seq<char> {
        match self {
            FieldType::Bool => "bool"@,
            FieldType::I8 => "int8_t"@,
            FieldType::I16 => "int16_t"@,
            FieldType::I32 => "int32_t"@,
            FieldType::I64 => "int64_t"@,
            FieldType::U8 => "uint8_t"@,
            FieldType::U16 => "uint16_t"@,
            FieldType::U32 => "uint32_t"@,
            FieldType::U64 => "uint64_t"@,
            FieldType::F32 => "float"@,
            FieldType::F64 => "double"@,
            FieldType::String => "std::string"@,
            FieldType::Custom(id) => custom_cpp_type(models, *id, emit),
            FieldType::Enum(_) => "int32_t"@,
            FieldType::Vec2 => "aos::jack::V2"@,
            FieldType::Nil => Seq::empty(),
        }
    }

    /// The C++ type of the field type. Only a type that was never set has
    /// none.
    pub fn to_cpp_type(&self, workspace: &ProjectWorkspace, emit: &EmitNamespace) -> (r: Result<
        String,
        GenerateError,
    >)
        ensures
            r is Err <==> *self == FieldType::Nil,
            r is Ok ==> r->Ok_0@ == self.spec_cpp_type(workspace@, *emit),
    {
        match self {
            FieldType::Bool => Ok(String::from_str("bool")),
            FieldType::I8 => Ok(String::from_str("int8_t")),
            FieldType::I16 => Ok(String::from_str("int16_t")),
            FieldType::I32 => Ok(String::from_str("int32_t")),
            FieldType::I64 => Ok(String::from_str("int64_t")),
            FieldType::U8 => Ok(String::from_str("uint8_t")),
            FieldType::U16 => Ok(String::from_str("uint16_t")),
            FieldType::U32 => Ok(String::from_str("uint32_t")),
            FieldType::U64 => Ok(String::from_str("uint64_t")),
            FieldType::F32 => Ok(String::from_str("float")),
            FieldType::F64 => Ok(String::from_str("double")),
            FieldType::String => Ok(String::from_str("std::string")),
            FieldType::Custom(id) => {
                let model = workspace.lookup_model_with_id(id);
                let divider = match emit {
                    EmitNamespace::Cpp => "::",
                    _ => "_",
                };
                let namespace = model.project.namespace_string(divider);
                let name = convert_to_bumpy_case(id.name.as_str());
                let qualify = match emit {
                    EmitNamespace::Nil => false,
                    _ => !namespace.as_str().is_empty(),
                };
                assert(namespace@ =~= owner_namespace(workspace@, id.uuid@, divider@));
                if qualify {
                    Ok(join3(namespace.as_str(), "::", name.as_str()))
                } else {
                    Ok(name)
                }
            },
            FieldType::Enum(_) => Ok(String::from_str("int32_t")),
            FieldType::Vec2 => Ok(String::from_str("aos::jack::V2")),
            FieldType::Nil => Err(GenerateError::FieldTypeNotSet),
        }
    }

    /// The C++ expression for the default value of the field type.
    pub open spec fn spec_cpp_default(&self, models: Seq<Model>) -> Seq<char> {
        match self {
            FieldType::Bool => "false"@,
            FieldType::I8 => "int8_t{0}"@,
            FieldType::I16 => "int16_t{0}"@,
            FieldType::I32 => "int32_t{0}"@,
            FieldType::I64 => "int64_t{0}"@,
            FieldType::U8 => "uint8_t{0}"@,
            FieldType::U16 => "uint16_t{0}"@,
            FieldType::U32 => "uint32_t{0}"@,
            FieldType::U64 => "uint64_t{0}"@,
            FieldType::F32 => "0.0f"@,
            FieldType::F64 => "0.0"@,
            FieldType::String => "std::string{}"@,
            FieldType::Custom(id) => custom_cpp_type(models, *id, EmitNamespace::Cpp) + "()"@,
            FieldType::Enum(_) => "0"@,
            FieldType::Vec2 => "aos::jack::V2{0.0f,0.0f}"@,
            FieldType::Nil => Seq::empty(),
        }
    }

    /// The C++ expression for the default value of the field type. Only a
    /// type that was never set has none.
    pub fn to_cpp_default(&self, workspace: &ProjectWorkspace) -> (r: Result<String, GenerateError>)
        ensures
            r is Err <==> *self == FieldType::Nil,
            r is Ok ==> r->Ok_0@ == self.spec_cpp_default(workspace@),
    {
        match self {
            FieldType::Bool => Ok(String::from_str("false")),
            FieldType::I8 => Ok(String::from_str("int8_t{0}")),
            FieldType::I16 => Ok(String::from_str("int16_t{0}")),
            FieldType::I32 => Ok(String::from_str("int32_t{0}")),
            FieldType::I64 => Ok(String::from_str("int64_t{0}")),
            FieldType::U8 => Ok(String::from_str("uint8_t{0}")),
            FieldType::U16 => Ok(String::from_str("uint16_t{0}")),
            FieldType::U32 => Ok(String::from_str("uint32_t{0}")),
            FieldType::U64 => Ok(String::from_str("uint64_t{0}")),
            FieldType::F32 => Ok(String::from_str("0.0f")),
            FieldType::F64 => Ok(String::from_str("0.0")),
            FieldType::String => Ok(String::from_str("std::string{}")),
            FieldType::Custom(_) => match self.to_cpp_type(workspace, &EmitNamespace::Cpp) {
                Ok(cpp_type) => Ok(join2(cpp_type.as_str(), "()")),
                Err(e) => Err(e),
            },
            FieldType::Enum(_) => Ok(String::from_str("0")),
            FieldType::Vec2 => Ok(String::from_str("aos::jack::V2{0.0f,0.0f}")),
            FieldType::Nil => Err(GenerateError::FieldTypeNotSet),
        }
    }
}

/// Whether a text holds the character `c`.
pub open spec fn holds_char(text: Seq<char>, c: char) -> bool {
    exists|i: int| 0 <= i < text.len() && text[i] == c
}

/// A number written for C++ as a single-precision literal: the text as it
/// is where it ends in `f`, else with `f` added after a decimal point, or
/// with `.f` where it has none.
pub open spec fn single_precision_literal(text: Seq<char>) -> Seq<char> {
    if text.len() > 0 && text.last() == 'f' {
        text
    } else if holds_char(text, '.') {
        text + "f"@
    } else {
        text + ".f"@
    }
}

impl Field {
    /// The C++ type of the field in a schema: that of its type.
    pub fn to_schema_cpp_type(&self, workspace: &ProjectWorkspace) -> (r: Result<
        String,
        GenerateError,
    >)
        ensures
            r is Err <==> self.field_type == FieldType::Nil,
            r is Ok ==> r->Ok_0@ == self.field_type.spec_cpp_type(workspace@, EmitNamespace::Cpp),
    {
        self.field_type.to_cpp_type(workspace, &EmitNamespace::Cpp)
    }

    /// The C++ type of the field: that of its type, in a vector where the
    /// field holds a list.
    pub open spec fn spec_cpp_type(&self, models: Seq<Model>) -> Seq<char> {
        if self.is_array {
            "std::vector<"@ + self.field_type.spec_cpp_type(models, EmitNamespace::Cpp) + ">"@
        } else {
            self.field_type.spec_cpp_type(models, EmitNamespace::Cpp)
        }
    }

    /// The C++ type of the field.
    pub fn to_cpp_type(&self, workspace: &ProjectWorkspace) -> (r: Result<String, GenerateError>)
        ensures
            r is Err <==> self.field_type == FieldType::Nil,
            r is Ok ==> r->Ok_0@ == self.spec_cpp_type(workspace@),
    {
        match self.field_type.to_cpp_type(workspace, &EmitNamespace::Cpp) {
            Ok(inner) => {
                if self.is_array {
                    Ok(join3("std::vector<", inner.as_str(), ">"))
                } else {
                    Ok(inner)
                }
            },
            Err(e) => Err(e),
        }
    }

    /// The C++ type of one value of the field, whether or not the field
    /// holds a list.
    pub fn to_cpp_inner_type(&self, workspace: &ProjectWorkspace) -> (r: Result<
        String,
        GenerateError,
    >)
        ensures
            r is Err <==> self.field_type == FieldType::Nil,
            r is Ok ==> r->Ok_0@ == self.field_type.spec_cpp_type(workspace@, EmitNamespace::Cpp),
    {
        self.field_type.to_cpp_type(workspace, &EmitNamespace::Cpp)
    }

    /// The C++ type that reads the field from JSON: the enumeration for a
    /// value of one; else the type of the field, where a nested message
    /// goes by its `JsonConfig`.
    pub open spec fn spec_cpp_json_type(&self, models: Seq<Model>) -> Seq<char> {
        let inner = self.field_type.spec_cpp_type(models, EmitNamespace::Cpp);
        if self.field_type is Enum {
            self.spec_enum_type()
        } else if self.is_array {
            if self.field_type is Custom {
                "std::vector<"@ + inner + "::JsonConfig>"@
            } else {
                "std::vector<"@ + inner + ">"@
            }
        } else {
            if self.field_type is Custom {
                inner + "::JsonConfig"@
            } else {
                inner
            }
        }
    }

    /// The C++ type that reads the field from JSON.
    pub fn to_cpp_json_type(&self, workspace: &ProjectWorkspace) -> (r: Result<
        String,
        GenerateError,
    >)
        ensures
            r is Err <==> self.field_type == FieldType::Nil,
            r is Ok ==> r->Ok_0@ == self.spec_cpp_json_type(workspace@),
    {
        if self.is_enum() {
            return Ok(self.enum_type());
        }
        match self.field_type.to_cpp_type(workspace, &EmitNamespace::Cpp) {
            Ok(inner) => {
                if self.is_array {
                    if self.is_custom() {
                        Ok(join3("std::vector<", inner.as_str(), "::JsonConfig>"))
                    } else {
                        Ok(join3("std::vector<", inner.as_str(), ">"))
                    }
                } else {
                    if self.is_custom() {
                        Ok(join2(inner.as_str(), "::JsonConfig"))
                    } else {
                        Ok(inner)
                    }
                }
            },
            Err(e) => Err(e),
        }
    }

    /// The default of the field as C++ writes it. `reads_as_number` says
    /// whether the default of the field reads as a single-precision
    /// number; only for a field of that type does it matter.
    pub open spec fn spec_cpp_default_text(&self, reads_as_number: bool) -> Seq<char> {
        if self.default@.len() > 0 && self.field_type == FieldType::F32 && reads_as_number {
            single_precision_literal(self.default@)
        } else {
            self.default@
        }
    }

    /// The C++ expression for the default value of the field: its own
    /// default where it has one, else that of its type; for a list, the
    /// vector type with the default in braces.
    pub open spec fn spec_cpp_default(&self, models: Seq<Model>, reads_as_number: bool) -> Seq<
        char,
    > {
        let text = self.spec_cpp_default_text(reads_as_number);
        if self.is_array {
            if text.len() > 0 {
                self.spec_cpp_type(models) + "{"@ + text + "}"@
            } else {
                self.spec_cpp_type(models) + "{}"@
            }
        } else {
            if text.len() > 0 {
                text
            } else {
                self.field_type.spec_cpp_default(models)
            }
        }
    }

    /// The C++ expression for the default value of the field.
    /// `reads_as_number` says whether the default of the field reads as a
    /// single-precision number. A list of a type that was never set has no
    /// default, nor has a field of such a type without a default of its
    /// own.
    pub fn to_cpp_default(&self, workspace: &ProjectWorkspace, reads_as_number: bool) -> (r: Result<
        String,
        GenerateError,
    >)
        ensures
            r is Err <==> self.field_type == FieldType::Nil && (self.is_array
                || self.default@.len() == 0),
            r is Ok ==> r->Ok_0@ == self.spec_cpp_default(workspace@, reads_as_number),
    {
        let mut text = self.default.clone();
        let is_single = match self.field_type {
            FieldType::F32 => true,
            _ => false,
        };
        if !text.as_str().is_empty() && is_single && reads_as_number {
            let n = text.as_str().unicode_len();
            if text.as_str().get_char(n - 1) != 'f' {
                if has_char(text.as_str(), '.') {
                    text.append("f");
                } else {
                    text.append(".f");
                }
            }
        }
        assert(text@ =~= self.spec_cpp_default_text(reads_as_number));
        if self.is_array {
            match self.to_cpp_type(workspace) {
                Ok(cpp_type) => {
                    if !text.as_str().is_empty() {
                        Ok(join4(cpp_type.as_str(), "{", text.as_str(), "}"))
                    } else {
                        Ok(join2(cpp_type.as_str(), "{}"))
                    }
                },
                Err(e) => Err(e),
            }
        } else {
            if !text.as_str().is_empty() {
                Ok(text)
            } else {
                self.field_type.to_cpp_default(workspace)
            }
        }
    }

    /// The module that owns the message which is the type of the field;
    /// the nil model for a field of any other type.
    pub fn get_owning_model<'a>(&'a self, workspace: &'a ProjectWorkspace) -> (r: &'a Model)
        ensures
            match self.field_type {
                FieldType::Custom(id) => match owner(workspace@, id.uuid@) {
                    Some(p) => 0 <= p < workspace@.len() && *r == workspace@[p],
                    None => r.spec_is_nil(),
                },
                _ => r.spec_is_nil(),
            },
    {
        match &self.field_type {
            FieldType::Custom(id) => workspace.lookup_model_with_id(id),
            _ => workspace.nil_model(),
        }
    }
}

/// Whether a text holds the character `c`.
fn has_char(text: &str, c: char) -> (r: bool)
    ensures
        r == holds_char(text@, c),
{
    let n = text.unicode_len();
    let mut i: usize = 0;
    while i < n
        invariant
            i <= n,
            n == text@.len(),
            forall|k: int| 0 <= k < i ==> text@[k] != c,
        decreases n - i,
    {
        if text.get_char(i) == c {
            return true;
        }
        i = i + 1;
    }
    false
}

impl Message {
    /// Whether a field of the message holds a single value.
    pub fn contains_simple(&self) -> (r: bool)
        ensures
            r == exists|i: int| 0 <= i < self.fields@.len() && !(#[trigger] self.fields@[i]).is_array,
    {
        let mut i: usize = 0;
        while i < self.fields.len()
            invariant
                i <= self.fields@.len(),
                forall|k: int| 0 <= k < i ==> (#[trigger] self.fields@[k]).is_array,
            decreases self.fields@.len() - i,
        {
            if !self.fields[i].is_array {
                return true;
            }
            i = i + 1;
        }
        false
    }

    /// Whether a field of the message holds a list.
    pub fn contains_array(&self) -> (r: bool)
        ensures
            r == exists|i: int| 0 <= i < self.fields@.len() && (#[trigger] self.fields@[i]).is_array,
    {
        let mut i: usize = 0;
        while i < self.fields.len()
            invariant
                i <= self.fields@.len(),
                forall|k: int| 0 <= k < i ==> !(#[trigger] self.fields@[k]).is_array,
            decreases self.fields@.len() - i,
        {
            if self.fields[i].is_array {
                return true;
            }
            i = i + 1;
        }
        false
    }

    /// Whether a field of the message holds a value of an enumeration.
    pub fn contains_enum(&self) -> (r: bool)
        ensures
            r == exists|i: int|
                0 <= i < self.fields@.len() && (#[trigger] self.fields@[i]).field_type is Enum,
    {
        let mut i: usize = 0;
        while i < self.fields.len()
            invariant
                i <= self.fields@.len(),
                forall|k: int| 0 <= k < i ==> !((#[trigger] self.fields@[k]).field_type is Enum),
            decreases self.fields@.len() - i,
        {
            if self.fields[i].is_enum() {
                return true;
            }
            i = i + 1;
        }
        false
    }

    /// The C++ type of the message.
    pub fn to_cpp_type(&self, workspace: &ProjectWorkspace) -> (r: String)
        ensures
            r@ == custom_cpp_type(workspace@, self.id, EmitNamespace::Cpp),
    {
        let as_type = FieldType::Custom(self.id.clone());
        match as_type.to_cpp_type(workspace, &EmitNamespace::Cpp) {
            Ok(name) => name,
            Err(_) => String::new(),
        }
    }

    /// The display name of the message after the namespace path of
    /// `model`.
    pub fn namespaced_cpp_name(&self, model: &Model) -> (r: String)
        ensures
            r@ == joined(model.project.namespaces@, "::"@, model.project.namespaces@.len() as int)
                + self.id.bumpy_case@,
    {
        let mut result = model.project.namespace_string("::");
        result.append(self.id.bumpy_case.as_str());
        result
    }

    /// The module that owns the message, or the nil model.
    pub fn get_owning_model<'a>(&'a self, workspace: &'a ProjectWorkspace) -> (r: &'a Model)
        ensures
            match owner(workspace@, self.id.uuid@) {
                Some(p) => 0 <= p < workspace@.len() && *r == workspace@[p],
                None => r.spec_is_nil(),
            },
    {
        workspace.lookup_model_with_id(&self.id)
    }
}

impl Event {
    /// The display name of the event after the namespace path of `model`.
    pub fn namespaced_cpp_name(&self, model: &Model) -> (r: String)
        ensures
            r@ == joined(model.project.namespaces@, "::"@, model.project.namespaces@.len() as int)
                + self.id.bumpy_case@,
    {
        let mut result = model.project.namespace_string("::");
        result.append(self.id.bumpy_case.as_str());
        result
    }
}

} // verus!
