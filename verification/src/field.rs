//! What generated code needs to know of a field and its type.

use crate::schema::{Field, FieldType};
use crate::text::{bumpy_case, convert_to_bumpy_case, join2};
use vstd::prelude::*;
use vstd::string::StringExecFns;

verus! {

/// Why no text could be generated.
#[derive(Debug, Clone, Copy, PartialEq, Eq, Structural)]
pub enum GenerateError {
    /// A field has no type.
    FieldTypeNotSet,
}

impl GenerateError {
    /// The sentence that tells the error.
    pub fn to_string(&self) -> (r: String)
        ensures
            r@ == "FieldType set to None, invalid."@,
    {
        String::from_str("FieldType set to None, invalid.")
    }
}

impl FieldType {
    /// The name of the type among the property types; a nested message goes
    /// by its own name, an enumeration by that of its values.
    pub open spec fn spec_prop_type(&self) -> Seq<char> {
        match self {
            FieldType::Bool => "Bool"@,
            FieldType::I8 => "I8"@,
            FieldType::I16 => "I16"@,
            FieldType::I32 => "I32"@,
            FieldType::I64 => "I64"@,
            FieldType::U8 => "U8"@,
            FieldType::U16 => "U16"@,
            FieldType::U32 => "U32"@,
            FieldType::U64 => "U64"@,
            FieldType::F32 => "F32"@,
            FieldType::F64 => "F64"@,
            FieldType::String => "String"@,
            FieldType::Custom(id) => id.name@,
            FieldType::Enum(_) => "I32"@,
            FieldType::Vec2 => "V2"@,
            FieldType::Nil => Seq::empty(),
        }
    }

    /// The property type of the field type. Only a type that was never set
    /// has none.
    pub fn to_prop_type(&self) -> (r: Result<String, GenerateError>)
        ensures
            r is Err <==> *self == FieldType::Nil,
            r is Ok ==> r->Ok_0@ == self.spec_prop_type(),
    {
        match self {
            FieldType::Bool => Ok(String::from_str("Bool")),
            FieldType::I8 => Ok(String::from_str("I8")),
            FieldType::I16 => Ok(String::from_str("I16")),
            FieldType::I32 => Ok(String::from_str("I32")),
            FieldType::I64 => Ok(String::from_str("I64")),
            FieldType::U8 => Ok(String::from_str("U8")),
            FieldType::U16 => Ok(String::from_str("U16")),
            FieldType::U32 => Ok(String::from_str("U32")),
            FieldType::U64 => Ok(String::from_str("U64")),
            FieldType::F32 => Ok(String::from_str("F32")),
            FieldType::F64 => Ok(String::from_str("F64")),
            FieldType::String => Ok(String::from_str("String")),
            FieldType::Custom(id) => Ok(id.name.clone()),
            FieldType::Enum(_) => Ok(String::from_str("I32")),
            FieldType::Vec2 => Ok(String::from_str("V2")),
            FieldType::Nil => Err(GenerateError::FieldTypeNotSet),
        }
    }

    /// Whether the type is another message.
    pub fn is_custom(&self) -> (r: bool)
        ensures
            r == (*self is Custom),
    {
        match self {
            FieldType::Custom(_) => true,
            _ => false,
        }
    }
}

impl Field {
    /// The type of the field.
    pub fn get_type(&self) -> (r: FieldType)
        ensures
            r == self.field_type,
    {
        self.field_type.clone()
    }

    /// Whether the field holds a value of an enumeration.
    pub fn is_enum(&self) -> (r: bool)
        ensures
            r == (self.field_type is Enum),
    {
        match self.field_type {
            FieldType::Enum(_) => true,
            _ => false,
        }
    }

    /// Whether the field holds another message.
    pub fn is_custom(&self) -> (r: bool)
        ensures
            r == (self.field_type is Custom),
    {
        match self.field_type {
            FieldType::Custom(_) => true,
            _ => false,
        }
    }

    /// Whether the field holds a list.
    pub fn is_array(&self) -> (r: bool)
        ensures
            r == self.is_array,
    {
        self.is_array
    }

    /// The name of the field's enumeration in bumpy case; empty where the
    /// field holds no value of an enumeration.
    pub open spec fn spec_enum_type(&self) -> Seq<char> {
        match self.field_type {
            FieldType::Enum(id) => bumpy_case(id.name@, id.name@.len() as int),
            _ => Seq::empty(),
        }
    }

    /// The name of the field's enumeration in bumpy case.
    pub fn enum_type(&self) -> (r: String)
        ensures
            r@ == self.spec_enum_type(),
    {
        match &self.field_type {
            FieldType::Enum(identifier) => convert_to_bumpy_case(identifier.name.as_str()),
            _ => String::new(),
        }
    }

    /// The property type of the field in a schema: every nested message
    /// goes as `Message`.
    pub fn to_schema_prop_type(&self) -> (r: Result<String, GenerateError>)
        ensures
            r is Err <==> self.field_type == FieldType::Nil,
            r is Ok ==> r->Ok_0@ == if self.field_type is Custom {
                "Message"@
            } else {
                self.field_type.spec_prop_type()
            },
    {
        if self.is_custom() {
            Ok(String::from_str("Message"))
        } else {
            self.field_type.to_prop_type()
        }
    }

    /// The property type of the field: that of its type, followed by `[]`
    /// where the field holds a list.
    pub fn to_prop_type(&self) -> (r: Result<String, GenerateError>)
        ensures
            r is Err <==> self.field_type == FieldType::Nil,
            r is Ok ==> r->Ok_0@ == if self.is_array {
                self.field_type.spec_prop_type() + "[]"@
            } else {
                self.field_type.spec_prop_type()
            },
    {
        match self.field_type.to_prop_type() {
            Ok(name) => {
                if self.is_array {
                    Ok(join2(name.as_str(), "[]"))
                } else {
                    Ok(name)
                }
            },
            Err(e) => Err(e),
        }
    }
}

} // verus!
