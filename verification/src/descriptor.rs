//! Tool descriptors: the name, the description and the parameter schema that
//! a tool advertises, and the reading of parameters against that schema.

use vstd::prelude::*;
use crate::error::{invalid_type_error, missing_field_error, CallToolError, CallToolErrorView};
use crate::params::{kind_name, Arguments, ParamValue, ParamValueView};

verus! {

/// One field of a parameter schema. Every field holds text.
#[derive(Debug, Clone, PartialEq, Eq)]
pub struct FieldDescriptor {
    pub name: String,
    pub description: String,
    /// Whether a call must give the field.
    pub required: bool,
    /// Whether a call may give `null` to leave the field unset.
    pub nullable: bool,
    /// The value the field takes when a call leaves it out.
    pub default: Option<String>,
}

/// What a `FieldDescriptor` stands for in contracts.
pub ghost struct FieldView {
    pub name: Seq<char>,
    pub description: Seq<char>,
    pub required: bool,
    pub nullable: bool,
    pub default: Option<Seq<char>>,
}

impl View for FieldDescriptor {
    type V = FieldView;

    open spec fn view(&self) -> FieldView {
        FieldView {
            name: self.name@,
            description: self.description@,
            required: self.required,
            nullable: self.nullable,
            default: match self.default {
                Some(text) => Some(text@),
                None => None,
            },
        }
    }
}

/// What a tool advertises for discovery.
#[derive(Debug, Clone, PartialEq, Eq)]
pub struct ToolDescriptor {
    pub name: String,
    pub description: String,
    pub fields: Vec<FieldDescriptor>,
}

/// What a `ToolDescriptor` stands for in contracts.
pub ghost struct ToolDescriptorView {
    pub name: Seq<char>,
    pub description: Seq<char>,
    pub fields: Seq<FieldView>,
}

impl View for ToolDescriptor {
    type V = ToolDescriptorView;

    open spec fn view(&self) -> ToolDescriptorView {
        ToolDescriptorView {
            name: self.name@,
            description: self.description@,
            fields: Seq::new(self.fields.len() as nat, |i: int| self.fields[i]@),
        }
    }
}

/// The views of a vector of descriptors, in order.
pub open spec fn descriptor_views(tools: Seq<ToolDescriptor>) -> Seq<ToolDescriptorView> {
    Seq::new(tools.len(), |i: int| tools[i]@)
}

/// What `field` makes of `arguments`: the text it takes, `None` where it
/// stays unset, or the error that the arguments earn.
///
/// A value that is given must be text, or `null` for a nullable field. A
/// field that is left out takes its default; without one it stays unset,
/// unless it is required.
pub open spec fn field_value(field: FieldView, arguments: Map<Seq<char>, ParamValueView>) -> Result<
    Option<Seq<char>>,
    CallToolErrorView,
> {
    if arguments.contains_key(field.name) {
        match arguments[field.name] {
            ParamValueView::Text(text) => Ok(Some(text)),
            ParamValueView::Null if field.nullable => Ok(None),
            other => Err(invalid_type_error(field.name, kind_name(other))),
        }
    } else {
        match field.default {
            Some(text) => Ok(Some(text)),
            None if field.required => Err(missing_field_error(field.name)),
            None => Ok(None),
        }
    }
}

/// Whether `arguments` satisfy the schema made of `fields`: each field finds
/// a value it accepts, or may go without.
pub open spec fn satisfies(fields: Seq<FieldView>, arguments: Map<Seq<char>, ParamValueView>) -> bool {
    forall|i: int| 0 <= i < fields.len() ==> (#[trigger] field_value(fields[i], arguments)) is Ok
}

/// What the reading of a field stands for in contracts.
pub open spec fn reading_view(value: Result<Option<String>, CallToolError>) -> Result<
    Option<Seq<char>>,
    CallToolErrorView,
> {
    match value {
        Ok(Some(text)) => Ok(Some(text@)),
        Ok(None) => Ok(None),
        Err(failure) => Err(failure@),
    }
}

impl FieldDescriptor {
    /// Reads this field from `arguments`.
    pub fn read(&self, arguments: &Arguments) -> (value: Result<Option<String>, CallToolError>)
        ensures
            reading_view(value) == field_value(self@, arguments@),
    {
        match arguments.get(self.name.as_str()) {
            Some(ParamValue::Text(text)) => Ok(Some(text.clone())),
            Some(ParamValue::Null) if self.nullable => Ok(None),
            Some(other) => Err(CallToolError::invalid_type(self.name.as_str(), other.kind_name())),
            None => match &self.default {
                Some(text) => Ok(Some(text.clone())),
                None if self.required => Err(CallToolError::missing_field(self.name.as_str())),
                None => Ok(None),
            },
        }
    }
}

} // verus!
