//! Code generation for grammar-module types.
//!
//! A grammar module is a struct whose named fields stand for grammar rules.
//! From the struct's name and its field names this library generates two
//! pieces of source text: an `impl` block with one accessor function per
//! field, and an `impl` of the module-assembly trait whose one method
//! collects every rule of the module, each tagged with its qualified
//! identifier `Type::field` and checked for left recursion at construction.
//!
//! The shape of the annotated type is handed in as a [`ModuleInput`]; only a
//! struct with named fields is accepted, any other shape is rejected with a
//! [`DeriveError`].

use vstd::prelude::*;

pub mod emit;

verus! {

/// The shape of the type the code is generated for: its name and its data.
pub struct ModuleInput {
    /// The name of the annotated type.
    pub name: String,
    /// What the annotated type's declaration holds.
    pub data: ModuleData,
}

/// What a type declaration holds, as far as the generator reads it.
pub enum ModuleData {
    /// A struct with named fields; the field names, in declaration order.
    NamedStruct(Vec<String>),
    /// A struct without named fields: a tuple or unit struct.
    UnnamedStruct,
    /// Not a struct at all: an enum or a union.
    NotStruct,
}

/// Why a type's shape was rejected.
#[derive(Clone, Copy, Debug, PartialEq, Eq)]
pub enum DeriveError {
    /// The annotated item is a struct, but its fields are not named.
    FieldsNotNamed,
    /// The annotated item is not a struct.
    NotAStruct,
}

impl DeriveError {
    /// The diagnostic the generator aborts compilation with.
    pub fn message(&self) -> (r: String)
        ensures
            *self is FieldsNotNamed ==> r@ == "Struct must have named fields (like `struct Sample {}`)."@,
            *self is NotAStruct ==> r@ == "Trait `RuleContainer` is only available for struct."@,
    {
        match self {
            DeriveError::FieldsNotNamed => String::from_str(
                "Struct must have named fields (like `struct Sample {}`).",
            ),
            DeriveError::NotAStruct => String::from_str(
                "Trait `RuleContainer` is only available for struct.",
            ),
        }
    }
}

/// Generates the output for one annotated type: for a struct with named
/// fields, the accessor `impl` followed by the assembly `impl`, exactly as
/// [`emit::derive_source_spec`] states it; any other shape is rejected with
/// the matching error.
pub fn expand(input: &ModuleInput) -> (r: Result<String, DeriveError>)
    ensures
        input.data is NamedStruct ==> r is Ok && r->Ok_0@ == emit::derive_source_spec(
            input.name@,
            input.data->NamedStruct_0.deep_view(),
        ),
        input.data is UnnamedStruct ==> r == Err::<String, DeriveError>(
            DeriveError::FieldsNotNamed,
        ),
        input.data is NotStruct ==> r == Err::<String, DeriveError>(DeriveError::NotAStruct),
{
    match &input.data {
        ModuleData::NamedStruct(fields) => Ok(emit::derive_source(input.name.as_str(), fields)),
        ModuleData::UnnamedStruct => Err(DeriveError::FieldsNotNamed),
        ModuleData::NotStruct => Err(DeriveError::NotAStruct),
    }
}

} // verus!
