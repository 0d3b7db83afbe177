//! Names of the generated items: the stage types, the final stage, the
//! builder, the module.

use vstd::prelude::*;
use vstd::string::StringExecFns;
use crate::options::{StructOptions, StructOptionsView};
use crate::resolve::{FieldDescriptor, FieldDescriptorView};

verus! {

/// What `heck` gives as the `snake_case` form of a text.
pub uninterp spec fn snake_case(text: Seq<char>) -> Seq<char>;

/// What `heck` gives as the `UpperCamelCase` form of a text.
pub uninterp spec fn upper_camel_case(text: Seq<char>) -> Seq<char>;

/// Calls `heck::ToSnakeCase::to_snake_case` on `text`. The result is a
/// function of the text alone; it is named, not described.
#[verifier::external_body]
pub(crate) fn to_snake_case(text: &str) -> (out: String)
    ensures
        out@ == snake_case(text@),
{
    heck::ToSnakeCase::to_snake_case(text)
}

/// Calls `heck::ToUpperCamelCase::to_upper_camel_case` on `text`. The result
/// is a function of the text alone; it is named, not described.
#[verifier::external_body]
pub(crate) fn to_upper_camel_case(text: &str) -> (out: String)
    ensures
        out@ == upper_camel_case(text@),
{
    heck::ToUpperCamelCase::to_upper_camel_case(text)
}

/// The name of a field's stage type: the one chosen for it, else the
/// field's name in camel case followed by `Stage`.
pub open spec fn stage_type_name(field: FieldDescriptorView) -> Seq<char> {
    match field.stage {
        Some(name) => name,
        None => upper_camel_case(field.name) + "Stage"@,
    }
}

/// The name of the final stage's type.
pub open spec fn final_type_name(options: StructOptionsView) -> Seq<char> {
    match options.complete {
        Some(name) => name,
        None => "Complete"@,
    }
}

/// The name of the builder type.
pub open spec fn builder_type_name(options: StructOptionsView) -> Seq<char> {
    match options.builder {
        Some(name) => name,
        None => "Builder"@,
    }
}

/// The name of the module of the builder types of the record `ident`.
pub open spec fn module_name_text(options: StructOptionsView, ident: Seq<char>) -> Seq<char> {
    match options.mod_ {
        Some(name) => name,
        None => snake_case(ident),
    }
}

/// The stage type name made of a field's name already in camel case.
pub fn stage_name_of(camel: String) -> (out: String)
    ensures
        out@ == camel@ + "Stage"@,
{
    camel.concat("Stage")
}

/// The name of the stage type of `field`.
pub fn stage_name(field: &FieldDescriptor) -> (out: String)
    ensures
        out@ == stage_type_name(field@),
{
    match &field.stage {
        Some(name) => name.clone(),
        None => stage_name_of(to_upper_camel_case(field.name.as_str())),
    }
}

/// The name of the final stage's type.
pub fn final_name(options: &StructOptions) -> (out: String)
    ensures
        out@ == final_type_name(options@),
{
    match &options.complete {
        Some(name) => name.clone(),
        None => String::from_str("Complete"),
    }
}

/// The name of the builder type.
pub fn builder_name(options: &StructOptions) -> (out: String)
    ensures
        out@ == builder_type_name(options@),
{
    match &options.builder {
        Some(name) => name.clone(),
        None => String::from_str("Builder"),
    }
}

/// The name of the module of the builder types of the record `ident`.
pub fn module_name(options: &StructOptions, ident: &str) -> (out: String)
    ensures
        out@ == module_name_text(options@, ident@),
{
    match &options.mod_ {
        Some(name) => name.clone(),
        None => to_snake_case(ident),
    }
}

} // verus!
