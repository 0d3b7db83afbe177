//! What can be wrong with a schema.

use vstd::prelude::*;
use vstd::string::StringExecFns;
use crate::text::{copy_opt, opt_text};

verus! {

/// A parameter of a collection's setters.
#[derive(Debug, Clone, Copy, PartialEq, Eq, Structural)]
pub enum Param {
    Item,
    Key,
    Value,
}

/// One thing wrong with a schema.
#[derive(Debug, PartialEq, Eq)]
pub enum SchemaError {
    /// The input is not a struct.
    NotStruct,
    /// The struct has no named fields.
    NotNamed,
    /// An option set could not be read: that of the struct (`owner` is
    /// `None`) or that of the field `owner`.
    Malformed { owner: Option<String>, message: String },
    /// A collection parameter of `field` has neither a type nor a custom
    /// conversion.
    MissingType { field: String, param: Param },
    /// Options that exclude each other: among those of `field` itself
    /// (`within` is `None`) or among those of one of its parameters.
    Conflict { field: String, within: Option<Param> },
}

/// What [`SchemaError`] holds, as mathematical values.
pub enum SchemaErrorView {
    NotStruct,
    NotNamed,
    Malformed { owner: Option<Seq<char>>, message: Seq<char> },
    MissingType { field: Seq<char>, param: Param },
    Conflict { field: Seq<char>, within: Option<Param> },
}

impl View for SchemaError {
    type V = SchemaErrorView;

    open spec fn view(&self) -> SchemaErrorView {
        match *self {
            SchemaError::NotStruct => SchemaErrorView::NotStruct,
            SchemaError::NotNamed => SchemaErrorView::NotNamed,
            SchemaError::Malformed { owner, message } => SchemaErrorView::Malformed {
                owner: opt_text(owner),
                message: message@,
            },
            SchemaError::MissingType { field, param } => SchemaErrorView::MissingType {
                field: field@,
                param,
            },
            SchemaError::Conflict { field, within } => SchemaErrorView::Conflict {
                field: field@,
                within,
            },
        }
    }
}

/// The views of a list of errors.
pub open spec fn error_views(errors: Seq<SchemaError>) -> Seq<SchemaErrorView> {
    errors.map_values(|e: SchemaError| e@)
}

impl SchemaErrorView {
    /// The text of the diagnostic.
    pub open spec fn message(self) -> Seq<char> {
        match self {
            SchemaErrorView::NotStruct => "staged builders can only be derived on structs"@,
            SchemaErrorView::NotNamed =>
                "staged builders cannot be derived on tuple or unit structs"@,
            SchemaErrorView::Malformed { message, .. } => message,
            SchemaErrorView::MissingType { .. } => "missing `type` configuration"@,
            SchemaErrorView::Conflict { within, .. } => if within is None {
                "at most one of `into`, `custom`, `list`, `set` and `map` can be used"@
            } else {
                "`into` and `custom` cannot be used together"@
            },
        }
    }
}

impl SchemaError {
    /// The text of the diagnostic.
    pub fn message(&self) -> (out: String)
        ensures
            out@ == self@.message(),
    {
        match self {
            SchemaError::NotStruct => String::from_str(
                "staged builders can only be derived on structs",
            ),
            SchemaError::NotNamed => String::from_str(
                "staged builders cannot be derived on tuple or unit structs",
            ),
            SchemaError::Malformed { message, .. } => message.clone(),
            SchemaError::MissingType { .. } => String::from_str("missing `type` configuration"),
            SchemaError::Conflict { within, .. } => match within {
                None => String::from_str(
                    "at most one of `into`, `custom`, `list`, `set` and `map` can be used",
                ),
                Some(_) => String::from_str("`into` and `custom` cannot be used together"),
            },
        }
    }

    /// The field that the error is about, if it is about one.
    pub fn field(&self) -> (out: Option<String>)
        ensures
            opt_text(out) == match self@ {
                SchemaErrorView::Malformed { owner, .. } => owner,
                SchemaErrorView::MissingType { field, .. } => Some(field),
                SchemaErrorView::Conflict { field, .. } => Some(field),
                _ => None,
            },
    {
        match self {
            SchemaError::Malformed { owner, .. } => copy_opt(owner),
            SchemaError::MissingType { field, .. } => Some(field.clone()),
            SchemaError::Conflict { field, .. } => Some(field.clone()),
            _ => None,
        }
    }
}

} // verus!
