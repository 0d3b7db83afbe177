//! The options of the record as a whole, and how an option set is picked out
//! of a list of attributes.

use vstd::prelude::*;
use vstd::string::StringExecFns;
use crate::error::{SchemaError, SchemaErrorView};
use crate::lookup::{first_index, lemma_first_index, lemma_first_index_at};
use crate::overrides::{FieldOverrides, FieldOverridesView};
use crate::text::{copy_opt, opt_text};

verus! {

/// An attribute on the record or on a field: either one of another kind, or
/// a `builder` attribute with what was read in it (the option set, or why it
/// could not be read).
#[derive(Debug, PartialEq, Eq)]
pub enum Attribute<T> {
    Other,
    Builder(Result<T, String>),
}

/// Picks the `builder` attributes.
pub open spec fn is_builder<T>() -> spec_fn(Attribute<T>) -> bool {
    |a: Attribute<T>| a is Builder
}

/// The index of the first `builder` attribute, if there is one.
pub open spec fn first_builder<T>(attrs: Seq<Attribute<T>>) -> Option<int> {
    first_index(attrs, is_builder())
}

/// Finds the first `builder` attribute.
pub fn find_builder<T>(attrs: &Vec<Attribute<T>>) -> (out: Option<usize>)
    ensures
        match out {
            Some(i) => first_builder(attrs@) == Some(i as int),
            None => first_builder(attrs@) is None,
        },
{
    let mut i: usize = 0;
    while i < attrs.len()
        invariant
            i <= attrs.len(),
            forall|j: int| 0 <= j < i ==> !is_builder()(#[trigger] attrs@[j]),
        decreases attrs.len() - i,
    {
        match &attrs[i] {
            Attribute::Builder(_) => {
                proof {
                    lemma_first_index_at(attrs@, is_builder(), i as int);
                }
                return Some(i);
            },
            Attribute::Other => {},
        }
        i += 1;
    }
    proof {
        lemma_first_index_at(attrs@, is_builder(), i as int);
    }
    None
}

/// The options of the record as a whole.
#[derive(Debug, PartialEq, Eq)]
pub struct StructOptions {
    /// `build` checks the value and can fail.
    pub validate: bool,
    /// The path of this crate as the generated code names it.
    pub crate_: Option<String>,
    /// The name of the module that holds the builder types.
    pub mod_: Option<String>,
    /// The builder types stand beside the record, in no module of their own.
    pub inline: bool,
    /// The name of the builder type.
    pub builder: Option<String>,
    /// The name of the final stage's type.
    pub complete: Option<String>,
    /// A built value can be turned back into a builder at its final stage.
    pub update: bool,
}

/// What [`StructOptions`] holds, as mathematical values.
pub struct StructOptionsView {
    pub validate: bool,
    pub crate_: Option<Seq<char>>,
    pub mod_: Option<Seq<char>>,
    pub inline: bool,
    pub builder: Option<Seq<char>>,
    pub complete: Option<Seq<char>>,
    pub update: bool,
}

impl View for StructOptions {
    type V = StructOptionsView;

    open spec fn view(&self) -> StructOptionsView {
        StructOptionsView {
            validate: self.validate,
            crate_: opt_text(self.crate_),
            mod_: opt_text(self.mod_),
            inline: self.inline,
            builder: opt_text(self.builder),
            complete: opt_text(self.complete),
            update: self.update,
        }
    }
}

impl StructOptionsView {
    /// No option at all.
    pub open spec fn empty() -> StructOptionsView {
        StructOptionsView {
            validate: false,
            crate_: None,
            mod_: None,
            inline: false,
            builder: None,
            complete: None,
            update: false,
        }
    }

    /// The path by which the generated code names this crate.
    pub open spec fn crate_path(self) -> Seq<char> {
        match self.crate_ {
            Some(path) => path,
            None => "::staged_builder"@,
        }
    }

    /// The path by which the generated code names the traits it leans on.
    pub open spec fn private_path(self) -> Seq<char> {
        self.crate_path() + "::__private"@
    }
}

/// What an attribute list gives as its option set: that of the first
/// `builder` attribute, `empty` where there is none, and an error where it
/// could not be read.
pub open spec fn selected<T: View>(attrs: Seq<Attribute<T>>, empty: T::V, field: Option<
    Seq<char>,
>) -> Result<T::V, SchemaErrorView> {
    match first_builder(attrs) {
        Some(i) => match attrs[i] {
            Attribute::Builder(Ok(options)) => Ok(options@),
            Attribute::Builder(Err(message)) => Err(
                SchemaErrorView::Malformed { owner: field, message: message@ },
            ),
            Attribute::Other => Ok(empty),
        },
        None => Ok(empty),
    }
}

impl Default for StructOptions {
    fn default() -> (out: StructOptions)
        ensures
            out@ == StructOptionsView::empty(),
    {
        StructOptions {
            validate: false,
            crate_: None,
            mod_: None,
            inline: false,
            builder: None,
            complete: None,
            update: false,
        }
    }
}

impl StructOptions {
    /// A copy with the same contents.
    pub fn duplicate(&self) -> (out: StructOptions)
        ensures
            out@ == self@,
    {
        StructOptions {
            validate: self.validate,
            crate_: copy_opt(&self.crate_),
            mod_: copy_opt(&self.mod_),
            inline: self.inline,
            builder: copy_opt(&self.builder),
            complete: copy_opt(&self.complete),
            update: self.update,
        }
    }

    /// The options of a record with the attributes `attrs`. Only the first
    /// `builder` attribute counts.
    pub fn new(attrs: &Vec<Attribute<StructOptions>>) -> (out: Result<StructOptions, SchemaError>)
        ensures
            match out {
                Ok(options) => selected(attrs@, StructOptionsView::empty(), None) == Ok::<
                    StructOptionsView,
                    SchemaErrorView,
                >(options@),
                Err(e) => selected(attrs@, StructOptionsView::empty(), None) == Err::<
                    StructOptionsView,
                    SchemaErrorView,
                >(e@),
            },
    {
        match find_builder(attrs) {
            Some(i) => {
                proof {
                    lemma_first_index(attrs@, is_builder());
                }
                match &attrs[i] {
                    Attribute::Builder(Ok(options)) => Ok(options.duplicate()),
                    Attribute::Builder(Err(message)) => Err(
                        SchemaError::Malformed { owner: None, message: message.clone() },
                    ),
                    Attribute::Other => Ok(StructOptions::default()),
                }
            },
            None => Ok(StructOptions::default()),
        }
    }

    /// The path by which the generated code names this crate.
    pub fn crate_(&self) -> (out: String)
        ensures
            out@ == self@.crate_path(),
    {
        match &self.crate_ {
            Some(path) => path.clone(),
            None => String::from_str("::staged_builder"),
        }
    }

    /// The path by which the generated code names the traits it leans on.
    pub fn private(&self) -> (out: String)
        ensures
            out@ == self@.private_path(),
    {
        self.crate_().concat("::__private")
    }
}

impl FieldOverrides {
    /// The options of the field `field` with the attributes `attrs`. Only the
    /// first `builder` attribute counts.
    pub fn new(attrs: &Vec<Attribute<FieldOverrides>>, field: &str) -> (out: Result<
        FieldOverrides,
        SchemaError,
    >)
        ensures
            match out {
                Ok(options) => selected(attrs@, FieldOverridesView::empty(), Some(field@)) == Ok::<
                    FieldOverridesView,
                    SchemaErrorView,
                >(options@),
                Err(e) => selected(attrs@, FieldOverridesView::empty(), Some(field@)) == Err::<
                    FieldOverridesView,
                    SchemaErrorView,
                >(e@),
            },
    {
        match find_builder(attrs) {
            Some(i) => {
                proof {
                    lemma_first_index(attrs@, is_builder());
                }
                match &attrs[i] {
                    Attribute::Builder(Ok(options)) => Ok(options.duplicate()),
                    Attribute::Builder(Err(message)) => Err(
                        SchemaError::Malformed {
                            owner: Some(String::from_str(field)),
                            message: message.clone(),
                        },
                    ),
                    Attribute::Other => Ok(FieldOverrides::default()),
                }
            },
            None => Ok(FieldOverrides::default()),
        }
    }
}

} // verus!
