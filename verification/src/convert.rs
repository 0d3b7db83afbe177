//! Conversion policies: what type a setter takes for a value, and how the
//! value it stores is made of what it takes.

use vstd::prelude::*;
use vstd::string::StringExecFns;
use crate::error::{Param, SchemaError, SchemaErrorView};
use crate::options::StructOptions;
use crate::overrides::{CustomOverrides, CustomOverridesView, ParamOverrides, ParamOverridesView};
use crate::text::{cat3, cat5, copy_opt, opt_text};

verus! {

/// How one value reaches its place: the setter takes `parameter_type`, and
/// stores what `conversion` makes of it (the value itself where there is no
/// conversion).
#[derive(Debug, PartialEq, Eq)]
pub struct ConversionPolicy {
    pub parameter_type: String,
    pub conversion: Option<String>,
}

/// What [`ConversionPolicy`] holds, as mathematical values.
pub struct ConversionPolicyView {
    pub parameter_type: Seq<char>,
    pub conversion: Option<Seq<char>>,
}

impl View for ConversionPolicy {
    type V = ConversionPolicyView;

    open spec fn view(&self) -> ConversionPolicyView {
        ConversionPolicyView {
            parameter_type: self.parameter_type@,
            conversion: opt_text(self.conversion),
        }
    }
}

/// Whether `syn` reads the expression `expr` as a closure.
pub uninterp spec fn is_closure(expr: Seq<char>) -> bool;

/// Parses `expr` with `syn::parse_str` as a `syn::Expr` and says whether the
/// outcome is the variant `Expr::Closure`. A text that is no expression is no
/// closure.
#[verifier::external_body]
pub(crate) fn parses_as_closure(expr: &str) -> (out: bool)
    ensures
        out == is_closure(expr@),
{
    matches!(syn::parse_str::<syn::Expr>(expr), Ok(syn::Expr::Closure(_)))
}

/// The policy that takes the stored type itself.
pub open spec fn identity_policy(ty: Seq<char>) -> ConversionPolicyView {
    ConversionPolicyView { parameter_type: ty, conversion: None }
}

/// The policy that takes anything convertible into the stored type.
pub open spec fn into_policy(private: Seq<char>, ty: Seq<char>) -> ConversionPolicyView {
    ConversionPolicyView {
        parameter_type: "impl "@ + private + "::Into<"@ + ty + ">"@,
        conversion: Some(private + "::Into::into"@),
    }
}

/// The policy of a custom conversion.
pub open spec fn custom_policy(custom: CustomOverridesView) -> ConversionPolicyView {
    ConversionPolicyView { parameter_type: custom.type_, conversion: Some(custom.convert) }
}

/// The policy of a collection parameter, or what is wrong with its options:
/// `into` beside `custom`, or neither a type nor `custom`.
pub open spec fn param_policy(
    private: Seq<char>,
    overrides: ParamOverridesView,
    field: Seq<char>,
    param: Param,
) -> Result<ConversionPolicyView, SchemaErrorView> {
    match overrides.custom {
        Some(custom) => if overrides.into {
            Err(SchemaErrorView::Conflict { field, within: Some(param) })
        } else {
            Ok(custom_policy(custom))
        },
        None => match overrides.type_ {
            None => Err(SchemaErrorView::MissingType { field, param }),
            Some(ty) => if overrides.into {
                Ok(into_policy(private, ty))
            } else {
                Ok(identity_policy(ty))
            },
        },
    }
}

/// The expression that applies `expr` to `name`. A closure cannot be called
/// where it is written (its argument's type would not be inferred), so it
/// goes through `call_hack`.
pub open spec fn call_text(private: Seq<char>, name: Seq<char>, expr: Seq<char>, closure: bool) -> Seq<
    char,
> {
    if closure {
        private + "::call_hack("@ + expr + ", "@ + name + ")"@
    } else {
        expr + "("@ + name + ")"@
    }
}

/// The expression that converts each item of the sequence `name` with
/// `expr`.
pub open spec fn map_text(private: Seq<char>, name: Seq<char>, expr: Seq<char>) -> Seq<char> {
    private + "::Iterator::map("@ + private + "::IntoIterator::into_iter("@ + name + "), "@ + expr
        + ")"@
}

impl ConversionPolicyView {
    /// The expression for the stored value, given the parameter `name`.
    pub open spec fn convert(self, private: Seq<char>, name: Seq<char>) -> Seq<char> {
        match self.conversion {
            Some(expr) => call_text(private, name, expr, is_closure(expr)),
            None => name,
        }
    }

    /// The expression for the stored values, given the sequence `name` of
    /// parameters.
    pub open spec fn convert_iter(self, private: Seq<char>, name: Seq<char>) -> Seq<char> {
        match self.conversion {
            Some(expr) => map_text(private, name, expr),
            None => name,
        }
    }
}

/// The expression that applies `expr` to `name`, where it is known whether
/// `expr` is a closure.
pub fn call_form(options: &StructOptions, name: &str, expr: &str, closure: bool) -> (out: String)
    ensures
        out@ == call_text(options@.private_path(), name@, expr@, closure),
{
    if closure {
        let private = options.private();
        private.concat("::call_hack(").concat(expr).concat(", ").concat(name).concat(")")
    } else {
        cat3(expr, "(", name).concat(")")
    }
}

/// The expression that applies `expr` to `name`.
pub fn call_convert(options: &StructOptions, name: &str, expr: &str) -> (out: String)
    ensures
        out@ == call_text(options@.private_path(), name@, expr@, is_closure(expr@)),
{
    call_form(options, name, expr, parses_as_closure(expr))
}

impl ConversionPolicy {
    /// A copy with the same contents.
    pub fn duplicate(&self) -> (out: ConversionPolicy)
        ensures
            out@ == self@,
    {
        ConversionPolicy {
            parameter_type: self.parameter_type.clone(),
            conversion: copy_opt(&self.conversion),
        }
    }

    /// The policy that takes the stored type `ty` itself.
    pub fn identity(ty: &str) -> (out: ConversionPolicy)
        ensures
            out@ == identity_policy(ty@),
    {
        ConversionPolicy { parameter_type: String::from_str(ty), conversion: None }
    }

    /// The policy that takes anything convertible into the stored type `ty`.
    pub fn into(options: &StructOptions, ty: &str) -> (out: ConversionPolicy)
        ensures
            out@ == into_policy(options@.private_path(), ty@),
    {
        let private = options.private();
        ConversionPolicy {
            parameter_type: cat5("impl ", private.as_str(), "::Into<", ty, ">"),
            conversion: Some(private.concat("::Into::into")),
        }
    }

    /// The policy of the custom conversion `custom`.
    pub fn custom(custom: &CustomOverrides) -> (out: ConversionPolicy)
        ensures
            out@ == custom_policy(custom@),
    {
        ConversionPolicy {
            parameter_type: custom.type_.clone(),
            conversion: Some(custom.convert.clone()),
        }
    }

    /// The policy of the parameter `param` of the collection field `field`.
    pub fn new(options: &StructOptions, overrides: &ParamOverrides, field: &str, param: Param) -> (out:
        Result<ConversionPolicy, SchemaError>)
        ensures
            match out {
                Ok(policy) => param_policy(options@.private_path(), overrides@, field@, param)
                    == Ok::<ConversionPolicyView, SchemaErrorView>(policy@),
                Err(e) => param_policy(options@.private_path(), overrides@, field@, param) == Err::<
                    ConversionPolicyView,
                    SchemaErrorView,
                >(e@),
            },
    {
        match &overrides.custom {
            Some(custom) => {
                if overrides.into {
                    Err(SchemaError::Conflict { field: String::from_str(field), within: Some(param) })
                } else {
                    Ok(ConversionPolicy::custom(custom))
                }
            },
            None => match &overrides.type_ {
                None => Err(SchemaError::MissingType { field: String::from_str(field), param }),
                Some(ty) => {
                    if overrides.into {
                        Ok(ConversionPolicy::into(options, ty.as_str()))
                    } else {
                        Ok(ConversionPolicy::identity(ty.as_str()))
                    }
                },
            },
        }
    }

    /// The expression for the stored value, given the parameter `name`.
    pub fn convert(&self, options: &StructOptions, name: &str) -> (out: String)
        ensures
            out@ == self@.convert(options@.private_path(), name@),
    {
        match &self.conversion {
            Some(expr) => call_convert(options, name, expr.as_str()),
            None => String::from_str(name),
        }
    }

    /// The expression for the stored values, given the sequence `name` of
    /// parameters.
    pub fn convert_iter(&self, options: &StructOptions, name: &str) -> (out: String)
        ensures
            out@ == self@.convert_iter(options@.private_path(), name@),
    {
        match &self.conversion {
            Some(expr) => {
                let private = options.private();
                cat5(
                    private.as_str(),
                    "::Iterator::map(",
                    private.as_str(),
                    "::IntoIterator::into_iter(",
                    name,
                ).concat("), ").concat(expr.as_str()).concat(")")
            },
            None => String::from_str(name),
        }
    }
}

} // verus!
