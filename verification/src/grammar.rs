//! The option sets as they are written: which parameters an option set
//! has, in which form each is written, and what was written.

use vstd::prelude::*;
use vstd::string::StringExecFns;
use crate::filter::{lemma_filter_none, lemma_filter_take};
use crate::lookup::{first_index, lemma_first_index};
use crate::options::{StructOptions, StructOptionsView};
use crate::overrides::{
    CustomOverrides, CustomOverridesView, FieldOverrides, FieldOverridesView, MapOverrides,
    MapOverridesView, ParamOverrides, ParamOverridesView, SeqOverrides, SeqOverridesView,
};

verus! {

/// An option set that can be written.
#[derive(Debug, Clone, Copy, PartialEq, Eq, Structural)]
pub enum Scope {
    /// The options of a record.
    Record,
    /// The options of a field.
    Field,
    /// The arguments of `custom`.
    Custom,
    /// The arguments of `list` and of `set`.
    Sequence,
    /// The arguments of `item`, of `key` and of `value`.
    Param,
    /// The arguments of `map`.
    Entries,
}

/// The form in which a parameter is written.
#[derive(Debug, Clone, Copy, PartialEq, Eq, Structural)]
pub enum Shape {
    /// `name`
    Flag,
    /// `name = value`
    Value,
    /// `name(...)`
    Args,
}

/// What a value is, as syntax.
#[derive(Debug, Clone, Copy, PartialEq, Eq, Structural)]
pub enum Syntax {
    Expr,
    Type,
    Ident,
    Path,
}

/// What follows the name of a parameter.
#[derive(Debug, Clone, Copy, PartialEq, Eq, Structural)]
pub enum Reading {
    /// Nothing: the parameter is a flag.
    Nothing,
    /// `=` and a value.
    Value(Syntax),
    /// An option set in round brackets.
    Args(Scope),
}

/// A parameter of an option set.
#[derive(Debug, Clone, Copy, PartialEq, Eq, Structural)]
pub enum Parameter {
    Validate,
    Crate,
    Mod,
    Inline,
    Builder,
    Complete,
    Update,
    Default,
    Into,
    Custom,
    ListOf,
    SetOf,
    MapOf,
    Stage,
    Type,
    Convert,
    Item,
    Key,
    Value,
}

/// What follows `param` where it is written in the form `shape` in the
/// option set `scope`; `None` where the option set has no such parameter.
pub open spec fn reading(scope: Scope, param: Parameter, shape: Shape) -> Option<Reading> {
    match (scope, param, shape) {
        (Scope::Record, Parameter::Validate, Shape::Flag) => Some(Reading::Nothing),
        (Scope::Record, Parameter::Inline, Shape::Flag) => Some(Reading::Nothing),
        (Scope::Record, Parameter::Update, Shape::Flag) => Some(Reading::Nothing),
        (Scope::Record, Parameter::Crate, Shape::Value) => Some(Reading::Value(Syntax::Path)),
        (Scope::Record, Parameter::Mod, Shape::Value) => Some(Reading::Value(Syntax::Ident)),
        (Scope::Record, Parameter::Builder, Shape::Value) => Some(Reading::Value(Syntax::Ident)),
        (Scope::Record, Parameter::Complete, Shape::Value) => Some(Reading::Value(Syntax::Ident)),
        (Scope::Field, Parameter::Default, Shape::Flag) => Some(Reading::Nothing),
        (Scope::Field, Parameter::Default, Shape::Value) => Some(Reading::Value(Syntax::Expr)),
        (Scope::Field, Parameter::Into, Shape::Flag) => Some(Reading::Nothing),
        (Scope::Field, Parameter::Stage, Shape::Value) => Some(Reading::Value(Syntax::Ident)),
        (Scope::Field, Parameter::Custom, Shape::Args) => Some(Reading::Args(Scope::Custom)),
        (Scope::Field, Parameter::ListOf, Shape::Args) => Some(Reading::Args(Scope::Sequence)),
        (Scope::Field, Parameter::SetOf, Shape::Args) => Some(Reading::Args(Scope::Sequence)),
        (Scope::Field, Parameter::MapOf, Shape::Args) => Some(Reading::Args(Scope::Entries)),
        (Scope::Custom, Parameter::Type, Shape::Value) => Some(Reading::Value(Syntax::Type)),
        (Scope::Custom, Parameter::Convert, Shape::Value) => Some(Reading::Value(Syntax::Expr)),
        (Scope::Sequence, Parameter::Item, Shape::Args) => Some(Reading::Args(Scope::Param)),
        (Scope::Param, Parameter::Type, Shape::Value) => Some(Reading::Value(Syntax::Type)),
        (Scope::Param, Parameter::Into, Shape::Flag) => Some(Reading::Nothing),
        (Scope::Param, Parameter::Custom, Shape::Args) => Some(Reading::Args(Scope::Custom)),
        (Scope::Entries, Parameter::Key, Shape::Args) => Some(Reading::Args(Scope::Param)),
        (Scope::Entries, Parameter::Value, Shape::Args) => Some(Reading::Args(Scope::Param)),
        _ => None,
    }
}

/// What follows `param` where it is written in the form `shape` in the
/// option set `scope`; `None` where the option set has no such parameter.
pub fn follows(scope: Scope, param: Parameter, shape: Shape) -> (out: Option<Reading>)
    ensures
        out == reading(scope, param, shape),
{
    match (scope, param, shape) {
        (Scope::Record, Parameter::Validate, Shape::Flag) => Some(Reading::Nothing),
        (Scope::Record, Parameter::Inline, Shape::Flag) => Some(Reading::Nothing),
        (Scope::Record, Parameter::Update, Shape::Flag) => Some(Reading::Nothing),
        (Scope::Record, Parameter::Crate, Shape::Value) => Some(Reading::Value(Syntax::Path)),
        (Scope::Record, Parameter::Mod, Shape::Value) => Some(Reading::Value(Syntax::Ident)),
        (Scope::Record, Parameter::Builder, Shape::Value) => Some(Reading::Value(Syntax::Ident)),
        (Scope::Record, Parameter::Complete, Shape::Value) => Some(Reading::Value(Syntax::Ident)),
        (Scope::Field, Parameter::Default, Shape::Flag) => Some(Reading::Nothing),
        (Scope::Field, Parameter::Default, Shape::Value) => Some(Reading::Value(Syntax::Expr)),
        (Scope::Field, Parameter::Into, Shape::Flag) => Some(Reading::Nothing),
        (Scope::Field, Parameter::Stage, Shape::Value) => Some(Reading::Value(Syntax::Ident)),
        (Scope::Field, Parameter::Custom, Shape::Args) => Some(Reading::Args(Scope::Custom)),
        (Scope::Field, Parameter::ListOf, Shape::Args) => Some(Reading::Args(Scope::Sequence)),
        (Scope::Field, Parameter::SetOf, Shape::Args) => Some(Reading::Args(Scope::Sequence)),
        (Scope::Field, Parameter::MapOf, Shape::Args) => Some(Reading::Args(Scope::Entries)),
        (Scope::Custom, Parameter::Type, Shape::Value) => Some(Reading::Value(Syntax::Type)),
        (Scope::Custom, Parameter::Convert, Shape::Value) => Some(Reading::Value(Syntax::Expr)),
        (Scope::Sequence, Parameter::Item, Shape::Args) => Some(Reading::Args(Scope::Param)),
        (Scope::Param, Parameter::Type, Shape::Value) => Some(Reading::Value(Syntax::Type)),
        (Scope::Param, Parameter::Into, Shape::Flag) => Some(Reading::Nothing),
        (Scope::Param, Parameter::Custom, Shape::Args) => Some(Reading::Args(Scope::Custom)),
        (Scope::Entries, Parameter::Key, Shape::Args) => Some(Reading::Args(Scope::Param)),
        (Scope::Entries, Parameter::Value, Shape::Args) => Some(Reading::Args(Scope::Param)),
        _ => None,
    }
}


impl Parameter {
    /// The name by which the parameter is written.
    pub open spec fn name(self) -> Seq<char> {
        match self {
            Parameter::Validate => "validate"@,
            Parameter::Crate => "crate"@,
            Parameter::Mod => "mod"@,
            Parameter::Inline => "inline"@,
            Parameter::Builder => "builder"@,
            Parameter::Complete => "complete"@,
            Parameter::Update => "update"@,
            Parameter::Default => "default"@,
            Parameter::Into => "into"@,
            Parameter::Custom => "custom"@,
            Parameter::ListOf => "list"@,
            Parameter::SetOf => "set"@,
            Parameter::MapOf => "map"@,
            Parameter::Stage => "stage"@,
            Parameter::Type => "type"@,
            Parameter::Convert => "convert"@,
            Parameter::Item => "item"@,
            Parameter::Key => "key"@,
            Parameter::Value => "value"@,
        }
    }

    /// The name by which the parameter is written.
    pub fn written(self) -> (out: &'static str)
        ensures
            out@ == self.name(),
    {
        match self {
            Parameter::Validate => "validate",
            Parameter::Crate => "crate",
            Parameter::Mod => "mod",
            Parameter::Inline => "inline",
            Parameter::Builder => "builder",
            Parameter::Complete => "complete",
            Parameter::Update => "update",
            Parameter::Default => "default",
            Parameter::Into => "into",
            Parameter::Custom => "custom",
            Parameter::ListOf => "list",
            Parameter::SetOf => "set",
            Parameter::MapOf => "map",
            Parameter::Stage => "stage",
            Parameter::Type => "type",
            Parameter::Convert => "convert",
            Parameter::Item => "item",
            Parameter::Key => "key",
            Parameter::Value => "value",
        }
    }

    /// All parameters.
    pub open spec fn all() -> Seq<Parameter> {
        seq![
            Parameter::Validate,
            Parameter::Crate,
            Parameter::Mod,
            Parameter::Inline,
            Parameter::Builder,
            Parameter::Complete,
            Parameter::Update,
            Parameter::Default,
            Parameter::Into,
            Parameter::Custom,
            Parameter::ListOf,
            Parameter::SetOf,
            Parameter::MapOf,
            Parameter::Stage,
            Parameter::Type,
            Parameter::Convert,
            Parameter::Item,
            Parameter::Key,
            Parameter::Value,
        ]
    }

    /// All parameters.
    pub fn every() -> (out: Vec<Parameter>)
        ensures
            out@ == Parameter::all(),
            forall|p: Parameter| out@.contains(p),
    {
        let out = vec![
            Parameter::Validate,
            Parameter::Crate,
            Parameter::Mod,
            Parameter::Inline,
            Parameter::Builder,
            Parameter::Complete,
            Parameter::Update,
            Parameter::Default,
            Parameter::Into,
            Parameter::Custom,
            Parameter::ListOf,
            Parameter::SetOf,
            Parameter::MapOf,
            Parameter::Stage,
            Parameter::Type,
            Parameter::Convert,
            Parameter::Item,
            Parameter::Key,
            Parameter::Value,
        ];
        out
    }
}

/// The parameter that is written `name`, if there is one.
pub open spec fn named(name: Seq<char>) -> Option<Parameter> {
    if name == "validate"@ {
        Some(Parameter::Validate)
    } else if name == "crate"@ {
        Some(Parameter::Crate)
    } else if name == "mod"@ {
        Some(Parameter::Mod)
    } else if name == "inline"@ {
        Some(Parameter::Inline)
    } else if name == "builder"@ {
        Some(Parameter::Builder)
    } else if name == "complete"@ {
        Some(Parameter::Complete)
    } else if name == "update"@ {
        Some(Parameter::Update)
    } else if name == "default"@ {
        Some(Parameter::Default)
    } else if name == "into"@ {
        Some(Parameter::Into)
    } else if name == "custom"@ {
        Some(Parameter::Custom)
    } else if name == "list"@ {
        Some(Parameter::ListOf)
    } else if name == "set"@ {
        Some(Parameter::SetOf)
    } else if name == "map"@ {
        Some(Parameter::MapOf)
    } else if name == "stage"@ {
        Some(Parameter::Stage)
    } else if name == "type"@ {
        Some(Parameter::Type)
    } else if name == "convert"@ {
        Some(Parameter::Convert)
    } else if name == "item"@ {
        Some(Parameter::Item)
    } else if name == "key"@ {
        Some(Parameter::Key)
    } else if name == "value"@ {
        Some(Parameter::Value)
    } else {
        None
    }
}

/// No two parameters are written alike: what is written as `param` is
/// written is `param`, and whatever is the name of a parameter at all is
/// the name of the one that it is read as.
pub proof fn law_names_tell_parameters(param: Parameter)
    ensures
        named(param.name()) == Some(param),
        forall|name: Seq<char>| #[trigger] named(name) matches Some(p) ==> p.name() == name,
{
    reveal_strlit("validate");
    assert("validate"@ =~= seq!['v', 'a', 'l', 'i', 'd', 'a', 't', 'e']);
    reveal_strlit("crate");
    assert("crate"@ =~= seq!['c', 'r', 'a', 't', 'e']);
    reveal_strlit("mod");
    assert("mod"@ =~= seq!['m', 'o', 'd']);
    reveal_strlit("inline");
    assert("inline"@ =~= seq!['i', 'n', 'l', 'i', 'n', 'e']);
    reveal_strlit("builder");
    assert("builder"@ =~= seq!['b', 'u', 'i', 'l', 'd', 'e', 'r']);
    reveal_strlit("complete");
    assert("complete"@ =~= seq!['c', 'o', 'm', 'p', 'l', 'e', 't', 'e']);
    reveal_strlit("update");
    assert("update"@ =~= seq!['u', 'p', 'd', 'a', 't', 'e']);
    reveal_strlit("default");
    assert("default"@ =~= seq!['d', 'e', 'f', 'a', 'u', 'l', 't']);
    reveal_strlit("into");
    assert("into"@ =~= seq!['i', 'n', 't', 'o']);
    reveal_strlit("custom");
    assert("custom"@ =~= seq!['c', 'u', 's', 't', 'o', 'm']);
    reveal_strlit("list");
    assert("list"@ =~= seq!['l', 'i', 's', 't']);
    reveal_strlit("set");
    assert("set"@ =~= seq!['s', 'e', 't']);
    reveal_strlit("map");
    assert("map"@ =~= seq!['m', 'a', 'p']);
    reveal_strlit("stage");
    assert("stage"@ =~= seq!['s', 't', 'a', 'g', 'e']);
    reveal_strlit("type");
    assert("type"@ =~= seq!['t', 'y', 'p', 'e']);
    reveal_strlit("convert");
    assert("convert"@ =~= seq!['c', 'o', 'n', 'v', 'e', 'r', 't']);
    reveal_strlit("item");
    assert("item"@ =~= seq!['i', 't', 'e', 'm']);
    reveal_strlit("key");
    assert("key"@ =~= seq!['k', 'e', 'y']);
    reveal_strlit("value");
}

/// Whether two texts are the same.
fn same(a: &str, b: &str) -> (out: bool)
    ensures
        out == (a@ == b@),
{
    String::from_str(a) == String::from_str(b)
}

impl Parameter {
    /// The parameter that is written `name`, if there is one.
    pub fn of(name: &str) -> (out: Option<Parameter>)
        ensures
            out == named(name@),
    {
        if same(name, "validate") {
            Some(Parameter::Validate)
        } else if same(name, "crate") {
            Some(Parameter::Crate)
        } else if same(name, "mod") {
            Some(Parameter::Mod)
        } else if same(name, "inline") {
            Some(Parameter::Inline)
        } else if same(name, "builder") {
            Some(Parameter::Builder)
        } else if same(name, "complete") {
            Some(Parameter::Complete)
        } else if same(name, "update") {
            Some(Parameter::Update)
        } else if same(name, "default") {
            Some(Parameter::Default)
        } else if same(name, "into") {
            Some(Parameter::Into)
        } else if same(name, "custom") {
            Some(Parameter::Custom)
        } else if same(name, "list") {
            Some(Parameter::ListOf)
        } else if same(name, "set") {
            Some(Parameter::SetOf)
        } else if same(name, "map") {
            Some(Parameter::MapOf)
        } else if same(name, "stage") {
            Some(Parameter::Stage)
        } else if same(name, "type") {
            Some(Parameter::Type)
        } else if same(name, "convert") {
            Some(Parameter::Convert)
        } else if same(name, "item") {
            Some(Parameter::Item)
        } else if same(name, "key") {
            Some(Parameter::Key)
        } else if same(name, "value") {
            Some(Parameter::Value)
        } else {
            None
        }
    }
}

/// Picks the parameters that `scope` has in the form `shape`.
pub open spec fn has(scope: Scope, shape: Shape) -> spec_fn(Parameter) -> bool {
    |p: Parameter| reading(scope, p, shape) is Some
}

/// The parameters that `scope` has in the form `shape`.
pub fn parameters(scope: Scope, shape: Shape) -> (out: Vec<Parameter>)
    ensures
        out@ == Parameter::all().filter(has(scope, shape)),
{
    let all = Parameter::every();
    let mut out: Vec<Parameter> = Vec::new();
    let mut i: usize = 0;
    proof {
        lemma_filter_none(all@.take(0), has(scope, shape));
    }
    while i < all.len()
        invariant
            i <= all.len(),
            all@ == Parameter::all(),
            out@ == all@.take(i as int).filter(has(scope, shape)),
        decreases all.len() - i,
    {
        let param = all[i];
        proof {
            lemma_filter_take(all@, i as int, has(scope, shape));
        }
        if follows(scope, param, shape).is_some() {
            out.push(param);
        }
        i += 1;
    }
    proof {
        assert(all@.take(i as int) =~= all@);
    }
    out
}

/// What was written for a parameter.
#[derive(Debug, PartialEq, Eq)]
pub enum Arg {
    /// Nothing but the name.
    Flag,
    /// A value, as text.
    Value(String),
    /// An option set.
    Args(Vec<Item>),
}

/// A parameter as it was written.
#[derive(Debug, PartialEq, Eq)]
pub struct Item {
    pub param: Parameter,
    pub arg: Arg,
}

impl Arg {
    /// The form in which the parameter was written.
    pub open spec fn shape(self) -> Shape {
        match self {
            Arg::Flag => Shape::Flag,
            Arg::Value(_) => Shape::Value,
            Arg::Args(_) => Shape::Args,
        }
    }

    /// The form in which the parameter was written.
    pub fn form(&self) -> (out: Shape)
        ensures
            out == self.shape(),
    {
        match self {
            Arg::Flag => Shape::Flag,
            Arg::Value(_) => Shape::Value,
            Arg::Args(_) => Shape::Args,
        }
    }
}

/// What is wrong with an option set as it was written.
#[derive(Debug, Clone, Copy, PartialEq, Eq, Structural)]
pub enum OptionError {
    /// The option set has no such parameter in this form.
    Unexpected { param: Parameter, shape: Shape },
    /// The parameter was written before.
    Repeated { param: Parameter },
    /// The parameter must be written, in this form, and was not.
    Missing { param: Parameter, shape: Shape },
}

impl OptionError {
    /// The text of the diagnostic.
    pub open spec fn text(self) -> Seq<char> {
        match self {
            OptionError::Unexpected { param, .. } => "cannot find parameter `"@ + param.name()
                + "` in this scope"@,
            OptionError::Repeated { param } => "parameter `"@ + param.name()
                + "` specified more than once"@,
            OptionError::Missing { param, shape } => "missing argument `"@ + param.name() + (
            match shape {
                Shape::Flag => "`"@,
                Shape::Value => " = ...`"@,
                Shape::Args => "(...)`"@,
            }),
        }
    }

    /// The text of the diagnostic.
    pub fn message(&self) -> (out: String)
        ensures
            out@ == self.text(),
    {
        match self {
            OptionError::Unexpected { param, .. } => String::from_str(
                "cannot find parameter `",
            ).concat(param.written()).concat("` in this scope"),
            OptionError::Repeated { param } => String::from_str("parameter `").concat(
                param.written(),
            ).concat("` specified more than once"),
            OptionError::Missing { param, shape } => {
                let tail = match shape {
                    Shape::Flag => "`",
                    Shape::Value => " = ...`",
                    Shape::Args => "(...)`",
                };
                String::from_str("missing argument `").concat(param.written()).concat(tail)
            },
        }
    }
}

/// Whether `param` is written among the first `n` of `items`.
pub open spec fn given(items: Seq<Item>, n: int, param: Parameter) -> bool {
    exists|j: int| 0 <= j < n && j < items.len() && (#[trigger] items[j]).param == param
}

/// Why `param` cannot be written in the form `shape` after the first `n` of
/// `items`: the option set has no such parameter, or it was written before.
pub open spec fn refusal(scope: Scope, items: Seq<Item>, n: int, param: Parameter, shape: Shape) -> Option<
    OptionError,
> {
    if reading(scope, param, shape) is None {
        Some(OptionError::Unexpected { param, shape })
    } else if given(items, n, param) {
        Some(OptionError::Repeated { param })
    } else {
        None
    }
}

/// How deep option sets stand in `scope`.
pub open spec fn depth(scope: Scope) -> nat {
    match scope {
        Scope::Record => 0,
        Scope::Custom => 0,
        Scope::Param => 1,
        Scope::Sequence => 2,
        Scope::Entries => 2,
        Scope::Field => 3,
    }
}

/// The parameters that must be written in `scope`, each with its form, in
/// the order in which `scope` declares them.
pub open spec fn required_of(scope: Scope) -> Seq<(Parameter, Shape)> {
    match scope {
        Scope::Custom => seq![(Parameter::Type, Shape::Value), (Parameter::Convert, Shape::Value)],
        Scope::Sequence => seq![(Parameter::Item, Shape::Args)],
        Scope::Entries => seq![(Parameter::Key, Shape::Args), (Parameter::Value, Shape::Args)],
        _ => Seq::empty(),
    }
}

/// The first of `required` that `items` lacks.
pub open spec fn missing_among(required: Seq<(Parameter, Shape)>, items: Seq<Item>) -> Option<
    OptionError,
>
    decreases required.len(),
{
    if required.len() == 0 {
        None
    } else if !given(items, items.len() as int, required[0].0) {
        Some(OptionError::Missing { param: required[0].0, shape: required[0].1 })
    } else {
        missing_among(required.drop_first(), items)
    }
}

/// The parameter that `scope` asks for and `items` lacks: the first one in
/// the order in which `scope` declares them.
pub open spec fn missing_in(scope: Scope, items: Seq<Item>) -> Option<OptionError> {
    missing_among(required_of(scope), items)
}

/// Where nothing is missing, each parameter that must be written is.
proof fn lemma_nothing_missing(required: Seq<(Parameter, Shape)>, items: Seq<Item>, k: int)
    requires
        missing_among(required, items) is None,
        0 <= k < required.len(),
    ensures
        given(items, items.len() as int, required[k].0),
    decreases required.len(),
{
    if k > 0 {
        lemma_nothing_missing(required.drop_first(), items, k - 1);
    }
}

/// What is wrong with the item at `i`: it cannot stand where it does, or
/// something is wrong with the option set in its round brackets.
pub open spec fn error_at(scope: Scope, items: Seq<Item>, i: int) -> Option<OptionError>
    decreases depth(scope), 0nat, 0nat,
{
    let item = items[i];
    match refusal(scope, items, i, item.param, item.arg.shape()) {
        Some(e) => Some(e),
        None => match (reading(scope, item.param, item.arg.shape()), item.arg) {
            (Some(Reading::Args(inner)), Arg::Args(written)) => errors_of(inner, written@),
            _ => None,
        },
    }
}

/// What is wrong with the first `n` items: the error of the first of them
/// that has one.
pub open spec fn first_error(scope: Scope, items: Seq<Item>, n: int) -> Option<OptionError>
    decreases depth(scope), 1nat, n,
{
    if n <= 0 {
        None
    } else {
        match first_error(scope, items, n - 1) {
            Some(e) => Some(e),
            None => error_at(scope, items, n - 1),
        }
    }
}

/// What is wrong with an option set as it was written: the error of the
/// first item that has one, and where no item has one, the parameter that
/// must be written and was not.
pub open spec fn errors_of(scope: Scope, items: Seq<Item>) -> Option<OptionError>
    decreases depth(scope), 2nat, 0nat,
{
    match first_error(scope, items, items.len() as int) {
        Some(e) => Some(e),
        None => missing_in(scope, items),
    }
}

/// An error among the first items is an error of them all.
proof fn lemma_first_error_stays(scope: Scope, items: Seq<Item>, i: int, n: int)
    requires
        0 <= i <= n,
        first_error(scope, items, i) is Some,
    ensures
        first_error(scope, items, n) == first_error(scope, items, i),
    decreases n - i,
{
    if i < n {
        lemma_first_error_stays(scope, items, i, n - 1);
    }
}

/// Where the first items have no error, none of them has one.
proof fn lemma_no_error_at(scope: Scope, items: Seq<Item>, n: int, i: int)
    requires
        0 <= i < n,
        first_error(scope, items, n) is None,
    ensures
        error_at(scope, items, i) is None,
    decreases n,
{
    if i < n - 1 {
        lemma_no_error_at(scope, items, n - 1, i);
    }
}

/// Whether `param` is written among the first `n` of `items`.
pub fn is_given(items: &Vec<Item>, n: usize, param: Parameter) -> (out: bool)
    ensures
        out == given(items@, n as int, param),
{
    let mut j: usize = 0;
    while j < n && j < items.len()
        invariant
            forall|k: int| 0 <= k < j && k < items@.len() ==> (#[trigger] items@[k]).param != param,
        decreases items.len() - j,
    {
        if items[j].param == param {
            return true;
        }
        j += 1;
    }
    false
}

/// Says what follows the name of `param`, written in the form `shape`
/// after the first `n` of `items`, or why it cannot be written there.
pub fn accept(scope: Scope, items: &Vec<Item>, n: usize, param: Parameter, shape: Shape) -> (out:
    Result<Reading, OptionError>)
    ensures
        match out {
            Ok(next) => refusal(scope, items@, n as int, param, shape) is None && reading(
                scope,
                param,
                shape,
            ) == Some(next),
            Err(e) => refusal(scope, items@, n as int, param, shape) == Some(e),
        },
{
    match follows(scope, param, shape) {
        None => Err(OptionError::Unexpected { param, shape }),
        Some(next) => {
            if is_given(items, n, param) {
                Err(OptionError::Repeated { param })
            } else {
                Ok(next)
            }
        },
    }
}

/// The parameters that must be written in `scope`, each with its form.
pub fn demands(scope: Scope) -> (out: Vec<(Parameter, Shape)>)
    ensures
        out@ == required_of(scope),
{
    let mut out: Vec<(Parameter, Shape)> = Vec::new();
    match scope {
        Scope::Custom => {
            out.push((Parameter::Type, Shape::Value));
            out.push((Parameter::Convert, Shape::Value));
        },
        Scope::Sequence => {
            out.push((Parameter::Item, Shape::Args));
        },
        Scope::Entries => {
            out.push((Parameter::Key, Shape::Args));
            out.push((Parameter::Value, Shape::Args));
        },
        _ => {},
    }
    out
}

/// The parameter that `scope` asks for and `items` lacks.
pub fn missing(scope: Scope, items: &Vec<Item>) -> (out: Option<OptionError>)
    ensures
        out == missing_in(scope, items@),
{
    let required = demands(scope);
    let mut k: usize = 0;
    assert(required@.skip(0) =~= required@);
    while k < required.len()
        invariant
            k <= required.len(),
            missing_in(scope, items@) == missing_among(required@.skip(k as int), items@),
        decreases required.len() - k,
    {
        let (param, shape) = required[k];
        proof {
            assert(required@.skip(k as int).drop_first() =~= required@.skip(k + 1));
        }
        if !is_given(items, items.len(), param) {
            return Some(OptionError::Missing { param, shape });
        }
        k += 1;
    }
    None
}

/// Looks an option set over: what is wrong with it, if anything is.
pub fn check(scope: Scope, items: &Vec<Item>) -> (out: Option<OptionError>)
    ensures
        out == errors_of(scope, items@),
    decreases depth(scope),
{
    let mut i: usize = 0;
    while i < items.len()
        invariant
            i <= items.len(),
            first_error(scope, items@, i as int) is None,
        decreases items.len() - i,
    {
        let item = &items[i];
        let found = match accept(scope, items, i, item.param, item.arg.form()) {
            Err(e) => Some(e),
            Ok(Reading::Args(inner)) => match &item.arg {
                Arg::Args(written) => check(inner, written),
                _ => None,
            },
            Ok(_) => None,
        };
        assert(found == error_at(scope, items@, i as int));
        if let Some(e) = found {
            proof {
                lemma_first_error_stays(scope, items@, i + 1, items@.len() as int);
            }
            return Some(e);
        }
        i += 1;
    }
    missing(scope, items)
}


/// Picks the items that write `param`.
pub open spec fn writes(param: Parameter) -> spec_fn(Item) -> bool {
    |item: Item| item.param == param
}

/// The place of the first item that writes `param`.
pub open spec fn position(items: Seq<Item>, param: Parameter) -> Option<int> {
    first_index(items, writes(param))
}

/// A parameter has a first item exactly where it is written at all.
pub proof fn lemma_position(items: Seq<Item>, param: Parameter)
    ensures
        match position(items, param) {
            Some(i) => {
                &&& 0 <= i < items.len()
                &&& items[i].param == param
                &&& forall|j: int| 0 <= j < i ==> (#[trigger] items[j]).param != param
            },
            None => forall|j: int| 0 <= j < items.len() ==> (#[trigger] items[j]).param != param,
        },
        position(items, param) is Some <==> given(items, items.len() as int, param),
{
    lemma_first_index(items, writes(param));
}

/// What was written for `param`, by the first item that writes it.
pub open spec fn arg_of(items: Seq<Item>, param: Parameter) -> Option<Arg> {
    match position(items, param) {
        Some(i) => Some(items[i].arg),
        None => None,
    }
}

/// The value written for `param`.
pub open spec fn value_of(items: Seq<Item>, param: Parameter) -> Option<Seq<char>> {
    match arg_of(items, param) {
        Some(Arg::Value(text)) => Some(text@),
        _ => None,
    }
}

/// The option set written for `param`.
pub open spec fn args_of(items: Seq<Item>, param: Parameter) -> Option<Seq<Item>> {
    match arg_of(items, param) {
        Some(Arg::Args(written)) => Some(written@),
        _ => None,
    }
}

/// Whether `param` is written.
pub open spec fn is_set(items: Seq<Item>, param: Parameter) -> bool {
    position(items, param) is Some
}

/// The custom conversion that was written.
pub open spec fn custom_of(items: Seq<Item>) -> CustomOverridesView {
    CustomOverridesView {
        type_: value_of(items, Parameter::Type)->0,
        convert: value_of(items, Parameter::Convert)->0,
    }
}

/// The custom conversion written for `param`, if one was.
pub open spec fn custom_in(items: Seq<Item>, param: Parameter) -> Option<CustomOverridesView> {
    match args_of(items, param) {
        Some(written) => Some(custom_of(written)),
        None => None,
    }
}

/// The options of a collection parameter that were written.
pub open spec fn param_of(items: Seq<Item>) -> ParamOverridesView {
    ParamOverridesView {
        type_: value_of(items, Parameter::Type),
        into: is_set(items, Parameter::Into),
        custom: custom_in(items, Parameter::Custom),
    }
}

/// The options of a list or a set that were written.
pub open spec fn sequence_of(items: Seq<Item>) -> SeqOverridesView {
    SeqOverridesView { item: param_of(args_of(items, Parameter::Item)->0) }
}

/// The options of a list or a set written for `param`, if any were.
pub open spec fn sequence_in(items: Seq<Item>, param: Parameter) -> Option<SeqOverridesView> {
    match args_of(items, param) {
        Some(written) => Some(sequence_of(written)),
        None => None,
    }
}

/// The options of a map that were written.
pub open spec fn entries_of(items: Seq<Item>) -> MapOverridesView {
    MapOverridesView {
        key: param_of(args_of(items, Parameter::Key)->0),
        value: param_of(args_of(items, Parameter::Value)->0),
    }
}

/// The options of a map written for `param`, if any were.
pub open spec fn entries_in(items: Seq<Item>, param: Parameter) -> Option<MapOverridesView> {
    match args_of(items, param) {
        Some(written) => Some(entries_of(written)),
        None => None,
    }
}

/// The options of a field that were written.
pub open spec fn field_of(items: Seq<Item>) -> FieldOverridesView {
    FieldOverridesView {
        default: if is_set(items, Parameter::Default) {
            Some(value_of(items, Parameter::Default))
        } else {
            None
        },
        into: is_set(items, Parameter::Into),
        custom: custom_in(items, Parameter::Custom),
        list: sequence_in(items, Parameter::ListOf),
        set: sequence_in(items, Parameter::SetOf),
        map: entries_in(items, Parameter::MapOf),
        stage: value_of(items, Parameter::Stage),
    }
}

/// The options of a record that were written.
pub open spec fn record_of(items: Seq<Item>) -> StructOptionsView {
    StructOptionsView {
        validate: is_set(items, Parameter::Validate),
        crate_: value_of(items, Parameter::Crate),
        mod_: value_of(items, Parameter::Mod),
        inline: is_set(items, Parameter::Inline),
        builder: value_of(items, Parameter::Builder),
        complete: value_of(items, Parameter::Complete),
        update: is_set(items, Parameter::Update),
    }
}

/// In a sound option set, what was written for a parameter has a form
/// that the parameter can have there, and an option set in its round
/// brackets is sound too.
pub proof fn lemma_sound_item(scope: Scope, items: Seq<Item>, param: Parameter)
    requires
        errors_of(scope, items) is None,
        is_set(items, param),
    ensures
        reading(scope, param, arg_of(items, param)->0.shape()) is Some,
        arg_of(items, param)->0 matches Arg::Args(written) ==> reading(
            scope,
            param,
            Shape::Args,
        ) matches Some(Reading::Args(inner)) && errors_of(inner, written@) is None,
{
    lemma_position(items, param);
    let i = position(items, param)->0;
    lemma_no_error_at(scope, items, items.len() as int, i);
}

/// In a sound option set, a parameter that must be written is.
pub proof fn lemma_sound_required(scope: Scope, items: Seq<Item>, k: int)
    requires
        errors_of(scope, items) is None,
        0 <= k < required_of(scope).len(),
    ensures
        is_set(items, required_of(scope)[k].0),
{
    lemma_nothing_missing(required_of(scope), items, k);
    lemma_position(items, required_of(scope)[k].0);
}

/// What was written for `param`, by the first item that writes it.
pub fn find<'a>(items: &'a Vec<Item>, param: Parameter) -> (out: Option<&'a Arg>)
    ensures
        match out {
            Some(arg) => arg_of(items@, param) == Some(*arg),
            None => arg_of(items@, param) is None,
        },
{
    let mut i: usize = 0;
    while i < items.len()
        invariant
            i <= items.len(),
            forall|j: int| 0 <= j < i ==> (#[trigger] items@[j]).param != param,
        decreases items.len() - i,
    {
        if items[i].param == param {
            proof {
                lemma_position(items@, param);
            }
            return Some(&items[i].arg);
        }
        i += 1;
    }
    proof {
        lemma_position(items@, param);
    }
    None
}

fn find_value(items: &Vec<Item>, param: Parameter) -> (out: Option<String>)
    ensures
        crate::text::opt_text(out) == value_of(items@, param),
{
    match find(items, param) {
        Some(Arg::Value(text)) => Some(text.clone()),
        _ => None,
    }
}

fn custom_from(items: &Vec<Item>) -> (out: CustomOverrides)
    requires
        errors_of(Scope::Custom, items@) is None,
    ensures
        out@ == custom_of(items@),
{
    proof {
        lemma_sound_required(Scope::Custom, items@, 0);
        lemma_sound_required(Scope::Custom, items@, 1);
        lemma_sound_item(Scope::Custom, items@, Parameter::Type);
        lemma_sound_item(Scope::Custom, items@, Parameter::Convert);
    }
    let type_ = match find_value(items, Parameter::Type) {
        Some(text) => text,
        None => vstd::pervasive::unreached(),
    };
    let convert = match find_value(items, Parameter::Convert) {
        Some(text) => text,
        None => vstd::pervasive::unreached(),
    };
    CustomOverrides { type_, convert }
}

fn custom_among(scope: Scope, items: &Vec<Item>) -> (out: Option<CustomOverrides>)
    requires
        errors_of(scope, items@) is None,
        scope == Scope::Field || scope == Scope::Param,
    ensures
        crate::overrides::opt_custom(out) == custom_in(items@, Parameter::Custom),
{
    match find(items, Parameter::Custom) {
        Some(Arg::Args(written)) => {
            proof {
                lemma_sound_item(scope, items@, Parameter::Custom);
            }
            Some(custom_from(written))
        },
        _ => None,
    }
}

fn param_from(items: &Vec<Item>) -> (out: ParamOverrides)
    requires
        errors_of(Scope::Param, items@) is None,
    ensures
        out@ == param_of(items@),
{
    ParamOverrides {
        type_: find_value(items, Parameter::Type),
        into: find(items, Parameter::Into).is_some(),
        custom: custom_among(Scope::Param, items),
    }
}

fn param_among(scope: Scope, items: &Vec<Item>, param: Parameter) -> (out: ParamOverrides)
    requires
        errors_of(scope, items@) is None,
        scope == Scope::Sequence && param == Parameter::Item || scope == Scope::Entries && (param
            == Parameter::Key || param == Parameter::Value),
    ensures
        out@ == param_of(args_of(items@, param)->0),
{
    proof {
        if param == Parameter::Value {
            lemma_sound_required(scope, items@, 1);
        } else {
            lemma_sound_required(scope, items@, 0);
        }
        lemma_sound_item(scope, items@, param);
    }
    match find(items, param) {
        Some(Arg::Args(written)) => param_from(written),
        _ => vstd::pervasive::unreached(),
    }
}

fn sequence_from(items: &Vec<Item>) -> (out: SeqOverrides)
    requires
        errors_of(Scope::Sequence, items@) is None,
    ensures
        out@ == sequence_of(items@),
{
    SeqOverrides { item: param_among(Scope::Sequence, items, Parameter::Item) }
}

fn entries_from(items: &Vec<Item>) -> (out: MapOverrides)
    requires
        errors_of(Scope::Entries, items@) is None,
    ensures
        out@ == entries_of(items@),
{
    MapOverrides {
        key: param_among(Scope::Entries, items, Parameter::Key),
        value: param_among(Scope::Entries, items, Parameter::Value),
    }
}

fn sequence_among(items: &Vec<Item>, param: Parameter) -> (out: Option<SeqOverrides>)
    requires
        errors_of(Scope::Field, items@) is None,
        param == Parameter::ListOf || param == Parameter::SetOf,
    ensures
        crate::overrides::opt_seq(out) == sequence_in(items@, param),
{
    match find(items, param) {
        Some(Arg::Args(written)) => {
            proof {
                lemma_sound_item(Scope::Field, items@, param);
            }
            Some(sequence_from(written))
        },
        _ => None,
    }
}

fn entries_among(items: &Vec<Item>) -> (out: Option<MapOverrides>)
    requires
        errors_of(Scope::Field, items@) is None,
    ensures
        crate::overrides::opt_map(out) == entries_in(items@, Parameter::MapOf),
{
    match find(items, Parameter::MapOf) {
        Some(Arg::Args(written)) => {
            proof {
                lemma_sound_item(Scope::Field, items@, Parameter::MapOf);
            }
            Some(entries_from(written))
        },
        _ => None,
    }
}

fn field_from(items: &Vec<Item>) -> (out: FieldOverrides)
    requires
        errors_of(Scope::Field, items@) is None,
    ensures
        out@ == field_of(items@),
{
    let default = match find(items, Parameter::Default) {
        Some(_) => Some(find_value(items, Parameter::Default)),
        None => None,
    };
    FieldOverrides {
        default,
        into: find(items, Parameter::Into).is_some(),
        custom: custom_among(Scope::Field, items),
        list: sequence_among(items, Parameter::ListOf),
        set: sequence_among(items, Parameter::SetOf),
        map: entries_among(items),
        stage: find_value(items, Parameter::Stage),
    }
}

fn record_from(items: &Vec<Item>) -> (out: StructOptions)
    ensures
        out@ == record_of(items@),
{
    StructOptions {
        validate: find(items, Parameter::Validate).is_some(),
        crate_: find_value(items, Parameter::Crate),
        mod_: find_value(items, Parameter::Mod),
        inline: find(items, Parameter::Inline).is_some(),
        builder: find_value(items, Parameter::Builder),
        complete: find_value(items, Parameter::Complete),
        update: find(items, Parameter::Update).is_some(),
    }
}

impl CustomOverrides {
    /// The custom conversion written as `items`, or what is wrong with what
    /// was written.
    pub fn parse(items: &Vec<Item>) -> (out: Result<CustomOverrides, OptionError>)
        ensures
            match out {
                Ok(options) => errors_of(Scope::Custom, items@) is None && options@ == custom_of(
                    items@,
                ),
                Err(e) => errors_of(Scope::Custom, items@) == Some(e),
            },
    {
        match check(Scope::Custom, items) {
            Some(e) => Err(e),
            None => Ok(custom_from(items)),
        }
    }
}

impl ParamOverrides {
    /// The options of a collection parameter written as `items`, or what is
    /// wrong with what was written.
    pub fn parse(items: &Vec<Item>) -> (out: Result<ParamOverrides, OptionError>)
        ensures
            match out {
                Ok(options) => errors_of(Scope::Param, items@) is None && options@ == param_of(
                    items@,
                ),
                Err(e) => errors_of(Scope::Param, items@) == Some(e),
            },
    {
        match check(Scope::Param, items) {
            Some(e) => Err(e),
            None => Ok(param_from(items)),
        }
    }
}

impl SeqOverrides {
    /// The options of a list or a set written as `items`, or what is wrong
    /// with what was written.
    pub fn parse(items: &Vec<Item>) -> (out: Result<SeqOverrides, OptionError>)
        ensures
            match out {
                Ok(options) => errors_of(Scope::Sequence, items@) is None && options@
                    == sequence_of(items@),
                Err(e) => errors_of(Scope::Sequence, items@) == Some(e),
            },
    {
        match check(Scope::Sequence, items) {
            Some(e) => Err(e),
            None => Ok(sequence_from(items)),
        }
    }
}

impl MapOverrides {
    /// The options of a map written as `items`, or what is wrong with what
    /// was written.
    pub fn parse(items: &Vec<Item>) -> (out: Result<MapOverrides, OptionError>)
        ensures
            match out {
                Ok(options) => errors_of(Scope::Entries, items@) is None && options@ == entries_of(
                    items@,
                ),
                Err(e) => errors_of(Scope::Entries, items@) == Some(e),
            },
    {
        match check(Scope::Entries, items) {
            Some(e) => Err(e),
            None => Ok(entries_from(items)),
        }
    }
}

impl FieldOverrides {
    /// The options of a field written as `items`, or what is wrong with
    /// what was written.
    pub fn parse(items: &Vec<Item>) -> (out: Result<FieldOverrides, OptionError>)
        ensures
            match out {
                Ok(options) => errors_of(Scope::Field, items@) is None && options@ == field_of(
                    items@,
                ),
                Err(e) => errors_of(Scope::Field, items@) == Some(e),
            },
    {
        match check(Scope::Field, items) {
            Some(e) => Err(e),
            None => Ok(field_from(items)),
        }
    }
}

impl StructOptions {
    /// The options of a record written as `items`, or what is wrong with
    /// what was written.
    pub fn parse(items: &Vec<Item>) -> (out: Result<StructOptions, OptionError>)
        ensures
            match out {
                Ok(options) => errors_of(Scope::Record, items@) is None && options@ == record_of(
                    items@,
                ),
                Err(e) => errors_of(Scope::Record, items@) == Some(e),
            },
    {
        match check(Scope::Record, items) {
            Some(e) => Err(e),
            None => Ok(record_from(items)),
        }
    }
}

} // verus!
