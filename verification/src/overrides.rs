//! The option sets that a record and its fields can carry. Types and
//! expressions are held as source text.

use vstd::prelude::*;
use crate::text::{copy_opt, opt_text};

verus! {

/// A custom conversion: the setter takes `type_` and stores `convert` applied
/// to it.
#[derive(Debug, PartialEq, Eq)]
pub struct CustomOverrides {
    pub type_: String,
    pub convert: String,
}

/// What [`CustomOverrides`] holds, as mathematical values.
pub struct CustomOverridesView {
    pub type_: Seq<char>,
    pub convert: Seq<char>,
}

impl View for CustomOverrides {
    type V = CustomOverridesView;

    open spec fn view(&self) -> CustomOverridesView {
        CustomOverridesView { type_: self.type_@, convert: self.convert@ }
    }
}

impl CustomOverrides {
    /// A copy with the same contents.
    pub fn duplicate(&self) -> (out: CustomOverrides)
        ensures
            out@ == self@,
    {
        CustomOverrides { type_: self.type_.clone(), convert: self.convert.clone() }
    }
}

/// The view of an optional custom conversion.
pub open spec fn opt_custom(custom: Option<CustomOverrides>) -> Option<CustomOverridesView> {
    match custom {
        Some(c) => Some(c@),
        None => None,
    }
}

/// How one parameter of a collection setter (an item, a key, a value) is
/// typed and converted.
#[derive(Debug, PartialEq, Eq)]
pub struct ParamOverrides {
    pub type_: Option<String>,
    pub into: bool,
    pub custom: Option<CustomOverrides>,
}

/// What [`ParamOverrides`] holds, as mathematical values.
pub struct ParamOverridesView {
    pub type_: Option<Seq<char>>,
    pub into: bool,
    pub custom: Option<CustomOverridesView>,
}

impl View for ParamOverrides {
    type V = ParamOverridesView;

    open spec fn view(&self) -> ParamOverridesView {
        ParamOverridesView {
            type_: opt_text(self.type_),
            into: self.into,
            custom: opt_custom(self.custom),
        }
    }
}

fn copy_custom(custom: &Option<CustomOverrides>) -> (out: Option<CustomOverrides>)
    ensures
        opt_custom(out) == opt_custom(*custom),
{
    match custom {
        Some(c) => Some(c.duplicate()),
        None => None,
    }
}

impl ParamOverrides {
    /// A copy with the same contents.
    pub fn duplicate(&self) -> (out: ParamOverrides)
        ensures
            out@ == self@,
    {
        ParamOverrides {
            type_: copy_opt(&self.type_),
            into: self.into,
            custom: copy_custom(&self.custom),
        }
    }
}

/// The options of a list or a set: how its items are given.
#[derive(Debug, PartialEq, Eq)]
pub struct SeqOverrides {
    pub item: ParamOverrides,
}

/// What [`SeqOverrides`] holds, as mathematical values.
pub struct SeqOverridesView {
    pub item: ParamOverridesView,
}

impl View for SeqOverrides {
    type V = SeqOverridesView;

    open spec fn view(&self) -> SeqOverridesView {
        SeqOverridesView { item: self.item@ }
    }
}

impl SeqOverrides {
    /// A copy with the same contents.
    pub fn duplicate(&self) -> (out: SeqOverrides)
        ensures
            out@ == self@,
    {
        SeqOverrides { item: self.item.duplicate() }
    }
}

/// The options of a map: how its keys and its values are given.
#[derive(Debug, PartialEq, Eq)]
pub struct MapOverrides {
    pub key: ParamOverrides,
    pub value: ParamOverrides,
}

/// What [`MapOverrides`] holds, as mathematical values.
pub struct MapOverridesView {
    pub key: ParamOverridesView,
    pub value: ParamOverridesView,
}

impl View for MapOverrides {
    type V = MapOverridesView;

    open spec fn view(&self) -> MapOverridesView {
        MapOverridesView { key: self.key@, value: self.value@ }
    }
}

impl MapOverrides {
    /// A copy with the same contents.
    pub fn duplicate(&self) -> (out: MapOverrides)
        ensures
            out@ == self@,
    {
        MapOverrides { key: self.key.duplicate(), value: self.value.duplicate() }
    }
}

/// The options of one field. `default` is `Some(None)` for a bare `default`
/// and `Some(Some(e))` for `default = e`.
#[derive(Debug, PartialEq, Eq)]
pub struct FieldOverrides {
    pub default: Option<Option<String>>,
    pub into: bool,
    pub custom: Option<CustomOverrides>,
    pub list: Option<SeqOverrides>,
    pub set: Option<SeqOverrides>,
    pub map: Option<MapOverrides>,
    pub stage: Option<String>,
}

/// What [`FieldOverrides`] holds, as mathematical values.
pub struct FieldOverridesView {
    pub default: Option<Option<Seq<char>>>,
    pub into: bool,
    pub custom: Option<CustomOverridesView>,
    pub list: Option<SeqOverridesView>,
    pub set: Option<SeqOverridesView>,
    pub map: Option<MapOverridesView>,
    pub stage: Option<Seq<char>>,
}

/// The view of an optional default.
pub open spec fn opt_default(default: Option<Option<String>>) -> Option<Option<Seq<char>>> {
    match default {
        Some(d) => Some(opt_text(d)),
        None => None,
    }
}

/// The view of optional list or set options.
pub open spec fn opt_seq(seq: Option<SeqOverrides>) -> Option<SeqOverridesView> {
    match seq {
        Some(s) => Some(s@),
        None => None,
    }
}

/// The view of optional map options.
pub open spec fn opt_map(map: Option<MapOverrides>) -> Option<MapOverridesView> {
    match map {
        Some(m) => Some(m@),
        None => None,
    }
}

impl View for FieldOverrides {
    type V = FieldOverridesView;

    open spec fn view(&self) -> FieldOverridesView {
        FieldOverridesView {
            default: opt_default(self.default),
            into: self.into,
            custom: opt_custom(self.custom),
            list: opt_seq(self.list),
            set: opt_seq(self.set),
            map: opt_map(self.map),
            stage: opt_text(self.stage),
        }
    }
}

impl FieldOverridesView {
    /// No option at all: the field is required and its setter takes its type.
    pub open spec fn empty() -> FieldOverridesView {
        FieldOverridesView {
            default: None,
            into: false,
            custom: None,
            list: None,
            set: None,
            map: None,
            stage: None,
        }
    }
}

fn copy_default(default: &Option<Option<String>>) -> (out: Option<Option<String>>)
    ensures
        opt_default(out) == opt_default(*default),
{
    match default {
        Some(d) => Some(copy_opt(d)),
        None => None,
    }
}

fn copy_seq(seq: &Option<SeqOverrides>) -> (out: Option<SeqOverrides>)
    ensures
        opt_seq(out) == opt_seq(*seq),
{
    match seq {
        Some(s) => Some(s.duplicate()),
        None => None,
    }
}

fn copy_map(map: &Option<MapOverrides>) -> (out: Option<MapOverrides>)
    ensures
        opt_map(out) == opt_map(*map),
{
    match map {
        Some(m) => Some(m.duplicate()),
        None => None,
    }
}

impl FieldOverrides {
    /// A copy with the same contents.
    pub fn duplicate(&self) -> (out: FieldOverrides)
        ensures
            out@ == self@,
    {
        FieldOverrides {
            default: copy_default(&self.default),
            into: self.into,
            custom: copy_custom(&self.custom),
            list: copy_seq(&self.list),
            set: copy_seq(&self.set),
            map: copy_map(&self.map),
            stage: copy_opt(&self.stage),
        }
    }
}

impl Default for FieldOverrides {
    fn default() -> (out: FieldOverrides)
        ensures
            out@ == FieldOverridesView::empty(),
    {
        FieldOverrides {
            default: None,
            into: false,
            custom: None,
            list: None,
            set: None,
            map: None,
            stage: None,
        }
    }
}

} // verus!
