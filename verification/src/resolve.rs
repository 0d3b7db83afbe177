//! Resolution: from the declared fields and their options to one descriptor
//! for each field, or to the list of everything that is wrong.

use vstd::prelude::*;
use vstd::string::StringExecFns;
use crate::convert::{
    custom_policy, identity_policy, into_policy, param_policy, ConversionPolicy, ConversionPolicyView,
};
use crate::error::{error_views, Param, SchemaError, SchemaErrorView};
use crate::options::{selected, Attribute, StructOptions};
use crate::overrides::{FieldOverrides, FieldOverridesView};
use crate::text::{copy_opt, opt_text};

verus! {

/// A field as it is declared: its name, its type, its attributes.
#[derive(Debug, PartialEq, Eq)]
pub struct FieldDecl {
    pub name: String,
    pub ty: String,
    pub attrs: Vec<Attribute<FieldOverrides>>,
}

/// What [`FieldDecl`] holds, as mathematical values.
pub struct FieldDeclView {
    pub name: Seq<char>,
    pub ty: Seq<char>,
    pub options: Result<FieldOverridesView, SchemaErrorView>,
}

impl View for FieldDecl {
    type V = FieldDeclView;

    open spec fn view(&self) -> FieldDeclView {
        FieldDeclView {
            name: self.name@,
            ty: self.ty@,
            options: selected(self.attrs@, FieldOverridesView::empty(), Some(self.name@)),
        }
    }
}

/// The views of a list of declared fields.
pub open spec fn decl_views(decls: Seq<FieldDecl>) -> Seq<FieldDeclView> {
    decls.map_values(|d: FieldDecl| d@)
}

/// The setters that a field gets.
#[derive(Debug, PartialEq, Eq)]
pub enum SetterMode {
    /// One setter, which assigns the field.
    Normal(ConversionPolicy),
    /// The field is a list of items.
    ListStyle(ConversionPolicy),
    /// The field is a set of items.
    SetStyle(ConversionPolicy),
    /// The field is a map from keys to values.
    MapStyle(ConversionPolicy, ConversionPolicy),
}

/// What [`SetterMode`] holds, as mathematical values.
pub enum SetterModeView {
    Normal(ConversionPolicyView),
    ListStyle(ConversionPolicyView),
    SetStyle(ConversionPolicyView),
    MapStyle(ConversionPolicyView, ConversionPolicyView),
}

impl View for SetterMode {
    type V = SetterModeView;

    open spec fn view(&self) -> SetterModeView {
        match *self {
            SetterMode::Normal(p) => SetterModeView::Normal(p@),
            SetterMode::ListStyle(p) => SetterModeView::ListStyle(p@),
            SetterMode::SetStyle(p) => SetterModeView::SetStyle(p@),
            SetterMode::MapStyle(k, v) => SetterModeView::MapStyle(k@, v@),
        }
    }
}

impl SetterModeView {
    /// Whether the field is a collection.
    pub open spec fn is_collection(self) -> bool {
        !(self is Normal)
    }
}

/// A resolved field. It is required where `default` is `None`; else
/// `default` is the expression of the value that it has when no setter is
/// called.
#[derive(Debug, PartialEq, Eq)]
pub struct FieldDescriptor {
    pub name: String,
    pub declared_type: String,
    pub default: Option<String>,
    pub mode: SetterMode,
    /// The name chosen for the field's stage type, if one was.
    pub stage: Option<String>,
}

/// What [`FieldDescriptor`] holds, as mathematical values.
pub struct FieldDescriptorView {
    pub name: Seq<char>,
    pub declared_type: Seq<char>,
    pub default: Option<Seq<char>>,
    pub mode: SetterModeView,
    pub stage: Option<Seq<char>>,
}

impl View for FieldDescriptor {
    type V = FieldDescriptorView;

    open spec fn view(&self) -> FieldDescriptorView {
        FieldDescriptorView {
            name: self.name@,
            declared_type: self.declared_type@,
            default: opt_text(self.default),
            mode: self.mode@,
            stage: opt_text(self.stage),
        }
    }
}

/// The views of a list of resolved fields.
pub open spec fn descriptor_views(fields: Seq<FieldDescriptor>) -> Seq<FieldDescriptorView> {
    fields.map_values(|f: FieldDescriptor| f@)
}

impl FieldDescriptorView {
    /// Whether a builder can leave the field unset.
    pub open spec fn is_defaultable(self) -> bool {
        self.default is Some
    }

    /// A collection always has a default.
    pub open spec fn wf(self) -> bool {
        self.mode.is_collection() ==> self.is_defaultable()
    }
}

/// The expression of the default value of a type.
pub open spec fn type_default(private: Seq<char>) -> Seq<char> {
    private + "::Default::default()"@
}

/// How many of the options that decide a field's setters are given. They
/// exclude each other.
pub open spec fn mode_count(options: FieldOverridesView) -> nat {
    let into: nat = if options.into { 1 } else { 0 };
    let custom: nat = if options.custom is Some { 1 } else { 0 };
    let list: nat = if options.list is Some { 1 } else { 0 };
    let set: nat = if options.set is Some { 1 } else { 0 };
    let map: nat = if options.map is Some { 1 } else { 0 };
    into + custom + list + set + map
}

/// The error of a result, as a list.
pub open spec fn error_of<T>(result: Result<T, SchemaErrorView>) -> Seq<SchemaErrorView> {
    match result {
        Ok(_) => Seq::empty(),
        Err(e) => seq![e],
    }
}

/// Everything wrong with the options of the field `name`: more than one of
/// the options that decide its setters, then what is wrong with the
/// parameters of `list`, of `set` and of `map`, in this order.
pub open spec fn field_errors(private: Seq<char>, name: Seq<char>, options: FieldOverridesView) -> Seq<
    SchemaErrorView,
> {
    let conflict = if mode_count(options) > 1 {
        seq![SchemaErrorView::Conflict { field: name, within: None }]
    } else {
        Seq::empty()
    };
    let list = match options.list {
        Some(l) => error_of(param_policy(private, l.item, name, Param::Item)),
        None => Seq::empty(),
    };
    let set = match options.set {
        Some(s) => error_of(param_policy(private, s.item, name, Param::Item)),
        None => Seq::empty(),
    };
    let map = match options.map {
        Some(m) => error_of(param_policy(private, m.key, name, Param::Key)) + error_of(
            param_policy(private, m.value, name, Param::Value),
        ),
        None => Seq::empty(),
    };
    conflict + list + set + map
}

/// The expression of a field's default, `None` for a required field: the
/// expression given; else the default of the field's type, where `default`
/// was asked for or the field is a collection.
pub open spec fn default_text(private: Seq<char>, options: FieldOverridesView) -> Option<Seq<char>> {
    match options.default {
        Some(Some(expr)) => Some(expr),
        Some(None) => Some(type_default(private)),
        None => if options.list is Some || options.set is Some || options.map is Some {
            Some(type_default(private))
        } else {
            None
        },
    }
}

/// The setters of a field with sound options.
pub open spec fn setter_mode(private: Seq<char>, name: Seq<char>, ty: Seq<char>, options: FieldOverridesView) -> SetterModeView {
    if options.into {
        SetterModeView::Normal(into_policy(private, ty))
    } else if let Some(custom) = options.custom {
        SetterModeView::Normal(custom_policy(custom))
    } else if let Some(list) = options.list {
        SetterModeView::ListStyle(param_policy(private, list.item, name, Param::Item)->Ok_0)
    } else if let Some(set) = options.set {
        SetterModeView::SetStyle(param_policy(private, set.item, name, Param::Item)->Ok_0)
    } else if let Some(map) = options.map {
        SetterModeView::MapStyle(
            param_policy(private, map.key, name, Param::Key)->Ok_0,
            param_policy(private, map.value, name, Param::Value)->Ok_0,
        )
    } else {
        SetterModeView::Normal(identity_policy(ty))
    }
}

/// The descriptor of a declared field, or everything that is wrong with it.
pub open spec fn resolve_field(private: Seq<char>, decl: FieldDeclView) -> Result<
    FieldDescriptorView,
    Seq<SchemaErrorView>,
> {
    match decl.options {
        Err(e) => Err(seq![e]),
        Ok(options) => if field_errors(private, decl.name, options).len() == 0 {
            Ok(
                FieldDescriptorView {
                    name: decl.name,
                    declared_type: decl.ty,
                    default: default_text(private, options),
                    mode: setter_mode(private, decl.name, decl.ty, options),
                    stage: options.stage,
                },
            )
        } else {
            Err(field_errors(private, decl.name, options))
        },
    }
}

/// What is wrong with a declared field; nothing where it resolves.
pub open spec fn errors_of_field(private: Seq<char>, decl: FieldDeclView) -> Seq<SchemaErrorView> {
    match resolve_field(private, decl) {
        Ok(_) => Seq::empty(),
        Err(errors) => errors,
    }
}

/// What is wrong with the declared fields: the errors of each, in the order
/// of declaration.
pub open spec fn all_errors(private: Seq<char>, decls: Seq<FieldDeclView>) -> Seq<SchemaErrorView>
    decreases decls.len(),
{
    if decls.len() == 0 {
        Seq::empty()
    } else {
        all_errors(private, decls.drop_last()) + errors_of_field(private, decls.last())
    }
}

/// The descriptors of the declared fields, in the order of declaration, or
/// everything that is wrong with any of them.
pub open spec fn resolve_all(private: Seq<char>, decls: Seq<FieldDeclView>) -> Result<
    Seq<FieldDescriptorView>,
    Seq<SchemaErrorView>,
> {
    if all_errors(private, decls).len() == 0 {
        Ok(decls.map_values(|d: FieldDeclView| resolve_field(private, d)->Ok_0))
    } else {
        Err(all_errors(private, decls))
    }
}

/// Adds an error to a list.
fn record(errors: &mut Vec<SchemaError>, e: SchemaError)
    ensures
        error_views(final(errors)@) == error_views(old(errors)@).push(e@),
{
    errors.push(e);
}

/// The policy of a collection parameter; an error goes to `errors`.
fn param(
    options: &StructOptions,
    overrides: &crate::overrides::ParamOverrides,
    field: &str,
    role: Param,
    errors: &mut Vec<SchemaError>,
) -> (out: Option<ConversionPolicy>)
    ensures
        error_views(final(errors)@) == error_views(old(errors)@) + error_of(
            param_policy(options@.private_path(), overrides@, field@, role),
        ),
        match out {
            Some(policy) => param_policy(options@.private_path(), overrides@, field@, role) == Ok::<
                ConversionPolicyView,
                SchemaErrorView,
            >(policy@),
            None => param_policy(options@.private_path(), overrides@, field@, role) is Err,
        },
{
    match ConversionPolicy::new(options, overrides, field, role) {
        Ok(policy) => {
            Some(policy)
        },
        Err(e) => {
            record(errors, e);
            None
        },
    }
}

impl FieldDescriptor {
    /// A copy with the same contents.
    pub fn duplicate(&self) -> (out: FieldDescriptor)
        ensures
            out@ == self@,
    {
        let mode = match &self.mode {
            SetterMode::Normal(p) => SetterMode::Normal(p.duplicate()),
            SetterMode::ListStyle(p) => SetterMode::ListStyle(p.duplicate()),
            SetterMode::SetStyle(p) => SetterMode::SetStyle(p.duplicate()),
            SetterMode::MapStyle(k, v) => SetterMode::MapStyle(k.duplicate(), v.duplicate()),
        };
        FieldDescriptor {
            name: self.name.clone(),
            declared_type: self.declared_type.clone(),
            default: copy_opt(&self.default),
            mode,
            stage: copy_opt(&self.stage),
        }
    }

    /// Whether a builder can leave the field unset.
    pub fn is_defaultable(&self) -> (out: bool)
        ensures
            out == self@.is_defaultable(),
    {
        self.default.is_some()
    }

    /// Whether the descriptor is sound: a collection has a default.
    pub fn is_sound(&self) -> (out: bool)
        ensures
            out == self@.wf(),
    {
        match &self.mode {
            SetterMode::Normal(_) => true,
            _ => self.default.is_some(),
        }
    }

    /// Resolves one declared field: its descriptor, or everything that is
    /// wrong with it.
    pub fn new(options: &StructOptions, field: &FieldDecl) -> (out: Result<
        FieldDescriptor,
        Vec<SchemaError>,
    >)
        ensures
            match out {
                Ok(descriptor) => {
                    &&& resolve_field(options@.private_path(), field@) == Ok::<
                        FieldDescriptorView,
                        Seq<SchemaErrorView>,
                    >(descriptor@)
                    &&& descriptor@.wf()
                },
                Err(errors) => {
                    &&& resolve_field(options@.private_path(), field@) == Err::<
                        FieldDescriptorView,
                        Seq<SchemaErrorView>,
                    >(error_views(errors@))
                    &&& errors@.len() > 0
                },
            },
    {
        let ghost private = options@.private_path();
        let name = field.name.as_str();
        let ty = field.ty.as_str();
        let overrides = match FieldOverrides::new(&field.attrs, name) {
            Ok(overrides) => overrides,
            Err(e) => {
                let mut errors: Vec<SchemaError> = Vec::new();
                record(&mut errors, e);
                assert(error_views(errors@) =~= seq![e@]);
                return Err(errors);
            },
        };
        let mut errors: Vec<SchemaError> = Vec::new();
        assert(error_views(errors@) =~= Seq::<SchemaErrorView>::empty());
        let mut given: u8 = 0;
        if overrides.into {
            given += 1;
        }
        if overrides.custom.is_some() {
            given += 1;
        }
        if overrides.list.is_some() {
            given += 1;
        }
        if overrides.set.is_some() {
            given += 1;
        }
        if overrides.map.is_some() {
            given += 1;
        }
        if given > 1 {
            record(&mut errors, SchemaError::Conflict { field: String::from_str(name), within: None });
        }
        let list = match &overrides.list {
            Some(l) => param(options, &l.item, name, Param::Item, &mut errors),
            None => None,
        };
        let set = match &overrides.set {
            Some(s) => param(options, &s.item, name, Param::Item, &mut errors),
            None => None,
        };
        let (key, value) = match &overrides.map {
            Some(m) => {
                let key = param(options, &m.key, name, Param::Key, &mut errors);
                let value = param(options, &m.value, name, Param::Value, &mut errors);
                (key, value)
            },
            None => (None, None),
        };
        proof {
            let expected = field_errors(private, name@, overrides@);
            assert(error_views(errors@) =~= expected);
        }
        if errors.len() > 0 {
            return Err(errors);
        }
        let default = match &overrides.default {
            Some(Some(expr)) => Some(expr.clone()),
            Some(None) => Some(options.private().concat("::Default::default()")),
            None => {
                if overrides.list.is_some() || overrides.set.is_some() || overrides.map.is_some() {
                    Some(options.private().concat("::Default::default()"))
                } else {
                    None
                }
            },
        };
        let mode = if overrides.into {
            SetterMode::Normal(ConversionPolicy::into(options, ty))
        } else if let Some(custom) = &overrides.custom {
            SetterMode::Normal(ConversionPolicy::custom(custom))
        } else if let Some(item) = list {
            SetterMode::ListStyle(item)
        } else if let Some(item) = set {
            SetterMode::SetStyle(item)
        } else if let (Some(key), Some(value)) = (key, value) {
            SetterMode::MapStyle(key, value)
        } else {
            SetterMode::Normal(ConversionPolicy::identity(ty))
        };
        Ok(
            FieldDescriptor {
                name: field.name.clone(),
                declared_type: field.ty.clone(),
                default,
                mode,
                stage: copy_opt(&overrides.stage),
            },
        )
    }
}


/// The errors of a list of fields put end to end are those of its first
/// part followed by those of the rest.
proof fn lemma_all_errors_concat(
    private: Seq<char>,
    front: Seq<FieldDeclView>,
    back: Seq<FieldDeclView>,
)
    ensures
        all_errors(private, front + back) == all_errors(private, front) + all_errors(private, back),
    decreases back.len(),
{
    if back.len() == 0 {
    } else {
        lemma_all_errors_concat(private, front, back.drop_last());
        assert((front + back).drop_last() =~= front + back.drop_last());
    }
}

/// No error is dropped and none is reported out of place: the report of a
/// schema holds, for each field, all the errors of that field, after those
/// of the fields before it and before those of the fields after it.
pub proof fn law_errors_accumulate(private: Seq<char>, decls: Seq<FieldDeclView>, i: int)
    requires
        0 <= i < decls.len(),
    ensures
        all_errors(private, decls) == all_errors(private, decls.take(i)) + errors_of_field(
            private,
            decls[i],
        ) + all_errors(private, decls.skip(i + 1)),
{
    let upto = decls.take(i + 1);
    assert(decls =~= upto + decls.skip(i + 1));
    lemma_all_errors_concat(private, upto, decls.skip(i + 1));
    assert(upto.drop_last() =~= decls.take(i));
}

/// A schema resolves exactly when each of its fields does, and then each
/// descriptor is that of the field at its place.
pub proof fn law_resolves_fieldwise(private: Seq<char>, decls: Seq<FieldDeclView>)
    ensures
        resolve_all(private, decls) is Ok <==> forall|j: int|
            0 <= j < decls.len() ==> resolve_field(private, #[trigger] decls[j]) is Ok,
        resolve_all(private, decls) matches Ok(fields) ==> fields.len() == decls.len() && forall|
            j: int,
        |
            0 <= j < decls.len() ==> resolve_field(private, decls[j]) == Ok::<
                FieldDescriptorView,
                Seq<SchemaErrorView>,
            >(#[trigger] fields[j]),
    decreases decls.len(),
{
    lemma_all_errors_empty(private, decls);
}

/// A schema has no error exactly when each of its fields resolves.
proof fn lemma_all_errors_empty(private: Seq<char>, decls: Seq<FieldDeclView>)
    ensures
        all_errors(private, decls).len() == 0 <==> forall|j: int|
            0 <= j < decls.len() ==> resolve_field(private, #[trigger] decls[j]) is Ok,
    decreases decls.len(),
{
    if decls.len() > 0 {
        let front = decls.drop_last();
        lemma_all_errors_empty(private, front);
        if all_errors(private, decls).len() == 0 {
            assert forall|j: int| 0 <= j < decls.len() implies resolve_field(
                private,
                #[trigger] decls[j],
            ) is Ok by {
                if j < front.len() {
                    assert(decls[j] == front[j]);
                }
            }
        }
    }
}

/// Resolves the declared fields: their descriptors in the order of
/// declaration, or everything that is wrong with any of them. Every field is
/// looked at, whatever was found in the fields before it.
pub fn resolve_fields(options: &StructOptions, fields: &Vec<FieldDecl>) -> (out: Result<
    Vec<FieldDescriptor>,
    Vec<SchemaError>,
>)
    ensures
        match out {
            Ok(resolved) => {
                &&& resolve_all(options@.private_path(), decl_views(fields@)) == Ok::<
                    Seq<FieldDescriptorView>,
                    Seq<SchemaErrorView>,
                >(descriptor_views(resolved@))
                &&& forall|i: int| 0 <= i < resolved@.len() ==> (#[trigger] resolved@[i])@.wf()
            },
            Err(errors) => {
                &&& resolve_all(options@.private_path(), decl_views(fields@)) == Err::<
                    Seq<FieldDescriptorView>,
                    Seq<SchemaErrorView>,
                >(error_views(errors@))
                &&& errors@.len() > 0
            },
        },
{
    let ghost private = options@.private_path();
    let ghost decls = decl_views(fields@);
    let mut resolved: Vec<FieldDescriptor> = Vec::new();
    let mut errors: Vec<SchemaError> = Vec::new();
    let mut i: usize = 0;
    while i < fields.len()
        invariant
            i <= fields.len(),
            private == options@.private_path(),
            decls == decl_views(fields@),
            error_views(errors@) == all_errors(private, decls.take(i as int)),
            errors@.len() == 0 ==> resolved@.len() == i,
            errors@.len() == 0 ==> forall|j: int|
                0 <= j < i ==> resolve_field(private, decls[j]) == Ok::<
                    FieldDescriptorView,
                    Seq<SchemaErrorView>,
                >((#[trigger] resolved@[j])@),
            forall|j: int| 0 <= j < resolved@.len() ==> (#[trigger] resolved@[j])@.wf(),
        decreases fields.len() - i,
    {
        proof {
            assert(decls.take(i + 1).drop_last() =~= decls.take(i as int));
        }
        match FieldDescriptor::new(options, &fields[i]) {
            Ok(field) => {
                resolved.push(field);
            },
            Err(mut found) => {
                errors.append(&mut found);
            },
        }
        i += 1;
    }
    proof {
        assert(decls.take(i as int) =~= decls);
    }
    if errors.len() > 0 {
        Err(errors)
    } else {
        proof {
            let expected = decls.map_values(|d: FieldDeclView| resolve_field(private, d)->Ok_0);
            assert(descriptor_views(resolved@) =~= expected);
        }
        Ok(resolved)
    }
}

} // verus!
