//! The final stage: the setters of the fields that have a default, and
//! `build`.

use vstd::prelude::*;
use vstd::string::StringExecFns;
use crate::convert::{ConversionPolicy, ConversionPolicyView};
use crate::names::{final_name, final_type_name};
use crate::options::{StructOptions, StructOptionsView};
use crate::resolve::{
    descriptor_views, FieldDescriptor, FieldDescriptorView, SetterMode, SetterModeView,
};
use crate::stages::{named_views, slot, slots, Named, NamedView};
use crate::text::{cat3, cat5, texts};

verus! {

/// What a setter of the final stage does to its field.
#[derive(Debug, Clone, Copy, PartialEq, Eq, Structural)]
pub enum SetterKind {
    /// Gives the field a new value.
    Assign,
    /// Adds one item, or one entry, to what the collection holds.
    Append,
    /// Gives the collection new contents; what it held is dropped.
    Replace,
    /// Adds a sequence of items, or of entries, to what the collection holds.
    Extend,
}

/// A setter of the final stage: a method that takes the builder and `params`
/// and gives the builder back after `body`.
#[derive(Debug, PartialEq, Eq)]
pub struct Setter {
    pub kind: SetterKind,
    pub method: String,
    pub field: String,
    pub params: Vec<Named>,
    pub body: String,
}

/// What [`Setter`] holds, as mathematical values.
pub struct SetterView {
    pub kind: SetterKind,
    pub method: Seq<char>,
    pub field: Seq<char>,
    pub params: Seq<NamedView>,
    pub body: Seq<char>,
}

impl View for Setter {
    type V = SetterView;

    open spec fn view(&self) -> SetterView {
        SetterView {
            kind: self.kind,
            method: self.method@,
            field: self.field@,
            params: named_views(self.params@),
            body: self.body@,
        }
    }
}

/// The views of a list of setters.
pub open spec fn setter_views(setters: Seq<Setter>) -> Seq<SetterView> {
    setters.map_values(|s: Setter| s@)
}

/// The statement that gives the field `name` the value `value`.
pub open spec fn assign_body(name: Seq<char>, value: Seq<char>) -> Seq<char> {
    "self.0."@ + name + " = "@ + value + ";"@
}

/// The statement that calls the method `call` of the field `name` with
/// `args`.
pub open spec fn append_body(name: Seq<char>, call: Seq<char>, args: Seq<char>) -> Seq<char> {
    "self.0."@ + name + "."@ + call + "("@ + args + ");"@
}

/// The expression of a collection made of the sequence `items`.
pub open spec fn collect_text(private: Seq<char>, items: Seq<char>) -> Seq<char> {
    private + "::FromIterator::from_iter("@ + items + ")"@
}

/// The statement that adds the sequence `items` to the field `name`.
pub open spec fn extend_body(private: Seq<char>, name: Seq<char>, items: Seq<char>) -> Seq<char> {
    private + "::Extend::extend(&mut self.0."@ + name + ", "@ + items + ");"@
}

/// The type of a sequence of `item`s.
pub open spec fn sequence_type(private: Seq<char>, item: Seq<char>) -> Seq<char> {
    "impl "@ + private + "::IntoIterator<Item = "@ + item + ">"@
}

/// `a` and `b` as a pair.
pub open spec fn pair_text(a: Seq<char>, b: Seq<char>) -> Seq<char> {
    "("@ + a + ", "@ + b + ")"@
}

/// The expression for the stored entries of a map, given the sequence
/// `name` of pairs: the sequence itself where neither keys nor values are
/// converted.
pub open spec fn entries_text(
    private: Seq<char>,
    name: Seq<char>,
    key: ConversionPolicyView,
    value: ConversionPolicyView,
) -> Seq<char> {
    if key.conversion is Some || value.conversion is Some {
        private + "::Iterator::map("@ + private + "::IntoIterator::into_iter("@ + name
            + "), |(key, value)| "@ + pair_text(
            key.convert(private, "key"@),
            value.convert(private, "value"@),
        ) + ")"@
    } else {
        name
    }
}

/// The setter of a field that is no collection.
pub open spec fn assign_setter(private: Seq<char>, name: Seq<char>, policy: ConversionPolicyView) -> SetterView {
    SetterView {
        kind: SetterKind::Assign,
        method: name,
        field: name,
        params: seq![NamedView { name, text: policy.parameter_type }],
        body: assign_body(name, policy.convert(private, name)),
    }
}

/// The three setters of a list or a set, whose method for one more item is
/// `call`: one item more, new contents, a sequence of items more.
pub open spec fn sequence_setters(
    private: Seq<char>,
    name: Seq<char>,
    call: Seq<char>,
    item: ConversionPolicyView,
) -> Seq<SetterView> {
    let many = seq![NamedView { name, text: sequence_type(private, item.parameter_type) }];
    seq![
        SetterView {
            kind: SetterKind::Append,
            method: call + "_"@ + name,
            field: name,
            params: seq![NamedView { name, text: item.parameter_type }],
            body: append_body(name, call, item.convert(private, name)),
        },
        SetterView {
            kind: SetterKind::Replace,
            method: name,
            field: name,
            params: many,
            body: assign_body(name, collect_text(private, item.convert_iter(private, name))),
        },
        SetterView {
            kind: SetterKind::Extend,
            method: "extend_"@ + name,
            field: name,
            params: many,
            body: extend_body(private, name, item.convert_iter(private, name)),
        },
    ]
}

/// The three setters of a map: one entry more, new contents, a sequence of
/// entries more.
pub open spec fn map_setters(
    private: Seq<char>,
    name: Seq<char>,
    key: ConversionPolicyView,
    value: ConversionPolicyView,
) -> Seq<SetterView> {
    let many = seq![
        NamedView {
            name,
            text: sequence_type(private, pair_text(key.parameter_type, value.parameter_type)),
        },
    ];
    let entries = entries_text(private, name, key, value);
    seq![
        SetterView {
            kind: SetterKind::Append,
            method: "insert_"@ + name,
            field: name,
            params: seq![
                NamedView { name: "key"@, text: key.parameter_type },
                NamedView { name: "value"@, text: value.parameter_type },
            ],
            body: append_body(
                name,
                "insert"@,
                key.convert(private, "key"@) + ", "@ + value.convert(private, "value"@),
            ),
        },
        SetterView {
            kind: SetterKind::Replace,
            method: name,
            field: name,
            params: many,
            body: assign_body(name, collect_text(private, entries)),
        },
        SetterView {
            kind: SetterKind::Extend,
            method: "extend_"@ + name,
            field: name,
            params: many,
            body: extend_body(private, name, entries),
        },
    ]
}

/// The setters that the final stage has for `field`.
pub open spec fn setters_of(private: Seq<char>, field: FieldDescriptorView) -> Seq<SetterView> {
    match field.mode {
        SetterModeView::Normal(policy) => seq![assign_setter(private, field.name, policy)],
        SetterModeView::ListStyle(item) => sequence_setters(private, field.name, "push"@, item),
        SetterModeView::SetStyle(item) => sequence_setters(private, field.name, "insert"@, item),
        SetterModeView::MapStyle(key, value) => map_setters(private, field.name, key, value),
    }
}

fn assign_statement(name: &str, value: &str) -> (out: String)
    ensures
        out@ == assign_body(name@, value@),
{
    cat5("self.0.", name, " = ", value, ";")
}

fn append_statement(name: &str, call: &str, args: &str) -> (out: String)
    ensures
        out@ == append_body(name@, call@, args@),
{
    cat5("self.0.", name, ".", call, "(").concat(args).concat(");")
}

fn collect_expression(options: &StructOptions, items: &str) -> (out: String)
    ensures
        out@ == collect_text(options@.private_path(), items@),
{
    options.private().concat("::FromIterator::from_iter(").concat(items).concat(")")
}

fn extend_statement(options: &StructOptions, name: &str, items: &str) -> (out: String)
    ensures
        out@ == extend_body(options@.private_path(), name@, items@),
{
    options.private().concat("::Extend::extend(&mut self.0.").concat(name).concat(", ").concat(
        items,
    ).concat(");")
}

fn sequence_of(options: &StructOptions, item: &str) -> (out: String)
    ensures
        out@ == sequence_type(options@.private_path(), item@),
{
    let private = options.private();
    cat5("impl ", private.as_str(), "::IntoIterator<Item = ", item, ">")
}

fn pair(a: &str, b: &str) -> (out: String)
    ensures
        out@ == pair_text(a@, b@),
{
    cat5("(", a, ", ", b, ")")
}

fn entries_expression(
    options: &StructOptions,
    name: &str,
    key: &ConversionPolicy,
    value: &ConversionPolicy,
) -> (out: String)
    ensures
        out@ == entries_text(options@.private_path(), name@, key@, value@),
{
    if key.conversion.is_some() || value.conversion.is_some() {
        let private = options.private();
        let converted = pair(
            key.convert(options, "key").as_str(),
            value.convert(options, "value").as_str(),
        );
        cat5(
            private.as_str(),
            "::Iterator::map(",
            private.as_str(),
            "::IntoIterator::into_iter(",
            name,
        ).concat("), |(key, value)| ").concat(converted.as_str()).concat(")")
    } else {
        String::from_str(name)
    }
}

fn one_param(name: &str, text: String) -> (out: Vec<Named>)
    ensures
        named_views(out@) == seq![NamedView { name: name@, text: text@ }],
{
    let mut out: Vec<Named> = Vec::new();
    out.push(Named { name: String::from_str(name), text });
    out
}

/// The three setters of a field whose contents come as the sequence
/// `items` of `item_type`s, and to which one more is added by `one`.
fn collection_setters(
    options: &StructOptions,
    name: &str,
    one: Setter,
    item_type: &str,
    items: &str,
) -> (out: Vec<Setter>)
    ensures
        setter_views(out@) == seq![
            one@,
            SetterView {
                kind: SetterKind::Replace,
                method: name@,
                field: name@,
                params: seq![
                    NamedView {
                        name: name@,
                        text: sequence_type(options@.private_path(), item_type@),
                    },
                ],
                body: assign_body(name@, collect_text(options@.private_path(), items@)),
            },
            SetterView {
                kind: SetterKind::Extend,
                method: "extend_"@ + name@,
                field: name@,
                params: seq![
                    NamedView {
                        name: name@,
                        text: sequence_type(options@.private_path(), item_type@),
                    },
                ],
                body: extend_body(options@.private_path(), name@, items@),
            },
        ],
{
    let replace = Setter {
        kind: SetterKind::Replace,
        method: String::from_str(name),
        field: String::from_str(name),
        params: one_param(name, sequence_of(options, item_type)),
        body: assign_statement(name, collect_expression(options, items).as_str()),
    };
    let extend = Setter {
        kind: SetterKind::Extend,
        method: String::from_str("extend_").concat(name),
        field: String::from_str(name),
        params: one_param(name, sequence_of(options, item_type)),
        body: extend_statement(options, name, items),
    };
    let mut out: Vec<Setter> = Vec::new();
    out.push(one);
    out.push(replace);
    out.push(extend);
    out
}

/// The setters that the final stage has for `field`: one that assigns it,
/// or, for a collection, three: one item more, new contents, a sequence of
/// items more.
pub fn final_stage_setter(options: &StructOptions, field: &FieldDescriptor) -> (out: Vec<Setter>)
    ensures
        setter_views(out@) == setters_of(options@.private_path(), field@),
{
    let name = field.name.as_str();
    match &field.mode {
        SetterMode::Normal(policy) => {
            let setter = Setter {
                kind: SetterKind::Assign,
                method: field.name.clone(),
                field: field.name.clone(),
                params: one_param(name, policy.parameter_type.clone()),
                body: assign_statement(name, policy.convert(options, name).as_str()),
            };
            let mut out: Vec<Setter> = Vec::new();
            out.push(setter);
            out
        },
        SetterMode::ListStyle(item) => sequence_style(options, name, "push", item),
        SetterMode::SetStyle(item) => sequence_style(options, name, "insert", item),
        SetterMode::MapStyle(key, value) => {
            let mut params: Vec<Named> = Vec::new();
            params.push(Named { name: String::from_str("key"), text: key.parameter_type.clone() });
            params.push(
                Named { name: String::from_str("value"), text: value.parameter_type.clone() },
            );
            assert(named_views(params@) =~= seq![
                NamedView { name: "key"@, text: key@.parameter_type },
                NamedView { name: "value"@, text: value@.parameter_type },
            ]);
            let args = cat3(
                key.convert(options, "key").as_str(),
                ", ",
                value.convert(options, "value").as_str(),
            );
            let one = Setter {
                kind: SetterKind::Append,
                method: String::from_str("insert_").concat(name),
                field: field.name.clone(),
                params,
                body: append_statement(name, "insert", args.as_str()),
            };
            let item_type = pair(key.parameter_type.as_str(), value.parameter_type.as_str());
            let entries = entries_expression(options, name, key, value);
            collection_setters(options, name, one, item_type.as_str(), entries.as_str())
        },
    }
}

/// The three setters of a list or a set.
fn sequence_style(options: &StructOptions, name: &str, call: &str, item: &ConversionPolicy) -> (out:
    Vec<Setter>)
    ensures
        setter_views(out@) == sequence_setters(options@.private_path(), name@, call@, item@),
{
    let one = Setter {
        kind: SetterKind::Append,
        method: cat3(call, "_", name),
        field: String::from_str(name),
        params: one_param(name, item.parameter_type.clone()),
        body: append_statement(name, call, item.convert(options, name).as_str()),
    };
    collection_setters(
        options,
        name,
        one,
        item.parameter_type.as_str(),
        item.convert_iter(options, name).as_str(),
    )
}


/// `build`: the method of the final stage that makes the value of the
/// fields held, and, where `validate` is set, hands it out only if it is
/// valid.
#[derive(Debug, PartialEq, Eq)]
pub struct Build {
    /// Whether the value is validated, so that `build` can fail.
    pub validate: bool,
    /// The path of the record's type, seen from the builder's code.
    pub value_path: String,
    /// The type that `build` returns.
    pub return_type: String,
    /// The names of all fields, in the order of declaration.
    pub fields: Vec<String>,
}

/// What [`Build`] holds, as mathematical values.
pub struct BuildView {
    pub validate: bool,
    pub value_path: Seq<char>,
    pub return_type: Seq<char>,
    pub fields: Seq<Seq<char>>,
}

impl View for Build {
    type V = BuildView;

    open spec fn view(&self) -> BuildView {
        BuildView {
            validate: self.validate,
            value_path: self.value_path@,
            return_type: self.return_type@,
            fields: texts(self.fields@),
        }
    }
}

/// The path of the record `ident`, seen from the builder's code.
pub open spec fn struct_path(options: StructOptionsView, ident: Seq<char>) -> Seq<char> {
    if options.inline {
        ident
    } else {
        "super::"@ + ident
    }
}

/// What a validating `build` returns: the value, or the error of its
/// validation.
pub open spec fn validated_type(options: StructOptionsView, path: Seq<char>) -> Seq<char> {
    options.private_path() + "::Result<"@ + path + ", <"@ + path + " as "@ + options.crate_path()
        + "::Validate>::Error>"@
}

/// The names of the fields.
pub open spec fn field_names(fields: Seq<FieldDescriptorView>) -> Seq<Seq<char>> {
    fields.map_values(|f: FieldDescriptorView| f.name)
}

/// The `build` that validates.
pub open spec fn validated(options: StructOptionsView, ident: Seq<char>, fields: Seq<FieldDescriptorView>) -> BuildView {
    BuildView {
        validate: true,
        value_path: struct_path(options, ident),
        return_type: validated_type(options, struct_path(options, ident)),
        fields: field_names(fields),
    }
}

/// The `build` that cannot fail.
pub open spec fn unvalidated(options: StructOptionsView, ident: Seq<char>, fields: Seq<FieldDescriptorView>) -> BuildView {
    BuildView {
        validate: false,
        value_path: struct_path(options, ident),
        return_type: struct_path(options, ident),
        fields: field_names(fields),
    }
}

fn path_of(options: &StructOptions, ident: &str) -> (out: String)
    ensures
        out@ == struct_path(options@, ident@),
{
    if options.inline {
        String::from_str(ident)
    } else {
        String::from_str("super::").concat(ident)
    }
}

fn names_of(fields: &Vec<FieldDescriptor>) -> (out: Vec<String>)
    ensures
        texts(out@) == field_names(descriptor_views(fields@)),
{
    let mut out: Vec<String> = Vec::new();
    let mut i: usize = 0;
    while i < fields.len()
        invariant
            i <= fields.len(),
            out@.len() == i,
            forall|j: int| 0 <= j < i ==> (#[trigger] out@[j])@ == fields@[j]@.name,
        decreases fields.len() - i,
    {
        out.push(fields[i].name.clone());
        i += 1;
    }
    out
}

/// The `build` of a record whose value is validated.
pub fn validated_build(options: &StructOptions, ident: &str, fields: &Vec<FieldDescriptor>) -> (out:
    Build)
    ensures
        out@ == validated(options@, ident@, descriptor_views(fields@)),
{
    let path = path_of(options, ident);
    let return_type = options.private().concat("::Result<").concat(path.as_str()).concat(
        ", <",
    ).concat(path.as_str()).concat(" as ").concat(options.crate_().as_str()).concat(
        "::Validate>::Error>",
    );
    Build { validate: true, value_path: path, return_type, fields: names_of(fields) }
}

/// The `build` of a record whose value is not validated.
pub fn unvalidated_build(options: &StructOptions, ident: &str, fields: &Vec<FieldDescriptor>) -> (out:
    Build)
    ensures
        out@ == unvalidated(options@, ident@, descriptor_views(fields@)),
{
    let path = path_of(options, ident);
    Build { validate: false, value_path: path.clone(), return_type: path, fields: names_of(fields) }
}

/// The final stage: the state in which every required field is set.
#[derive(Debug, PartialEq, Eq)]
pub struct TerminalStage {
    /// The name of the stage's type.
    pub ident: String,
    /// All fields with their types: a builder at this stage holds them all.
    pub fields: Vec<Named>,
    /// The setters, field by field in the order of declaration.
    pub setters: Vec<Setter>,
    pub build: Build,
    /// Whether a built value can be turned back into a builder at this
    /// stage.
    pub update: bool,
}

/// What [`TerminalStage`] holds, as mathematical values.
pub struct TerminalStageView {
    pub ident: Seq<char>,
    pub fields: Seq<NamedView>,
    pub setters: Seq<SetterView>,
    pub build: BuildView,
    pub update: bool,
}

impl View for TerminalStage {
    type V = TerminalStageView;

    open spec fn view(&self) -> TerminalStageView {
        TerminalStageView {
            ident: self.ident@,
            fields: named_views(self.fields@),
            setters: setter_views(self.setters@),
            build: self.build@,
            update: self.update,
        }
    }
}

/// Whether the final stage has setters for `field`: it has them for every
/// field that has a default, and for all fields where built values can be
/// updated.
pub open spec fn settable(options: StructOptionsView, field: FieldDescriptorView) -> bool {
    options.update || field.is_defaultable()
}

/// The setters of the final stage: those of each settable field, in the
/// order of declaration.
pub open spec fn terminal_setters(options: StructOptionsView, fields: Seq<FieldDescriptorView>) -> Seq<
    SetterView,
>
    decreases fields.len(),
{
    if fields.len() == 0 {
        Seq::empty()
    } else {
        let before = terminal_setters(options, fields.drop_last());
        if settable(options, fields.last()) {
            before + setters_of(options.private_path(), fields.last())
        } else {
            before
        }
    }
}

/// The final stage of the record `ident`.
pub open spec fn terminal_stage(options: StructOptionsView, ident: Seq<char>, fields: Seq<FieldDescriptorView>) -> TerminalStageView {
    TerminalStageView {
        ident: final_type_name(options),
        fields: slots(fields),
        setters: terminal_setters(options, fields),
        build: if options.validate {
            validated(options, ident, fields)
        } else {
            unvalidated(options, ident, fields)
        },
        update: options.update,
    }
}

/// The final stage of the record `ident`.
pub fn final_stage(options: &StructOptions, ident: &str, fields: &Vec<FieldDescriptor>) -> (out:
    TerminalStage)
    ensures
        out@ == terminal_stage(options@, ident@, descriptor_views(fields@)),
{
    let ghost all = descriptor_views(fields@);
    let mut held: Vec<Named> = Vec::new();
    let mut setters: Vec<Setter> = Vec::new();
    let mut i: usize = 0;
    while i < fields.len()
        invariant
            i <= fields.len(),
            all == descriptor_views(fields@),
            held@.len() == i,
            forall|j: int| 0 <= j < i ==> (#[trigger] held@[j])@ == slot(all[j]),
            setter_views(setters@) == terminal_setters(options@, all.take(i as int)),
        decreases fields.len() - i,
    {
        let field = &fields[i];
        proof {
            assert(all.take(i + 1).drop_last() =~= all.take(i as int));
        }
        held.push(Named { name: field.name.clone(), text: field.declared_type.clone() });
        if options.update || field.default.is_some() {
            let mut more = final_stage_setter(options, field);
            setters.append(&mut more);
        }
        i += 1;
    }
    proof {
        assert(all.take(i as int) =~= all);
        assert(named_views(held@) =~= slots(all));
    }
    let build = if options.validate {
        validated_build(options, ident, fields)
    } else {
        unvalidated_build(options, ident, fields)
    };
    TerminalStage {
        ident: final_name(options),
        fields: held,
        setters,
        build,
        update: options.update,
    }
}

} // verus!
