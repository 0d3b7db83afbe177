//! What is laid out for a record: names, types, expressions, and the
//! errors of a schema.

use staged_builder::convert::{call_convert, call_form, ConversionPolicy};
use staged_builder::error::{Param, SchemaError};
use staged_builder::expand::{expand, stage_vis, Data, Fields, Input, Visibility};
use staged_builder::names::{builder_name, final_name, module_name, stage_name, stage_name_of};
use staged_builder::options::{find_builder, Attribute, StructOptions};
use staged_builder::resolve::{resolve_fields, FieldDecl, FieldDescriptor, SetterMode};
use staged_builder::stages::{default_field_initializers, initial_stage, stage, stages, Named};
use staged_builder::terminal::{
    final_stage, final_stage_setter, unvalidated_build, validated_build, SetterKind,
};
use staged_builder::{CustomOverrides, FieldOverrides, MapOverrides, ParamOverrides, SeqOverrides};

const PRIVATE: &str = "::staged_builder::__private";
const TYPE_DEFAULT: &str = "::staged_builder::__private::Default::default()";

fn plain(name: &str, ty: &str) -> FieldDecl {
    FieldDecl { name: name.to_string(), ty: ty.to_string(), attrs: vec![] }
}

fn with(name: &str, ty: &str, options: FieldOverrides) -> FieldDecl {
    FieldDecl {
        name: name.to_string(),
        ty: ty.to_string(),
        attrs: vec![Attribute::Builder(Ok(options))],
    }
}

fn typed(ty: &str) -> ParamOverrides {
    ParamOverrides { type_: Some(ty.to_string()), into: false, custom: None }
}

fn typed_into(ty: &str) -> ParamOverrides {
    ParamOverrides { type_: Some(ty.to_string()), into: true, custom: None }
}

fn custom(ty: &str, convert: &str) -> CustomOverrides {
    CustomOverrides { type_: ty.to_string(), convert: convert.to_string() }
}

fn list(item: ParamOverrides) -> FieldOverrides {
    FieldOverrides { list: Some(SeqOverrides { item }), ..FieldOverrides::default() }
}

fn set(item: ParamOverrides) -> FieldOverrides {
    FieldOverrides { set: Some(SeqOverrides { item }), ..FieldOverrides::default() }
}

fn map(key: ParamOverrides, value: ParamOverrides) -> FieldOverrides {
    FieldOverrides { map: Some(MapOverrides { key, value }), ..FieldOverrides::default() }
}

fn named(name: &str, text: &str) -> Named {
    Named { name: name.to_string(), text: text.to_string() }
}

fn record(ident: &str, attrs: Vec<Attribute<StructOptions>>, decls: Vec<FieldDecl>) -> Input {
    Input {
        attrs,
        vis: Visibility::Inherited,
        ident: ident.to_string(),
        data: Data::Struct(Fields::Named(decls)),
    }
}

fn resolved(decls: Vec<FieldDecl>) -> Vec<FieldDescriptor> {
    resolve_fields(&StructOptions::default(), &decls).unwrap()
}

fn foo() -> Vec<FieldDecl> {
    vec![
        plain("required", "bool"),
        with("required2", "String", FieldOverrides { into: true, ..FieldOverrides::default() }),
        with(
            "normal_default",
            "String",
            FieldOverrides { default: Some(None), into: true, ..FieldOverrides::default() },
        ),
        with(
            "custom_default",
            "i32",
            FieldOverrides { default: Some(Some("42".to_string())), ..FieldOverrides::default() },
        ),
    ]
}

fn restricted(in_token: bool, leading_colon: bool, segments: &[&str]) -> Visibility {
    Visibility::Restricted {
        in_token,
        leading_colon,
        segments: segments.iter().map(|s| s.to_string()).collect(),
    }
}

#[test]
fn fields_resolve_to_descriptors() {
    let fields = resolved(foo());
    assert_eq!(fields.len(), 4);

    assert_eq!(fields[0].name, "required");
    assert_eq!(fields[0].declared_type, "bool");
    assert_eq!(fields[0].default, None);
    assert_eq!(fields[0].mode, SetterMode::Normal(ConversionPolicy::identity("bool")));
    assert!(!fields[0].is_defaultable());

    assert_eq!(fields[1].default, None);
    assert_eq!(
        fields[1].mode,
        SetterMode::Normal(ConversionPolicy {
            parameter_type: "impl ::staged_builder::__private::Into<String>".to_string(),
            conversion: Some("::staged_builder::__private::Into::into".to_string()),
        })
    );

    assert_eq!(fields[2].default.as_deref(), Some(TYPE_DEFAULT));
    assert!(fields[2].is_defaultable());
    assert_eq!(fields[2].mode, fields[1].mode);

    assert_eq!(fields[3].default.as_deref(), Some("42"));
    assert_eq!(fields[3].mode, SetterMode::Normal(ConversionPolicy::identity("i32")));
}

#[test]
fn record_expands_to_entry_stages_and_final_stage() {
    let expansion = expand(&record("Foo", vec![], foo())).unwrap();
    assert_eq!(expansion.crate_path, "::staged_builder");
    assert_eq!(expansion.private_path, PRIVATE);

    assert_eq!(expansion.entry.ident, "Foo");
    assert_eq!(expansion.entry.vis, "");
    assert_eq!(expansion.entry.return_type, "foo::Builder<foo::RequiredStage>");
    assert_eq!(expansion.entry.body, TYPE_DEFAULT);

    let types = &expansion.types;
    let module = types.module.as_ref().unwrap();
    assert_eq!(module.name, "foo");
    assert_eq!(module.vis, "");
    assert_eq!(types.builder, "Builder");
    assert_eq!(types.stage_vis, "pub(super)");
    assert_eq!(types.initial.stage, "RequiredStage");
    assert!(!types.initial.complete);
    assert!(types.initial.initializers.is_empty());

    assert_eq!(types.stages.len(), 2);
    let first = &types.stages[0];
    assert_eq!(first.ident, "RequiredStage");
    assert!(first.owned.is_empty());
    assert_eq!(first.field, "required");
    assert_eq!(first.parameter_type, "bool");
    assert_eq!(first.assign, "required");
    assert_eq!(first.successor, "Required2Stage");
    assert!(!first.last);
    assert!(first.defaults.is_empty());

    let second = &types.stages[1];
    assert_eq!(second.ident, "Required2Stage");
    assert_eq!(second.owned, vec![named("required", "bool")]);
    assert_eq!(second.field, "required2");
    assert_eq!(second.parameter_type, "impl ::staged_builder::__private::Into<String>");
    assert_eq!(second.assign, "::staged_builder::__private::Into::into(required2)");
    assert_eq!(second.successor, "Complete");
    assert!(second.last);
    assert_eq!(
        second.defaults,
        vec![named("normal_default", TYPE_DEFAULT), named("custom_default", "42")]
    );

    let terminal = &types.terminal;
    assert_eq!(terminal.ident, "Complete");
    assert_eq!(
        terminal.fields,
        vec![
            named("required", "bool"),
            named("required2", "String"),
            named("normal_default", "String"),
            named("custom_default", "i32"),
        ]
    );
    assert!(!terminal.update);
    assert_eq!(terminal.setters.len(), 2);
    assert_eq!(terminal.setters[0].kind, SetterKind::Assign);
    assert_eq!(terminal.setters[0].method, "normal_default");
    assert_eq!(terminal.setters[0].field, "normal_default");
    assert_eq!(
        terminal.setters[0].params,
        vec![named("normal_default", "impl ::staged_builder::__private::Into<String>")]
    );
    assert_eq!(
        terminal.setters[0].body,
        "self.0.normal_default = ::staged_builder::__private::Into::into(normal_default);"
    );
    assert_eq!(terminal.setters[1].method, "custom_default");
    assert_eq!(terminal.setters[1].params, vec![named("custom_default", "i32")]);
    assert_eq!(terminal.setters[1].body, "self.0.custom_default = custom_default;");

    assert!(!terminal.build.validate);
    assert_eq!(terminal.build.value_path, "super::Foo");
    assert_eq!(terminal.build.return_type, "super::Foo");
    assert_eq!(
        terminal.build.fields,
        vec!["required", "required2", "normal_default", "custom_default"]
    );
}

#[test]
fn stage_is_the_stage_at_an_index() {
    let options = StructOptions::default();
    let fields = resolved(foo());
    let all = stages(&options, &fields);
    assert_eq!(all.len(), 2);
    assert_eq!(stage(&options, 0, &fields), all[0]);
    assert_eq!(stage(&options, 1, &fields), all[1]);
    assert_eq!(initial_stage(&fields).as_deref(), Some("RequiredStage"));
    assert_eq!(
        default_field_initializers(&fields),
        vec![named("normal_default", TYPE_DEFAULT), named("custom_default", "42")]
    );
}

#[test]
fn stages_follow_the_declaration_order_of_required_fields() {
    let decls = vec![
        with("first", "u8", FieldOverrides { default: Some(None), ..FieldOverrides::default() }),
        plain("second", "u8"),
        with("third", "Vec<u8>", list(typed("u8"))),
        plain("fourth", "u8"),
        plain("fifth", "u8"),
    ];
    let fields = resolved(decls);
    let required = fields.iter().filter(|f| f.default.is_none()).count();
    let all = stages(&StructOptions::default(), &fields);
    assert_eq!(all.len(), required);
    assert_eq!(all.len(), 3);
    let order: Vec<&str> = all.iter().map(|s| s.field.as_str()).collect();
    assert_eq!(order, vec!["second", "fourth", "fifth"]);
    assert_eq!(all[0].successor, all[1].ident);
    assert_eq!(all[1].successor, all[2].ident);
    assert_eq!(all[2].successor, "Complete");
    assert_eq!((all[0].last, all[1].last, all[2].last), (false, false, true));
    assert_eq!(all[2].owned, vec![named("second", "u8"), named("fourth", "u8")]);
    assert_eq!(all[2].defaults, vec![named("first", TYPE_DEFAULT), named("third", TYPE_DEFAULT)]);
    assert!(all[0].defaults.is_empty());
}

#[test]
fn record_without_required_fields_starts_at_the_final_stage() {
    let decls = vec![
        with("list", "Vec<u32>", list(typed("u32"))),
        with(
            "flag",
            "bool",
            FieldOverrides { default: Some(Some("true".to_string())), ..FieldOverrides::default() },
        ),
    ];
    let expansion = expand(&record("Collections", vec![], decls)).unwrap();
    assert!(expansion.types.stages.is_empty());
    assert!(expansion.types.initial.complete);
    assert_eq!(expansion.types.initial.stage, "Complete");
    assert_eq!(
        expansion.types.initial.initializers,
        vec![named("list", TYPE_DEFAULT), named("flag", "true")]
    );
    assert_eq!(expansion.entry.return_type, "collections::Builder<collections::Complete>");
}

#[test]
fn list_gets_three_setters() {
    let fields = resolved(vec![with("list", "Vec<u32>", list(typed("u32")))]);
    let setters = final_stage_setter(&StructOptions::default(), &fields[0]);
    assert_eq!(setters.len(), 3);

    assert_eq!(setters[0].kind, SetterKind::Append);
    assert_eq!(setters[0].method, "push_list");
    assert_eq!(setters[0].params, vec![named("list", "u32")]);
    assert_eq!(setters[0].body, "self.0.list.push(list);");

    assert_eq!(setters[1].kind, SetterKind::Replace);
    assert_eq!(setters[1].method, "list");
    assert_eq!(
        setters[1].params,
        vec![named("list", "impl ::staged_builder::__private::IntoIterator<Item = u32>")]
    );
    assert_eq!(
        setters[1].body,
        "self.0.list = ::staged_builder::__private::FromIterator::from_iter(list);"
    );

    assert_eq!(setters[2].kind, SetterKind::Extend);
    assert_eq!(setters[2].method, "extend_list");
    assert_eq!(setters[2].params, setters[1].params);
    assert_eq!(
        setters[2].body,
        "::staged_builder::__private::Extend::extend(&mut self.0.list, list);"
    );
}

#[test]
fn set_inserts_and_converts_each_item() {
    let fields = resolved(vec![with("tags", "HashSet<String>", set(typed_into("String")))]);
    let setters = final_stage_setter(&StructOptions::default(), &fields[0]);
    assert_eq!(setters[0].method, "insert_tags");
    assert_eq!(setters[0].params, vec![named("tags", "impl ::staged_builder::__private::Into<String>")]);
    assert_eq!(
        setters[0].body,
        "self.0.tags.insert(::staged_builder::__private::Into::into(tags));"
    );
    assert_eq!(
        setters[1].params,
        vec![named(
            "tags",
            "impl ::staged_builder::__private::IntoIterator<Item = impl ::staged_builder::__private::Into<String>>"
        )]
    );
    assert_eq!(
        setters[1].body,
        "self.0.tags = ::staged_builder::__private::FromIterator::from_iter(::staged_builder::__private::Iterator::map(::staged_builder::__private::IntoIterator::into_iter(tags), ::staged_builder::__private::Into::into));"
    );
    assert_eq!(
        setters[2].body,
        "::staged_builder::__private::Extend::extend(&mut self.0.tags, ::staged_builder::__private::Iterator::map(::staged_builder::__private::IntoIterator::into_iter(tags), ::staged_builder::__private::Into::into));"
    );
}

#[test]
fn map_gets_three_setters() {
    let fields = resolved(vec![with("map", "HashMap<i32, bool>", map(typed("i32"), typed("bool")))]);
    let setters = final_stage_setter(&StructOptions::default(), &fields[0]);
    assert_eq!(setters.len(), 3);
    assert_eq!(setters[0].kind, SetterKind::Append);
    assert_eq!(setters[0].method, "insert_map");
    assert_eq!(setters[0].params, vec![named("key", "i32"), named("value", "bool")]);
    assert_eq!(setters[0].body, "self.0.map.insert(key, value);");
    assert_eq!(setters[1].kind, SetterKind::Replace);
    assert_eq!(setters[1].method, "map");
    assert_eq!(
        setters[1].params,
        vec![named("map", "impl ::staged_builder::__private::IntoIterator<Item = (i32, bool)>")]
    );
    assert_eq!(
        setters[1].body,
        "self.0.map = ::staged_builder::__private::FromIterator::from_iter(map);"
    );
    assert_eq!(setters[2].kind, SetterKind::Extend);
    assert_eq!(setters[2].method, "extend_map");
    assert_eq!(
        setters[2].body,
        "::staged_builder::__private::Extend::extend(&mut self.0.map, map);"
    );
}

#[test]
fn map_converts_keys_and_values_on_their_own() {
    let fields = resolved(vec![with(
        "map",
        "HashMap<String, Option<i32>>",
        map(typed_into("String"), typed("Option<i32>")),
    )]);
    let setters = final_stage_setter(&StructOptions::default(), &fields[0]);
    assert_eq!(
        setters[0].params,
        vec![
            named("key", "impl ::staged_builder::__private::Into<String>"),
            named("value", "Option<i32>"),
        ]
    );
    assert_eq!(
        setters[0].body,
        "self.0.map.insert(::staged_builder::__private::Into::into(key), value);"
    );
    assert_eq!(
        setters[1].body,
        "self.0.map = ::staged_builder::__private::FromIterator::from_iter(::staged_builder::__private::Iterator::map(::staged_builder::__private::IntoIterator::into_iter(map), |(key, value)| (::staged_builder::__private::Into::into(key), value)));"
    );
}

#[test]
fn conversion_is_written_as_a_call() {
    let options = StructOptions::default();
    assert_eq!(call_convert(&options, "string", "to_string"), "to_string(string)");
    assert_eq!(
        call_convert(&options, "single", "|s| s.to_string()"),
        "::staged_builder::__private::call_hack(|s| s.to_string(), single)"
    );
    assert_eq!(call_form(&options, "x", "f", false), "f(x)");
    assert_eq!(call_form(&options, "x", "f", true), "::staged_builder::__private::call_hack(f, x)");
    assert_eq!(call_convert(&options, "x", "not an expression ]"), "not an expression ](x)");

    let policy = ConversionPolicy::custom(&custom("impl Display", "to_string"));
    assert_eq!(policy.parameter_type, "impl Display");
    assert_eq!(policy.convert(&options, "list"), "to_string(list)");
    assert_eq!(
        policy.convert_iter(&options, "list"),
        "::staged_builder::__private::Iterator::map(::staged_builder::__private::IntoIterator::into_iter(list), to_string)"
    );
    let identity = ConversionPolicy::identity("u32");
    assert_eq!(identity.convert(&options, "list"), "list");
    assert_eq!(identity.convert_iter(&options, "list"), "list");
}

#[test]
fn parameter_policy_or_its_error() {
    let options = StructOptions::default();
    let policy = ConversionPolicy::new(&options, &typed("u32"), "list", Param::Item).unwrap();
    assert_eq!(policy, ConversionPolicy::identity("u32"));
    let policy = ConversionPolicy::new(&options, &typed_into("String"), "list", Param::Item).unwrap();
    assert_eq!(policy, ConversionPolicy::into(&options, "String"));
    let by_custom = ParamOverrides {
        type_: Some("u8".to_string()),
        into: false,
        custom: Some(custom("impl Display", "to_string")),
    };
    let policy = ConversionPolicy::new(&options, &by_custom, "list", Param::Item).unwrap();
    assert_eq!(policy, ConversionPolicy::custom(&custom("impl Display", "to_string")));

    let nothing = ParamOverrides { type_: None, into: true, custom: None };
    assert_eq!(
        ConversionPolicy::new(&options, &nothing, "map", Param::Key),
        Err(SchemaError::MissingType { field: "map".to_string(), param: Param::Key })
    );
    let both = ParamOverrides { type_: None, into: true, custom: Some(custom("T", "f")) };
    assert_eq!(
        ConversionPolicy::new(&options, &both, "map", Param::Value),
        Err(SchemaError::Conflict { field: "map".to_string(), within: Some(Param::Value) })
    );
}

#[test]
fn names_of_the_written_items() {
    let options = StructOptions::default();
    assert_eq!(module_name(&options, "MyStruct"), "my_struct");
    assert_eq!(module_name(&options, "XMLHttpRequest"), "xml_http_request");
    assert_eq!(final_name(&options), "Complete");
    assert_eq!(builder_name(&options), "Builder");
    assert_eq!(stage_name_of("IntoRequiredField".to_string()), "IntoRequiredFieldStage");

    let fields = resolved(vec![plain("into_required_field", "String"), plain("_foo", "i32")]);
    assert_eq!(stage_name(&fields[0]), "IntoRequiredFieldStage");
    assert_eq!(stage_name(&fields[1]), "FooStage");

    let named = StructOptions {
        mod_: Some("my_custom_mod".to_string()),
        builder: Some("MyBuilder".to_string()),
        complete: Some("MyComplete".to_string()),
        ..StructOptions::default()
    };
    assert_eq!(module_name(&named, "MyStruct"), "my_custom_mod");
    assert_eq!(final_name(&named), "MyComplete");
    assert_eq!(builder_name(&named), "MyBuilder");
    let staged = resolved(vec![with(
        "a",
        "i32",
        FieldOverrides { stage: Some("MyAStage".to_string()), ..FieldOverrides::default() },
    )]);
    assert_eq!(stage_name(&staged[0]), "MyAStage");
}

#[test]
fn crate_path_reaches_every_expression() {
    let options = StructOptions { crate_: Some("crate".to_string()), ..StructOptions::default() };
    assert_eq!(options.crate_(), "crate");
    assert_eq!(options.private(), "crate::__private");
    assert_eq!(StructOptions::default().crate_(), "::staged_builder");
    assert_eq!(StructOptions::default().private(), PRIVATE);

    let decls = vec![with("parents", "Vec<ExamplePerson>", list(typed("ExamplePerson")))];
    let fields = resolve_fields(&options, &decls).unwrap();
    assert_eq!(fields[0].default.as_deref(), Some("crate::__private::Default::default()"));
    let setters = final_stage_setter(&options, &fields[0]);
    assert_eq!(
        setters[1].body,
        "self.0.parents = crate::__private::FromIterator::from_iter(parents);"
    );
}

#[test]
fn build_returns_the_value_or_a_result() {
    let fields = resolved(vec![plain("even", "u32")]);
    let plain_build = unvalidated_build(&StructOptions::default(), "Validated", &fields);
    assert!(!plain_build.validate);
    assert_eq!(plain_build.value_path, "super::Validated");
    assert_eq!(plain_build.return_type, "super::Validated");
    assert_eq!(plain_build.fields, vec!["even"]);

    let checked = validated_build(&StructOptions::default(), "Validated", &fields);
    assert!(checked.validate);
    assert_eq!(checked.value_path, "super::Validated");
    assert_eq!(
        checked.return_type,
        "::staged_builder::__private::Result<super::Validated, <super::Validated as ::staged_builder::Validate>::Error>"
    );

    let inline = StructOptions { inline: true, validate: true, ..StructOptions::default() };
    let terminal = final_stage(&inline, "Validated", &fields);
    assert!(terminal.build.validate);
    assert_eq!(terminal.build.value_path, "Validated");
    assert_eq!(
        terminal.build.return_type,
        "::staged_builder::__private::Result<Validated, <Validated as ::staged_builder::Validate>::Error>"
    );
    assert!(terminal.setters.is_empty());
}

#[test]
fn final_stage_sets_every_field_where_values_are_updated() {
    let decls = vec![
        plain("a", "i32"),
        with("b", "String", FieldOverrides { into: true, ..FieldOverrides::default() }),
    ];
    let fields = resolved(decls);
    let terminal = final_stage(&StructOptions::default(), "Update", &fields);
    assert!(terminal.setters.is_empty());
    assert!(!terminal.update);

    let options = StructOptions { update: true, ..StructOptions::default() };
    let terminal = final_stage(&options, "Update", &fields);
    assert!(terminal.update);
    let methods: Vec<&str> = terminal.setters.iter().map(|s| s.method.as_str()).collect();
    assert_eq!(methods, vec!["a", "b"]);
    assert_eq!(terminal.setters[0].body, "self.0.a = a;");
    assert_eq!(
        terminal.setters[1].body,
        "self.0.b = ::staged_builder::__private::Into::into(b);"
    );
}

#[test]
fn stage_types_are_seen_where_the_record_is() {
    assert_eq!(stage_vis(&Visibility::Public), "pub");
    assert_eq!(stage_vis(&Visibility::Inherited), "pub(super)");
    assert_eq!(stage_vis(&restricted(false, false, &["crate"])), "pub(crate)");
    assert_eq!(stage_vis(&restricted(true, false, &["crate", "a"])), "pub(in crate::a)");
    assert_eq!(stage_vis(&restricted(true, true, &["a", "b"])), "pub(in ::a::b)");
    assert_eq!(stage_vis(&restricted(false, false, &["self"])), "pub(super)");
    assert_eq!(stage_vis(&restricted(false, false, &["super"])), "pub(in super::super)");
    assert_eq!(stage_vis(&restricted(true, false, &["super", "a"])), "pub(in super::super::a)");
    assert_eq!(restricted(true, false, &["super", "a"]).text(), "pub(in super::a)");
    assert_eq!(Visibility::Inherited.text(), "");
}

#[test]
fn only_the_first_builder_attribute_counts() {
    let second = FieldOverrides { into: true, ..FieldOverrides::default() };
    let attrs = vec![
        Attribute::Other,
        Attribute::Builder(Ok(FieldOverrides::default())),
        Attribute::Builder(Ok(second)),
        Attribute::Builder(Err("never read".to_string())),
    ];
    assert_eq!(find_builder(&attrs), Some(1));
    assert_eq!(FieldOverrides::new(&attrs, "a"), Ok(FieldOverrides::default()));
    let none: Vec<Attribute<FieldOverrides>> = vec![Attribute::Other, Attribute::Other];
    assert_eq!(find_builder(&none), None);
    assert_eq!(FieldOverrides::new(&none, "a"), Ok(FieldOverrides::default()));
    assert_eq!(StructOptions::new(&vec![]), Ok(StructOptions::default()));
    let set = StructOptions { validate: true, ..StructOptions::default() };
    let attrs = vec![Attribute::Builder(Ok(set)), Attribute::Builder(Ok(StructOptions::default()))];
    assert!(StructOptions::new(&attrs).unwrap().validate);
}

#[test]
fn only_structs_with_named_fields_have_builders() {
    let mut input = record("Foo", vec![], vec![]);
    input.data = Data::Enum;
    assert_eq!(expand(&input), Err(vec![SchemaError::NotStruct]));
    input.data = Data::Union;
    assert_eq!(expand(&input), Err(vec![SchemaError::NotStruct]));
    input.data = Data::Struct(Fields::Unnamed);
    assert_eq!(expand(&input), Err(vec![SchemaError::NotNamed]));
    input.data = Data::Struct(Fields::Unit);
    assert_eq!(expand(&input), Err(vec![SchemaError::NotNamed]));
    assert_eq!(
        SchemaError::NotStruct.message(),
        "staged builders can only be derived on structs"
    );
    assert_eq!(
        SchemaError::NotNamed.message(),
        "staged builders cannot be derived on tuple or unit structs"
    );
    input.data = Data::Struct(Fields::Named(vec![]));
    let expansion = expand(&input).unwrap();
    assert!(expansion.types.initial.complete);
    assert!(expansion.types.stages.is_empty());
}

#[test]
fn every_error_of_a_schema_is_reported() {
    let unreadable = FieldDecl {
        name: "one".to_string(),
        ty: "u8".to_string(),
        attrs: vec![Attribute::Builder(Err("cannot find parameter `foo` in this scope".to_string()))],
    };
    let missing = with(
        "two",
        "Vec<u8>",
        list(ParamOverrides { type_: None, into: false, custom: None }),
    );
    let conflicting = with(
        "three",
        "String",
        FieldOverrides {
            into: true,
            custom: Some(custom("impl Display", "to_string")),
            ..FieldOverrides::default()
        },
    );
    let decls = vec![plain("zero", "u8"), unreadable, missing, plain("sound", "u8"), conflicting];
    let expected = vec![
        SchemaError::Malformed {
            owner: Some("one".to_string()),
            message: "cannot find parameter `foo` in this scope".to_string(),
        },
        SchemaError::MissingType { field: "two".to_string(), param: Param::Item },
        SchemaError::Conflict { field: "three".to_string(), within: None },
    ];
    assert_eq!(resolve_fields(&StructOptions::default(), &decls), Err(expected));

    let errors = expand(&record("Foo", vec![], decls)).unwrap_err();
    assert_eq!(errors.len(), 3);
    assert_eq!(errors[0].message(), "cannot find parameter `foo` in this scope");
    assert_eq!(errors[0].field().as_deref(), Some("one"));
    assert_eq!(errors[1].message(), "missing `type` configuration");
    assert_eq!(errors[1].field().as_deref(), Some("two"));
    assert_eq!(
        errors[2].message(),
        "at most one of `into`, `custom`, `list`, `set` and `map` can be used"
    );
    assert_eq!(errors[2].field().as_deref(), Some("three"));
}

#[test]
fn one_field_can_have_several_errors() {
    let empty = ParamOverrides { type_: None, into: false, custom: None };
    let both = ParamOverrides { type_: None, into: true, custom: Some(custom("T", "f")) };
    let field = with(
        "f",
        "T",
        FieldOverrides {
            list: Some(SeqOverrides { item: typed("u8") }),
            set: Some(SeqOverrides { item: both }),
            map: Some(MapOverrides { key: empty, value: typed("u8") }),
            ..FieldOverrides::default()
        },
    );
    let errors = FieldDescriptor::new(&StructOptions::default(), &field).unwrap_err();
    assert_eq!(
        errors,
        vec![
            SchemaError::Conflict { field: "f".to_string(), within: None },
            SchemaError::Conflict { field: "f".to_string(), within: Some(Param::Item) },
            SchemaError::MissingType { field: "f".to_string(), param: Param::Key },
        ]
    );
    assert_eq!(errors[1].message(), "`into` and `custom` cannot be used together");
}

#[test]
fn unreadable_record_options_come_first() {
    let attrs = vec![Attribute::Builder(Err("expected `,`".to_string()))];
    let decls = vec![
        plain("a", "u8"),
        with("b", "Vec<u8>", list(ParamOverrides { type_: None, into: false, custom: None })),
    ];
    let errors = expand(&record("Foo", attrs, decls)).unwrap_err();
    assert_eq!(
        errors,
        vec![
            SchemaError::Malformed { owner: None, message: "expected `,`".to_string() },
            SchemaError::MissingType { field: "b".to_string(), param: Param::Item },
        ]
    );
    assert_eq!(errors[0].field(), None);
}

#[test]
fn explicit_default_wins_over_the_empty_collection() {
    let mut options = list(typed("u8"));
    options.default = Some(Some("vec![1]".to_string()));
    let fields = resolved(vec![with("list", "Vec<u8>", options)]);
    assert_eq!(fields[0].default.as_deref(), Some("vec![1]"));
    let mut options = list(typed("u8"));
    options.default = Some(None);
    let fields = resolved(vec![with("list", "Vec<u8>", options)]);
    assert_eq!(fields[0].default.as_deref(), Some(TYPE_DEFAULT));
}

#[test]
fn copies_equal_what_they_copy() {
    let options = StructOptions {
        validate: true,
        crate_: Some("crate".to_string()),
        mod_: Some("m".to_string()),
        inline: true,
        builder: Some("B".to_string()),
        complete: Some("C".to_string()),
        update: true,
    };
    assert_eq!(options.duplicate(), options);
    let field = FieldOverrides {
        default: Some(Some("1".to_string())),
        into: true,
        custom: Some(custom("T", "f")),
        list: Some(SeqOverrides { item: typed("u8") }),
        set: Some(SeqOverrides { item: typed_into("u8") }),
        map: Some(MapOverrides { key: typed("K"), value: typed("V") }),
        stage: Some("S".to_string()),
    };
    assert_eq!(field.duplicate(), field);
    let fields = resolved(vec![
        plain("a", "u8"),
        with("b", "Vec<u8>", list(typed("u8"))),
        with("c", "HashSet<u8>", set(typed_into("u8"))),
        with("d", "HashMap<u8, u8>", map(typed("u8"), typed("u8"))),
    ]);
    for f in &fields {
        assert_eq!(&f.duplicate(), f);
    }
    let named = named("a", "b");
    assert_eq!(named.duplicate(), named);
}
