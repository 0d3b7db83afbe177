//! Builders at work: records are declared, resolved, and built stage by
//! stage.

use staged_builder::expand::{expand, Data, Fields, Input, Visibility};
use staged_builder::instance::{Builder, Complete, Pending, Record, Slot};
use staged_builder::options::{Attribute, StructOptions};
use staged_builder::protocol::{Operation, Phase, Protocol, Transition};
use staged_builder::resolve::FieldDecl;
use staged_builder::schema::Schema;
use staged_builder::validate::{conclude, Validate};
use staged_builder::{
    CustomOverrides, ExamplePerson, FieldOverrides, MapOverrides, ParamOverrides, SeqOverrides,
};

/// The values of the fields of the records below.
#[derive(Debug, PartialEq, Eq)]
enum Val {
    Bool(bool),
    I32(i32),
    U32(u32),
    Str(String),
    OptI32(Option<i32>),
}

fn text(s: &str) -> Val {
    Val::Str(s.to_string())
}

fn plain(name: &str, ty: &str) -> FieldDecl {
    FieldDecl { name: name.to_string(), ty: ty.to_string(), attrs: vec![] }
}

fn with(name: &str, ty: &str, options: FieldOverrides) -> FieldDecl {
    FieldDecl {
        name: name.to_string(),
        ty: ty.to_string(),
        attrs: vec![Attribute::Builder(Ok(options))],
    }
}

fn typed(ty: &str) -> ParamOverrides {
    ParamOverrides { type_: Some(ty.to_string()), into: false, custom: None }
}

fn typed_into(ty: &str) -> ParamOverrides {
    ParamOverrides { type_: Some(ty.to_string()), into: true, custom: None }
}

fn converted(ty: &str, convert: &str) -> CustomOverrides {
    CustomOverrides { type_: ty.to_string(), convert: convert.to_string() }
}

fn list(item: ParamOverrides) -> FieldOverrides {
    FieldOverrides { list: Some(SeqOverrides { item }), ..FieldOverrides::default() }
}

fn set(item: ParamOverrides) -> FieldOverrides {
    FieldOverrides { set: Some(SeqOverrides { item }), ..FieldOverrides::default() }
}

fn map(key: ParamOverrides, value: ParamOverrides) -> FieldOverrides {
    FieldOverrides { map: Some(MapOverrides { key, value }), ..FieldOverrides::default() }
}

fn resolve(options: StructOptions, decls: Vec<FieldDecl>) -> Schema {
    Schema::resolve(options, &decls).unwrap()
}

fn pending<'a>(builder: Builder<'a, Val>) -> Pending<'a, Val> {
    match builder {
        Builder::Stage(pending) => pending,
        Builder::Final(_) => panic!("the builder is at its final stage"),
    }
}

fn complete<'a>(builder: Builder<'a, Val>) -> Complete<'a, Val> {
    match builder {
        Builder::Final(complete) => complete,
        Builder::Stage(_) => panic!("a required field is not set"),
    }
}

fn items(values: Vec<Val>) -> Slot<Val> {
    Slot::Items { inherited: false, items: values }
}

fn entries(values: Vec<(Val, Val)>) -> Slot<Val> {
    Slot::Entries { inherited: false, entries: values }
}

const TYPE_DEFAULT: &str = "::staged_builder::__private::Default::default()";

fn foo() -> Vec<FieldDecl> {
    vec![
        plain("required", "bool"),
        with("required2", "String", FieldOverrides { into: true, ..FieldOverrides::default() }),
        with(
            "normal_default",
            "String",
            FieldOverrides { default: Some(None), into: true, ..FieldOverrides::default() },
        ),
        with(
            "custom_default",
            "i32",
            FieldOverrides { default: Some(Some("42".to_string())), ..FieldOverrides::default() },
        ),
    ]
}

#[test]
fn basic() {
    let schema = resolve(StructOptions::default(), foo());
    let stage = pending(Builder::new(&schema));
    let stage = pending(stage.set(Val::Bool(true)));
    let actual = complete(stage.set(text("a"))).build();
    let expected = Record {
        fields: vec![
            Slot::Value(Val::Bool(true)),
            Slot::Value(text("a")),
            Slot::Default,
            Slot::Default,
        ],
    };
    assert_eq!(actual, expected);
    assert_eq!(schema.fields()[2].default.as_deref(), Some(TYPE_DEFAULT));
    assert_eq!(schema.fields()[3].default.as_deref(), Some("42"));
}

#[test]
fn test_basic() {
    let options = StructOptions { update: true, ..StructOptions::default() };
    let schema = resolve(options, foo());
    let stage = pending(Builder::new(&schema));
    let stage = pending(stage.set(Val::Bool(true)));
    let actual = complete(stage.set(text("a"))).build();
    let expected = Record {
        fields: vec![
            Slot::Value(Val::Bool(true)),
            Slot::Value(text("a")),
            Slot::Default,
            Slot::Default,
        ],
    };
    assert_eq!(actual, expected);
    assert_eq!(schema.fields()[3].default.as_deref(), Some("42"));

    let again = Complete::from(&schema, actual);
    assert!(again.accepts_value(2));
    assert!(again.accepts_value(0));
    let actual = again.set(2, text("b")).set(0, Val::Bool(false)).build();
    let expected = Record {
        fields: vec![
            Slot::Value(Val::Bool(false)),
            Slot::Value(text("a")),
            Slot::Value(text("b")),
            Slot::Default,
        ],
    };
    assert_eq!(actual, expected);
}

#[derive(Debug, PartialEq, Eq)]
struct Validated {
    even: u32,
}

impl From<Record<Val>> for Validated {
    fn from(record: Record<Val>) -> Validated {
        match &record.fields[0] {
            Slot::Value(Val::U32(even)) => Validated { even: *even },
            other => panic!("`even` holds {:?}", other),
        }
    }
}

impl Validate for Validated {
    type Error = &'static str;

    fn validate(&self) -> Result<(), Self::Error> {
        if self.even % 2 == 0 {
            Ok(())
        } else {
            Err("is odd")
        }
    }
}

#[test]
fn validate() {
    let options = StructOptions { validate: true, ..StructOptions::default() };
    let schema = resolve(options, vec![plain("even", "u32")]);
    let built: Result<Validated, &'static str> =
        complete(pending(Builder::new(&schema)).set(Val::U32(0))).build_validated();
    assert_eq!(built.unwrap(), Validated { even: 0 });
    let built: Result<Validated, &'static str> =
        complete(pending(Builder::new(&schema)).set(Val::U32(1))).build_validated();
    assert_eq!(built.err().unwrap(), "is odd");
}

fn collections_schema_fields() -> Vec<FieldDecl> {
    vec![
        with("list", "Vec<u32>", list(typed("u32"))),
        with("set", "HashSet<&'static str>", set(typed("&'static str"))),
        with("map", "HashMap<i32, bool>", map(typed("i32"), typed("bool"))),
    ]
}

fn collections_schema() -> Schema {
    resolve(StructOptions::default(), collections_schema_fields())
}

#[test]
fn collections() {
    let schema = collections_schema();
    let expected = Record {
        fields: vec![
            items(vec![Val::U32(1), Val::U32(2)]),
            items(vec![text("hi"), text("there")]),
            entries(vec![(Val::I32(1), Val::Bool(true)), (Val::I32(2), Val::Bool(false))]),
        ],
    };

    let actual = complete(Builder::new(&schema))
        .push(0, Val::U32(1))
        .push(0, Val::U32(2))
        .push(1, text("hi"))
        .push(1, text("there"))
        .insert(2, Val::I32(1), Val::Bool(true))
        .insert(2, Val::I32(2), Val::Bool(false))
        .build();
    assert_eq!(actual, expected);

    let actual = complete(Builder::new(&schema))
        .push(0, Val::U32(0))
        .replace(0, vec![Val::U32(1), Val::U32(2)])
        .replace(1, vec![text("hi"), text("there")])
        .replace_entries(2, vec![(Val::I32(1), Val::Bool(true)), (Val::I32(2), Val::Bool(false))])
        .build();
    assert_eq!(actual, expected);

    let actual = complete(Builder::new(&schema))
        .push(0, Val::U32(1))
        .extend(0, vec![Val::U32(2)])
        .push(1, text("hi"))
        .extend(1, vec![text("there")])
        .insert(2, Val::I32(1), Val::Bool(true))
        .extend_entries(2, vec![(Val::I32(2), Val::Bool(false))])
        .build();
    assert_eq!(actual, expected);
}

#[test]
fn collections_into() {
    let schema = resolve(
        StructOptions::default(),
        vec![
            with("list", "Vec<String>", list(typed_into("String"))),
            with(
                "map",
                "HashMap<String, Option<i32>>",
                map(typed_into("String"), typed_into("Option<i32>")),
            ),
        ],
    );
    let string = |s: &str| -> Val { Val::Str(s.into()) };
    let option = |v: Option<i32>| -> Val { Val::OptI32(v) };
    let expected = Record {
        fields: vec![
            items(vec![text("hi"), text("there")]),
            entries(vec![
                (text("foo"), Val::OptI32(Some(1))),
                (text("bar"), Val::OptI32(None)),
            ]),
        ],
    };

    let actual = complete(Builder::new(&schema))
        .push(0, string("hi"))
        .push(0, string("there"))
        .insert(1, string("foo"), option(1.into()))
        .insert(1, string("bar"), option(None))
        .build();
    assert_eq!(actual, expected);

    let actual = complete(Builder::new(&schema))
        .replace(0, vec![string("hi"), string("there")])
        .replace_entries(
            1,
            vec![(string("foo"), option(Some(1))), (string("bar"), option(None))],
        )
        .build();
    assert_eq!(actual, expected);

    let actual = complete(Builder::new(&schema))
        .push(0, string("hi"))
        .extend(0, vec![string("there")])
        .insert(1, string("foo"), option(1.into()))
        .extend_entries(1, vec![(string("bar"), option(None))])
        .build();
    assert_eq!(actual, expected);
}

#[test]
fn example_person() {
    let parent = ExamplePerson::builder().name("Jane Doe").age(50).build();
    let person = ExamplePerson::builder().name("John Doe").age(25).push_parents(parent).build();
    assert_eq!(person.name, "John Doe");
    assert_eq!(person.age, 25);
    assert_eq!(person.parents.len(), 1);
    assert_eq!(person.parents[0].name, "Jane Doe");
    assert!(person.parents[0].parents.is_empty());
}

#[test]
fn conclude_hands_out_or_drops() {
    assert_eq!(conclude::<u32, &str>(4, Ok(())), Ok(4));
    assert_eq!(conclude::<u32, &str>(5, Err("is odd")), Err("is odd"));
}

fn record(ident: &str, options: &StructOptions, decls: Vec<FieldDecl>) -> Input {
    Input {
        attrs: vec![Attribute::Builder(Ok(options.duplicate()))],
        vis: Visibility::Inherited,
        ident: ident.to_string(),
        data: Data::Struct(Fields::Named(decls)),
    }
}

fn to_string(value: impl std::fmt::Display) -> String {
    value.to_string()
}

#[test]
fn custom() {
    let decls = || {
        vec![
            with(
                "string",
                "String",
                FieldOverrides {
                    custom: Some(converted("impl Display", "to_string")),
                    ..FieldOverrides::default()
                },
            ),
            with(
                "list",
                "Vec<String>",
                list(ParamOverrides {
                    type_: None,
                    into: false,
                    custom: Some(converted("impl Display", "to_string")),
                }),
            ),
        ]
    };
    let expansion = expand(&record("Custom", &StructOptions::default(), decls())).unwrap();
    let stage = &expansion.types.stages[0];
    assert_eq!(stage.parameter_type, "impl Display");
    assert_eq!(stage.assign, "to_string(string)");
    let push = &expansion.types.terminal.setters[0];
    assert_eq!(push.method, "push_list");
    assert_eq!(push.params[0].text, "impl Display");
    assert_eq!(push.body, "self.0.list.push(to_string(list));");

    let schema = resolve(StructOptions::default(), decls());
    let actual = complete(pending(Builder::new(&schema)).set(Val::Str(to_string(42))))
        .push(1, Val::Str(to_string(true)))
        .build();
    let expected = Record { fields: vec![Slot::Value(text("42")), items(vec![text("true")])] };
    assert_eq!(actual, expected);
}

#[test]
fn custom_mod() {
    let options = StructOptions { mod_: Some("my_custom_mod".to_string()), ..StructOptions::default() };
    let expansion = expand(&record("CustomMod", &options, vec![plain("_foo", "i32")])).unwrap();
    assert_eq!(expansion.types.module.as_ref().unwrap().name, "my_custom_mod");
    assert_eq!(expansion.entry.return_type, "my_custom_mod::Builder<my_custom_mod::FooStage>");
    assert_eq!(expansion.types.initial.stage, "FooStage");
    assert_eq!(expansion.types.stages[0].field, "_foo");

    let schema = resolve(options, vec![plain("_foo", "i32")]);
    let expected = Record { fields: vec![Slot::Value(Val::I32(1))] };
    assert_eq!(complete(pending(Builder::new(&schema)).set(Val::I32(1))).build(), expected);
    assert_eq!(complete(pending(Builder::new(&schema)).set(Val::I32(1))).build(), expected);
}

#[test]
fn closure_convert() {
    let closure = "|s| s.to_string()";
    let decls = || {
        vec![
            with(
                "single",
                "String",
                FieldOverrides {
                    custom: Some(converted("impl Display", closure)),
                    ..FieldOverrides::default()
                },
            ),
            with(
                "list",
                "Vec<String>",
                list(ParamOverrides {
                    type_: None,
                    into: false,
                    custom: Some(converted("impl Display", closure)),
                }),
            ),
        ]
    };
    let expansion = expand(&record("ClosureConvert", &StructOptions::default(), decls())).unwrap();
    assert_eq!(
        expansion.types.stages[0].assign,
        "::staged_builder::__private::call_hack(|s| s.to_string(), single)"
    );
    let setters = &expansion.types.terminal.setters;
    assert_eq!(
        setters[0].body,
        "self.0.list.push(::staged_builder::__private::call_hack(|s| s.to_string(), list));"
    );
    assert_eq!(
        setters[1].body,
        "self.0.list = ::staged_builder::__private::FromIterator::from_iter(::staged_builder::__private::Iterator::map(::staged_builder::__private::IntoIterator::into_iter(list), |s| s.to_string()));"
    );

    let convert = |s: &dyn std::fmt::Display| -> Val { Val::Str(s.to_string()) };
    let schema = resolve(StructOptions::default(), decls());
    let actual = complete(pending(Builder::new(&schema)).set(convert(&true)))
        .push(1, staged_builder::__private::call_hack(|s: i32| Val::Str(s.to_string()), 15))
        .build();
    let expected = Record { fields: vec![Slot::Value(text("true")), items(vec![text("15")])] };
    assert_eq!(actual, expected);
}

#[test]
fn inline() {
    let options = StructOptions { inline: true, ..StructOptions::default() };
    let expansion = expand(&record("Inline", &options, vec![plain("a", "i32")])).unwrap();
    assert_eq!(expansion.types.module, None);
    assert_eq!(expansion.entry.return_type, "Builder<AStage>");
    assert_eq!(expansion.types.stages[0].ident, "AStage");
    assert_eq!(expansion.types.stages[0].successor, "Complete");
    assert_eq!(expansion.types.terminal.build.return_type, "Inline");

    let schema = resolve(options, vec![plain("a", "i32")]);
    let builder: Builder<Val> = Builder::new(&schema);
    let stage: Complete<Val> = complete(pending(builder).set(Val::I32(1)));
    let actual = stage.build();
    let expected = Record { fields: vec![Slot::Value(Val::I32(1))] };
    assert_eq!(actual, expected);
}

#[test]
fn custom_names() {
    let options = StructOptions {
        builder: Some("MyBuilder".to_string()),
        complete: Some("MyComplete".to_string()),
        ..StructOptions::default()
    };
    let decls = || {
        vec![with(
            "a",
            "i32",
            FieldOverrides { stage: Some("MyAStage".to_string()), ..FieldOverrides::default() },
        )]
    };
    let expansion = expand(&record("CustomNames", &options, decls())).unwrap();
    assert_eq!(
        expansion.entry.return_type,
        "custom_names::MyBuilder<custom_names::MyAStage>"
    );
    assert_eq!(expansion.types.builder, "MyBuilder");
    assert_eq!(expansion.types.stages[0].ident, "MyAStage");
    assert_eq!(expansion.types.stages[0].successor, "MyComplete");
    assert_eq!(expansion.types.terminal.ident, "MyComplete");

    let schema = resolve(options, decls());
    let actual = complete(pending(Builder::new(&schema)).set(Val::I32(1))).build();
    let expected = Record { fields: vec![Slot::Value(Val::I32(1))] };
    assert_eq!(actual, expected);
}

#[test]
fn update() {
    let options = StructOptions { update: true, ..StructOptions::default() };
    let decls = vec![
        plain("a", "i32"),
        with("b", "String", FieldOverrides { into: true, ..FieldOverrides::default() }),
    ];
    let schema = resolve(options, decls);
    let stage = pending(pending(Builder::new(&schema)).set(Val::I32(1)));
    let v = complete(stage.set(text("hello"))).build();
    let actual = Complete::from(&schema, v).set(0, Val::I32(2)).set(1, text("world")).build();
    let expected = Record { fields: vec![Slot::Value(Val::I32(2)), Slot::Value(text("world"))] };
    assert_eq!(actual, expected);
}

#[test]
fn update_changes_the_overridden_field_alone() {
    let options = StructOptions { update: true, ..StructOptions::default() };
    let mut decls = foo();
    decls.push(with("list", "Vec<u32>", list(typed("u32"))));
    let schema = resolve(options, decls);
    let stage = pending(pending(Builder::new(&schema)).set(Val::Bool(true)));
    let first = complete(stage.set(text("a"))).push(4, Val::U32(7)).build();

    let rebuilt = Complete::from(&schema, first).set(3, Val::I32(5)).build();
    let expected = Record {
        fields: vec![
            Slot::Value(Val::Bool(true)),
            Slot::Value(text("a")),
            Slot::Default,
            Slot::Value(Val::I32(5)),
            items(vec![Val::U32(7)]),
        ],
    };
    assert_eq!(rebuilt, expected);
}

#[test]
fn pushes_equal_one_set_equal_push_and_extend() {
    let schema = resolve(StructOptions::default(), vec![with("list", "Vec<u32>", list(typed("u32")))]);
    let expected = Record { fields: vec![items(vec![Val::U32(1), Val::U32(2)])] };
    let pushed = complete(Builder::new(&schema)).push(0, Val::U32(1)).push(0, Val::U32(2)).build();
    let set_once = complete(Builder::new(&schema)).replace(0, vec![Val::U32(1), Val::U32(2)]).build();
    let mixed = complete(Builder::new(&schema)).push(0, Val::U32(1)).extend(0, vec![Val::U32(2)]).build();
    assert_eq!(pushed, expected);
    assert_eq!(set_once, expected);
    assert_eq!(mixed, expected);
}

#[test]
fn set_twice_is_the_second_set() {
    let schema = collections_schema();
    let twice = complete(Builder::new(&schema))
        .replace(0, vec![Val::U32(9), Val::U32(8), Val::U32(7)])
        .replace(0, vec![Val::U32(1)])
        .replace_entries(2, vec![(Val::I32(0), Val::Bool(false))])
        .replace_entries(2, vec![])
        .build();
    let once = complete(Builder::new(&schema))
        .replace(0, vec![Val::U32(1)])
        .replace_entries(2, vec![])
        .build();
    assert_eq!(twice, once);
    assert_eq!(twice.fields[0], items(vec![Val::U32(1)]));
    assert_eq!(twice.fields[2], entries(vec![]));
}

#[test]
fn many_pushes_are_one_extend() {
    let schema = collections_schema();
    let values = || (0..20).map(Val::U32).collect::<Vec<Val>>();
    let pairs = || (0..20).map(|i| (Val::I32(i), Val::Bool(i % 2 == 0))).collect::<Vec<_>>();
    let mut one_by_one = complete(Builder::new(&schema)).push(0, Val::U32(100));
    for value in values() {
        one_by_one = one_by_one.push(0, value);
    }
    for (key, value) in pairs() {
        one_by_one = one_by_one.insert(2, key, value);
    }
    let at_once = complete(Builder::new(&schema))
        .push(0, Val::U32(100))
        .extend(0, values())
        .extend_entries(2, pairs())
        .build();
    assert_eq!(one_by_one.build(), at_once);
}

#[test]
fn builders_share_nothing() {
    let schema = collections_schema();
    let first = complete(Builder::new(&schema));
    let second = complete(Builder::new(&schema));
    let first = first.push(0, Val::U32(1)).insert(2, Val::I32(1), Val::Bool(true));
    let second = second.push(0, Val::U32(2));
    let first = first.build();
    let second = second.build();
    assert_eq!(first.fields[0], items(vec![Val::U32(1)]));
    assert_eq!(first.fields[2], entries(vec![(Val::I32(1), Val::Bool(true))]));
    assert_eq!(second.fields, vec![items(vec![Val::U32(2)]), items(vec![]), entries(vec![])]);
    let third = complete(Builder::new(&schema)).build();
    assert_eq!(third.fields, vec![items(vec![]), items(vec![]), entries(vec![])]);
}

#[test]
fn collection_with_its_own_default_keeps_it_until_it_is_set() {
    let mut options = list(typed("u32"));
    options.default = Some(Some("vec![0]".to_string()));
    let schema = resolve(StructOptions::default(), vec![with("list", "Vec<u32>", options)]);
    let pushed = complete(Builder::new(&schema)).push(0, Val::U32(1)).build();
    assert_eq!(pushed.fields[0], Slot::Items { inherited: true, items: vec![Val::U32(1)] });
    let replaced = complete(Builder::new(&schema)).push(0, Val::U32(1)).replace(0, vec![]).build();
    assert_eq!(replaced.fields[0], Slot::Items { inherited: false, items: vec![] });
}

#[test]
fn setters_are_offered_by_kind() {
    let mut decls = foo();
    decls.push(with("list", "Vec<u32>", list(typed("u32"))));
    decls.push(with("map", "HashMap<i32, bool>", map(typed("i32"), typed("bool"))));
    let schema = resolve(StructOptions::default(), decls);
    let stage = pending(pending(Builder::new(&schema)).set(Val::Bool(true)));
    let done = complete(stage.set(text("a")));
    assert!(!done.accepts_value(0));
    assert!(!done.accepts_value(1));
    assert!(done.accepts_value(2));
    assert!(done.accepts_value(3));
    assert!(!done.accepts_value(4));
    assert!(done.accepts_items(4));
    assert!(!done.accepts_entries(4));
    assert!(done.accepts_entries(5));
    assert!(!done.accepts_items(5));
    assert!(!done.accepts_value(6));
    assert!(!done.accepts_items(6));
    assert!(!done.accepts_entries(6));
}

struct Counted {
    even: u32,
    calls: std::cell::Cell<u32>,
}

impl From<Record<Val>> for Counted {
    fn from(record: Record<Val>) -> Counted {
        match &record.fields[0] {
            Slot::Value(Val::U32(even)) => Counted { even: *even, calls: std::cell::Cell::new(0) },
            other => panic!("`even` holds {:?}", other),
        }
    }
}

impl Validate for Counted {
    type Error = u32;

    fn validate(&self) -> Result<(), Self::Error> {
        self.calls.set(self.calls.get() + 1);
        if self.even % 2 == 0 {
            Ok(())
        } else {
            Err(self.even)
        }
    }
}

#[test]
fn build_validates_once() {
    let options = StructOptions { validate: true, ..StructOptions::default() };
    let decls = vec![
        plain("even", "u32"),
        with("note", "String", FieldOverrides { default: Some(None), ..FieldOverrides::default() }),
    ];
    let schema = resolve(options, decls);
    let done = complete(pending(Builder::new(&schema)).set(Val::U32(4)));
    let done = done.set(1, text("x")).set(1, text("y"));
    let built: Result<Counted, u32> = done.build_validated();
    let value = built.ok().unwrap();
    assert_eq!(value.calls.get(), 1);
    assert_eq!(value.even, 4);

    let done = complete(pending(Builder::new(&schema)).set(Val::U32(7)));
    let built: Result<Counted, u32> = done.build_validated();
    assert_eq!(built.err(), Some(7));
}

#[test]
fn protocol_starts_at_the_first_required_field() {
    let schema = resolve(StructOptions::default(), foo());
    let protocol = Protocol::of(&schema);
    assert_eq!(protocol, Protocol { stages: 2, validate: false, update: false });
    assert_eq!(protocol.start(), Phase::Building(0));
    let builder: Builder<Val> = Builder::new(&schema);
    assert_eq!(builder.stands(), Phase::Building(0));
    let builder = pending(builder).set(Val::Bool(true));
    assert_eq!(builder.stands(), Phase::Building(1));
    let builder = pending(builder).set(text("a"));
    assert_eq!(builder.stands(), Phase::Terminal);

    let none = collections_schema();
    assert_eq!(Protocol::of(&none).start(), Phase::Terminal);
    let builder: Builder<Val> = Builder::new(&none);
    assert_eq!(builder.stands(), Phase::Terminal);
    assert!(matches!(builder, Builder::Final(_)));
}

#[test]
fn protocol_allows_one_path() {
    let protocol = Protocol { stages: 2, validate: true, update: false };
    let quiet = |next| Some(Transition { next, materializes: false, validates: false });
    assert_eq!(
        protocol.advance(Phase::Building(0), Operation::Require),
        quiet(Phase::Building(1))
    );
    assert_eq!(
        protocol.advance(Phase::Building(1), Operation::Require),
        Some(Transition { next: Phase::Terminal, materializes: true, validates: false })
    );
    assert_eq!(protocol.advance(Phase::Building(2), Operation::Require), None);
    assert_eq!(protocol.advance(Phase::Building(0), Operation::Adjust), None);
    assert_eq!(protocol.advance(Phase::Building(0), Operation::Build), None);
    assert_eq!(protocol.advance(Phase::Building(1), Operation::Build), None);
    assert_eq!(protocol.advance(Phase::Terminal, Operation::Require), None);
    assert_eq!(protocol.advance(Phase::Terminal, Operation::Adjust), quiet(Phase::Terminal));
    assert_eq!(
        protocol.advance(Phase::Terminal, Operation::Build),
        Some(Transition { next: Phase::Built, materializes: false, validates: true })
    );
    assert_eq!(protocol.advance(Phase::Terminal, Operation::Update), None);
    for op in [Operation::Require, Operation::Adjust, Operation::Build, Operation::Update] {
        assert_eq!(protocol.advance(Phase::Built, op), None);
    }

    let unchecked = Protocol { stages: 0, validate: false, update: true };
    assert_eq!(unchecked.start(), Phase::Terminal);
    assert_eq!(unchecked.advance(Phase::Terminal, Operation::Build), quiet(Phase::Built));
    assert_eq!(unchecked.advance(Phase::Built, Operation::Update), quiet(Phase::Terminal));
    assert_eq!(unchecked.advance(Phase::Building(0), Operation::Require), None);
}

#[test]
fn protocol_validates_at_build_alone() {
    let protocol = Protocol { stages: 3, validate: true, update: true };
    let ops = [
        Operation::Require,
        Operation::Require,
        Operation::Require,
        Operation::Adjust,
        Operation::Adjust,
        Operation::Build,
        Operation::Update,
        Operation::Adjust,
        Operation::Build,
    ];
    let mut phase = protocol.start();
    let mut validations = 0;
    for op in ops {
        let transition = protocol.advance(phase, op).unwrap();
        if transition.validates {
            assert_eq!(op, Operation::Build);
            validations += 1;
        }
        phase = transition.next;
    }
    assert_eq!(phase, Phase::Built);
    assert_eq!(validations, 2);
}

#[test]
fn fields_are_reached_by_name() {
    let mut decls = foo();
    decls.push(with("list", "Vec<u32>", list(typed("u32"))));
    let schema = resolve(StructOptions::default(), decls);
    assert_eq!(schema.len(), 5);
    assert_eq!(schema.stages(), 2);
    assert_eq!(schema.index_of("required"), Some(0));
    assert_eq!(schema.index_of("custom_default"), Some(3));
    assert_eq!(schema.index_of("list"), Some(4));
    assert_eq!(schema.index_of("missing"), None);
    assert_eq!(schema.index_of(""), None);

    let stage = pending(pending(Builder::new(&schema)).set(Val::Bool(true)));
    let done = complete(stage.set(text("a")));
    let list = schema.index_of("list").unwrap();
    let custom_default = schema.index_of("custom_default").unwrap();
    let built = done.push(list, Val::U32(3)).set(custom_default, Val::I32(7)).build();
    assert_eq!(built.fields[custom_default], Slot::Value(Val::I32(7)));
    assert_eq!(built.fields[list], items(vec![Val::U32(3)]));
}

#[test]
fn example_person_collects_parents() {
    let person = |name: &str, age: u32| ExamplePerson::builder().name(name).age(age).build();
    let built = ExamplePerson::builder()
        .name(String::from("Child"))
        .age(3)
        .push_parents(person("A", 30))
        .extend_parents(vec![person("B", 31), person("C", 32)])
        .build();
    let names: Vec<&str> = built.parents.iter().map(|p| p.name.as_str()).collect();
    assert_eq!(names, vec!["A", "B", "C"]);

    let replaced = ExamplePerson::builder()
        .name("Child")
        .age(3)
        .push_parents(person("A", 30))
        .parents(vec![person("B", 31)])
        .parents(vec![person("C", 32), person("D", 33)])
        .build();
    let names: Vec<&str> = replaced.parents.iter().map(|p| p.name.as_str()).collect();
    assert_eq!(names, vec!["C", "D"]);
    assert_eq!(replaced, ExamplePerson {
        name: "Child".to_string(),
        age: 3,
        parents: vec![person("C", 32), person("D", 33)],
    });

    let by_default = staged_builder::example_person::Builder::default().name("X").age(1).build();
    assert_eq!(by_default, person("X", 1));
}

#[test]
fn a_value_goes_back_only_where_it_fits() {
    let options = StructOptions { update: true, ..StructOptions::default() };
    let schema = resolve(options, collections_schema_fields());
    let built = complete(Builder::new(&schema)).push(0, Val::U32(1)).build();
    assert!(built.fits(&schema));
    assert!(Complete::updates(&schema, &built));
    let again = Complete::from(&schema, built).push(0, Val::U32(2)).build();
    assert_eq!(again.fields[0], items(vec![Val::U32(1), Val::U32(2)]));

    let short: Record<Val> = Record { fields: vec![items(vec![])] };
    assert!(!short.fits(&schema));
    assert!(!Complete::updates(&schema, &short));
    let wrong: Record<Val> =
        Record { fields: vec![Slot::Default, items(vec![]), entries(vec![])] };
    assert!(!wrong.fits(&schema));
    assert!(Slot::Value(Val::U32(1)).fits(&resolve(StructOptions::default(), foo()).fields()[0]));
    assert!(!Slot::<Val>::Default.fits(&resolve(StructOptions::default(), foo()).fields()[0]));
    assert!(Slot::<Val>::Default.fits(&resolve(StructOptions::default(), foo()).fields()[2]));

    let fixed = collections_schema();
    let built = complete(Builder::new(&fixed)).build();
    assert!(built.fits(&fixed));
    assert!(!Complete::updates(&fixed, &built));
}

#[test]
fn a_schema_is_made_of_sound_descriptors_only() {
    let fields = resolve(StructOptions::default(), foo());
    let copies: Vec<_> = fields.fields().iter().map(|f| f.duplicate()).collect();
    let schema = Schema::new(StructOptions::default(), copies).unwrap();
    assert_eq!(schema, fields);
    assert_eq!(schema.options(), &StructOptions::default());
    assert_eq!(schema.stages(), 2);

    let mut list = resolve(
        StructOptions::default(),
        vec![with("list", "Vec<u32>", list(typed("u32")))],
    )
    .fields()[0]
        .duplicate();
    assert!(list.is_sound());
    list.default = None;
    assert!(!list.is_sound());
    assert_eq!(Schema::new(StructOptions::default(), vec![list]), None);
}
