//! From a declared record to its builder: the entry point, the stages and
//! the final stage, ready to be written out.

use vstd::prelude::*;
use vstd::string::StringExecFns;
use crate::error::{error_views, SchemaError, SchemaErrorView};
use crate::names::{
    builder_name, builder_type_name, final_name, final_type_name, module_name, module_name_text,
};
use crate::options::{selected, Attribute, StructOptions, StructOptionsView};
use crate::resolve::{
    all_errors, decl_views, descriptor_views, resolve_all, resolve_fields, FieldDecl, FieldDeclView,
    FieldDescriptor, FieldDescriptorView,
};
use crate::stages::{
    default_field_initializers, initial_stage, initial_stage_name, initializers, named_views,
    stage_sequence, stage_views, stages, Named, NamedView, StageDescriptor, StageDescriptorView,
};
use crate::terminal::{final_stage, terminal_stage, TerminalStage, TerminalStageView};
use crate::text::{cat3, texts};

verus! {

/// Who can see the record.
#[derive(Debug, PartialEq, Eq)]
pub enum Visibility {
    /// `pub`.
    Public,
    /// `pub(path)`, or `pub(in path)` where `in_token` is set. The path
    /// starts with `::` where `leading_colon` is set.
    Restricted { in_token: bool, leading_colon: bool, segments: Vec<String> },
    /// No word: the module that holds the record.
    Inherited,
}

/// What [`Visibility`] holds, as mathematical values.
pub enum VisibilityView {
    Public,
    Restricted { in_token: bool, leading_colon: bool, segments: Seq<Seq<char>> },
    Inherited,
}

impl View for Visibility {
    type V = VisibilityView;

    open spec fn view(&self) -> VisibilityView {
        match *self {
            Visibility::Public => VisibilityView::Public,
            Visibility::Restricted { in_token, leading_colon, segments } => {
                VisibilityView::Restricted { in_token, leading_colon, segments: texts(segments@) }
            },
            Visibility::Inherited => VisibilityView::Inherited,
        }
    }
}

/// The segments of a path with `::` between them.
pub open spec fn joined(segments: Seq<Seq<char>>) -> Seq<char>
    decreases segments.len(),
{
    if segments.len() == 0 {
        Seq::empty()
    } else if segments.len() == 1 {
        segments[0]
    } else {
        joined(segments.drop_last()) + "::"@ + segments.last()
    }
}

/// A path as it is written.
pub open spec fn path_text(leading_colon: bool, segments: Seq<Seq<char>>) -> Seq<char> {
    if leading_colon {
        "::"@ + joined(segments)
    } else {
        joined(segments)
    }
}

impl VisibilityView {
    /// The visibility as it is written.
    pub open spec fn text(self) -> Seq<char> {
        match self {
            VisibilityView::Public => "pub"@,
            VisibilityView::Restricted { in_token, leading_colon, segments } => if in_token {
                "pub(in "@ + path_text(leading_colon, segments) + ")"@
            } else {
                "pub("@ + path_text(leading_colon, segments) + ")"@
            },
            VisibilityView::Inherited => Seq::empty(),
        }
    }

    /// Whether the path of a restricted visibility means the same in every
    /// module: it starts with `::` or with `crate`.
    pub open spec fn is_absolute(self) -> bool {
        self matches VisibilityView::Restricted { leading_colon, segments, .. } && (leading_colon || (
        segments.len() > 0 && segments[0] == "crate"@))
    }

    /// Whether the visibility is `pub(self)`.
    pub open spec fn is_self(self) -> bool {
        self matches VisibilityView::Restricted { leading_colon, segments, .. } && !leading_colon
            && segments.len() == 1 && segments[0] == "self"@
    }

    /// The visibility of the stage types, which stand one module below the
    /// record and must be seen wherever the record is: a path that means the
    /// same everywhere stays, `self` becomes `super`, and any other path is
    /// taken from `super`.
    pub open spec fn for_stages(self) -> Seq<char> {
        match self {
            VisibilityView::Public => self.text(),
            VisibilityView::Restricted { leading_colon, segments, .. } => if self.is_absolute() {
                self.text()
            } else if self.is_self() {
                "pub(super)"@
            } else {
                "pub(in super::"@ + path_text(leading_colon, segments) + ")"@
            },
            VisibilityView::Inherited => "pub(super)"@,
        }
    }
}

fn join(segments: &Vec<String>) -> (out: String)
    ensures
        out@ == joined(texts(segments@)),
{
    let ghost all = texts(segments@);
    let mut out = String::new();
    let mut i: usize = 0;
    while i < segments.len()
        invariant
            i <= segments.len(),
            all == texts(segments@),
            out@ == joined(all.take(i as int)),
        decreases segments.len() - i,
    {
        proof {
            assert(all.take(i + 1).drop_last() =~= all.take(i as int));
        }
        if i > 0 {
            out = out.concat("::");
        }
        out = out.concat(segments[i].as_str());
        i += 1;
    }
    proof {
        assert(all.take(i as int) =~= all);
    }
    out
}

fn path(leading_colon: bool, segments: &Vec<String>) -> (out: String)
    ensures
        out@ == path_text(leading_colon, texts(segments@)),
{
    if leading_colon {
        String::from_str("::").concat(join(segments).as_str())
    } else {
        join(segments)
    }
}

impl Visibility {
    /// The visibility as it is written.
    pub fn text(&self) -> (out: String)
        ensures
            out@ == self@.text(),
    {
        match self {
            Visibility::Public => String::from_str("pub"),
            Visibility::Restricted { in_token, leading_colon, segments } => {
                let written = path(*leading_colon, segments);
                if *in_token {
                    cat3("pub(in ", written.as_str(), ")")
                } else {
                    cat3("pub(", written.as_str(), ")")
                }
            },
            Visibility::Inherited => String::new(),
        }
    }
}

/// The visibility of the stage types of a record with the visibility `vis`.
pub fn stage_vis(vis: &Visibility) -> (out: String)
    ensures
        out@ == vis@.for_stages(),
{
    match vis {
        Visibility::Public => vis.text(),
        Visibility::Restricted { in_token: _, leading_colon, segments } => {
            let from_crate = segments.len() > 0 && segments[0] == String::from_str("crate");
            if *leading_colon || from_crate {
                vis.text()
            } else if segments.len() == 1 && segments[0] == String::from_str("self") {
                String::from_str("pub(super)")
            } else {
                cat3("pub(in super::", path(*leading_colon, segments).as_str(), ")")
            }
        },
        Visibility::Inherited => String::from_str("pub(super)"),
    }
}


/// The fields of a struct as they are declared.
#[derive(Debug, PartialEq, Eq)]
pub enum Fields {
    Named(Vec<FieldDecl>),
    Unnamed,
    Unit,
}

/// What kind of type the input declares.
#[derive(Debug, PartialEq, Eq)]
pub enum Data {
    Struct(Fields),
    Enum,
    Union,
}

/// A declared type for which a builder is asked.
#[derive(Debug, PartialEq, Eq)]
pub struct Input {
    pub attrs: Vec<Attribute<StructOptions>>,
    pub vis: Visibility,
    pub ident: String,
    pub data: Data,
}

/// What [`Fields`] holds, as mathematical values.
pub enum FieldsView {
    Named(Seq<FieldDeclView>),
    Unnamed,
    Unit,
}

/// What [`Data`] holds, as mathematical values.
pub enum DataView {
    Struct(FieldsView),
    Enum,
    Union,
}

/// What [`Input`] holds, as mathematical values.
pub struct InputView {
    pub options: Result<StructOptionsView, SchemaErrorView>,
    pub vis: VisibilityView,
    pub ident: Seq<char>,
    pub data: DataView,
}

impl View for Fields {
    type V = FieldsView;

    open spec fn view(&self) -> FieldsView {
        match *self {
            Fields::Named(decls) => FieldsView::Named(decl_views(decls@)),
            Fields::Unnamed => FieldsView::Unnamed,
            Fields::Unit => FieldsView::Unit,
        }
    }
}

impl View for Data {
    type V = DataView;

    open spec fn view(&self) -> DataView {
        match *self {
            Data::Struct(fields) => DataView::Struct(fields@),
            Data::Enum => DataView::Enum,
            Data::Union => DataView::Union,
        }
    }
}

impl View for Input {
    type V = InputView;

    open spec fn view(&self) -> InputView {
        InputView {
            options: selected(self.attrs@, StructOptionsView::empty(), None),
            vis: self.vis@,
            ident: self.ident@,
            data: self.data@,
        }
    }
}

/// The function `builder` that the record gets: where a builder starts.
#[derive(Debug, PartialEq, Eq)]
pub struct EntryPoint {
    /// The name of the record.
    pub ident: String,
    /// The visibility of the function: that of the record.
    pub vis: String,
    /// The type of a builder at its first stage.
    pub return_type: String,
    /// The expression of a builder at its first stage.
    pub body: String,
}

/// What [`EntryPoint`] holds, as mathematical values.
pub struct EntryPointView {
    pub ident: Seq<char>,
    pub vis: Seq<char>,
    pub return_type: Seq<char>,
    pub body: Seq<char>,
}

impl View for EntryPoint {
    type V = EntryPointView;

    open spec fn view(&self) -> EntryPointView {
        EntryPointView {
            ident: self.ident@,
            vis: self.vis@,
            return_type: self.return_type@,
            body: self.body@,
        }
    }
}

/// The state in which a builder starts: the stage, and the fields that it
/// holds from the start.
#[derive(Debug, PartialEq, Eq)]
pub struct InitialState {
    /// The name of the first stage's type.
    pub stage: String,
    /// Whether the first stage is the final one: no field is required.
    pub complete: bool,
    /// Where the first stage is the final one: each field with the
    /// expression of its default.
    pub initializers: Vec<Named>,
}

/// What [`InitialState`] holds, as mathematical values.
pub struct InitialStateView {
    pub stage: Seq<char>,
    pub complete: bool,
    pub initializers: Seq<NamedView>,
}

impl View for InitialState {
    type V = InitialStateView;

    open spec fn view(&self) -> InitialStateView {
        InitialStateView {
            stage: self.stage@,
            complete: self.complete,
            initializers: named_views(self.initializers@),
        }
    }
}

/// The module that holds the builder types.
#[derive(Debug, PartialEq, Eq)]
pub struct ModuleDecl {
    pub vis: String,
    pub name: String,
}

/// What [`ModuleDecl`] holds, as mathematical values.
pub struct ModuleDeclView {
    pub vis: Seq<char>,
    pub name: Seq<char>,
}

impl View for ModuleDecl {
    type V = ModuleDeclView;

    open spec fn view(&self) -> ModuleDeclView {
        ModuleDeclView { vis: self.vis@, name: self.name@ }
    }
}

/// The view of an optional module.
pub open spec fn opt_module(module: Option<ModuleDecl>) -> Option<ModuleDeclView> {
    match module {
        Some(m) => Some(m@),
        None => None,
    }
}

/// The builder types of a record: the builder itself, the state in which it
/// starts, one stage for each required field, and the final stage.
#[derive(Debug, PartialEq, Eq)]
pub struct BuilderTypes {
    /// The module that holds them; `None` where they stand beside the
    /// record.
    pub module: Option<ModuleDecl>,
    /// The name of the builder type.
    pub builder: String,
    /// The visibility of the stage types.
    pub stage_vis: String,
    pub initial: InitialState,
    pub stages: Vec<StageDescriptor>,
    pub terminal: TerminalStage,
}

/// What [`BuilderTypes`] holds, as mathematical values.
pub struct BuilderTypesView {
    pub module: Option<ModuleDeclView>,
    pub builder: Seq<char>,
    pub stage_vis: Seq<char>,
    pub initial: InitialStateView,
    pub stages: Seq<StageDescriptorView>,
    pub terminal: TerminalStageView,
}

impl View for BuilderTypes {
    type V = BuilderTypesView;

    open spec fn view(&self) -> BuilderTypesView {
        BuilderTypesView {
            module: opt_module(self.module),
            builder: self.builder@,
            stage_vis: self.stage_vis@,
            initial: self.initial@,
            stages: stage_views(self.stages@),
            terminal: self.terminal@,
        }
    }
}

/// Everything that is written for a record: its entry point and its builder
/// types, with the paths by which the written code names this crate.
#[derive(Debug, PartialEq, Eq)]
pub struct Expansion {
    pub crate_path: String,
    pub private_path: String,
    pub entry: EntryPoint,
    pub types: BuilderTypes,
}

/// What [`Expansion`] holds, as mathematical values.
pub struct ExpansionView {
    pub crate_path: Seq<char>,
    pub private_path: Seq<char>,
    pub entry: EntryPointView,
    pub types: BuilderTypesView,
}

impl View for Expansion {
    type V = ExpansionView;

    open spec fn view(&self) -> ExpansionView {
        ExpansionView {
            crate_path: self.crate_path@,
            private_path: self.private_path@,
            entry: self.entry@,
            types: self.types@,
        }
    }
}

/// The prefix that leads from the record to its builder types.
pub open spec fn module_prefix(options: StructOptionsView, ident: Seq<char>) -> Seq<char> {
    if options.inline {
        Seq::empty()
    } else {
        module_name_text(options, ident) + "::"@
    }
}

/// The name of the type of the stage in which a builder starts: that of the
/// first required field, or the final stage where no field is required.
pub open spec fn first_stage(options: StructOptionsView, fields: Seq<FieldDescriptorView>) -> Seq<char> {
    match initial_stage_name(fields) {
        Some(name) => name,
        None => final_type_name(options),
    }
}

/// The entry point of the record `ident`.
pub open spec fn entry_point(
    options: StructOptionsView,
    vis: VisibilityView,
    ident: Seq<char>,
    fields: Seq<FieldDescriptorView>,
) -> EntryPointView {
    let prefix = module_prefix(options, ident);
    EntryPointView {
        ident,
        vis: vis.text(),
        return_type: prefix + builder_type_name(options) + "<"@ + prefix + first_stage(options, fields)
            + ">"@,
        body: options.private_path() + "::Default::default()"@,
    }
}

/// The state in which a builder starts. Where no field is required it is
/// the final stage, with every default in place.
pub open spec fn initial_state(options: StructOptionsView, fields: Seq<FieldDescriptorView>) -> InitialStateView {
    let complete = initial_stage_name(fields) is None;
    InitialStateView {
        stage: first_stage(options, fields),
        complete,
        initializers: if complete {
            initializers(fields)
        } else {
            Seq::empty()
        },
    }
}

/// The builder types of the record `ident`.
pub open spec fn builder_types(
    options: StructOptionsView,
    vis: VisibilityView,
    ident: Seq<char>,
    fields: Seq<FieldDescriptorView>,
) -> BuilderTypesView {
    BuilderTypesView {
        module: if options.inline {
            None
        } else {
            Some(ModuleDeclView { vis: vis.text(), name: module_name_text(options, ident) })
        },
        builder: builder_type_name(options),
        stage_vis: vis.for_stages(),
        initial: initial_state(options, fields),
        stages: stage_sequence(options, fields),
        terminal: terminal_stage(options, ident, fields),
    }
}

/// Everything that is written for the record `ident` with the resolved
/// fields `fields`.
pub open spec fn expansion_of(
    options: StructOptionsView,
    vis: VisibilityView,
    ident: Seq<char>,
    fields: Seq<FieldDescriptorView>,
) -> ExpansionView {
    ExpansionView {
        crate_path: options.crate_path(),
        private_path: options.private_path(),
        entry: entry_point(options, vis, ident, fields),
        types: builder_types(options, vis, ident, fields),
    }
}

/// What a declared type expands to, or everything that is wrong with it.
/// Only a struct with named fields has a builder. The report holds what is
/// wrong with the record's own options, then what is wrong with each field.
pub open spec fn expansion(input: InputView) -> Result<ExpansionView, Seq<SchemaErrorView>> {
    match input.data {
        DataView::Struct(FieldsView::Named(decls)) => match input.options {
            Ok(options) => match resolve_all(options.private_path(), decls) {
                Ok(fields) => Ok(expansion_of(options, input.vis, input.ident, fields)),
                Err(errors) => Err(errors),
            },
            Err(e) => Err(
                seq![e] + all_errors(StructOptionsView::empty().private_path(), decls),
            ),
        },
        DataView::Struct(_) => Err(seq![SchemaErrorView::NotNamed]),
        _ => Err(seq![SchemaErrorView::NotStruct]),
    }
}

fn prefix_of(options: &StructOptions, ident: &str) -> (out: String)
    ensures
        out@ == module_prefix(options@, ident@),
{
    if options.inline {
        String::new()
    } else {
        module_name(options, ident).concat("::")
    }
}

fn first_stage_name(options: &StructOptions, fields: &Vec<FieldDescriptor>) -> (out: (String, bool))
    ensures
        out.0@ == first_stage(options@, descriptor_views(fields@)),
        out.1 == (initial_stage_name(descriptor_views(fields@)) is None),
{
    match initial_stage(fields) {
        Some(name) => (name, false),
        None => (final_name(options), true),
    }
}

/// The entry point of the record `ident`: the function `builder`.
pub fn builder_impl(
    options: &StructOptions,
    vis: &Visibility,
    ident: &str,
    fields: &Vec<FieldDescriptor>,
) -> (out: EntryPoint)
    ensures
        out@ == entry_point(options@, vis@, ident@, descriptor_views(fields@)),
{
    let prefix = prefix_of(options, ident);
    let (first, _) = first_stage_name(options, fields);
    let return_type = prefix.clone().concat(builder_name(options).as_str()).concat("<").concat(
        prefix.as_str(),
    ).concat(first.as_str()).concat(">");
    EntryPoint {
        ident: String::from_str(ident),
        vis: vis.text(),
        return_type,
        body: options.private().concat("::Default::default()"),
    }
}

/// The state in which a builder starts.
pub fn default_impl(options: &StructOptions, fields: &Vec<FieldDescriptor>) -> (out: InitialState)
    ensures
        out@ == initial_state(options@, descriptor_views(fields@)),
{
    let (stage, complete) = first_stage_name(options, fields);
    let initializers = if complete {
        default_field_initializers(fields)
    } else {
        Vec::new()
    };
    proof {
        assert(named_views(Seq::<Named>::empty()) =~= Seq::<NamedView>::empty());
    }
    InitialState { stage, complete, initializers }
}

/// The builder types of the record `ident`.
pub fn module(
    options: &StructOptions,
    vis: &Visibility,
    ident: &str,
    fields: &Vec<FieldDescriptor>,
) -> (out: BuilderTypes)
    requires
        forall|i: int| 0 <= i < fields@.len() ==> (#[trigger] fields@[i])@.wf(),
    ensures
        out@ == builder_types(options@, vis@, ident@, descriptor_views(fields@)),
{
    let module = if options.inline {
        None
    } else {
        Some(ModuleDecl { vis: vis.text(), name: module_name(options, ident) })
    };
    BuilderTypes {
        module,
        builder: builder_name(options),
        stage_vis: stage_vis(vis),
        initial: default_impl(options, fields),
        stages: stages(options, fields),
        terminal: final_stage(options, ident, fields),
    }
}

fn one_error(e: SchemaError) -> (out: Vec<SchemaError>)
    ensures
        error_views(out@) == seq![e@],
        out@.len() == 1,
{
    let mut out: Vec<SchemaError> = Vec::new();
    out.push(e);
    out
}

/// Expands a declared type: what is written for it, or everything that is
/// wrong with it.
pub fn expand(input: &Input) -> (out: Result<Expansion, Vec<SchemaError>>)
    ensures
        match out {
            Ok(expansion) => crate::expand::expansion(input@) == Ok::<
                ExpansionView,
                Seq<SchemaErrorView>,
            >(expansion@),
            Err(errors) => {
                &&& crate::expand::expansion(input@) == Err::<ExpansionView, Seq<SchemaErrorView>>(
                    error_views(errors@),
                )
                &&& errors@.len() > 0
            },
        },
{
    let decls = match &input.data {
        Data::Struct(fields) => match fields {
            Fields::Named(decls) => decls,
            _ => {
                return Err(one_error(SchemaError::NotNamed));
            },
        },
        _ => {
            return Err(one_error(SchemaError::NotStruct));
        },
    };
    let options = match StructOptions::new(&input.attrs) {
        Ok(options) => options,
        Err(e) => {
            let ghost first = e@;
            let mut errors = one_error(e);
            match resolve_fields(&StructOptions::default(), decls) {
                Ok(_) => {},
                Err(mut more) => {
                    let ghost added = error_views(more@);
                    errors.append(&mut more);
                    assert(error_views(errors@) =~= seq![first] + added);
                },
            }
            return Err(errors);
        },
    };
    let fields = match resolve_fields(&options, decls) {
        Ok(fields) => fields,
        Err(errors) => {
            return Err(errors);
        },
    };
    let ident = input.ident.as_str();
    Ok(
        Expansion {
            crate_path: options.crate_(),
            private_path: options.private(),
            entry: builder_impl(&options, &input.vis, ident, &fields),
            types: module(&options, &input.vis, ident, &fields),
        },
    )
}

} // verus!
