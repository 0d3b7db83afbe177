//! Stage sequencing: one stage for each required field, in the order of
//! declaration, each leading to the next, and the last one to the final
//! stage.

use vstd::prelude::*;
use crate::filter::{
    lemma_filter_first, lemma_filter_none, lemma_filter_split, lemma_filter_take,
};
use crate::names::{final_name, final_type_name, stage_name, stage_type_name};
use crate::options::{StructOptions, StructOptionsView};
use crate::resolve::{descriptor_views, FieldDescriptor, FieldDescriptorView, SetterMode};

verus! {

/// A name with a text that belongs to it: a field with its type, or a field
/// with the expression that it starts from.
#[derive(Debug, PartialEq, Eq)]
pub struct Named {
    pub name: String,
    pub text: String,
}

/// What [`Named`] holds, as mathematical values.
pub struct NamedView {
    pub name: Seq<char>,
    pub text: Seq<char>,
}

impl View for Named {
    type V = NamedView;

    open spec fn view(&self) -> NamedView {
        NamedView { name: self.name@, text: self.text@ }
    }
}

/// The views of a list of named texts.
pub open spec fn named_views(list: Seq<Named>) -> Seq<NamedView> {
    list.map_values(|n: Named| n@)
}

/// Picks the required fields.
pub open spec fn is_required() -> spec_fn(FieldDescriptorView) -> bool {
    |f: FieldDescriptorView| !f.is_defaultable()
}

/// Picks the fields that have a default.
pub open spec fn is_optional() -> spec_fn(FieldDescriptorView) -> bool {
    |f: FieldDescriptorView| f.is_defaultable()
}

/// The required fields, in the order of declaration: the order of the
/// stages.
pub open spec fn required(fields: Seq<FieldDescriptorView>) -> Seq<FieldDescriptorView> {
    fields.filter(is_required())
}

/// The fields that have a default, in the order of declaration.
pub open spec fn optional(fields: Seq<FieldDescriptorView>) -> Seq<FieldDescriptorView> {
    fields.filter(is_optional())
}

/// A field with its declared type.
pub open spec fn slot(field: FieldDescriptorView) -> NamedView {
    NamedView { name: field.name, text: field.declared_type }
}

/// A field with the expression of its default.
pub open spec fn initializer(field: FieldDescriptorView) -> NamedView {
    NamedView { name: field.name, text: field.default->0 }
}

/// The fields with their declared types.
pub open spec fn slots(fields: Seq<FieldDescriptorView>) -> Seq<NamedView> {
    fields.map_values(|f: FieldDescriptorView| slot(f))
}

/// What the final stage starts from: each field that has a default, with
/// the expression of that default.
pub open spec fn initializers(fields: Seq<FieldDescriptorView>) -> Seq<NamedView> {
    optional(fields).map_values(|f: FieldDescriptorView| initializer(f))
}

impl Named {
    /// A copy with the same contents.
    pub fn duplicate(&self) -> (out: Named)
        ensures
            out@ == self@,
    {
        Named { name: self.name.clone(), text: self.text.clone() }
    }
}

/// What the final stage starts from: each field that has a default, with
/// the expression of that default.
pub fn default_field_initializers(fields: &Vec<FieldDescriptor>) -> (out: Vec<Named>)
    ensures
        named_views(out@) == initializers(descriptor_views(fields@)),
{
    let ghost all = descriptor_views(fields@);
    let mut out: Vec<Named> = Vec::new();
    let mut i: usize = 0;
    proof {
        lemma_filter_none(all.take(0), is_optional());
    }
    while i < fields.len()
        invariant
            i <= fields.len(),
            all == descriptor_views(fields@),
            named_views(out@) == initializers(all.take(i as int)),
        decreases fields.len() - i,
    {
        let field = &fields[i];
        proof {
            lemma_filter_take(all, i as int, is_optional());
        }
        if let Some(default) = &field.default {
            let ghost before = named_views(out@);
            out.push(Named { name: field.name.clone(), text: default.clone() });
            assert(named_views(out@) =~= before.push(initializer(field@)));
        }
        i += 1;
    }
    proof {
        assert(all.take(i as int) =~= all);
    }
    out
}

/// The name of the first stage's type; `None` where no field is required.
pub open spec fn initial_stage_name(fields: Seq<FieldDescriptorView>) -> Option<Seq<char>> {
    if required(fields).len() > 0 {
        Some(stage_type_name(required(fields)[0]))
    } else {
        None
    }
}

/// The index of the first required field from `from` on.
fn next_required(fields: &Vec<FieldDescriptor>, from: usize) -> (out: Option<usize>)
    requires
        from <= fields.len(),
    ensures
        match out {
            Some(k) => {
                &&& from <= k < fields.len()
                &&& required(descriptor_views(fields@).skip(from as int)).len() > 0
                &&& required(descriptor_views(fields@).skip(from as int))[0] == fields@[k as int]@
            },
            None => required(descriptor_views(fields@).skip(from as int)).len() == 0,
        },
{
    let ghost rest = descriptor_views(fields@).skip(from as int);
    let mut k: usize = from;
    while k < fields.len()
        invariant
            from <= k <= fields.len(),
            rest == descriptor_views(fields@).skip(from as int),
            forall|j: int| 0 <= j < k - from ==> !is_required()(#[trigger] rest[j]),
        decreases fields.len() - k,
    {
        if fields[k].default.is_none() {
            proof {
                lemma_filter_first(rest, k - from, is_required());
            }
            return Some(k);
        }
        k += 1;
    }
    proof {
        lemma_filter_none(rest, is_required());
    }
    None
}

/// The name of the first stage's type; `None` where no field is required.
pub fn initial_stage(fields: &Vec<FieldDescriptor>) -> (out: Option<String>)
    ensures
        crate::text::opt_text(out) == initial_stage_name(descriptor_views(fields@)),
{
    proof {
        assert(descriptor_views(fields@).skip(0) =~= descriptor_views(fields@));
    }
    match next_required(fields, 0) {
        Some(k) => Some(stage_name(&fields[k])),
        None => None,
    }
}


/// One stage of the builder: the state in which every required field
/// before `field` is set, and whose one setter sets `field`.
#[derive(Debug, PartialEq, Eq)]
pub struct StageDescriptor {
    /// The name of the stage's type.
    pub ident: String,
    /// The fields that a builder at this stage holds, with their types: the
    /// required fields declared before `field`.
    pub owned: Vec<Named>,
    /// The field that the stage's setter assigns. The setter has its name.
    pub field: String,
    /// The type that the setter takes.
    pub parameter_type: String,
    /// The expression of the value that the setter stores.
    pub assign: String,
    /// The name of the type of the stage that the setter leads to.
    pub successor: String,
    /// Whether the setter leads to the final stage.
    pub last: bool,
    /// What the setter adds where it leads to the final stage: each field
    /// that has a default, with the expression of that default.
    pub defaults: Vec<Named>,
}

/// What [`StageDescriptor`] holds, as mathematical values.
pub struct StageDescriptorView {
    pub ident: Seq<char>,
    pub owned: Seq<NamedView>,
    pub field: Seq<char>,
    pub parameter_type: Seq<char>,
    pub assign: Seq<char>,
    pub successor: Seq<char>,
    pub last: bool,
    pub defaults: Seq<NamedView>,
}

impl View for StageDescriptor {
    type V = StageDescriptorView;

    open spec fn view(&self) -> StageDescriptorView {
        StageDescriptorView {
            ident: self.ident@,
            owned: named_views(self.owned@),
            field: self.field@,
            parameter_type: self.parameter_type@,
            assign: self.assign@,
            successor: self.successor@,
            last: self.last,
            defaults: named_views(self.defaults@),
        }
    }
}

/// The views of a list of stages.
pub open spec fn stage_views(stages: Seq<StageDescriptor>) -> Seq<StageDescriptorView> {
    stages.map_values(|s: StageDescriptor| s@)
}

/// The stage of the required field at `idx`. It holds the required fields
/// before `idx`; it leads to the stage of the next required field after
/// `idx`, or, where there is none, to the final stage, and then it brings the
/// defaults.
pub open spec fn stage_at(options: StructOptionsView, fields: Seq<FieldDescriptorView>, idx: int) -> StageDescriptorView {
    let field = fields[idx];
    let policy = field.mode->Normal_0;
    let after = required(fields.skip(idx + 1));
    let last = after.len() == 0;
    StageDescriptorView {
        ident: stage_type_name(field),
        owned: slots(required(fields.take(idx))),
        field: field.name,
        parameter_type: policy.parameter_type,
        assign: policy.convert(options.private_path(), field.name),
        successor: if last {
            final_type_name(options)
        } else {
            stage_type_name(after[0])
        },
        last,
        defaults: if last {
            initializers(fields)
        } else {
            Seq::empty()
        },
    }
}

/// The required fields before `idx`, with their types.
fn owned_before(fields: &Vec<FieldDescriptor>, idx: usize) -> (out: Vec<Named>)
    requires
        idx <= fields.len(),
    ensures
        named_views(out@) == slots(required(descriptor_views(fields@).take(idx as int))),
{
    let ghost all = descriptor_views(fields@);
    let mut out: Vec<Named> = Vec::new();
    let mut i: usize = 0;
    proof {
        lemma_filter_none(all.take(0), is_required());
    }
    while i < idx
        invariant
            i <= idx <= fields.len(),
            all == descriptor_views(fields@),
            named_views(out@) == slots(required(all.take(i as int))),
        decreases idx - i,
    {
        let field = &fields[i];
        proof {
            lemma_filter_take(all, i as int, is_required());
        }
        if field.default.is_none() {
            let ghost before = named_views(out@);
            out.push(Named { name: field.name.clone(), text: field.declared_type.clone() });
            assert(named_views(out@) =~= before.push(slot(field@)));
        }
        i += 1;
    }
    out
}

/// The stage of the required field at `idx`.
pub fn stage(options: &StructOptions, idx: usize, fields: &Vec<FieldDescriptor>) -> (out:
    StageDescriptor)
    requires
        idx < fields.len(),
        !fields@[idx as int]@.is_defaultable(),
        fields@[idx as int]@.wf(),
    ensures
        out@ == stage_at(options@, descriptor_views(fields@), idx as int),
{
    let field = &fields[idx];
    let name = field.name.as_str();
    let (parameter_type, assign) = match &field.mode {
        SetterMode::Normal(policy) => (policy.parameter_type.clone(), policy.convert(options, name)),
        _ => vstd::pervasive::unreached(),
    };
    let owned = owned_before(fields, idx);
    let (successor, last, defaults) = match next_required(fields, idx + 1) {
        Some(k) => (stage_name(&fields[k]), false, Vec::new()),
        None => (final_name(options), true, default_field_initializers(fields)),
    };
    proof {
        assert(named_views(Seq::<Named>::empty()) =~= Seq::<NamedView>::empty());
    }
    StageDescriptor {
        ident: stage_name(field),
        owned,
        field: field.name.clone(),
        parameter_type,
        assign,
        successor,
        last,
        defaults,
    }
}


/// The stage of the `k`-th required field, counted from 0: it holds the
/// required fields before that one, and leads to the stage of the next
/// required field, or from the last one to the final stage.
pub open spec fn stage_of_rank(options: StructOptionsView, fields: Seq<FieldDescriptorView>, k: int) -> StageDescriptorView {
    let stages = required(fields);
    let field = stages[k];
    let policy = field.mode->Normal_0;
    let last = k + 1 == stages.len();
    StageDescriptorView {
        ident: stage_type_name(field),
        owned: slots(stages.take(k)),
        field: field.name,
        parameter_type: policy.parameter_type,
        assign: policy.convert(options.private_path(), field.name),
        successor: if last {
            final_type_name(options)
        } else {
            stage_type_name(stages[k + 1])
        },
        last,
        defaults: if last {
            initializers(fields)
        } else {
            Seq::empty()
        },
    }
}

/// The stages of a record: one for each required field, in the order of
/// declaration.
pub open spec fn stage_sequence(options: StructOptionsView, fields: Seq<FieldDescriptorView>) -> Seq<
    StageDescriptorView,
> {
    Seq::new(required(fields).len(), |k: int| stage_of_rank(options, fields, k))
}

/// The stage of the required field at `idx` is the stage of its rank among
/// the required fields.
pub proof fn lemma_stage_rank(options: StructOptionsView, fields: Seq<FieldDescriptorView>, idx: int)
    requires
        0 <= idx < fields.len(),
        !fields[idx].is_defaultable(),
    ensures
        ({
            let k = required(fields.take(idx)).len() as int;
            &&& k < required(fields).len()
            &&& required(fields)[k] == fields[idx]
            &&& required(fields).take(k) == required(fields.take(idx))
            &&& required(fields).skip(k + 1) == required(fields.skip(idx + 1))
            &&& stage_at(options, fields, idx) == stage_of_rank(options, fields, k)
        }),
{
    lemma_filter_split(fields, idx, is_required());
    let all = required(fields);
    let before = required(fields.take(idx));
    let after = required(fields.skip(idx + 1));
    let k = before.len() as int;
    assert(all.take(k) =~= before);
}

/// The stages of a record: one for each required field, in the order of
/// declaration.
pub fn stages(options: &StructOptions, fields: &Vec<FieldDescriptor>) -> (out: Vec<StageDescriptor>)
    requires
        forall|i: int| 0 <= i < fields@.len() ==> (#[trigger] fields@[i])@.wf(),
    ensures
        stage_views(out@) == stage_sequence(options@, descriptor_views(fields@)),
{
    let ghost all = descriptor_views(fields@);
    let mut out: Vec<StageDescriptor> = Vec::new();
    let mut i: usize = 0;
    proof {
        lemma_filter_none(all.take(0), is_required());
    }
    while i < fields.len()
        invariant
            i <= fields.len(),
            all == descriptor_views(fields@),
            forall|j: int| 0 <= j < fields@.len() ==> (#[trigger] fields@[j])@.wf(),
            out@.len() == required(all.take(i as int)).len(),
            forall|k: int|
                0 <= k < out@.len() ==> (#[trigger] out@[k])@ == stage_of_rank(options@, all, k),
        decreases fields.len() - i,
    {
        proof {
            lemma_filter_take(all, i as int, is_required());
        }
        if fields[i].default.is_none() {
            proof {
                lemma_stage_rank(options@, all, i as int);
            }
            let next = stage(options, i, fields);
            out.push(next);
        }
        i += 1;
    }
    proof {
        assert(all.take(i as int) =~= all);
    }
    out
}

/// There are as many stages as required fields, and they come in the order
/// in which those fields are declared: the `k`-th stage sets the `k`-th
/// required field and holds exactly the required fields before it.
pub proof fn law_stage_order(options: StructOptionsView, fields: Seq<FieldDescriptorView>)
    ensures
        stage_sequence(options, fields).len() == fields.filter(
            |f: FieldDescriptorView| !f.is_defaultable(),
        ).len(),
        forall|k: int|
            0 <= k < stage_sequence(options, fields).len() ==> {
                &&& (#[trigger] stage_sequence(options, fields)[k]).field == required(fields)[k].name
                &&& stage_sequence(options, fields)[k].owned == slots(required(fields).take(k))
            },
        forall|k: int|
            0 <= k < required(fields).len() ==> !(#[trigger] required(fields)[k]).is_defaultable(),
        forall|i: int|
            0 <= i < fields.len() && !fields[i].is_defaultable() ==> required(fields).contains(
                #[trigger] fields[i],
            ),
{
    broadcast use vstd::seq_lib::group_filter_ensures;

}

/// Each stage leads to the next one, and the last one to the final stage,
/// bringing every default with it.
pub proof fn law_stage_chain(options: StructOptionsView, fields: Seq<FieldDescriptorView>, k: int)
    requires
        0 <= k < stage_sequence(options, fields).len(),
    ensures
        ({
            let stages = stage_sequence(options, fields);
            let stage = stages[k];
            if k + 1 < stages.len() {
                &&& !stage.last
                &&& stage.successor == stages[k + 1].ident
                &&& stage.defaults.len() == 0
            } else {
                &&& stage.last
                &&& stage.successor == final_type_name(options)
                &&& stage.defaults == initializers(fields)
            }
        }),
{
}

/// A record without required fields has no stage: its builder starts at the
/// final stage.
pub proof fn law_no_required_fields(options: StructOptionsView, fields: Seq<FieldDescriptorView>)
    requires
        forall|i: int| 0 <= i < fields.len() ==> (#[trigger] fields[i]).is_defaultable(),
    ensures
        stage_sequence(options, fields).len() == 0,
        initial_stage_name(fields) is None,
{
    lemma_filter_none(fields, is_required());
}

} // verus!
