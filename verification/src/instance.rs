//! Builder instances: the values of a record on their way, stage by stage,
//! from nothing to the finished value.
//!
//! An instance is made for one construction and owned by whoever holds it.
//! Every step takes the instance and gives the next one, so a stage that
//! was used cannot be used again.

use vstd::prelude::*;
use vstd::string::StringExecFns;
use crate::resolve::{
    descriptor_views, type_default, FieldDescriptor, FieldDescriptorView, SetterMode, SetterModeView,
};
use crate::protocol::{Operation, Phase, Protocol, Transition};
use crate::schema::{Schema, SchemaView};
use crate::validate::{concluded, validated, Validate};
use crate::filter::{lemma_filter_none, lemma_filter_take};
use crate::stages::{is_required, lemma_stage_rank, required};

verus! {

/// What a builder at its final stage holds for one field.
#[derive(Debug, PartialEq, Eq)]
pub enum Slot<T> {
    /// Nothing yet: the field takes its default when the value is built.
    Default,
    /// The value that a setter stored.
    Value(T),
    /// The items given to a list or a set so far, in the order in which they
    /// came. They follow what the field's own default holds where
    /// `inherited` is set, and are all there is where it is not.
    Items { inherited: bool, items: Vec<T> },
    /// The entries given to a map so far, in the order in which they came;
    /// `inherited` is as for items.
    Entries { inherited: bool, entries: Vec<(T, T)> },
}

/// What [`Slot`] holds, as mathematical values.
pub enum SlotView<T> {
    Default,
    Value(T),
    Items { inherited: bool, items: Seq<T> },
    Entries { inherited: bool, entries: Seq<(T, T)> },
}

impl<T> View for Slot<T> {
    type V = SlotView<T>;

    open spec fn view(&self) -> SlotView<T> {
        match *self {
            Slot::Default => SlotView::Default,
            Slot::Value(v) => SlotView::Value(v),
            Slot::Items { inherited, items } => SlotView::Items { inherited, items: items@ },
            Slot::Entries { inherited, entries } => SlotView::Entries {
                inherited,
                entries: entries@,
            },
        }
    }
}

/// The views of a list of slots.
pub open spec fn slot_views<T>(slots: Seq<Slot<T>>) -> Seq<SlotView<T>> {
    slots.map_values(|s: Slot<T>| s@)
}

/// Whether a collection starts from more than the empty collection: its
/// default is an expression of its own, not the default of its type.
pub open spec fn inherits(schema: SchemaView, field: FieldDescriptorView) -> bool {
    field.default != Some(type_default(schema.options.private_path()))
}

/// What the final stage holds for a field that no setter has touched.
pub open spec fn start_slot<T>(schema: SchemaView, field: FieldDescriptorView) -> SlotView<T> {
    match field.mode {
        SetterModeView::Normal(_) => SlotView::Default,
        SetterModeView::MapStyle(_, _) => SlotView::Entries {
            inherited: inherits(schema, field),
            entries: Seq::empty(),
        },
        _ => SlotView::Items { inherited: inherits(schema, field), items: Seq::empty() },
    }
}

/// How many required fields are declared before the field at `i`.
pub open spec fn rank(fields: Seq<FieldDescriptorView>, i: int) -> int {
    required(fields.take(i)).len() as int
}

/// What the final stage holds when it is reached: for each required field
/// the value that its stage was given, and for every other field its start.
pub open spec fn completed<T>(schema: SchemaView, values: Seq<T>) -> Seq<SlotView<T>> {
    Seq::new(
        schema.fields.len(),
        |i: int|
            if schema.fields[i].is_defaultable() {
                start_slot(schema, schema.fields[i])
            } else {
                SlotView::Value(values[rank(schema.fields, i)])
            },
    )
}

/// Whether a slot can be that of `field`.
pub open spec fn fits<T>(field: FieldDescriptorView, slot: SlotView<T>) -> bool {
    match field.mode {
        SetterModeView::Normal(_) => slot is Value || (slot is Default && field.is_defaultable()),
        SetterModeView::MapStyle(_, _) => slot is Entries,
        _ => slot is Items,
    }
}

/// Whether the slots can be those of the fields of `schema`.
pub open spec fn fit<T>(schema: SchemaView, slots: Seq<SlotView<T>>) -> bool {
    &&& slots.len() == schema.fields.len()
    &&& forall|i: int| 0 <= i < slots.len() ==> fits(schema.fields[i], #[trigger] slots[i])
}

/// A finished value: what each field holds, in the order of declaration.
#[derive(Debug, PartialEq, Eq)]
pub struct Record<T> {
    pub fields: Vec<Slot<T>>,
}

impl<T> View for Record<T> {
    type V = Seq<SlotView<T>>;

    open spec fn view(&self) -> Seq<SlotView<T>> {
        slot_views(self.fields@)
    }
}

/// A builder at the stage of a required field. It holds the values of the
/// required fields before that one.
#[derive(Debug, PartialEq, Eq)]
pub struct Pending<'a, T> {
    schema: &'a Schema,
    values: Vec<T>,
}

impl<'a, T> View for Pending<'a, T> {
    type V = Seq<T>;

    closed spec fn view(&self) -> Seq<T> {
        self.values@
    }
}

/// A builder at its final stage. It holds something for every field.
#[derive(Debug, PartialEq, Eq)]
pub struct Complete<'a, T> {
    schema: &'a Schema,
    slots: Vec<Slot<T>>,
}

impl<'a, T> View for Complete<'a, T> {
    type V = Seq<SlotView<T>>;

    closed spec fn view(&self) -> Seq<SlotView<T>> {
        slot_views(self.slots@)
    }
}

/// A builder: at the stage of a required field, or at its final stage.
#[derive(Debug, PartialEq, Eq)]
pub enum Builder<'a, T> {
    Stage(Pending<'a, T>),
    Final(Complete<'a, T>),
}

impl<'a, T> Pending<'a, T> {
    /// A required field is still to be set.
    #[verifier::type_invariant]
    spec fn sound(self) -> bool {
        self.values@.len() < self.schema@.stage_count()
    }

    /// The schema of the record that is built.
    pub closed spec fn schema(&self) -> &'a Schema {
        self.schema
    }

    /// The schema of the record that is built.
    pub fn schema_ref(&self) -> (out: &'a Schema)
        ensures
            out == self.schema(),
            self@.len() < out@.stage_count(),
    {
        proof {
            use_type_invariant(self);
        }
        self.schema
    }
}

impl<'a, T> Complete<'a, T> {
    /// Each field holds what a field of its kind can hold.
    #[verifier::type_invariant]
    spec fn sound(self) -> bool {
        fit(self.schema@, slot_views(self.slots@))
    }

    /// The schema of the record that is built.
    pub closed spec fn schema(&self) -> &'a Schema {
        self.schema
    }

    /// The schema of the record that is built.
    pub fn schema_ref(&self) -> (out: &'a Schema)
        ensures
            out == self.schema(),
            fit(out@, self@),
    {
        proof {
            use_type_invariant(self);
        }
        self.schema
    }
}

impl<'a, T> Builder<'a, T> {
    /// The schema of the record that is built.
    pub open spec fn schema(&self) -> &'a Schema {
        match *self {
            Builder::Stage(pending) => pending.schema(),
            Builder::Final(complete) => complete.schema(),
        }
    }
}

/// The builder that has been given `values` for its first required fields:
/// at its final stage once every required field has its value, at the
/// stage of the next required field before.
pub open spec fn reached<'a, T>(schema: &'a Schema, values: Seq<T>, builder: Builder<'a, T>) -> bool {
    &&& builder.schema() == schema
    &&& if values.len() == schema@.stage_count() {
        builder matches Builder::Final(complete) && complete@ == completed(schema@, values)
    } else {
        builder matches Builder::Stage(pending) && pending@ == values
    }
}

/// What the final stage holds for `field` before any setter is called.
fn start<T>(schema: &Schema, field: &FieldDescriptor) -> (out: Slot<T>)
    ensures
        out@ == start_slot::<T>(schema@, field@),
{
    let usual = schema.options().private().concat("::Default::default()");
    let inherited = match &field.default {
        Some(default) => !(*default == usual),
        None => true,
    };
    match &field.mode {
        SetterMode::Normal(_) => Slot::Default,
        SetterMode::MapStyle(_, _) => Slot::Entries { inherited, entries: Vec::new() },
        _ => Slot::Items { inherited, items: Vec::new() },
    }
}

/// The final stage as it is reached with the values `values` of the
/// required fields.
fn complete<'a, T>(schema: &'a Schema, values: Vec<T>) -> (out: Complete<'a, T>)
    requires
        values@.len() == schema@.stage_count(),
    ensures
        out.schema() == schema,
        out@ == completed(schema@, values@),
{
    let fields = schema.fields();
    let ghost all = schema@.fields;
    let ghost given = values@;
    let mut values = values;
    let mut slots: Vec<Slot<T>> = Vec::new();
    let mut i: usize = 0;
    proof {
        lemma_filter_none(all.take(0), is_required());
    }
    while i < fields.len()
        invariant
            i <= fields.len(),
            all == schema@.fields,
            all == descriptor_views(fields@),
            schema@.wf(),
            given.len() == required(all).len(),
            rank(all, i as int) <= given.len(),
            values@ == given.skip(rank(all, i as int)),
            slots@.len() == i,
            forall|j: int| 0 <= j < i ==> (#[trigger] slots@[j])@ == completed(schema@, given)[j],
            forall|j: int| 0 <= j < i ==> fits(all[j], (#[trigger] slots@[j])@),
        decreases fields.len() - i,
    {
        let field = &fields[i];
        proof {
            lemma_filter_take(all, i as int, is_required());
        }
        if field.default.is_none() {
            proof {
                lemma_stage_rank(schema@.options, all, i as int);
            }
            let value = values.remove(0);
            slots.push(Slot::Value(value));
        } else {
            slots.push(start(schema, field));
        }
        i += 1;
    }
    proof {
        let held = slot_views(slots@);
    }
    Complete { schema, slots }
}

impl<'a, T> Builder<'a, T> {
    /// A new builder for the record of `schema`. It starts at the stage of
    /// the first required field; where no field is required, it starts at
    /// the final stage.
    pub fn new(schema: &'a Schema) -> (out: Builder<'a, T>)
        ensures
            reached(schema, Seq::<T>::empty(), out),
    {
        let values: Vec<T> = Vec::new();
        if schema.stages() == 0 {
            Builder::Final(complete(schema, values))
        } else {
            Builder::Stage(Pending { schema, values })
        }
    }
}

impl<'a, T> Pending<'a, T> {
    /// Sets the required field of this stage, and gives the builder at its
    /// next stage: the final one once no required field is left.
    pub fn set(self, value: T) -> (out: Builder<'a, T>)
        ensures
            reached(self.schema(), self@.push(value), out),
    {
        proof {
            use_type_invariant(&self);
        }
        let schema = self.schema;
        let mut values = self.values;
        values.push(value);
        if values.len() == schema.stages() {
            Builder::Final(complete(schema, values))
        } else {
            Builder::Stage(Pending { schema, values })
        }
    }
}


impl<T> SlotView<T> {
    /// The slot after one more item; it is unchanged where it holds no
    /// items.
    pub open spec fn with_item(self, item: T) -> SlotView<T> {
        self.with_items(seq![item])
    }

    /// The slot after the items `more`; it is unchanged where it holds no
    /// items.
    pub open spec fn with_items(self, more: Seq<T>) -> SlotView<T> {
        match self {
            SlotView::Items { inherited, items } => SlotView::Items {
                inherited,
                items: items + more,
            },
            other => other,
        }
    }

    /// The slot after one more entry; it is unchanged where it holds no
    /// entries.
    pub open spec fn with_entry(self, key: T, value: T) -> SlotView<T> {
        self.with_entries(seq![(key, value)])
    }

    /// The slot after the entries `more`; it is unchanged where it holds no
    /// entries.
    pub open spec fn with_entries(self, more: Seq<(T, T)>) -> SlotView<T> {
        match self {
            SlotView::Entries { inherited, entries } => SlotView::Entries {
                inherited,
                entries: entries + more,
            },
            other => other,
        }
    }
}

/// What a builder holds after the field at `idx` is assigned `value`.
pub open spec fn assigned<T>(slots: Seq<SlotView<T>>, idx: int, value: T) -> Seq<SlotView<T>> {
    slots.update(idx, SlotView::Value(value))
}

/// What a builder holds after one more item for the field at `idx`.
pub open spec fn pushed<T>(slots: Seq<SlotView<T>>, idx: int, item: T) -> Seq<SlotView<T>> {
    slots.update(idx, slots[idx].with_item(item))
}

/// What a builder holds after the field at `idx` got the new contents
/// `items`.
pub open spec fn replaced<T>(slots: Seq<SlotView<T>>, idx: int, items: Seq<T>) -> Seq<SlotView<T>> {
    slots.update(idx, SlotView::Items { inherited: false, items })
}

/// What a builder holds after the items `items` more for the field at
/// `idx`.
pub open spec fn extended<T>(slots: Seq<SlotView<T>>, idx: int, items: Seq<T>) -> Seq<SlotView<T>> {
    slots.update(idx, slots[idx].with_items(items))
}

/// What a builder holds after one more entry for the field at `idx`.
pub open spec fn inserted<T>(slots: Seq<SlotView<T>>, idx: int, key: T, value: T) -> Seq<
    SlotView<T>,
> {
    slots.update(idx, slots[idx].with_entry(key, value))
}

/// What a builder holds after the field at `idx` got the new contents
/// `entries`.
pub open spec fn replaced_entries<T>(slots: Seq<SlotView<T>>, idx: int, entries: Seq<(T, T)>) -> Seq<
    SlotView<T>,
> {
    slots.update(idx, SlotView::Entries { inherited: false, entries })
}

/// What a builder holds after the entries `entries` more for the field at
/// `idx`.
pub open spec fn extended_entries<T>(slots: Seq<SlotView<T>>, idx: int, entries: Seq<(T, T)>) -> Seq<
    SlotView<T>,
> {
    slots.update(idx, slots[idx].with_entries(entries))
}

/// What a builder holds after each item of `items` was pushed, one by one
/// and in their order, for the field at `idx`.
pub open spec fn pushed_each<T>(slots: Seq<SlotView<T>>, idx: int, items: Seq<T>) -> Seq<SlotView<T>>
    decreases items.len(),
{
    if items.len() == 0 {
        slots
    } else {
        pushed(pushed_each(slots, idx, items.drop_last()), idx, items.last())
    }
}

/// What a builder holds after each entry of `entries` was inserted, one by
/// one and in their order, for the field at `idx`.
pub open spec fn inserted_each<T>(slots: Seq<SlotView<T>>, idx: int, entries: Seq<(T, T)>) -> Seq<
    SlotView<T>,
>
    decreases entries.len(),
{
    if entries.len() == 0 {
        slots
    } else {
        inserted(
            inserted_each(slots, idx, entries.drop_last()),
            idx,
            entries.last().0,
            entries.last().1,
        )
    }
}

/// New contents overwrite: what a list or a set held before, whatever it
/// was, does not show in what it holds after.
pub proof fn law_replace_overwrites<T>(
    slots: Seq<SlotView<T>>,
    idx: int,
    earlier: SlotView<T>,
    items: Seq<T>,
)
    requires
        0 <= idx < slots.len(),
    ensures
        replaced(slots.update(idx, earlier), idx, items) == replaced(slots, idx, items),
{
}

/// New contents overwrite: what a map held before, whatever it was, does
/// not show in what it holds after.
pub proof fn law_replace_entries_overwrites<T>(
    slots: Seq<SlotView<T>>,
    idx: int,
    earlier: SlotView<T>,
    entries: Seq<(T, T)>,
)
    requires
        0 <= idx < slots.len(),
    ensures
        replaced_entries(slots.update(idx, earlier), idx, entries) == replaced_entries(
            slots,
            idx,
            entries,
        ),
{
}

/// Giving new contents twice is giving the second ones once.
pub proof fn law_replace_twice<T>(slots: Seq<SlotView<T>>, idx: int, first: Seq<T>, second: Seq<T>)
    requires
        0 <= idx < slots.len(),
    ensures
        replaced(replaced(slots, idx, first), idx, second) == replaced(slots, idx, second),
{
    law_replace_overwrites(slots, idx, SlotView::Items { inherited: false, items: first }, second);
}

/// Giving a map new contents twice is giving the second ones once.
pub proof fn law_replace_entries_twice<T>(
    slots: Seq<SlotView<T>>,
    idx: int,
    first: Seq<(T, T)>,
    second: Seq<(T, T)>,
)
    requires
        0 <= idx < slots.len(),
    ensures
        replaced_entries(replaced_entries(slots, idx, first), idx, second) == replaced_entries(
            slots,
            idx,
            second,
        ),
{
    law_replace_entries_overwrites(
        slots,
        idx,
        SlotView::Entries { inherited: false, entries: first },
        second,
    );
}

/// Pushing items one by one is extending by all of them at once.
pub proof fn law_push_is_extend<T>(slots: Seq<SlotView<T>>, idx: int, items: Seq<T>)
    requires
        0 <= idx < slots.len(),
    ensures
        pushed_each(slots, idx, items) == extended(slots, idx, items),
    decreases items.len(),
{
    if items.len() > 0 {
        let front = items.drop_last();
        law_push_is_extend(slots, idx, front);
        if let SlotView::Items { items: held, .. } = slots[idx] {
            assert((held + front) + seq![items.last()] =~= held + items);
        }
    }
}

/// Inserting entries one by one is extending by all of them at once.
pub proof fn law_insert_is_extend<T>(slots: Seq<SlotView<T>>, idx: int, entries: Seq<(T, T)>)
    requires
        0 <= idx < slots.len(),
    ensures
        inserted_each(slots, idx, entries) == extended_entries(slots, idx, entries),
    decreases entries.len(),
{
    if entries.len() > 0 {
        let front = entries.drop_last();
        law_insert_is_extend(slots, idx, front);
        if let SlotView::Entries { entries: held, .. } = slots[idx] {
            assert((held + front) + seq![entries.last()] =~= held + entries);
        }
    }
}

/// On a collection that holds nothing and inherits nothing, extending by
/// items is giving them as new contents.
pub proof fn law_extend_from_empty<T>(slots: Seq<SlotView<T>>, idx: int, items: Seq<T>)
    requires
        0 <= idx < slots.len(),
        slots[idx] == (SlotView::Items { inherited: false, items: Seq::<T>::empty() }),
    ensures
        extended(slots, idx, items) == replaced(slots, idx, items),
{
}

/// Every collection starts empty: when the final stage is reached, a list
/// or a set holds no item and a map no entry of the builder's own.
pub proof fn law_collections_start_empty<T>(schema: SchemaView, values: Seq<T>, idx: int)
    requires
        schema.wf(),
        0 <= idx < schema.fields.len(),
        schema.fields[idx].mode.is_collection(),
    ensures
        match completed(schema, values)[idx] {
            SlotView::Items { items, .. } => items.len() == 0,
            SlotView::Entries { entries, .. } => entries.len() == 0,
            _ => false,
        },
{
}

/// Builders share nothing: what one builder is given for a collection does
/// not show in another builder of the same record, which still holds what
/// it started with.
pub proof fn law_builders_share_nothing<T>(
    schema: SchemaView,
    one: Seq<T>,
    other: Seq<T>,
    idx: int,
    item: T,
    key: T,
)
    requires
        schema.wf(),
        0 <= idx < schema.fields.len(),
        schema.fields[idx].mode.is_collection(),
    ensures
        completed(schema, other)[idx] == start_slot::<T>(schema, schema.fields[idx]),
        !(schema.fields[idx].mode is MapStyle) ==> pushed(completed(schema, one), idx, item)[idx]
            != completed(schema, other)[idx],
        schema.fields[idx].mode is MapStyle ==> inserted(
            completed(schema, one),
            idx,
            key,
            item,
        )[idx] != completed(schema, other)[idx],
{
    law_collections_start_empty(schema, one, idx);
    law_collections_start_empty(schema, other, idx);
}

impl<'a, T> Complete<'a, T> {
    /// Whether the final stage has setters for the field at `idx`: it has
    /// them for every field that has a default, and for all fields where
    /// built values can be updated.
    pub open spec fn settable(&self, idx: int) -> bool {
        &&& 0 <= idx < self.schema()@.fields.len()
        &&& self.schema()@.options.update || self.schema()@.fields[idx].is_defaultable()
    }

    /// Whether the field at `idx` has the setter that assigns it.
    pub open spec fn takes_value(&self, idx: int) -> bool {
        self.settable(idx) && self.schema()@.fields[idx].mode is Normal
    }

    /// Whether the field at `idx` has the setters of a list or a set.
    pub open spec fn takes_items(&self, idx: int) -> bool {
        self.settable(idx) && (self.schema()@.fields[idx].mode is ListStyle
            || self.schema()@.fields[idx].mode is SetStyle)
    }

    /// Whether the field at `idx` has the setters of a map.
    pub open spec fn takes_entries(&self, idx: int) -> bool {
        self.settable(idx) && self.schema()@.fields[idx].mode is MapStyle
    }

    /// The descriptor of the field at `idx`, where the final stage has
    /// setters for it.
    fn settable_field(&self, idx: usize) -> (out: Option<&'a FieldDescriptor>)
        ensures
            match out {
                Some(field) => self.settable(idx as int) && field@
                    == self.schema()@.fields[idx as int],
                None => !self.settable(idx as int),
            },
    {
        let fields = self.schema.fields();
        if idx < fields.len() {
            if self.schema.options().update || fields[idx].default.is_some() {
                Some(&fields[idx])
            } else {
                None
            }
        } else {
            None
        }
    }

    /// Whether `set` can be called for the field at `idx`.
    pub fn accepts_value(&self, idx: usize) -> (out: bool)
        ensures
            out == self.takes_value(idx as int),
    {
        match self.settable_field(idx) {
            Some(field) => match &field.mode {
                SetterMode::Normal(_) => true,
                _ => false,
            },
            None => false,
        }
    }

    /// Whether `push`, `replace` and `extend` can be called for the field
    /// at `idx`.
    pub fn accepts_items(&self, idx: usize) -> (out: bool)
        ensures
            out == self.takes_items(idx as int),
    {
        match self.settable_field(idx) {
            Some(field) => match &field.mode {
                SetterMode::ListStyle(_) => true,
                SetterMode::SetStyle(_) => true,
                _ => false,
            },
            None => false,
        }
    }

    /// Whether `insert`, `replace_entries` and `extend_entries` can be
    /// called for the field at `idx`.
    pub fn accepts_entries(&self, idx: usize) -> (out: bool)
        ensures
            out == self.takes_entries(idx as int),
    {
        match self.settable_field(idx) {
            Some(field) => match &field.mode {
                SetterMode::MapStyle(_, _) => true,
                _ => false,
            },
            None => false,
        }
    }

    /// Puts `slot` in the place of what the field at `idx` holds.
    fn put(self, idx: usize, slot: Slot<T>) -> (out: Self)
        requires
            idx < self.schema()@.fields.len(),
            fits(self.schema()@.fields[idx as int], slot@),
        ensures
            out.schema() == self.schema(),
            out@ == self@.update(idx as int, slot@),
    {
        proof {
            use_type_invariant(&self);
        }
        let ghost before = self@;
        let ghost view = slot@;
        let schema = self.schema;
        let mut slots = self.slots;
        slots[idx] = slot;
        proof {
            assert(slot_views(slots@) =~= before.update(idx as int, view));
        }
        Complete { schema, slots }
    }

    /// Assigns the field at `idx`.
    pub fn set(self, idx: usize, value: T) -> (out: Self)
        requires
            self.takes_value(idx as int),
        ensures
            out.schema() == self.schema(),
            out@ == assigned(self@, idx as int, value),
    {
        self.put(idx, Slot::Value(value))
    }

    /// Adds one item to the list or set at `idx`.
    pub fn push(self, idx: usize, item: T) -> (out: Self)
        requires
            self.takes_items(idx as int),
        ensures
            out.schema() == self.schema(),
            out@ == pushed(self@, idx as int, item),
    {
        let mut items: Vec<T> = Vec::new();
        items.push(item);
        self.extend(idx, items)
    }

    /// Gives the list or set at `idx` new contents. What it held is
    /// dropped.
    pub fn replace(self, idx: usize, items: Vec<T>) -> (out: Self)
        requires
            self.takes_items(idx as int),
        ensures
            out.schema() == self.schema(),
            out@ == replaced(self@, idx as int, items@),
    {
        self.put(idx, Slot::Items { inherited: false, items })
    }

    /// Adds the items of `items`, in their order, to the list or set at
    /// `idx`.
    pub fn extend(self, idx: usize, items: Vec<T>) -> (out: Self)
        requires
            self.takes_items(idx as int),
        ensures
            out.schema() == self.schema(),
            out@ == extended(self@, idx as int, items@),
    {
        proof {
            use_type_invariant(&self);
        }
        let ghost before = self@;
        let ghost more = items@;
        let schema = self.schema;
        let mut slots = self.slots;
        let mut items = items;
        match &mut slots[idx] {
            Slot::Items { items: held, .. } => {
                held.append(&mut items);
            },
            _ => {},
        }
        proof {
            let after = slot_views(slots@);
            assert(after =~= before.update(idx as int, before[idx as int].with_items(more)));
        }
        Complete { schema, slots }
    }

    /// Adds one entry to the map at `idx`.
    pub fn insert(self, idx: usize, key: T, value: T) -> (out: Self)
        requires
            self.takes_entries(idx as int),
        ensures
            out.schema() == self.schema(),
            out@ == inserted(self@, idx as int, key, value),
    {
        let mut entries: Vec<(T, T)> = Vec::new();
        entries.push((key, value));
        self.extend_entries(idx, entries)
    }

    /// Gives the map at `idx` new contents. What it held is dropped.
    pub fn replace_entries(self, idx: usize, entries: Vec<(T, T)>) -> (out: Self)
        requires
            self.takes_entries(idx as int),
        ensures
            out.schema() == self.schema(),
            out@ == replaced_entries(self@, idx as int, entries@),
    {
        self.put(idx, Slot::Entries { inherited: false, entries })
    }

    /// Adds the entries of `entries`, in their order, to the map at `idx`.
    pub fn extend_entries(self, idx: usize, entries: Vec<(T, T)>) -> (out: Self)
        requires
            self.takes_entries(idx as int),
        ensures
            out.schema() == self.schema(),
            out@ == extended_entries(self@, idx as int, entries@),
    {
        proof {
            use_type_invariant(&self);
        }
        let ghost before = self@;
        let ghost more = entries@;
        let schema = self.schema;
        let mut slots = self.slots;
        let mut entries = entries;
        match &mut slots[idx] {
            Slot::Entries { entries: held, .. } => {
                held.append(&mut entries);
            },
            _ => {},
        }
        proof {
            let after = slot_views(slots@);
            assert(after =~= before.update(idx as int, before[idx as int].with_entries(more)));
        }
        Complete { schema, slots }
    }

    /// Finishes the builder of a record that is not validated: the value
    /// is what the builder holds.
    pub fn build(self) -> (out: Record<T>)
        requires
            !self.schema()@.options.validate,
        ensures
            out@ == self@,
            fit(self.schema()@, out@),
    {
        proof {
            use_type_invariant(&self);
        }
        Record { fields: self.slots }
    }

    /// Finishes the builder of a record that is validated: makes the value
    /// of what the builder holds, validates it, and hands it out if it is
    /// valid. No setter validates anything; this is the one place.
    pub fn build_validated<R: Validate + From<Record<T>>>(self) -> (out: Result<R, R::Error>)
        requires
            self.schema()@.options.validate,
        ensures
            exists|record: Record<T>, value: R, verdict: Result<(), R::Error>|
                {
                    &&& record@ == self@
                    &&& call_ensures(R::from, (record,), value)
                    &&& call_ensures(R::validate, (&value,), verdict)
                    &&& out == concluded(value, verdict)
                },
    {
        let record = Record { fields: self.slots };
        let ghost made = record;
        let value = R::from(record);
        let out = validated(value);
        proof {
            let verdict = choose|verdict: Result<(), R::Error>|
                call_ensures(R::validate, (&value,), verdict) && out == concluded(value, verdict);
            assert(made@ == self@ && call_ensures(R::from, (made,), value) && call_ensures(
                R::validate,
                (&value,),
                verdict,
            ) && out == concluded(value, verdict));
        }
        out
    }

    /// Turns a built value back into a builder at its final stage, where
    /// the record allows updates.
    pub fn from(schema: &'a Schema, record: Record<T>) -> (out: Self)
        requires
            schema@.options.update,
            fit(schema@, record@),
        ensures
            out.schema() == schema,
            out@ == record@,
    {
        Complete { schema, slots: record.fields }
    }

    /// Whether a built value can be turned back into a builder.
    pub fn updates(schema: &Schema, record: &Record<T>) -> (out: bool)
        ensures
            out == (schema@.options.update && fit(schema@, record@)),
    {
        schema.options().update && record.fits(schema)
    }
}

impl<T> Slot<T> {
    /// Whether the slot can be that of `field`.
    pub fn fits(&self, field: &FieldDescriptor) -> (out: bool)
        ensures
            out == fits(field@, self@),
    {
        match &field.mode {
            SetterMode::Normal(_) => match self {
                Slot::Value(_) => true,
                Slot::Default => field.default.is_some(),
                _ => false,
            },
            SetterMode::MapStyle(_, _) => match self {
                Slot::Entries { .. } => true,
                _ => false,
            },
            _ => match self {
                Slot::Items { .. } => true,
                _ => false,
            },
        }
    }
}

impl<T> Record<T> {
    /// Whether the value can be one of the record of `schema`: it holds,
    /// for each field, what a field of its kind can hold.
    pub fn fits(&self, schema: &Schema) -> (out: bool)
        ensures
            out == fit(schema@, self@),
    {
        let fields = schema.fields();
        if self.fields.len() != fields.len() {
            return false;
        }
        let mut i: usize = 0;
        while i < fields.len()
            invariant
                i <= fields.len(),
                self.fields@.len() == fields@.len(),
                descriptor_views(fields@) == schema@.fields,
                forall|j: int| 0 <= j < i ==> fits(schema@.fields[j], #[trigger] self@[j]),
            decreases fields.len() - i,
        {
            proof {
                assert(self@[i as int] == self.fields@[i as int]@);
            }
            if !self.fields[i].fits(&fields[i]) {
                return false;
            }
            i += 1;
        }
        true
    }
}

impl<'a, T> Builder<'a, T> {
    /// Where the construction stands.
    pub open spec fn phase(&self) -> Phase {
        match *self {
            Builder::Stage(pending) => Phase::Building(pending@.len() as usize),
            Builder::Final(_) => Phase::Terminal,
        }
    }

    /// Where the construction stands.
    pub fn stands(&self) -> (out: Phase)
        ensures
            out == self.phase(),
    {
        match self {
            Builder::Stage(pending) => Phase::Building(pending.values.len()),
            Builder::Final(_) => Phase::Terminal,
        }
    }
}

/// A new builder stands where the protocol of its record starts.
pub proof fn law_new_is_entry<'a, T>(schema: &'a Schema, builder: Builder<'a, T>)
    requires
        reached(schema, Seq::<T>::empty(), builder),
    ensures
        builder.phase() == Protocol::of_schema(schema@).entry(),
{
    schema.lemma_stage_count_fits();
}

/// The setter of a stage is the protocol's step for a required field: it
/// leads where that step leads, and reaches the final stage exactly where
/// that step puts the defaults in place.
pub proof fn law_set_is_require<'a, T>(
    schema: &'a Schema,
    values: Seq<T>,
    value: T,
    after: Builder<'a, T>,
)
    requires
        values.len() < schema@.stage_count(),
        reached(schema, values.push(value), after),
    ensures
        Protocol::of_schema(schema@).step(
            Phase::Building(values.len() as usize),
            Operation::Require,
        ) == Some(
            Transition { next: after.phase(), materializes: after is Final, validates: false },
        ),
{
    schema.lemma_stage_count_fits();
}

} // verus!
