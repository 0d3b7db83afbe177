//! A resolved schema: the options of a record and the descriptors of its
//! fields.

use vstd::prelude::*;
use vstd::string::StringExecFns;
use crate::error::{error_views, SchemaError, SchemaErrorView};
use crate::options::{StructOptions, StructOptionsView};
use crate::resolve::{
    decl_views, descriptor_views, resolve_all, resolve_fields, FieldDecl, FieldDescriptor,
    FieldDescriptorView,
};
use crate::filter::{lemma_filter_none, lemma_filter_take};
use crate::lookup::{first_index, lemma_first_index_at};
use crate::stages::{is_required, required};

verus! {

/// A resolved schema: the options of a record and the descriptors of its
/// fields, in which every collection has a default. It is made once for a
/// record and not changed after.
#[derive(Debug, PartialEq, Eq)]
pub struct Schema {
    options: StructOptions,
    fields: Vec<FieldDescriptor>,
}

/// What [`Schema`] holds, as mathematical values.
pub struct SchemaView {
    pub options: StructOptionsView,
    pub fields: Seq<FieldDescriptorView>,
}

impl View for Schema {
    type V = SchemaView;

    closed spec fn view(&self) -> SchemaView {
        SchemaView { options: self.options@, fields: descriptor_views(self.fields@) }
    }
}

/// Picks the fields named `name`.
pub open spec fn is_named(name: Seq<char>) -> spec_fn(FieldDescriptorView) -> bool {
    |f: FieldDescriptorView| f.name == name
}

/// The place of the first field named `name`.
pub open spec fn place_of(fields: Seq<FieldDescriptorView>, name: Seq<char>) -> Option<int> {
    first_index(fields, is_named(name))
}

impl SchemaView {
    /// Every collection has a default.
    pub open spec fn wf(self) -> bool {
        forall|i: int| 0 <= i < self.fields.len() ==> (#[trigger] self.fields[i]).wf()
    }

    /// The number of stages before the final one: that of the required
    /// fields.
    pub open spec fn stage_count(self) -> nat {
        required(self.fields).len()
    }
}

/// The schema of the declared fields `decls` under `options`, or everything
/// that is wrong with the fields.
pub open spec fn resolved(options: StructOptionsView, decls: Seq<crate::resolve::FieldDeclView>) -> Result<
    SchemaView,
    Seq<SchemaErrorView>,
> {
    match resolve_all(options.private_path(), decls) {
        Ok(fields) => Ok(SchemaView { options, fields }),
        Err(errors) => Err(errors),
    }
}

impl Schema {
    #[verifier::type_invariant]
    spec fn sound(self) -> bool {
        self@.wf()
    }

    /// The schema of a record with the options `options` and the resolved
    /// fields `fields`; `None` where a collection among them has no
    /// default.
    pub fn new(options: StructOptions, fields: Vec<FieldDescriptor>) -> (out: Option<Schema>)
        ensures
            match out {
                Some(schema) => {
                    &&& schema@ == (SchemaView {
                        options: options@,
                        fields: descriptor_views(fields@),
                    })
                    &&& schema@.wf()
                },
                None => !(SchemaView { options: options@, fields: descriptor_views(fields@) }).wf(),
            },
    {
        let ghost all = descriptor_views(fields@);
        let mut i: usize = 0;
        while i < fields.len()
            invariant
                i <= fields.len(),
                all == descriptor_views(fields@),
                forall|j: int| 0 <= j < i ==> (#[trigger] all[j]).wf(),
            decreases fields.len() - i,
        {
            if !fields[i].is_sound() {
                proof {
                    let view = SchemaView { options: options@, fields: all };
                    assert(!view.fields[i as int].wf());
                }
                return None;
            }
            i += 1;
        }
        Some(Schema { options, fields })
    }

    /// The options of the record.
    pub fn options(&self) -> (out: &StructOptions)
        ensures
            out@ == self@.options,
    {
        &self.options
    }

    /// The descriptors of the fields, in the order of declaration.
    pub fn fields(&self) -> (out: &Vec<FieldDescriptor>)
        ensures
            descriptor_views(out@) == self@.fields,
            self@.wf(),
    {
        proof {
            use_type_invariant(self);
        }
        &self.fields
    }

    /// Resolves the declared fields `decls` of a record with the options
    /// `options`.
    pub fn resolve(options: StructOptions, decls: &Vec<FieldDecl>) -> (out: Result<
        Schema,
        Vec<SchemaError>,
    >)
        ensures
            match out {
                Ok(schema) => {
                    &&& resolved(options@, decl_views(decls@)) == Ok::<
                        SchemaView,
                        Seq<SchemaErrorView>,
                    >(schema@)
                    &&& schema@.wf()
                },
                Err(errors) => {
                    &&& resolved(options@, decl_views(decls@)) == Err::<
                        SchemaView,
                        Seq<SchemaErrorView>,
                    >(error_views(errors@))
                    &&& errors@.len() > 0
                },
            },
    {
        match resolve_fields(&options, decls) {
            Ok(fields) => {
                let schema = Schema { options, fields };
                Ok(schema)
            },
            Err(errors) => Err(errors),
        }
    }

    /// A record has no more stages than fields, and a list of fields is no
    /// longer than the machine can count.
    pub proof fn lemma_stage_count_fits(&self)
        ensures
            self@.stage_count() <= self@.fields.len() <= usize::MAX,
    {
        broadcast use vstd::seq_lib::group_filter_ensures;

        assert(self@.fields.len() == self.fields.len());
    }

    /// The number of fields.
    pub fn len(&self) -> (out: usize)
        ensures
            out == self@.fields.len(),
    {
        self.fields.len()
    }

    /// The place of the field named `name`, by which the setters of a
    /// builder reach it.
    pub fn index_of(&self, name: &str) -> (out: Option<usize>)
        ensures
            match out {
                Some(i) => place_of(self@.fields, name@) == Some(i as int),
                None => place_of(self@.fields, name@) is None,
            },
    {
        let wanted = String::from_str(name);
        let mut i: usize = 0;
        while i < self.fields.len()
            invariant
                i <= self.fields.len(),
                wanted@ == name@,
                forall|j: int| 0 <= j < i ==> !is_named(name@)(#[trigger] self@.fields[j]),
            decreases self.fields.len() - i,
        {
            if self.fields[i].name == wanted {
                proof {
                    lemma_first_index_at(self@.fields, is_named(name@), i as int);
                }
                return Some(i);
            }
            i += 1;
        }
        proof {
            lemma_first_index_at(self@.fields, is_named(name@), i as int);
        }
        None
    }

    /// The number of stages before the final one.
    pub fn stages(&self) -> (out: usize)
        ensures
            out == self@.stage_count(),
    {
        let ghost all = self@.fields;
        let mut count: usize = 0;
        let mut i: usize = 0;
        proof {
            lemma_filter_none(all.take(0), is_required());
        }
        while i < self.fields.len()
            invariant
                i <= self.fields.len(),
                all == self@.fields,
                count == required(all.take(i as int)).len(),
                count <= i,
            decreases self.fields.len() - i,
        {
            proof {
                lemma_filter_take(all, i as int, is_required());
            }
            if self.fields[i].default.is_none() {
                count += 1;
            }
            i += 1;
        }
        proof {
            assert(all.take(i as int) =~= all);
        }
        count
    }
}

} // verus!
