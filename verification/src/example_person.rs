//! The builder of [`ExamplePerson`], written out: what a staged builder
//! looks like for a record with two required fields and a list.

use vstd::prelude::*;

verus! {

/// An example record: `name` is required and takes anything that converts
/// into a `String`, `age` is required, and `parents` is a list.
#[derive(Debug, PartialEq, Eq)]
pub struct ExamplePerson {
    pub name: String,
    pub age: u32,
    pub parents: Vec<ExamplePerson>,
}

/// A builder for [`ExamplePerson`] at the stage `T`.
pub struct Builder<T>(T);

impl<T> View for Builder<T> {
    type V = T;

    closed spec fn view(&self) -> T {
        self.0
    }
}

/// The `name` stage: nothing is set yet.
pub struct NameStage {}

/// The `age` stage: `name` is set.
pub struct AgeStage {
    pub name: String,
}

/// The final stage: every required field is set.
pub struct Complete {
    pub name: String,
    pub age: u32,
    pub parents: Vec<ExamplePerson>,
}

impl ExamplePerson {
    /// Returns a new builder.
    pub fn builder() -> (out: Builder<NameStage>)
        ensures
            out@ == (NameStage {  }),
    {
        Builder(NameStage {  })
    }
}

impl Default for Builder<NameStage> {
    fn default() -> (out: Builder<NameStage>)
        ensures
            out@ == (NameStage {  }),
    {
        Builder(NameStage {  })
    }
}

impl Builder<NameStage> {
    /// Sets the `name` field.
    pub fn name<N: Into<String>>(self, name: N) -> (out: Builder<AgeStage>)
        ensures
            call_ensures(<N as Into<String>>::into, (name,), out@.name),
    {
        Builder(AgeStage { name: name.into() })
    }
}

impl Builder<AgeStage> {
    /// Sets the `age` field. The builder reaches its final stage, where
    /// `parents` starts empty.
    pub fn age(self, age: u32) -> (out: Builder<Complete>)
        ensures
            out@.name == self@.name,
            out@.age == age,
            out@.parents@ == Seq::<ExamplePerson>::empty(),
    {
        Builder(Complete { name: self.0.name, age, parents: Vec::new() })
    }
}

impl Builder<Complete> {
    /// Adds a value to the `parents` field.
    pub fn push_parents(self, parents: ExamplePerson) -> (out: Self)
        ensures
            out@.name == self@.name,
            out@.age == self@.age,
            out@.parents@ == self@.parents@.push(parents),
    {
        let mut stage = self.0;
        stage.parents.push(parents);
        Builder(stage)
    }

    /// Sets the `parents` field. What it held is dropped.
    pub fn parents(self, parents: Vec<ExamplePerson>) -> (out: Self)
        ensures
            out@.name == self@.name,
            out@.age == self@.age,
            out@.parents@ == parents@,
    {
        let mut stage = self.0;
        stage.parents = parents;
        Builder(stage)
    }

    /// Adds values to the `parents` field.
    pub fn extend_parents(self, parents: Vec<ExamplePerson>) -> (out: Self)
        ensures
            out@.name == self@.name,
            out@.age == self@.age,
            out@.parents@ == self@.parents@ + parents@,
    {
        let mut stage = self.0;
        let mut parents = parents;
        stage.parents.append(&mut parents);
        Builder(stage)
    }

    /// Consumes the builder, returning an [`ExamplePerson`].
    pub fn build(self) -> (out: ExamplePerson)
        ensures
            out.name == self@.name,
            out.age == self@.age,
            out.parents == self@.parents,
    {
        ExamplePerson { name: self.0.name, age: self.0.age, parents: self.0.parents }
    }
}

} // verus!
