//! The construction protocol: which step a builder can take in which
//! phase, where it leads, and when a value is validated.

use vstd::prelude::*;
use crate::schema::{Schema, SchemaView};

verus! {

/// Where a construction stands.
#[derive(Debug, Clone, Copy, PartialEq, Eq, Structural)]
pub enum Phase {
    /// At the stage of a required field: as many required fields are set
    /// as the number says, and the next one is to be set.
    Building(usize),
    /// At the final stage: every required field is set.
    Terminal,
    /// The value is built.
    Built,
}

/// A step of a construction.
#[derive(Debug, Clone, Copy, PartialEq, Eq, Structural)]
pub enum Operation {
    /// The setter of the stage of a required field.
    Require,
    /// A setter of the final stage.
    Adjust,
    /// `build`.
    Build,
    /// A built value is turned back into a builder.
    Update,
}

/// What a step does.
#[derive(Debug, Clone, Copy, PartialEq, Eq, Structural)]
pub struct Transition {
    /// The phase that the step leads to.
    pub next: Phase,
    /// Whether the step puts the defaults in place.
    pub materializes: bool,
    /// Whether the step validates the value.
    pub validates: bool,
}

/// The protocol of a record: how many stages lead to the final one, and
/// what the record asks for.
#[derive(Debug, Clone, Copy, PartialEq, Eq, Structural)]
pub struct Protocol {
    pub stages: usize,
    pub validate: bool,
    pub update: bool,
}

impl Protocol {
    /// The phase in which a construction starts: the final stage where no
    /// field is required.
    pub open spec fn entry(self) -> Phase {
        if self.stages == 0 {
            Phase::Terminal
        } else {
            Phase::Building(0)
        }
    }

    /// What the step `op` does in the phase `phase`; `None` where the
    /// phase has no such step.
    pub open spec fn step(self, phase: Phase, op: Operation) -> Option<Transition> {
        match (phase, op) {
            (Phase::Building(n), Operation::Require) => if n < self.stages {
                let last = n + 1 == self.stages;
                Some(
                    Transition {
                        next: if last {
                            Phase::Terminal
                        } else {
                            Phase::Building((n + 1) as usize)
                        },
                        materializes: last,
                        validates: false,
                    },
                )
            } else {
                None
            },
            (Phase::Terminal, Operation::Adjust) => Some(
                Transition { next: Phase::Terminal, materializes: false, validates: false },
            ),
            (Phase::Terminal, Operation::Build) => Some(
                Transition { next: Phase::Built, materializes: false, validates: self.validate },
            ),
            (Phase::Built, Operation::Update) => if self.update {
                Some(Transition { next: Phase::Terminal, materializes: false, validates: false })
            } else {
                None
            },
            _ => None,
        }
    }

    /// The protocol of the record of `schema`.
    pub open spec fn of_schema(schema: SchemaView) -> Protocol {
        Protocol {
            stages: schema.stage_count() as usize,
            validate: schema.options.validate,
            update: schema.options.update,
        }
    }

    /// The protocol of the record of `schema`.
    pub fn of(schema: &Schema) -> (out: Protocol)
        ensures
            out == Protocol::of_schema(schema@),
            out.stages == schema@.stage_count(),
    {
        let stages = schema.stages();
        Protocol {
            stages,
            validate: schema.options().validate,
            update: schema.options().update,
        }
    }

    /// The phase in which a construction starts.
    pub fn start(&self) -> (out: Phase)
        ensures
            out == self.entry(),
    {
        if self.stages == 0 {
            Phase::Terminal
        } else {
            Phase::Building(0)
        }
    }

    /// What the step `op` does in the phase `phase`; `None` where the
    /// phase has no such step.
    pub fn advance(&self, phase: Phase, op: Operation) -> (out: Option<Transition>)
        ensures
            out == self.step(phase, op),
    {
        match (phase, op) {
            (Phase::Building(n), Operation::Require) => {
                if n < self.stages {
                    let last = n + 1 == self.stages;
                    let next = if last {
                        Phase::Terminal
                    } else {
                        Phase::Building(n + 1)
                    };
                    Some(Transition { next, materializes: last, validates: false })
                } else {
                    None
                }
            },
            (Phase::Terminal, Operation::Adjust) => Some(
                Transition { next: Phase::Terminal, materializes: false, validates: false },
            ),
            (Phase::Terminal, Operation::Build) => Some(
                Transition { next: Phase::Built, materializes: false, validates: self.validate },
            ),
            (Phase::Built, Operation::Update) => {
                if self.update {
                    Some(
                        Transition { next: Phase::Terminal, materializes: false, validates: false },
                    )
                } else {
                    None
                }
            },
            _ => None,
        }
    }
}

/// Where a construction stands after some steps, and how often a value was
/// validated on the way.
pub struct Outcome {
    pub phase: Phase,
    pub validations: nat,
}

/// The outcome of the steps `ops`, taken in their order from `phase`;
/// `None` where one of them cannot be taken.
pub open spec fn run(protocol: Protocol, phase: Phase, ops: Seq<Operation>) -> Option<Outcome>
    decreases ops.len(),
{
    if ops.len() == 0 {
        Some(Outcome { phase, validations: 0 })
    } else {
        match run(protocol, phase, ops.drop_last()) {
            Some(before) => match protocol.step(before.phase, ops.last()) {
                Some(transition) => Some(
                    Outcome {
                        phase: transition.next,
                        validations: if transition.validates {
                            before.validations + 1
                        } else {
                            before.validations
                        },
                    },
                ),
                None => None,
            },
            None => None,
        }
    }
}

/// How many of the steps are `build`.
pub open spec fn builds(ops: Seq<Operation>) -> nat
    decreases ops.len(),
{
    if ops.len() == 0 {
        0
    } else if ops.last() == Operation::Build {
        builds(ops.drop_last()) + 1
    } else {
        builds(ops.drop_last())
    }
}

/// No required field can be skipped: a construction that has left the
/// stages of the required fields has taken the setter of each of them,
/// first, and one that has not has taken nothing else.
pub proof fn law_no_stage_skipped(protocol: Protocol, ops: Seq<Operation>)
    requires
        run(protocol, protocol.entry(), ops) is Some,
    ensures
        match run(protocol, protocol.entry(), ops)->0.phase {
            Phase::Building(n) => n == ops.len() && n < protocol.stages,
            _ => ops.len() >= protocol.stages,
        },
        forall|i: int| 0 <= i < ops.len() && i < protocol.stages ==> ops[i] == Operation::Require,
    decreases ops.len(),
{
    if ops.len() > 0 {
        let front = ops.drop_last();
        law_no_stage_skipped(protocol, front);
        assert forall|i: int| 0 <= i < ops.len() && i < protocol.stages implies ops[i]
            == Operation::Require by {
            if i < front.len() {
                assert(ops[i] == front[i]);
            }
        }
    }
}

/// A value is validated by `build` alone, once for each `build`, and only
/// where the record asks for validation: no setter validates.
pub proof fn law_validation_at_build(protocol: Protocol, ops: Seq<Operation>)
    requires
        run(protocol, protocol.entry(), ops) is Some,
    ensures
        run(protocol, protocol.entry(), ops)->0.validations == if protocol.validate {
            builds(ops)
        } else {
            0
        },
        forall|phase: Phase, op: Operation|
            (#[trigger] protocol.step(phase, op)) matches Some(t) && t.validates ==> phase
                == Phase::Terminal && op == Operation::Build,
    decreases ops.len(),
{
    if ops.len() > 0 {
        law_validation_at_build(protocol, ops.drop_last());
    }
}

/// Where built values cannot be updated, a construction ends with its
/// `build`: nothing follows it, so a value is built, and validated, at most
/// once.
pub proof fn law_built_is_final(protocol: Protocol, ops: Seq<Operation>)
    requires
        !protocol.update,
        run(protocol, protocol.entry(), ops) is Some,
    ensures
        builds(ops) <= 1,
        builds(ops) == 1 <==> run(protocol, protocol.entry(), ops)->0.phase == Phase::Built,
        builds(ops) == 1 ==> ops.last() == Operation::Build,
    decreases ops.len(),
{
    if ops.len() > 0 {
        law_built_is_final(protocol, ops.drop_last());
    }
}

} // verus!
