//! The condition capability: boolean predicates over events.
//!
//! The set of condition kinds is closed at build time, so the capability is a
//! sum type; the per-kind parse and example operations dispatch on
//! [`ConditionKind`], which is what a registry entry stores.

pub mod static_value;

use vstd::prelude::*;

use crate::errors::{SchemaError, SchemaErrorModel};
use crate::event::Event;
use crate::value::{ConfValue, ValueModel};
use crate::conditions::static_value::{
    spec_static_parse, Static, StaticConfig, static_parse_result_model,
};

verus! {

/// A constructed condition instance: one variant per registered kind.
#[derive(Debug, Clone, Copy, PartialEq, Eq, Structural)]
pub enum Condition {
    Static(Static),
}

impl Condition {
    /// What evaluating the condition returns. The constant predicate never
    /// consults the event and never fails.
    pub open spec fn spec_check(&self) -> bool {
        match self {
            Condition::Static(s) => s.spec_value(),
        }
    }

    /// Evaluates the condition against an event.
    pub fn check(&self, event: &Event) -> (r: Result<bool, String>)
        ensures
            r == Ok::<bool, String>(self.spec_check()),
    {
        match self {
            Condition::Static(s) => s.check(event),
        }
    }
}

/// The kind of a condition: selects one parse and one example operation.
#[derive(Debug, Clone, Copy, PartialEq, Eq, Structural)]
pub enum ConditionKind {
    Static,
}

impl ConditionKind {
    /// What this kind's parser returns on the given kind-specific fields.
    pub open spec fn spec_parse(self, pairs: Seq<(Seq<char>, ValueModel)>) -> Result<
        Condition,
        SchemaErrorModel,
    > {
        match self {
            ConditionKind::Static => match spec_static_parse(pairs) {
                Ok(b) => Ok(Condition::Static(Static::spec_new(StaticConfig { value: b }))),
                Err(e) => Err(e),
            },
        }
    }

    /// Parses the kind-specific fields into a condition instance.
    pub fn parse(&self, pairs: &Vec<(String, ConfValue)>) -> (r: Result<Condition, SchemaError>)
        ensures
            (match r {
                Ok(c) => self.spec_parse(pairs.deep_view()) == Ok::<Condition, SchemaErrorModel>(
                    c,
                ),
                Err(e) => self.spec_parse(pairs.deep_view()) == Err::<
                    Condition,
                    SchemaErrorModel,
                >(e@),
            }),
    {
        match self {
            ConditionKind::Static => {
                match StaticConfig::from_table(pairs) {
                    Ok(conf) => {
                        proof {
                            assert(static_parse_result_model(Ok(conf)) == Ok::<
                                bool,
                                SchemaErrorModel,
                            >(conf.value));
                        }
                        Ok(Condition::Static(Static::new(conf)))
                    },
                    Err(e) => Err(e),
                }
            },
        }
    }

    /// The canonical example fields for this kind.
    pub open spec fn spec_example(self) -> Seq<(Seq<char>, ValueModel)> {
        match self {
            ConditionKind::Static => StaticConfig::spec_example(),
        }
    }

    /// Builds the canonical example fields for this kind.
    pub fn example_table(&self) -> (r: Vec<(String, ConfValue)>)
        ensures
            r.deep_view() == self.spec_example(),
    {
        match self {
            ConditionKind::Static => StaticConfig::example_table(),
        }
    }
}

/// Every kind's canonical example parses back successfully: examples are
/// always self-consistent configurations.
pub proof fn lemma_example_parses(kind: ConditionKind)
    ensures
        kind.spec_parse(kind.spec_example()) is Ok,
{
    static_value::lemma_static_example_parses();
}

/// Constant-predicate law: the condition built from a configured boolean
/// evaluates to exactly that boolean; the event plays no part, since
/// [`Condition::spec_check`] does not depend on it.
pub proof fn lemma_constant_predicate(b: bool)
    ensures
        Condition::Static(Static::spec_new(StaticConfig { value: b })).spec_check() == b,
{
    Static::lemma_spec_new(StaticConfig { value: b });
}

/// No kind's example fields carry a `type` key: the discriminator belongs to
/// the tagged-value layer, not to a kind's own schema.
pub proof fn lemma_example_has_no_type(kind: ConditionKind)
    ensures
        forall|i: int|
            0 <= i < kind.spec_example().len() ==> (#[trigger] kind.spec_example()[i]).0
                != "type"@,
{
    reveal_strlit("type");
    reveal_strlit("value");
    assert("value"@.len() == 5);
    assert("type"@.len() == 4);
    assert forall|i: int| 0 <= i < kind.spec_example().len() implies (#[trigger] kind.spec_example()[
        i
    ]).0 != "type"@ by {
        assert(kind.spec_example()[i].0 == "value"@);
    }
}

} // verus!
