//! The constant predicate: a condition configured with one boolean, returned
//! for every event.

use vstd::prelude::*;

use crate::errors::{SchemaError, SchemaErrorModel};
use crate::event::Event;
use crate::text::str_eq;
use crate::value::{ConfValue, ValueModel};

verus! {

/// Configuration schema of the constant predicate: one required boolean
/// field, `value`; any other field is rejected.
#[derive(Debug, Clone, Copy, PartialEq, Eq, Structural)]
pub struct StaticConfig {
    pub value: bool,
}

/// The constant predicate itself.
#[derive(Debug, Clone, Copy, PartialEq, Eq, Structural)]
pub struct Static {
    conf: StaticConfig,
}

impl Static {
    /// The boolean this predicate was configured with.
    pub closed spec fn spec_value(&self) -> bool {
        self.conf.value
    }

    /// The predicate built from a configuration.
    pub closed spec fn spec_new(conf: StaticConfig) -> Static {
        Static { conf }
    }

    /// A freshly built predicate holds the configured boolean.
    pub broadcast proof fn lemma_spec_new(conf: StaticConfig)
        ensures
            (#[trigger] Static::spec_new(conf)).spec_value() == conf.value,
    {
    }

    /// Builds the predicate from its configuration.
    pub fn new(conf: StaticConfig) -> (r: Static)
        ensures
            r == Static::spec_new(conf),
            r.spec_value() == conf.value,
    {
        Static { conf }
    }

    /// Evaluates the predicate: the configured boolean, for every event, and
    /// never an error.
    pub fn check(&self, _event: &Event) -> (r: Result<bool, String>)
        ensures
            r == Ok::<bool, String>(self.spec_value()),
    {
        Ok(self.conf.value)
    }
}

/// One step of reading the kind-specific fields left to right: `found` holds
/// the `value` field seen so far.
pub open spec fn static_scan(pairs: Seq<(Seq<char>, ValueModel)>, found: Option<bool>) -> Result<
    bool,
    SchemaErrorModel,
>
    decreases pairs.len(),
{
    if pairs.len() == 0 {
        match found {
            Some(b) => Ok(b),
            None => Err(SchemaErrorModel::MissingField("value"@)),
        }
    } else {
        let k = pairs[0].0;
        if k != "value"@ {
            Err(SchemaErrorModel::UnknownField(k))
        } else if found is Some {
            Err(SchemaErrorModel::DuplicateField("value"@))
        } else {
            match pairs[0].1 {
                ValueModel::Bool(b) => static_scan(pairs.drop_first(), Some(b)),
                _ => Err(SchemaErrorModel::WrongType("value"@)),
            }
        }
    }
}

/// What parsing the constant predicate's fields returns: the configured
/// boolean, or the first schema error in document order.
pub open spec fn spec_static_parse(pairs: Seq<(Seq<char>, ValueModel)>) -> Result<
    bool,
    SchemaErrorModel,
> {
    static_scan(pairs, None)
}

/// The model of an executable parse result.
pub open spec fn static_parse_result_model(r: Result<StaticConfig, SchemaError>) -> Result<
    bool,
    SchemaErrorModel,
> {
    match r {
        Ok(c) => Ok(c.value),
        Err(e) => Err(e@),
    }
}

impl StaticConfig {
    /// Parses the kind-specific fields of the constant predicate. The schema
    /// is strict: exactly one `value` field holding a boolean.
    #[verifier::loop_isolation(false)]
    pub fn from_table(pairs: &Vec<(String, ConfValue)>) -> (r: Result<StaticConfig, SchemaError>)
        ensures
            static_parse_result_model(r) == spec_static_parse(pairs.deep_view()),
    {
        let ghost all = pairs.deep_view();
        let mut found: Option<bool> = None;
        let mut i: usize = 0;
        proof {
            assert(all.skip(0) =~= all);
        }
        while i < pairs.len()
            invariant
                i <= pairs.len(),
                static_scan(all, None) == static_scan(all.skip(i as int), found),
            decreases pairs.len() - i,
        {
            proof {
                assert(all.skip(i as int)[0] == all[i as int]);
                assert(all.skip(i as int).drop_first() =~= all.skip(i + 1));
            }
            if !str_eq(pairs[i].0.as_str(), "value") {
                return Err(SchemaError::UnknownField(pairs[i].0.clone()));
            }
            if found.is_some() {
                return Err(SchemaError::DuplicateField(String::from_str("value")));
            }
            match &pairs[i].1 {
                ConfValue::Bool(b) => {
                    found = Some(*b);
                },
                _ => {
                    return Err(SchemaError::WrongType(String::from_str("value")));
                },
            }
            i = i + 1;
        }
        proof {
            assert(all.skip(i as int).len() == 0);
        }
        match found {
            Some(b) => Ok(StaticConfig { value: b }),
            None => Err(SchemaError::MissingField(String::from_str("value"))),
        }
    }

    /// The canonical example fields for this kind.
    pub open spec fn spec_example() -> Seq<(Seq<char>, ValueModel)> {
        seq![("value"@, ValueModel::Bool(false))]
    }

    /// Builds the canonical example fields: `value = false`.
    pub fn example_table() -> (r: Vec<(String, ConfValue)>)
        ensures
            r.deep_view() == StaticConfig::spec_example(),
    {
        let mut out: Vec<(String, ConfValue)> = Vec::new();
        out.push((String::from_str("value"), ConfValue::Bool(false)));
        proof {
            assert(out.deep_view() =~= StaticConfig::spec_example());
        }
        out
    }
}

/// The canonical example fields parse back to the constant-false predicate.
pub proof fn lemma_static_example_parses()
    ensures
        spec_static_parse(StaticConfig::spec_example()) == Ok::<bool, SchemaErrorModel>(false),
{
    let ex = StaticConfig::spec_example();
    assert(ex.drop_first() =~= Seq::<(Seq<char>, ValueModel)>::empty());
    assert(static_scan(ex.drop_first(), Some(false)) == Ok::<bool, SchemaErrorModel>(false));
}

} // verus!
