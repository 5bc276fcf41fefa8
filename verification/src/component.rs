//! The tagged configuration value and the generic component slot.
//!
//! A document fragment carries a `type` discriminator plus the kind-specific
//! fields. Deserializing looks the discriminator up in the registry, builds
//! the concrete instance, and keeps both the instance and the original
//! fragment, so serializing reproduces exactly what was parsed.

use vstd::prelude::*;

use crate::conditions::{Condition, ConditionKind};
use crate::errors::{ConfigError, ConfigErrorModel};
use crate::registry::{registry_wf, spec_find, Registry};
use crate::text::{lex_lt, str_eq};
use crate::toml_text::{parse_toml_document, parsed_document, render_toml_document, rendered_document};
use crate::value::{clone_pairs, ConfValue, ValueModel};

verus! {

/// Mathematical model of a tagged configuration value.
pub struct SwapOutModel {
    pub type_str: Seq<char>,
    pub nested: Seq<(Seq<char>, ValueModel)>,
}

/// Combines a type field and the nested kind-specific fields of one
/// configured component: the literal document fragment, never re-derived.
#[derive(Debug)]
pub struct ConfigSwapOut {
    pub type_str: String,
    pub nested: Vec<(String, ConfValue)>,
}

impl View for ConfigSwapOut {
    type V = SwapOutModel;

    open spec fn view(&self) -> SwapOutModel {
        SwapOutModel { type_str: self.type_str@, nested: self.nested.deep_view() }
    }
}

/// The first `type` value in a document table, if any.
pub open spec fn spec_find_type(pairs: Seq<(Seq<char>, ValueModel)>) -> Option<ValueModel>
    decreases pairs.len(),
{
    if pairs.len() == 0 {
        None
    } else if pairs[0].0 == "type"@ {
        Some(pairs[0].1)
    } else {
        spec_find_type(pairs.drop_first())
    }
}

/// Every pair other than the `type` discriminator, in document order.
pub open spec fn spec_non_type_pairs(pairs: Seq<(Seq<char>, ValueModel)>) -> Seq<
    (Seq<char>, ValueModel),
>
    decreases pairs.len(),
{
    if pairs.len() == 0 {
        Seq::empty()
    } else {
        let rest = spec_non_type_pairs(pairs.drop_last());
        if pairs.last().0 == "type"@ {
            rest
        } else {
            rest.push(pairs.last())
        }
    }
}

/// A table whose `type` pair comes first and nowhere else keeps exactly the
/// remaining pairs.
pub proof fn lemma_non_type_pairs_tail(pairs: Seq<(Seq<char>, ValueModel)>)
    requires
        pairs.len() > 0,
        pairs[0].0 == "type"@,
        forall|i: int| 1 <= i < pairs.len() ==> pairs[i].0 != "type"@,
    ensures
        spec_non_type_pairs(pairs) == pairs.drop_first(),
    decreases pairs.len(),
{
    if pairs.len() == 1 {
        assert(spec_non_type_pairs(pairs.drop_last()) =~= Seq::<(Seq<char>, ValueModel)>::empty());
        assert(pairs.drop_first() =~= Seq::<(Seq<char>, ValueModel)>::empty());
    } else {
        lemma_non_type_pairs_tail(pairs.drop_last());
        assert(pairs.drop_last()[0] == pairs[0]);
        assert(pairs.drop_last().drop_first().push(pairs.last()) =~= pairs.drop_first());
    }
}

/// A table without `type` keys has no `type` value to find.
pub proof fn lemma_find_type_none(pairs: Seq<(Seq<char>, ValueModel)>)
    requires
        forall|i: int| 0 <= i < pairs.len() ==> pairs[i].0 != "type"@,
    ensures
        spec_find_type(pairs) is None,
    decreases pairs.len(),
{
    if pairs.len() > 0 {
        lemma_find_type_none(pairs.drop_first());
    }
}

/// Extracting the tagged configuration value from a document table: the
/// first `type` value must be a non-empty string; every other pair becomes a
/// nested pair, in order; nothing else is rejected at this layer.
pub open spec fn spec_swap_out(pairs: Seq<(Seq<char>, ValueModel)>) -> Result<
    SwapOutModel,
    ConfigErrorModel,
> {
    match spec_find_type(pairs) {
        Option::None => Err(ConfigErrorModel::MissingTypeField),
        Option::Some(v) => match v {
            ValueModel::Str(s) => if s.len() > 0 {
                Ok(SwapOutModel { type_str: s, nested: spec_non_type_pairs(pairs) })
            } else {
                Err(ConfigErrorModel::MissingTypeField)
            },
            _ => Err(ConfigErrorModel::MissingTypeField),
        },
    }
}

/// The document table a tagged configuration value is written back as:
/// `type` first, then the nested pairs, unchanged and in order.
pub open spec fn spec_serialize_swap_out(so: SwapOutModel) -> Seq<(Seq<char>, ValueModel)> {
    seq![("type"@, ValueModel::Str(so.type_str))] + so.nested
}

impl ConfigSwapOut {
    /// Parses a document table into discriminator and nested fields.
    #[verifier::loop_isolation(false)]
    pub fn from_table(doc: &Vec<(String, ConfValue)>) -> (r: Result<ConfigSwapOut, ConfigError>)
        ensures
            match r {
                Ok(s) => spec_swap_out(doc.deep_view()) == Ok::<SwapOutModel, ConfigErrorModel>(
                    s@,
                ),
                Err(e) => spec_swap_out(doc.deep_view()) == Err::<SwapOutModel, ConfigErrorModel>(
                    e@,
                ),
            },
    {
        let ghost all = doc.deep_view();
        let mut type_str: Option<String> = None;
        let mut i: usize = 0;
        proof {
            assert(all.skip(0) =~= all);
        }
        while i < doc.len() && type_str.is_none()
            invariant
                i <= doc.len(),
                type_str is None ==> spec_find_type(all) == spec_find_type(all.skip(i as int)),
                type_str matches Some(t) ==> spec_find_type(all) == Some(ValueModel::Str(t@))
                    && t@.len() > 0,
            decreases doc.len() - i,
        {
            proof {
                assert(all.skip(i as int)[0] == all[i as int]);
                assert(all.skip(i as int).drop_first() =~= all.skip(i + 1));
            }
            if str_eq(doc[i].0.as_str(), "type") {
                match &doc[i].1 {
                    ConfValue::Str(s) => {
                        if s.as_str().unicode_len() == 0 {
                            return Err(ConfigError::MissingTypeField);
                        }
                        type_str = Some(s.clone());
                    },
                    _ => {
                        return Err(ConfigError::MissingTypeField);
                    },
                }
            }
            i = i + 1;
        }
        let t = match type_str {
            Some(t) => t,
            None => {
                proof {
                    assert(all.skip(i as int).len() == 0);
                }
                return Err(ConfigError::MissingTypeField);
            },
        };
        let mut nested: Vec<(String, ConfValue)> = Vec::new();
        let mut j: usize = 0;
        proof {
            assert(all.take(0) =~= Seq::<(Seq<char>, ValueModel)>::empty());
        }
        while j < doc.len()
            invariant
                j <= doc.len(),
                nested.deep_view() == spec_non_type_pairs(all.take(j as int)),
            decreases doc.len() - j,
        {
            proof {
                assert(all.take(j + 1).drop_last() =~= all.take(j as int));
                assert(all.take(j + 1).last() == all[j as int]);
            }
            if !str_eq(doc[j].0.as_str(), "type") {
                let k = doc[j].0.clone();
                let v = doc[j].1.deep_clone();
                nested.push((k, v));
                proof {
                    assert(nested.deep_view() =~= spec_non_type_pairs(all.take(j + 1)));
                }
            }
            j = j + 1;
        }
        proof {
            assert(all.take(doc.len() as int) =~= all);
        }
        Ok(ConfigSwapOut { type_str: t, nested })
    }

    /// Writes the tagged configuration value back as a document table.
    pub fn to_table(&self) -> (r: Vec<(String, ConfValue)>)
        ensures
            r.deep_view() == spec_serialize_swap_out(self@),
    {
        let mut out: Vec<(String, ConfValue)> = Vec::new();
        out.push((String::from_str("type"), ConfValue::Str(self.type_str.clone())));
        let mut rest = clone_pairs(&self.nested);
        out.append(&mut rest);
        proof {
            assert(out.deep_view() =~= spec_serialize_swap_out(self@));
        }
        out
    }
}

/// Mathematical model of a component slot.
pub struct SlotModel {
    pub swap_out: SwapOutModel,
    pub component: Condition,
}

/// Stores both a constructed component instance and the tagged configuration
/// value it was built from, so the configuration of a component can be echoed
/// back at runtime exactly as it was given.
#[derive(Debug)]
pub struct ComponentConfig {
    swap_out: ConfigSwapOut,
    pub component: Condition,
}

impl View for ComponentConfig {
    type V = SlotModel;

    closed spec fn view(&self) -> SlotModel {
        SlotModel { swap_out: self.swap_out@, component: self.component }
    }
}

/// What deserializing a document table returns: the slot, or the first
/// configuration error.
pub open spec fn spec_deserialize(
    reg: Seq<(Seq<char>, ConditionKind)>,
    doc: Seq<(Seq<char>, ValueModel)>,
) -> Result<SlotModel, ConfigErrorModel> {
    match spec_swap_out(doc) {
        Err(e) => Err(e),
        Ok(so) => match spec_find(reg, so.type_str) {
            Option::None => Err(ConfigErrorModel::UnrecognizedType(so.type_str)),
            Option::Some(kind) => match kind.spec_parse(so.nested) {
                Err(e) => Err(ConfigErrorModel::FailedToParse(so.type_str, e)),
                Ok(c) => Ok(SlotModel { swap_out: so, component: c }),
            },
        },
    }
}

/// What asking for a kind's example document returns.
pub open spec fn spec_example_value_for(
    reg: Seq<(Seq<char>, ConditionKind)>,
    name: Seq<char>,
) -> Result<Seq<(Seq<char>, ValueModel)>, ConfigErrorModel> {
    match spec_find(reg, name) {
        Option::None => Err(ConfigErrorModel::UnrecognizedType(name)),
        Option::Some(kind) => Ok(
            seq![("type"@, ValueModel::Str(name))] + kind.spec_example(),
        ),
    }
}

impl ComponentConfig {
    /// Deserializes a document table: extracts the discriminator, looks the
    /// kind up, parses the nested fields, and keeps both the instance and
    /// the original fragment.
    pub fn deserialize(doc: &Vec<(String, ConfValue)>, registry: &Registry) -> (r: Result<
        ComponentConfig,
        ConfigError,
    >)
        ensures
            match r {
                Ok(c) => spec_deserialize(registry@, doc.deep_view()) == Ok::<
                    SlotModel,
                    ConfigErrorModel,
                >(c@),
                Err(e) => spec_deserialize(registry@, doc.deep_view()) == Err::<
                    SlotModel,
                    ConfigErrorModel,
                >(e@),
            },
    {
        let so = match ConfigSwapOut::from_table(doc) {
            Ok(s) => s,
            Err(e) => {
                return Err(e);
            },
        };
        let kind = match registry.find(so.type_str.as_str()) {
            Some(b) => b.kind,
            None => {
                return Err(ConfigError::UnrecognizedType(so.type_str));
            },
        };
        match kind.parse(&so.nested) {
            Ok(c) => Ok(ComponentConfig { swap_out: so, component: c }),
            Err(e) => Err(ConfigError::FailedToParse(so.type_str, e)),
        }
    }

    /// The constructed instance, for the pipeline to evaluate.
    pub fn component(&self) -> (r: &Condition)
        ensures
            *r == self@.component,
    {
        &self.component
    }

    /// Serializes the slot: re-emits the stored tagged configuration value
    /// exactly; the instance is never consulted.
    pub fn serialize(&self) -> (r: Vec<(String, ConfValue)>)
        ensures
            r.deep_view() == spec_serialize_swap_out(self@.swap_out),
    {
        self.swap_out.to_table()
    }

    /// Lists every registered kind name, sorted: thin forwarding to the
    /// registry, for configuration tooling.
    pub fn types(registry: &Registry) -> (r: Vec<String>)
        requires
            registry.wf(),
        ensures
            r@.len() == registry@.len(),
            forall|i: int| 0 <= i < r@.len() ==> r@[i]@ == registry@[i].0,
            forall|i: int, j: int| 0 <= i < j < r@.len() ==> lex_lt(r@[i]@, r@[j]@),
    {
        registry.types()
    }

    /// Deserializes one component from TOML text: the text is parsed into a
    /// document table, and the table deserialized as [`Self::deserialize`]
    /// says; a configuration error is surfaced as its descriptive text.
    pub fn from_toml_str(text: &str, registry: &Registry) -> (r: Result<ComponentConfig, String>)
        ensures
            match r {
                Ok(c) => parsed_document(text@) matches Some(doc) && spec_deserialize(
                    registry@,
                    doc,
                ) == Ok::<SlotModel, ConfigErrorModel>(c@),
                Err(e) => parsed_document(text@) is None || (parsed_document(
                    text@,
                ) matches Some(doc) && spec_deserialize(registry@, doc) matches Err(m) && e@
                    == m.spec_message()),
            },
    {
        let doc = match parse_toml_document(text) {
            Ok(d) => d,
            Err(e) => {
                return Err(e);
            },
        };
        match ComponentConfig::deserialize(&doc, registry) {
            Ok(c) => Ok(c),
            Err(e) => Err(e.message()),
        }
    }

    /// Serializes the slot back to TOML text: the rendering of exactly the
    /// stored fragment, `type` first; it succeeds exactly when that table
    /// renders.
    pub fn to_toml_string(&self) -> (r: Result<String, String>)
        ensures
            r matches Ok(s) ==> rendered_document(spec_serialize_swap_out(self@.swap_out))
                == Some(s@),
            r is Err ==> rendered_document(spec_serialize_swap_out(self@.swap_out)) is None,
    {
        let table = self.serialize();
        render_toml_document(&table)
    }

    /// Builds the example document table for a registered kind.
    pub fn example_value_for(registry: &Registry, type_str: &str) -> (r: Result<
        Vec<(String, ConfValue)>,
        ConfigError,
    >)
        ensures
            match r {
                Ok(t) => spec_example_value_for(registry@, type_str@) == Ok::<
                    Seq<(Seq<char>, ValueModel)>,
                    ConfigErrorModel,
                >(t.deep_view()),
                Err(e) => spec_example_value_for(registry@, type_str@) == Err::<
                    Seq<(Seq<char>, ValueModel)>,
                    ConfigErrorModel,
                >(e@),
            },
    {
        match registry.find(type_str) {
            Some(b) => {
                let nested = b.kind.example_table();
                let so = ConfigSwapOut { type_str: type_str.to_owned(), nested };
                Ok(so.to_table())
            },
            None => Err(ConfigError::UnrecognizedType(type_str.to_owned())),
        }
    }
}

/// Round-trip law: a document table whose `type` pair comes first and
/// nowhere else, once accepted by `deserialize`, is reproduced exactly by
/// `serialize` — field order and unrecognized-but-present fields included.
pub proof fn lemma_round_trip(
    reg: Seq<(Seq<char>, ConditionKind)>,
    doc: Seq<(Seq<char>, ValueModel)>,
)
    requires
        doc.len() > 0,
        doc[0].0 == "type"@,
        forall|i: int| 1 <= i < doc.len() ==> doc[i].0 != "type"@,
        spec_deserialize(reg, doc) is Ok,
    ensures
        spec_serialize_swap_out(spec_deserialize(reg, doc)->Ok_0.swap_out) == doc,
{
    let so = spec_swap_out(doc)->Ok_0;
    assert(spec_find_type(doc) == Some(doc[0].1));
    lemma_non_type_pairs_tail(doc);
    assert(doc[0] == ("type"@, ValueModel::Str(so.type_str)));
    assert(spec_serialize_swap_out(so) =~= doc);
}

/// Unknown-kind rejection: a fragment with a well-formed discriminator that
/// names no registered kind fails as unrecognized, and so does asking for
/// its example document.
pub proof fn lemma_unknown_kind_rejected(
    reg: Seq<(Seq<char>, ConditionKind)>,
    doc: Seq<(Seq<char>, ValueModel)>,
    name: Seq<char>,
)
    requires
        spec_swap_out(doc) is Ok,
        spec_find(reg, spec_swap_out(doc)->Ok_0.type_str) is None,
        spec_find(reg, name) is None,
    ensures
        spec_deserialize(reg, doc) == Err::<SlotModel, ConfigErrorModel>(
            ConfigErrorModel::UnrecognizedType(spec_swap_out(doc)->Ok_0.type_str),
        ),
        spec_example_value_for(reg, name) == Err::<
            Seq<(Seq<char>, ValueModel)>,
            ConfigErrorModel,
        >(ConfigErrorModel::UnrecognizedType(name)),
{
}

/// Missing-discriminator rejection: a document table without a `type` pair
/// fails with the missing-type-field error, whatever the registry holds.
pub proof fn lemma_missing_type_rejected(
    reg: Seq<(Seq<char>, ConditionKind)>,
    doc: Seq<(Seq<char>, ValueModel)>,
)
    requires
        forall|i: int| 0 <= i < doc.len() ==> doc[i].0 != "type"@,
    ensures
        spec_deserialize(reg, doc) == Err::<SlotModel, ConfigErrorModel>(
            ConfigErrorModel::MissingTypeField,
        ),
{
    lemma_find_type_none(doc);
}

/// Example-generation validity: for every registered kind, the example
/// document deserializes successfully.
pub proof fn lemma_examples_deserialize(reg: Seq<(Seq<char>, ConditionKind)>, name: Seq<char>)
    requires
        registry_wf(reg),
        spec_find(reg, name) is Some,
    ensures
        spec_example_value_for(reg, name) is Ok,
        spec_deserialize(reg, spec_example_value_for(reg, name)->Ok_0) is Ok,
{
    let kind = spec_find(reg, name)->Some_0;
    let doc = spec_example_value_for(reg, name)->Ok_0;
    crate::registry::lemma_find_characterization(reg, name);
    assert(name.len() > 0);
    crate::conditions::lemma_example_has_no_type(kind);
    assert(doc[0] == ("type"@, ValueModel::Str(name)));
    assert(spec_find_type(doc) == Some(ValueModel::Str(name)));
    assert forall|i: int| 1 <= i < doc.len() implies doc[i].0 != "type"@ by {
        assert(doc[i] == kind.spec_example()[i - 1]);
    }
    lemma_non_type_pairs_tail(doc);
    assert(doc.drop_first() =~= kind.spec_example());
    let so = spec_swap_out(doc)->Ok_0;
    assert(so.type_str == name);
    assert(so.nested == kind.spec_example());
    crate::conditions::lemma_example_parses(kind);
}

} // verus!
