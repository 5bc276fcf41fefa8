//! The registry: discovery and dispatch for the condition capability.
//!
//! A process-wide, append-only table mapping a kind name to the kind's
//! operations. It is populated once, by explicit registration calls at
//! startup, before any lookup; entries are kept in strictly increasing name
//! order, so listing the kinds is reproducible and a duplicate name is
//! impossible by construction.

use vstd::prelude::*;

use crate::conditions::ConditionKind;
use crate::errors::{ConfigError, ConfigErrorModel};
use crate::text::{
    lemma_lex_lt_transitive, lemma_lex_lt_trichotomy, lex_lt, str_eq, str_lt,
};

verus! {

/// One registry entry: a kind name and the kind whose operations it selects.
pub struct ComponentBuilder {
    pub name: String,
    pub kind: ConditionKind,
}

impl View for ComponentBuilder {
    type V = (Seq<char>, ConditionKind);

    open spec fn view(&self) -> (Seq<char>, ConditionKind) {
        (self.name@, self.kind)
    }
}

impl ComponentBuilder {
    /// Builds a registry entry for one kind.
    pub fn new(name: String, kind: ConditionKind) -> (r: ComponentBuilder)
        ensures
            r@ == (name@, kind),
    {
        ComponentBuilder { name, kind }
    }
}

/// A well-formed registry: names strictly increasing (hence unique) and
/// never empty.
pub open spec fn registry_wf(reg: Seq<(Seq<char>, ConditionKind)>) -> bool {
    &&& forall|i: int, j: int| 0 <= i < j < reg.len() ==> lex_lt(reg[i].0, reg[j].0)
    &&& forall|i: int| 0 <= i < reg.len() ==> reg[i].0.len() > 0
}

/// The first entry registered under the name, if any.
pub open spec fn spec_find(reg: Seq<(Seq<char>, ConditionKind)>, name: Seq<char>) -> Option<
    ConditionKind,
>
    decreases reg.len(),
{
    if reg.len() == 0 {
        None
    } else if reg[0].0 == name {
        Some(reg[0].1)
    } else {
        spec_find(reg.drop_first(), name)
    }
}

/// A name is found exactly when some entry carries it.
pub proof fn lemma_find_characterization(reg: Seq<(Seq<char>, ConditionKind)>, name: Seq<char>)
    ensures
        (spec_find(reg, name) is Some) <==> exists|i: int| 0 <= i < reg.len() && reg[i].0 == name,
        spec_find(reg, name) matches Some(k) ==> exists|i: int|
            0 <= i < reg.len() && reg[i] == (name, k),
    decreases reg.len(),
{
    if reg.len() > 0 {
        lemma_find_characterization(reg.drop_first(), name);
        if reg[0].0 != name {
            if spec_find(reg.drop_first(), name) is Some {
                let i = choose|i: int|
                    0 <= i < reg.drop_first().len() && reg.drop_first()[i].0 == name;
                assert(reg[i + 1].0 == name);
            }
            if exists|i: int| 0 <= i < reg.len() && reg[i].0 == name {
                let i = choose|i: int| 0 <= i < reg.len() && reg[i].0 == name;
                assert(reg.drop_first()[i - 1].0 == name);
            }
            if spec_find(reg.drop_first(), name) is Some {
                let k = spec_find(reg.drop_first(), name)->Some_0;
                let i = choose|i: int|
                    0 <= i < reg.drop_first().len() && reg.drop_first()[i] == (name, k);
                assert(reg[i + 1] == (name, k));
            }
        }
    }
}

/// The registry for one capability's set of pluggable kinds.
pub struct Registry {
    entries: Vec<ComponentBuilder>,
}

impl View for Registry {
    type V = Seq<(Seq<char>, ConditionKind)>;

    closed spec fn view(&self) -> Seq<(Seq<char>, ConditionKind)> {
        Seq::new(self.entries@.len(), |i: int| self.entries@[i]@)
    }
}

impl Registry {
    /// The registry invariant: see [`registry_wf`].
    pub open spec fn wf(&self) -> bool {
        registry_wf(self@)
    }

    /// An empty registry, before any kind registers itself.
    pub fn new() -> (r: Registry)
        ensures
            r@ == Seq::<(Seq<char>, ConditionKind)>::empty(),
            r.wf(),
    {
        let r = Registry { entries: Vec::new() };
        proof {
            assert(r@ =~= Seq::<(Seq<char>, ConditionKind)>::empty());
        }
        r
    }

    /// Registers one kind. Fails if the name is empty or already taken;
    /// otherwise the entry is added at its place in name order and every
    /// earlier entry is kept.
    #[verifier::loop_isolation(false)]
    pub fn register(&mut self, builder: ComponentBuilder) -> (r: Result<(), ConfigError>)
        requires
            old(self).wf(),
        ensures
            final(self).wf(),
            match r {
                Ok(()) => {
                    &&& builder.name@.len() > 0
                    &&& spec_find(old(self)@, builder.name@) is None
                    &&& exists|k: int|
                        0 <= k <= old(self)@.len() && final(self)@ == old(self)@.insert(
                            k,
                            builder@,
                        )
                },
                Err(e) => {
                    &&& *final(self) == *old(self)
                    &&& (e@ == ConfigErrorModel::EmptyKindName && builder.name@.len() == 0 || e@
                        == ConfigErrorModel::DuplicateKind(builder.name@) && builder.name@.len()
                        > 0 && spec_find(old(self)@, builder.name@) is Some)
                },
            },
    {
        if builder.name.as_str().unicode_len() == 0 {
            return Err(ConfigError::EmptyKindName);
        }
        let ghost reg = self@;
        let ghost bname = builder.name@;
        let n = self.entries.len();
        proof {
            assert(reg.len() == n);
        }
        let mut i: usize = 0;
        while i < n && str_lt(self.entries[i].name.as_str(), builder.name.as_str())
            invariant
                i <= n,
                forall|j: int| 0 <= j < i ==> lex_lt(reg[j].0, bname),
            decreases n - i,
        {
            i = i + 1;
        }
        if i < n && str_eq(self.entries[i].name.as_str(), builder.name.as_str()) {
            proof {
                assert(reg[i as int].0 == bname);
                lemma_find_characterization(reg, bname);
            }
            return Err(ConfigError::DuplicateKind(builder.name.clone()));
        }
        proof {
            if i < n {
                lemma_lex_lt_trichotomy(reg[i as int].0, bname);
                assert(lex_lt(bname, reg[i as int].0));
            }
            assert forall|j: int| 0 <= j < reg.len() implies reg[j].0 != bname by {
                lemma_lex_lt_trichotomy(reg[j].0, bname);
                if j >= i {
                    if j > i {
                        assert(lex_lt(reg[i as int].0, reg[j].0));
                        lemma_lex_lt_transitive(bname, reg[i as int].0, reg[j].0);
                    }
                }
            }
            lemma_find_characterization(reg, bname);
            assert(spec_find(reg, bname) is None);
            assert forall|m: int| i <= m < reg.len() implies lex_lt(bname, reg[m].0) by {
                if m > i {
                    lemma_lex_lt_transitive(bname, reg[i as int].0, reg[m].0);
                }
            }
        }
        self.entries.insert(i, builder);
        proof {
            let new_reg = self@;
            assert(new_reg =~= reg.insert(i as int, builder@));
            assert forall|p: int, q: int| 0 <= p < q < new_reg.len() implies lex_lt(
                new_reg[p].0,
                new_reg[q].0,
            ) by {
                if p < i && q == i {
                    assert(new_reg[q].0 == bname);
                } else if p < i && q > i {
                    lemma_lex_lt_transitive(new_reg[p].0, bname, new_reg[q].0);
                } else if p == i && q > i {
                    assert(new_reg[q].0 == reg[q - 1].0);
                }
            }
        }
        Ok(())
    }

    /// Lists every registered kind name, in strictly increasing
    /// lexicographic order: complete, sorted, without duplicates.
    #[verifier::loop_isolation(false)]
    pub fn types(&self) -> (r: Vec<String>)
        requires
            self.wf(),
        ensures
            r@.len() == self@.len(),
            forall|i: int| 0 <= i < r@.len() ==> r@[i]@ == self@[i].0,
            forall|i: int, j: int| 0 <= i < j < r@.len() ==> lex_lt(r@[i]@, r@[j]@),
    {
        let mut out: Vec<String> = Vec::new();
        let mut i: usize = 0;
        while i < self.entries.len()
            invariant
                i <= self.entries.len(),
                out@.len() == i,
                forall|j: int| 0 <= j < i ==> out@[j]@ == self@[j].0,
            decreases self.entries.len() - i,
        {
            let name = self.entries[i].name.clone();
            out.push(name);
            i = i + 1;
        }
        out
    }

    /// Looks up the entry registered under the name: exact match only.
    #[verifier::loop_isolation(false)]
    pub fn find(&self, name: &str) -> (r: Option<&ComponentBuilder>)
        ensures
            match r {
                Some(b) => spec_find(self@, name@) == Some(b.kind) && b.name@ == name@,
                None => spec_find(self@, name@) is None,
            },
    {
        let ghost reg = self@;
        let mut i: usize = 0;
        proof {
            assert(reg.skip(0) =~= reg);
        }
        while i < self.entries.len()
            invariant
                i <= self.entries.len(),
                spec_find(reg, name@) == spec_find(reg.skip(i as int), name@),
            decreases self.entries.len() - i,
        {
            proof {
                assert(reg.skip(i as int)[0] == reg[i as int]);
                assert(reg.skip(i as int).drop_first() =~= reg.skip(i + 1));
            }
            if str_eq(self.entries[i].name.as_str(), name) {
                return Some(&self.entries[i]);
            }
            i = i + 1;
        }
        proof {
            assert(reg.skip(i as int).len() == 0);
        }
        None
    }
}

} // verus!
