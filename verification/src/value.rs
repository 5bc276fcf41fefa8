//! Structured configuration document values.
//!
//! A configuration document fragment is a table of string keys mapped to
//! nested values: booleans, integers, strings, arrays and tables. The
//! executable representation keeps the key/value pairs in document order, so a
//! fragment can be reproduced exactly as it was parsed.

use vstd::prelude::*;

verus! {

/// Mathematical model of a document value: the same tree over `Seq`.
pub enum ValueModel {
    Bool(bool),
    Int(i64),
    Str(Seq<char>),
    Arr(Seq<ValueModel>),
    Table(Seq<(Seq<char>, ValueModel)>),
}

/// An executable document value. A table keeps its pairs in document order;
/// nothing at this layer rejects or reorders keys.
#[derive(Debug, PartialEq)]
pub enum ConfValue {
    Bool(bool),
    Int(i64),
    Str(String),
    Arr(Vec<ConfValue>),
    Table(Vec<(String, ConfValue)>),
}

impl ConfValue {
    /// The value's mathematical model.
    pub open spec fn model(self) -> ValueModel
        decreases self,
    {
        match self {
            ConfValue::Bool(b) => ValueModel::Bool(b),
            ConfValue::Int(i) => ValueModel::Int(i),
            ConfValue::Str(s) => ValueModel::Str(s@),
            ConfValue::Arr(items) => ValueModel::Arr(
                Seq::new(
                    items@.len(),
                    |i: int|
                        if 0 <= i < items@.len() {
                            items@[i].model()
                        } else {
                            ValueModel::Bool(false)
                        },
                ),
            ),
            ConfValue::Table(pairs) => ValueModel::Table(
                Seq::new(
                    pairs@.len(),
                    |i: int|
                        if 0 <= i < pairs@.len() {
                            (pairs@[i].0@, pairs@[i].1.model())
                        } else {
                            (Seq::<char>::empty(), ValueModel::Bool(false))
                        },
                ),
            ),
        }
    }
}

impl View for ConfValue {
    type V = ValueModel;

    open spec fn view(&self) -> ValueModel {
        self.model()
    }
}

impl DeepView for ConfValue {
    type V = ValueModel;

    open spec fn deep_view(&self) -> ValueModel {
        self.model()
    }
}

impl ConfValue {
    /// Copies the value; the copy has the same model.
    #[verifier::loop_isolation(false)]
    pub fn deep_clone(&self) -> (r: ConfValue)
        ensures
            r@ == self@,
        decreases self,
    {
        match self {
            ConfValue::Bool(b) => ConfValue::Bool(*b),
            ConfValue::Int(i) => ConfValue::Int(*i),
            ConfValue::Str(s) => ConfValue::Str(s.clone()),
            ConfValue::Arr(items) => {
                let mut out: Vec<ConfValue> = Vec::new();
                let mut i: usize = 0;
                while i < items.len()
                    invariant
                        i <= items.len(),
                        out@.len() == i,
                        forall|j: int| 0 <= j < i ==> out@[j]@ == items@[j]@,
                    decreases items.len() - i,
                {
                    proof {
                        assert(self->Arr_0 == *items);
                        assert(decreases_to!(*self => self->Arr_0));
                        assert(decreases_to!(*items => items@));
                        assert(decreases_to!(items@ => items@[i as int]));
                    }
                    let c = items[i].deep_clone();
                    out.push(c);
                    i = i + 1;
                }
                proof {
                    assert(ConfValue::Arr(out)@->Arr_0 =~= self@->Arr_0);
                }
                ConfValue::Arr(out)
            },
            ConfValue::Table(pairs) => {
                let mut out: Vec<(String, ConfValue)> = Vec::new();
                let mut i: usize = 0;
                while i < pairs.len()
                    invariant
                        i <= pairs.len(),
                        out@.len() == i,
                        forall|j: int|
                            0 <= j < i ==> out@[j].0@ == pairs@[j].0@ && out@[j].1@ == pairs@[j].1@,
                    decreases pairs.len() - i,
                {
                    proof {
                        assert(self->Table_0 == *pairs);
                        assert(decreases_to!(*self => self->Table_0));
                        assert(decreases_to!(*pairs => pairs@));
                        assert(decreases_to!(pairs@ => pairs@[i as int]));
                        assert(decreases_to!(pairs@[i as int] => pairs@[i as int].1));
                    }
                    let k = pairs[i].0.clone();
                    let v = pairs[i].1.deep_clone();
                    out.push((k, v));
                    i = i + 1;
                }
                proof {
                    assert(ConfValue::Table(out)@->Table_0 =~= self@->Table_0);
                }
                ConfValue::Table(out)
            },
        }
    }
}

/// Copies a table's pairs; the copy has the same deep view.
pub fn clone_pairs(pairs: &Vec<(String, ConfValue)>) -> (r: Vec<(String, ConfValue)>)
    ensures
        r.deep_view() == pairs.deep_view(),
{
    let mut out: Vec<(String, ConfValue)> = Vec::new();
    let mut i: usize = 0;
    while i < pairs.len()
        invariant
            i <= pairs.len(),
            out@.len() == i,
            forall|j: int| 0 <= j < i ==> out@[j].0@ == pairs@[j].0@ && out@[j].1@ == pairs@[j].1@,
        decreases pairs.len() - i,
    {
        let k = pairs[i].0.clone();
        let v = pairs[i].1.deep_clone();
        out.push((k, v));
        i = i + 1;
    }
    proof {
        assert(out.deep_view() =~= pairs.deep_view());
    }
    out
}

} // verus!
