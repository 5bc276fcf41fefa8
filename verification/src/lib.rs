//! Plugin-configuration core for an event-processing pipeline.
//!
//! Component kinds (boolean predicates over events, and by the same
//! mechanism other pipeline stages) are declared in a structured
//! configuration document, selected by a string discriminator, instantiated
//! through a registry, and re-serialized back into the exact document shape
//! they were parsed from.

pub mod component;
pub mod conditions;
pub mod errors;
pub mod event;
pub mod registry;
pub mod text;
pub mod toml_text;
pub mod value;

use vstd::prelude::*;

use crate::conditions::ConditionKind;
use crate::registry::{ComponentBuilder, Registry};

verus! {

/// The explicit startup wiring: every built-in condition kind, registered
/// once, before any lookup. Registration order could not matter here or in
/// any extension: the registry keeps its entries in name order.
pub fn default_registry() -> (r: Registry)
    ensures
        r.wf(),
        r@ == seq![("static"@, ConditionKind::Static)],
{
    let mut r = Registry::new();
    let ghost empty = r@;
    proof {
        reveal_strlit("static");
    }
    let b = ComponentBuilder::new(String::from_str("static"), ConditionKind::Static);
    let res = r.register(b);
    if res.is_err() {
        return vstd::pervasive::unreached();
    }
    proof {
        let k = choose|k: int| 0 <= k <= empty.len() && r@ == empty.insert(k, ("static"@, ConditionKind::Static));
        assert(empty.insert(k, ("static"@, ConditionKind::Static)) =~= seq![
            ("static"@, ConditionKind::Static),
        ]);
    }
    r
}

} // verus!
