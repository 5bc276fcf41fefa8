//! One unit of pipeline data.
//!
//! The core never looks inside an event: conditions receive it by reference,
//! and the one kind defined here ignores it entirely. It is modelled as the
//! text it was built from.

use vstd::prelude::*;

verus! {

/// A unit of pipeline data, opaque to the configuration core.
pub struct Event {
    text: String,
}

impl View for Event {
    type V = Seq<char>;

    closed spec fn view(&self) -> Seq<char> {
        self.text@
    }
}

impl From<String> for Event {
    fn from(text: String) -> (r: Event) {
        Event { text }
    }
}

impl vstd::std_specs::convert::FromSpecImpl<String> for Event {
    open spec fn obeys_from_spec() -> bool {
        true
    }

    closed spec fn from_spec(text: String) -> Event {
        Event { text }
    }
}

} // verus!
