use vstd::prelude::*;

verus! {

/// The name of a browser event (for instance `click` or `load`), stored
/// verbatim: no trimming, escaping or normalization ever happens.
pub struct HtmxEvent(pub String);

/// A trigger modifier (for instance `once` or `delay:1s`), stored verbatim.
pub struct HtmxModifier(pub String);

impl View for HtmxEvent {
    type V = Seq<char>;

    open spec fn view(&self) -> Seq<char> {
        self.0@
    }
}

impl View for HtmxModifier {
    type V = Seq<char>;

    open spec fn view(&self) -> Seq<char> {
        self.0@
    }
}

} // verus!
