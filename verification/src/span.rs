//! Source locations.
use vstd::prelude::*;

verus! {

/// Where a token sits in the source, or where a diagnostic points to.
///
/// A location names a span of the compiler without holding one. The caller
/// keeps the spans of the macro's input in a table of its own, in the order it
/// met them.
#[derive(Clone, Copy, Debug, PartialEq, Eq, Structural)]
pub enum Location {
    /// The macro invocation as a whole. It stands in wherever nothing more
    /// exact is known.
    MixedSite,
    /// The span at this position of the caller's table.
    Input(usize),
}

impl Location {
    /// The location that `hint` gives, or the macro invocation where it gives none.
    pub open spec fn or_mixed_site(hint: Option<Location>) -> Location {
        match hint {
            Some(location) => location,
            None => Location::MixedSite,
        }
    }
}

} // verus!
