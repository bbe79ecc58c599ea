//! Access to the search key of a builder.
use super::SearchKey;
use vstd::prelude::*;

verus! {

/// Gives access to the search key of a builder.
pub trait SearchKeyBuilderExt: Sized {
    /// The search key.
    spec fn spec_key(&self) -> SearchKey;

    /// Everything but the search key: the builder with its key set back to the default.
    spec fn spec_rest(&self) -> Self;

    /// The search key.
    fn get_key(&self) -> (r: SearchKey)
        ensures
            r == self.spec_key(),
    ;

    /// Replaces the search key.
    fn set_key(&mut self, key: SearchKey)
        ensures
            final(self).spec_key() == key,
            final(self).spec_rest() == old(self).spec_rest(),
    ;
}

} // verus!
