//! What every argument group can do: write itself out as command-line tokens,
//! and take in a second group of its kind.

use vstd::prelude::*;
use crate::text::texts;

verus! {

/// A group that can be written out as command-line tokens. The tokens are a
/// function of the group's field values alone, in an order fixed per group.
pub trait Args: View {
    /// The tokens of a group with the given field values.
    spec fn args(v: Self::V) -> Seq<Seq<char>>;

    fn to_args(&self) -> (r: Vec<String>)
        ensures
            texts(r@) == Self::args(self@),
    ;
}

/// A group that can take in another of its kind. The group merged into keeps
/// every optional value that it has and adopts the other's where it has none;
/// a flag is set if it is set in either; a list is followed by the other's.
pub trait Merge: View + Sized {
    /// The field values after a group with values `a` has taken in one with
    /// values `b`.
    spec fn merged(a: Self::V, b: Self::V) -> Self::V;

    fn merge(&mut self, other: Self)
        ensures
            final(self)@ == Self::merged(old(self)@, other@),
    ;
}

/// Writing out is deterministic: two groups with the same field values
/// have the same tokens, in the same order.
pub proof fn same_values_same_tokens<T: Args>(a: T, b: T)
    requires
        a@ == b@,
    ensures
        T::args(a@) == T::args(b@),
{
}

} // verus!
