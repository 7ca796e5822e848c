//! Feature records: small building blocks shared by several document shapes.

use vstd::prelude::*;

verus! {

/// A display name a document carries.
#[derive(Debug, Clone, PartialEq, Default)]
pub struct FeatNamed {
    pub name: String,
}

/// An upvote total a document carries.
#[derive(Debug, Clone, Copy, PartialEq, Eq, Structural, Default)]
pub struct FeatUpvotable {
    pub total_upvotes: i32,
}

} // verus!
