//! Badge image URLs attached to a clan.

use vstd::prelude::*;

verus! {

/// The badge image of a clan in three sizes.
pub struct BadgeUrls {
    pub small: String,
    pub large: String,
    pub medium: String,
}

} // verus!
