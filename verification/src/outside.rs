//! The types of other crates that pass through this one.

use vstd::prelude::*;

verus! {

/// `image::ImageError`: why an image could not be read. Nothing is known of
/// what is inside; its text is what `Display` gives.
#[verifier::external_type_specification]
#[verifier::external_body]
pub struct ExImageError(image::ImageError);

} // verus!
