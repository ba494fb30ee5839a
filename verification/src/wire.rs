//! Values stored in the database as postcard bytes.

use vstd::prelude::*;

verus! {

/// A value that the database stores as its postcard serialization.
#[derive(Debug, Clone, PartialEq, Eq)]
pub struct Postcard<T>(pub T);

} // verus!
