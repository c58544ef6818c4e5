//! Keeps [`AsRaw`](crate::AsRaw) from being implemented outside of this crate.

use vstd::prelude::*;

verus! {

/// A marker that no other crate can name.
pub trait Sealed {

}

} // verus!
