//! Physical memory.

use vstd::prelude::*;

pub mod early;

verus! {

/// Size in bytes of one page of physical memory.
pub const PAGE_SIZE: usize = 4096;

} // verus!
