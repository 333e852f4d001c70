use vstd::prelude::*;

pub mod align;
pub mod frame;
pub mod sbt;
pub mod accel;
pub mod transfer;
pub mod swapchain;
pub mod descriptor;
pub mod surface;
pub mod device;
pub mod image;
pub mod shader;
pub mod mesh;

verus! {

/// Sum of two sizes.
pub fn add(left: usize, right: usize) -> (r: usize)
    requires
        left + right <= usize::MAX,
    ensures
        r == left + right,
{
    left + right
}

} // verus!
