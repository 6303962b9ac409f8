use vstd::prelude::*;

pub mod device;
pub mod queue;
pub mod resources;
pub mod state;
pub mod swapchain;
pub mod sync;
pub mod version;

verus! {

} // verus!
