use vstd::prelude::*;

pub mod error;
pub mod resources;
pub mod settings;
pub mod thread_context;
pub mod version;
pub mod vulkan;

pub use error::RendererError;
pub use resources::{BufferUsage, GpuBuffer, PipelineHandle, ResourceBinding, ResourceBindingType};
pub use settings::{FeatureRequest, Settings};

verus! {

/// Represents the result of a renderer operation.
pub type RendererResult<T> = Result<T, RendererError>;

/// Gets the maximum number of threads that can execute concurrently.
pub fn max_concurrent_threads() -> (n: usize)
    ensures
        n == thread_context::THREAD_CONTEXT_COUNT,
{
    thread_context::thread_context_count()
}

} // verus!
