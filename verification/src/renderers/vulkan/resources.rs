use vstd::prelude::*;

use crate::renderers::resources::{BufferUsage, GpuBuffer, ResourceBinding, ResourceBindingType};
use crate::renderers::vulkan::queue::QueueType;
use crate::renderers::{RendererError, RendererResult};

verus! {

#[verifier::external_type_specification]
#[verifier::external_body]
pub struct ExVkBuffer(ash::vk::Buffer);

#[verifier::external_type_specification]
#[verifier::external_body]
pub struct ExVmaAllocation(vk_mem::Allocation);

/// An opaque handle to a compute pipeline.
#[derive(Debug, Clone, Copy, PartialEq, Eq, Structural)]
pub struct VulkanComputePipelineHandle {
    /// Address of the pipeline instance.
    pub(crate) ptr: usize,
    /// Position of the current pipeline within the internal pipeline list. This is used for
    /// validating the handle.
    pub(crate) index: usize,
}

impl VulkanComputePipelineHandle {
    /// The address the handle names.
    pub closed spec fn address(self) -> usize {
        self.ptr
    }

    /// The list position the handle names.
    pub closed spec fn position(self) -> usize {
        self.index
    }

    /// Creates a handle to the pipeline at `index`, stored at address `ptr`.
    pub fn new(ptr: usize, index: usize) -> (h: Self)
        ensures
            h.address() == ptr,
            h.position() == index,
    {
        VulkanComputePipelineHandle { ptr, index }
    }

    /// The position of the pipeline within the pipeline list.
    pub fn index(&self) -> (i: usize)
        ensures
            i == self.position(),
    {
        self.index
    }
}

/// An opaque handle to a graphics pipeline.
#[derive(Debug, Clone, Copy)]
pub struct VulkanGraphicsPipelineHandle {}

/// Represents a Vulkan graphics pipeline.
#[derive(Debug, Clone, Copy)]
pub struct VulkanGraphicsPipeline {}

/// Represents a Vulkan buffer.
#[derive(Debug, Copy, Clone)]
pub struct VulkanBuffer {
    /// The Vulkan buffer.
    pub(crate) buffer: ash::vk::Buffer,
    /// The memory allocation.
    pub(crate) vma_allocation: vk_mem::Allocation,
    /// The size of the buffer in bytes.
    pub(crate) size: usize,
}

impl VulkanBuffer {
    /// The size of the buffer in bytes.
    pub closed spec fn spec_size(self) -> usize {
        self.size
    }

    /// The Vulkan buffer handle it holds.
    pub closed spec fn spec_buffer(self) -> ash::vk::Buffer {
        self.buffer
    }

    /// The memory allocation it holds.
    pub closed spec fn spec_allocation(self) -> vk_mem::Allocation {
        self.vma_allocation
    }

    /// Wraps a created buffer and its allocation.
    pub fn new(buffer: ash::vk::Buffer, vma_allocation: vk_mem::Allocation, size: usize) -> (b: Self)
        ensures
            b.spec_size() == size,
            b.spec_buffer() == buffer,
            b.spec_allocation() == vma_allocation,
    {
        VulkanBuffer { buffer, vma_allocation, size }
    }

    /// The Vulkan buffer.
    pub fn buffer(&self) -> (b: ash::vk::Buffer)
        ensures
            b == self.spec_buffer(),
    {
        self.buffer
    }

    /// The memory allocation.
    pub fn allocation(&self) -> (a: vk_mem::Allocation)
        ensures
            a == self.spec_allocation(),
    {
        self.vma_allocation
    }

    /// Gives mutable access to the memory allocation, for freeing it.
    pub fn allocation_mut(&mut self) -> (a: &mut vk_mem::Allocation)
        ensures
            *a == old(self).spec_allocation(),
            final(self).spec_allocation() == *final(a),
            final(self).spec_buffer() == old(self).spec_buffer(),
            final(self).spec_size() == old(self).spec_size(),
    {
        &mut self.vma_allocation
    }

    /// Marks the buffer as freed: its size becomes `0`.
    pub fn clear_size(&mut self)
        ensures
            final(self).spec_size() == 0,
            final(self).spec_buffer() == old(self).spec_buffer(),
            final(self).spec_allocation() == old(self).spec_allocation(),
    {
        self.size = 0;
    }
}

impl GpuBuffer for VulkanBuffer {
    open spec fn byte_size(&self) -> usize {
        self.spec_size()
    }

    fn size(&self) -> (s: usize)
        ensures
            s == self.spec_size(),
    {
        self.size
    }
}

/// Represents a recorded Vulkan command.
#[derive(Debug, Copy, Clone, PartialEq, Eq, Structural)]
pub struct VulkanRecordedCommand {
    pub(crate) queue_type: QueueType,
    pub(crate) frame_index: u32,
    pub(crate) thread_context_index: usize,
}

impl VulkanRecordedCommand {
    /// The queue the command was recorded for.
    pub closed spec fn spec_queue_type(self) -> QueueType {
        self.queue_type
    }

    /// The frame the command was recorded in.
    pub closed spec fn spec_frame_index(self) -> u32 {
        self.frame_index
    }

    /// The context index of the recording thread.
    pub closed spec fn spec_thread_context_index(self) -> usize {
        self.thread_context_index
    }

    /// A command recorded for `queue_type` in frame `frame_index` by the thread
    /// with context `thread_context_index`.
    pub fn new(queue_type: QueueType, frame_index: u32, thread_context_index: usize) -> (c: Self)
        ensures
            c.spec_queue_type() == queue_type,
            c.spec_frame_index() == frame_index,
            c.spec_thread_context_index() == thread_context_index,
    {
        VulkanRecordedCommand { queue_type, frame_index, thread_context_index }
    }

    /// The queue the command was recorded for.
    pub fn queue_type(&self) -> (q: QueueType)
        ensures
            q == self.spec_queue_type(),
    {
        self.queue_type
    }

    /// The frame the command was recorded in.
    pub fn frame_index(&self) -> (f: u32)
        ensures
            f == self.spec_frame_index(),
    {
        self.frame_index
    }

    /// The context index of the recording thread.
    pub fn thread_context_index(&self) -> (t: usize)
        ensures
            t == self.spec_thread_context_index(),
    {
        self.thread_context_index
    }
}

/// The commands of `commands` recorded for `queue_type`, in order.
pub open spec fn queue_commands(commands: Seq<VulkanRecordedCommand>, queue_type: QueueType) -> Seq<
    VulkanRecordedCommand,
>
    decreases commands.len(),
{
    if commands.len() == 0 {
        Seq::empty()
    } else {
        let prev = queue_commands(commands.drop_last(), queue_type);
        if commands.last().spec_queue_type() == queue_type {
            prev.push(commands.last())
        } else {
            prev
        }
    }
}

/// Whether all commands belong to the same frame.
pub open spec fn same_frame(commands: Seq<VulkanRecordedCommand>) -> bool {
    forall|i: int| 0 <= i < commands.len() ==> #[trigger] commands[i].spec_frame_index() == commands[0].spec_frame_index()
}

/// Selects the recorded commands that are submitted to a queue: those recorded
/// for its type, which must all belong to one frame. Returns that frame and
/// the recording threads' context indices in order, or `None` when no command
/// is for this queue.
pub fn commands_for_queue(commands: &[VulkanRecordedCommand], queue_type: QueueType) -> (r:
    RendererResult<Option<(u32, Vec<usize>)>>)
    ensures
        ({
            let q = queue_commands(commands@, queue_type);
            &&& r is Err <==> !same_frame(q)
            &&& r is Err ==> (r matches Err(RendererError::InvalidArgument(m)) && m@
                == "All recorded commands for a queue must belong to the same frame."@)
            &&& r matches Ok(None) ==> q.len() == 0
            &&& r matches Ok(Some((frame, threads))) ==> {
                &&& q.len() > 0
                &&& frame == q[0].spec_frame_index()
                &&& threads@ == q.map_values(|c: VulkanRecordedCommand| c.spec_thread_context_index())
            }
        }),
{
    let mut frame: Option<u32> = None;
    let mut threads: Vec<usize> = Vec::new();
    let mut i: usize = 0;
    while i < commands.len()
        invariant
            i <= commands@.len(),
            ({
                let q = queue_commands(commands@.take(i as int), queue_type);
                &&& same_frame(q)
                &&& frame is None <==> q.len() == 0
                &&& frame matches Some(f) ==> f == q[0].spec_frame_index()
                &&& threads@ == q.map_values(|c: VulkanRecordedCommand| c.spec_thread_context_index())
            }),
        decreases commands@.len() - i,
    {
        proof {
            assert(commands@.take(i + 1).drop_last() =~= commands@.take(i as int));
            assert(commands@.take(i + 1).last() == commands@[i as int]);
        }
        let ghost q_before = queue_commands(commands@.take(i as int), queue_type);
        let command = commands[i];
        if command.queue_type == queue_type {
            match frame {
                None => {
                    frame = Some(command.frame_index);
                },
                Some(f) => {
                    if f != command.frame_index {
                        proof {
                            lemma_queue_commands_prefix(commands@, queue_type, i + 1, commands@.len() as int);
                            assert(commands@.take(commands@.len() as int) =~= commands@);
                            let q = queue_commands(commands@, queue_type);
                            let q1 = queue_commands(commands@.take(i + 1), queue_type);
                            assert(q1.len() > 0);
                            assert(q1 == q_before.push(command));
                            assert(q1[q1.len() - 1].spec_frame_index() != q1[0].spec_frame_index());
                            assert(q[q1.len() - 1] == q1[q1.len() - 1]);
                            assert(q[0] == q1[0]);
                        }
                        return Err(
                            RendererError::invalid_argument(
                                "All recorded commands for a queue must belong to the same frame.",
                            ),
                        );
                    }
                },
            }
            threads.push(command.thread_context_index);
            proof {
                let q1 = queue_commands(commands@.take(i + 1), queue_type);
                assert(q1 == q_before.push(command));
                assert(threads@ =~= q1.map_values(|c: VulkanRecordedCommand| c.spec_thread_context_index()));
            }
        }
        i = i + 1;
    }
    proof {
        assert(commands@.take(commands@.len() as int) =~= commands@);
    }
    match frame {
        None => Ok(None),
        Some(f) => Ok(Some((f, threads))),
    }
}

/// Filtering a prefix gives a prefix of the filtered sequence.
proof fn lemma_queue_commands_prefix(
    commands: Seq<VulkanRecordedCommand>,
    queue_type: QueueType,
    i: int,
    n: int,
)
    requires
        0 <= i <= n <= commands.len(),
    ensures
        queue_commands(commands.take(i), queue_type).len() <= queue_commands(
            commands.take(n),
            queue_type,
        ).len(),
        forall|k: int|
            0 <= k < queue_commands(commands.take(i), queue_type).len() ==> #[trigger] queue_commands(
                commands.take(i),
                queue_type,
            )[k] == queue_commands(commands.take(n), queue_type)[k],
    decreases n - i,
{
    if i < n {
        lemma_queue_commands_prefix(commands, queue_type, i, n - 1);
        assert(commands.take(n).drop_last() =~= commands.take(n - 1));
    }
    if n == commands.len() {
        assert(commands.take(n) =~= commands);
    }
}

/// Whether the binding's range ends past its buffer.
pub open spec fn binding_exceeds<B: GpuBuffer>(binding: ResourceBinding<B>) -> bool {
    match binding.resource {
        ResourceBindingType::Buffer { handle, offset, size, .. } => offset + size
            > handle.byte_size(),
    }
}

/// Whether the binding's range end fits a `usize`.
pub open spec fn binding_end_fits<B: GpuBuffer>(binding: ResourceBinding<B>) -> bool {
    match binding.resource {
        ResourceBindingType::Buffer { offset, size, .. } => offset + size <= usize::MAX,
    }
}

/// Checks that every binding's range lies within its buffer.
pub fn check_binding_ranges<B: GpuBuffer>(bindings: &[ResourceBinding<B>]) -> (r: RendererResult<()>)
    requires
        forall|i: int|
            0 <= i < bindings@.len() && (forall|j: int|
                0 <= j < i ==> !binding_exceeds(#[trigger] bindings@[j])) ==> binding_end_fits(
                #[trigger] bindings@[i],
            ),
    ensures
        r is Err <==> exists|i: int| 0 <= i < bindings@.len() && binding_exceeds(bindings@[i]),
        r is Err ==> (r matches Err(RendererError::InvalidArgument(m)) && m@
            == "Buffer overflow when binding resources."@),
{
    let mut i: usize = 0;
    while i < bindings.len()
        invariant
            i <= bindings@.len(),
            forall|j: int| 0 <= j < i ==> !binding_exceeds(#[trigger] bindings@[j]),
            forall|k: int|
                0 <= k < bindings@.len() && (forall|j: int|
                    0 <= j < k ==> !binding_exceeds(#[trigger] bindings@[j])) ==> binding_end_fits(
                    #[trigger] bindings@[k],
                ),
        decreases bindings@.len() - i,
    {
        let binding = bindings[i];
        assert(binding_end_fits(bindings@[i as int]));
        match binding.resource {
            ResourceBindingType::Buffer { handle, offset, size, .. } => {
                if offset + size > handle.size() {
                    return Err(
                        RendererError::invalid_argument("Buffer overflow when binding resources."),
                    );
                }
            },
        }
        i = i + 1;
    }
    Ok(())
}

/// The kinds of descriptors that bind buffers.
#[derive(Debug, Clone, Copy, PartialEq, Eq, Structural)]
pub enum DescriptorKind {
    UniformBuffer,
    StorageBuffer,
}

/// Whether the binding's usage can be bound as a descriptor.
pub open spec fn binding_usage_bindable<B: GpuBuffer>(binding: ResourceBinding<B>) -> bool {
    match binding.resource {
        ResourceBindingType::Buffer { usage, .. } => usage == BufferUsage::Storage || usage
            == BufferUsage::Uniform,
    }
}

/// The descriptor kind of a bindable binding.
pub open spec fn binding_kind<B: GpuBuffer>(binding: ResourceBinding<B>) -> DescriptorKind {
    match binding.resource {
        ResourceBindingType::Buffer { usage, .. } => if usage == BufferUsage::Storage {
            DescriptorKind::StorageBuffer
        } else {
            DescriptorKind::UniformBuffer
        },
    }
}

/// Whether the binding fails validation.
pub open spec fn binding_invalid<B: GpuBuffer>(binding: ResourceBinding<B>) -> bool {
    binding_exceeds(binding) || !binding_usage_bindable(binding)
}

/// Plans the descriptor writes of a set of bindings: for each binding, in
/// order, its binding number and descriptor kind. The first binding whose
/// range ends past its buffer, or whose usage is neither storage nor uniform,
/// fails the whole set.
pub fn plan_descriptor_writes<B: GpuBuffer>(bindings: &[ResourceBinding<B>]) -> (r: RendererResult<
    Vec<(u32, DescriptorKind)>,
>)
    requires
        forall|i: int|
            0 <= i < bindings@.len() && (forall|j: int|
                0 <= j < i ==> !binding_invalid(#[trigger] bindings@[j])) ==> binding_end_fits(
                #[trigger] bindings@[i],
            ),
    ensures
        r is Err <==> exists|i: int| 0 <= i < bindings@.len() && binding_invalid(bindings@[i]),
        r matches Err(e) ==> exists|i: int|
            0 <= i < bindings@.len() && binding_invalid(bindings@[i]) && (forall|j: int|
                0 <= j < i ==> !binding_invalid(#[trigger] bindings@[j])) && (if binding_exceeds(
                bindings@[i],
            ) {
                e matches RendererError::InvalidArgument(m) && m@
                    == "Buffer overflow when binding resources."@
            } else {
                e matches RendererError::InvalidArgument(m) && m@
                    == "Invalid buffer usage for resource binding."@
            }),
        r matches Ok(writes) ==> writes@.len() == bindings@.len() && forall|i: int|
            0 <= i < bindings@.len() ==> #[trigger] writes@[i] == (
            bindings@[i].binding,
            binding_kind(bindings@[i]),
        ),
{
    let mut writes: Vec<(u32, DescriptorKind)> = Vec::new();
    let mut i: usize = 0;
    while i < bindings.len()
        invariant
            i <= bindings@.len(),
            writes@.len() == i,
            forall|j: int| 0 <= j < i ==> !binding_invalid(#[trigger] bindings@[j]),
            forall|j: int|
                0 <= j < i ==> #[trigger] writes@[j] == (
                bindings@[j].binding,
                binding_kind(bindings@[j]),
            ),
            forall|k: int|
                0 <= k < bindings@.len() && (forall|j: int|
                    0 <= j < k ==> !binding_invalid(#[trigger] bindings@[j])) ==> binding_end_fits(
                    #[trigger] bindings@[k],
                ),
        decreases bindings@.len() - i,
    {
        let binding = bindings[i];
        assert(binding_end_fits(bindings@[i as int]));
        let kind = match binding.resource {
            ResourceBindingType::Buffer { handle, usage, offset, size } => {
                if offset + size > handle.size() {
                    return Err(
                        RendererError::invalid_argument("Buffer overflow when binding resources."),
                    );
                }
                match usage {
                    BufferUsage::Storage => DescriptorKind::StorageBuffer,
                    BufferUsage::Uniform => DescriptorKind::UniformBuffer,
                    _ => {
                        return Err(
                            RendererError::invalid_argument(
                                "Invalid buffer usage for resource binding.",
                            ),
                        );
                    },
                }
            },
        };
        writes.push((binding.binding, kind));
        i = i + 1;
    }
    Ok(writes)
}

/// Finds the pipeline that a handle names: the handle's position must be in
/// the list and the pipeline stored there must live at the handle's address.
pub fn resolve_compute_pipeline(addresses: &Vec<usize>, handle: VulkanComputePipelineHandle) -> (r:
    RendererResult<usize>)
    ensures
        r is Ok <==> handle.position() < addresses@.len() && addresses@[handle.position() as int]
            == handle.address(),
        r matches Ok(i) ==> i == handle.position(),
        r is Err ==> (r matches Err(RendererError::InvalidArgument(m)) && m@
            == "Invalid compute pipeline handle."@),
{
    if addresses.len() > handle.index {
        if addresses[handle.index] == handle.ptr {
            return Ok(handle.index);
        }
    }
    Err(RendererError::invalid_argument("Invalid compute pipeline handle."))
}

/// Checks that `data_len` bytes can be written into a buffer of `buffer_size` bytes.
pub fn check_write_size(data_len: usize, buffer_size: usize) -> (r: RendererResult<()>)
    ensures
        r is Err <==> data_len > buffer_size,
        r is Err ==> (r matches Err(RendererError::Fail(m)) && m@ == "Data exceeds buffer size!"@),
{
    if data_len > buffer_size {
        return Err(RendererError::fail("Data exceeds buffer size!"));
    }
    Ok(())
}

/// Checks that `dest_len` bytes can be read from a buffer of `buffer_size` bytes.
pub fn check_read_size(dest_len: usize, buffer_size: usize) -> (r: RendererResult<()>)
    ensures
        r is Err <==> dest_len > buffer_size,
        r is Err ==> (r matches Err(RendererError::Fail(m)) && m@
            == "Destination slice is larger than buffer!"@),
{
    if dest_len > buffer_size {
        return Err(RendererError::fail("Destination slice is larger than buffer!"));
    }
    Ok(())
}

/// The frame that follows `current` when `frames_in_flight` frames rotate.
pub fn next_frame_index(current: u32, frames_in_flight: u32) -> (n: u32)
    requires
        frames_in_flight > 0,
        current < u32::MAX,
    ensures
        n == (current + 1) % (frames_in_flight as int),
        n < frames_in_flight,
{
    (current + 1) % frames_in_flight
}

} // verus!
