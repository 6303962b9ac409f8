use heph_gl::renderers::resources::{BufferUsage, GpuBuffer, ResourceBinding, ResourceBindingType};
use heph_gl::renderers::vulkan::queue::QueueType;
use heph_gl::renderers::vulkan::resources::{
    check_binding_ranges, check_read_size, check_write_size, commands_for_queue, next_frame_index,
    plan_descriptor_writes, resolve_compute_pipeline, DescriptorKind, VulkanComputePipelineHandle,
    VulkanRecordedCommand,
};

#[derive(Debug, Clone, Copy)]
struct TestBuffer(usize);

impl GpuBuffer for TestBuffer {
    fn byte_size(&self) -> usize {
        self.0
    }

    fn size(&self) -> usize {
        self.0
    }
}

fn binding(b: u32, size_of_buffer: usize, usage: BufferUsage, offset: usize, size: usize) -> ResourceBinding<TestBuffer> {
    ResourceBinding {
        binding: b,
        resource: ResourceBindingType::Buffer {
            handle: TestBuffer(size_of_buffer),
            usage,
            offset,
            size,
        },
    }
}

#[test]
fn binding_ranges_must_fit_their_buffers() {
    let ok = [
        binding(0, 64, BufferUsage::Storage, 0, 64),
        binding(1, 64, BufferUsage::Uniform, 32, 16),
    ];
    assert!(check_binding_ranges(&ok).is_ok());
    let bad = [
        binding(0, 64, BufferUsage::Storage, 0, 64),
        binding(1, 64, BufferUsage::Storage, 60, 8),
    ];
    assert_eq!(
        check_binding_ranges(&bad).unwrap_err().to_string(),
        "Invalid argument: Buffer overflow when binding resources."
    );
}

#[test]
fn descriptor_writes_follow_usage() {
    let set = [
        binding(3, 64, BufferUsage::Uniform, 0, 16),
        binding(5, 64, BufferUsage::Storage, 16, 16),
    ];
    assert_eq!(
        plan_descriptor_writes(&set).unwrap(),
        vec![(3, DescriptorKind::UniformBuffer), (5, DescriptorKind::StorageBuffer)]
    );
    let vertex = [
        binding(0, 64, BufferUsage::Storage, 0, 16),
        binding(1, 64, BufferUsage::Vertex, 0, 16),
        binding(2, 8, BufferUsage::Storage, 0, 16),
    ];
    assert_eq!(
        plan_descriptor_writes(&vertex).unwrap_err().to_string(),
        "Invalid argument: Invalid buffer usage for resource binding."
    );
    let overflow_first = [
        binding(2, 8, BufferUsage::Index, 0, 16),
        binding(1, 64, BufferUsage::Vertex, 0, 16),
    ];
    assert_eq!(
        plan_descriptor_writes(&overflow_first).unwrap_err().to_string(),
        "Invalid argument: Buffer overflow when binding resources."
    );
}

#[test]
fn commands_are_grouped_per_queue() {
    let commands = [
        VulkanRecordedCommand::new(QueueType::Compute, 1, 4),
        VulkanRecordedCommand::new(QueueType::Graphics, 0, 127),
        VulkanRecordedCommand::new(QueueType::Compute, 1, 0),
    ];
    assert_eq!(
        commands_for_queue(&commands, QueueType::Compute).unwrap(),
        Some((1, vec![4, 0]))
    );
    assert_eq!(
        commands_for_queue(&commands, QueueType::Graphics).unwrap(),
        Some((0, vec![127]))
    );
    assert_eq!(commands_for_queue(&commands, QueueType::Transfer).unwrap(), None);
    let mixed = [
        VulkanRecordedCommand::new(QueueType::Compute, 1, 4),
        VulkanRecordedCommand::new(QueueType::Compute, 0, 4),
    ];
    assert_eq!(
        commands_for_queue(&mixed, QueueType::Compute)
            .unwrap_err()
            .to_string(),
        "Invalid argument: All recorded commands for a queue must belong to the same frame."
    );
    let c = commands[0];
    assert_eq!(c.queue_type(), QueueType::Compute);
    assert_eq!(c.frame_index(), 1);
    assert_eq!(c.thread_context_index(), 4);
}

#[test]
fn compute_pipeline_handles_are_checked() {
    let addresses = vec![0x1000, 0x2000];
    assert_eq!(
        resolve_compute_pipeline(&addresses, VulkanComputePipelineHandle::new(0x2000, 1)).unwrap(),
        1
    );
    assert!(resolve_compute_pipeline(&addresses, VulkanComputePipelineHandle::new(0x1000, 1)).is_err());
    assert_eq!(
        resolve_compute_pipeline(&addresses, VulkanComputePipelineHandle::new(0x1000, 2))
            .unwrap_err()
            .to_string(),
        "Invalid argument: Invalid compute pipeline handle."
    );
}

#[test]
fn buffer_transfer_sizes() {
    assert!(check_write_size(16, 16).is_ok());
    assert_eq!(
        check_write_size(17, 16).unwrap_err().to_string(),
        "Data exceeds buffer size!"
    );
    assert!(check_read_size(0, 0).is_ok());
    assert_eq!(
        check_read_size(2, 1).unwrap_err().to_string(),
        "Destination slice is larger than buffer!"
    );
}

#[test]
fn frame_index_wraps() {
    assert_eq!(next_frame_index(0, 2), 1);
    assert_eq!(next_frame_index(1, 2), 0);
    assert_eq!(next_frame_index(0, 1), 0);
}
