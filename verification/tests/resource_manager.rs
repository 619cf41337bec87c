use ash::vk::{self, Handle};
use vulkanapp::resource_manager::{
    find_memory_type, BarrierCommand, BufferRequest, CopyCommand, FillError, FillStep,
    HostAccessPolicy, Resource, ResourceManager,
};

const DEVICE_LOCAL: u32 = 0x1;
const HOST_VISIBLE: u32 = 0x2;
const HOST_COHERENT: u32 = 0x4;

fn resource(id: u64, size: u64) -> Resource {
    Resource {
        buffer: vk::Buffer::from_raw(id),
        memory: vk::DeviceMemory::from_raw(id + 1000),
        size,
    }
}

fn single_buffer_manager() -> ResourceManager {
    ResourceManager::new(&[HOST_VISIBLE, DEVICE_LOCAL | HOST_VISIBLE | HOST_COHERENT], 2).unwrap()
}

fn staging_manager() -> ResourceManager {
    ResourceManager::new(&[DEVICE_LOCAL, HOST_VISIBLE, HOST_VISIBLE | HOST_COHERENT], 3).unwrap()
}

#[test]
fn flag_values_are_those_of_ash() {
    assert_eq!(DEVICE_LOCAL, vk::MemoryPropertyFlags::DEVICE_LOCAL.as_raw());
    assert_eq!(HOST_VISIBLE, vk::MemoryPropertyFlags::HOST_VISIBLE.as_raw());
    assert_eq!(HOST_COHERENT, vk::MemoryPropertyFlags::HOST_COHERENT.as_raw());
}

#[test]
fn find_memory_type_takes_the_first_match() {
    let flags = [HOST_VISIBLE, HOST_COHERENT, DEVICE_LOCAL | HOST_COHERENT, HOST_COHERENT];
    assert_eq!(find_memory_type(&flags, 4, HOST_COHERENT), Some(1));
    assert_eq!(find_memory_type(&flags, 4, DEVICE_LOCAL | HOST_COHERENT), Some(2));
    assert_eq!(find_memory_type(&flags, 4, DEVICE_LOCAL | HOST_VISIBLE), None);
}

#[test]
fn find_memory_type_needs_every_wanted_bit() {
    assert_eq!(find_memory_type(&[DEVICE_LOCAL], 1, DEVICE_LOCAL | HOST_COHERENT), None);
    assert_eq!(find_memory_type(&[HOST_COHERENT], 1, DEVICE_LOCAL | HOST_COHERENT), None);
    assert_eq!(find_memory_type(&[0x7], 1, DEVICE_LOCAL | HOST_COHERENT), Some(0));
}

#[test]
fn find_memory_type_stops_at_the_reported_count() {
    let flags = [HOST_VISIBLE, DEVICE_LOCAL];
    assert_eq!(find_memory_type(&flags, 1, DEVICE_LOCAL), None);
    assert_eq!(find_memory_type(&flags, 2, DEVICE_LOCAL), Some(1));
    assert_eq!(find_memory_type(&flags, 32, DEVICE_LOCAL), Some(1));
    assert_eq!(find_memory_type(&flags, 0, HOST_VISIBLE), None);
}

#[test]
fn select_prefers_a_shared_memory_type() {
    let flags = [DEVICE_LOCAL, HOST_VISIBLE | HOST_COHERENT, DEVICE_LOCAL | HOST_COHERENT];
    assert_eq!(HostAccessPolicy::select(&flags, 3), Some(HostAccessPolicy::SingleBuffer(2)));
}

#[test]
fn select_falls_back_to_staging() {
    let flags = [HOST_VISIBLE, HOST_COHERENT, DEVICE_LOCAL, DEVICE_LOCAL, HOST_COHERENT];
    assert_eq!(
        HostAccessPolicy::select(&flags, 5),
        Some(HostAccessPolicy::UseStaging { host_memory_type: 1, device_memory_type: 2 })
    );
}

#[test]
fn select_finds_nothing_without_both_kinds() {
    assert_eq!(HostAccessPolicy::select(&[], 0), None);
    assert_eq!(HostAccessPolicy::select(&[DEVICE_LOCAL], 1), None);
    assert_eq!(HostAccessPolicy::select(&[HOST_COHERENT, HOST_VISIBLE], 2), None);
    assert_eq!(HostAccessPolicy::select(&[DEVICE_LOCAL, HOST_VISIBLE], 2), None);
}

#[test]
fn select_ignores_types_past_the_count() {
    let flags = [HOST_COHERENT, DEVICE_LOCAL | HOST_COHERENT];
    assert_eq!(HostAccessPolicy::select(&flags, 1), None);
    assert_eq!(HostAccessPolicy::select(&flags, 2), Some(HostAccessPolicy::SingleBuffer(1)));
}

#[test]
fn new_manager_is_empty() {
    let manager = staging_manager();
    assert_eq!(
        manager.host_access_policy,
        HostAccessPolicy::UseStaging { host_memory_type: 2, device_memory_type: 0 }
    );
    assert!(manager.resources.is_empty());
    assert_eq!(manager.staging_buffer(), None);
    assert_eq!(manager.transfer_completed_fence(), None);
    assert!(ResourceManager::new(&[HOST_VISIBLE], 1).is_none());
}

#[test]
fn buffer_request_under_single_buffer() {
    let manager = single_buffer_manager();
    let usage = vk::BufferUsageFlags::VERTEX_BUFFER.as_raw();
    assert_eq!(
        manager.buffer_request(96, usage),
        BufferRequest { size: 96, usage, memory_type_index: 1, needs_transfer_fence: false }
    );
}

#[test]
fn buffer_request_under_staging_adds_transfer_dst() {
    let manager = staging_manager();
    let usage = vk::BufferUsageFlags::VERTEX_BUFFER;
    assert_eq!(
        manager.buffer_request(96, usage.as_raw()),
        BufferRequest {
            size: 96,
            usage: (usage | vk::BufferUsageFlags::TRANSFER_DST).as_raw(),
            memory_type_index: 0,
            needs_transfer_fence: true,
        }
    );
    assert_eq!(manager.buffer_request(96, 0x80).usage, 0x82);
}

#[test]
fn create_buffer_records_the_resource() {
    let mut manager = single_buffer_manager();
    let made = manager.create_buffer(
        64,
        vk::Buffer::from_raw(5),
        vk::DeviceMemory::from_raw(6),
        Some(vk::Fence::from_raw(7)),
    );
    assert_eq!(made.buffer, vk::Buffer::from_raw(5));
    assert_eq!(made.memory, vk::DeviceMemory::from_raw(6));
    assert_eq!(made.size, 64);
    assert_eq!(manager.resources, vec![made]);
    assert_eq!(manager.transfer_completed_fence(), None);
    let second = manager.create_buffer(8, vk::Buffer::from_raw(9), vk::DeviceMemory::from_raw(10), None);
    assert_eq!(manager.resources, vec![made, second]);
}

#[test]
fn create_buffer_under_staging_replaces_the_fence() {
    let mut manager = staging_manager();
    manager.create_buffer(64, vk::Buffer::from_raw(5), vk::DeviceMemory::from_raw(6), Some(vk::Fence::from_raw(7)));
    assert_eq!(manager.transfer_completed_fence(), Some(vk::Fence::from_raw(7)));
    manager.create_buffer(64, vk::Buffer::from_raw(8), vk::DeviceMemory::from_raw(9), Some(vk::Fence::from_raw(11)));
    assert_eq!(manager.transfer_completed_fence(), Some(vk::Fence::from_raw(11)));
    assert_eq!(manager.resources.len(), 2);
    assert_eq!(manager.staging_buffer(), None);
}

#[test]
fn fill_buffer_writes_directly_under_single_buffer() {
    let mut manager = single_buffer_manager();
    let target = resource(1, 120);
    assert_eq!(
        manager.fill_buffer(target, 30, 4),
        Ok(FillStep::Direct { memory: target.memory, byte_len: 120 })
    );
    assert_eq!(
        manager.fill_buffer(target, 0, 4),
        Ok(FillStep::Direct { memory: target.memory, byte_len: 0 })
    );
    assert_eq!(manager.staging_buffer(), None);
}

#[test]
fn fill_buffer_rejects_data_longer_than_the_buffer() {
    let mut manager = single_buffer_manager();
    assert_eq!(manager.fill_buffer(resource(1, 119), 30, 4), Err(FillError::TooLarge));
    assert_eq!(manager.fill_check(&resource(1, 119), 30, 4), Err(FillError::TooLarge));
    assert_eq!(manager.fill_check(&resource(1, 120), 30, 4), Ok(120));
}

#[test]
fn fill_buffer_rejects_a_length_that_overflows() {
    let mut manager = single_buffer_manager();
    assert_eq!(
        manager.fill_buffer(resource(1, u64::MAX), usize::MAX, 2),
        Err(FillError::SizeOverflow)
    );
    assert_eq!(
        manager.fill_buffer(resource(1, 0), usize::MAX / 2 + 1, 2),
        Err(FillError::SizeOverflow)
    );
}

#[test]
fn fill_buffer_under_staging_needs_a_fence() {
    let mut manager = staging_manager();
    assert_eq!(manager.fill_buffer(resource(1, 64), 4, 4), Err(FillError::MissingFence));
    assert_eq!(manager.fill_buffer(resource(1, 8), 4, 4), Err(FillError::TooLarge));
}

#[test]
fn staged_fill_creates_then_reuses_the_staging_buffer() {
    let mut manager = staging_manager();
    let fence = vk::Fence::from_raw(77);
    let target = manager.create_buffer(400, vk::Buffer::from_raw(5), vk::DeviceMemory::from_raw(6), Some(fence));
    let create = BufferRequest {
        size: 80,
        usage: vk::BufferUsageFlags::TRANSFER_SRC.as_raw(),
        memory_type_index: 2,
        needs_transfer_fence: false,
    };
    assert_eq!(
        manager.fill_buffer(target, 20, 4),
        Ok(FillStep::Staged { fence, reuse: None, create, byte_len: 80 })
    );
    let staging = resource(50, 80);
    manager.stage_transfer(staging, target, 80);
    assert_eq!(manager.staging_buffer(), Some(staging));

    let larger = BufferRequest { size: 400, ..create };
    assert_eq!(
        manager.fill_buffer(target, 100, 4),
        Ok(FillStep::Staged { fence, reuse: Some(staging), create: larger, byte_len: 400 })
    );
    assert_eq!(manager.staging_buffer(), None);
    assert_eq!(manager.resources, vec![target]);
}

#[test]
fn failed_fill_keeps_the_staging_buffer() {
    let mut manager = staging_manager();
    let target = manager.create_buffer(16, vk::Buffer::from_raw(5), vk::DeviceMemory::from_raw(6), Some(vk::Fence::from_raw(1)));
    let staging = resource(50, 16);
    manager.stage_transfer(staging, target, 16);
    assert_eq!(manager.fill_buffer(target, 5, 4), Err(FillError::TooLarge));
    assert_eq!(manager.staging_buffer(), Some(staging));
}

#[test]
fn stage_transfer_orders_host_write_copy_and_vertex_read() {
    let mut manager = staging_manager();
    let staging = resource(50, 80);
    let target = resource(5, 400);
    let commands = manager.stage_transfer(staging, target, 80);
    assert_eq!(
        commands.before_copy,
        BarrierCommand {
            src_stage: vk::PipelineStageFlags::HOST.as_raw(),
            dst_stage: vk::PipelineStageFlags::TRANSFER.as_raw(),
            src_access: vk::AccessFlags::HOST_WRITE.as_raw(),
            dst_access: vk::AccessFlags::TRANSFER_READ.as_raw(),
            buffer: staging.buffer,
            offset: 0,
            size: vk::WHOLE_SIZE,
        }
    );
    assert_eq!(commands.copy, CopyCommand { src: staging.buffer, dst: target.buffer, size: 80 });
    assert_eq!(
        commands.after_copy,
        BarrierCommand {
            src_stage: vk::PipelineStageFlags::TRANSFER.as_raw(),
            dst_stage: vk::PipelineStageFlags::VERTEX_INPUT.as_raw(),
            src_access: vk::AccessFlags::TRANSFER_WRITE.as_raw(),
            dst_access: vk::AccessFlags::VERTEX_ATTRIBUTE_READ.as_raw(),
            buffer: target.buffer,
            offset: 0,
            size: vk::WHOLE_SIZE,
        }
    );
    assert_eq!(commands.before_copy.src_stage, 0x4000);
    assert_eq!(commands.before_copy.dst_stage, 0x1000);
    assert_eq!(commands.before_copy.src_access, 0x4000);
    assert_eq!(commands.before_copy.dst_access, 0x800);
    assert_eq!(commands.after_copy.dst_stage, 0x4);
    assert_eq!(commands.after_copy.src_access, 0x1000);
    assert_eq!(commands.after_copy.dst_access, 0x4);
    assert_eq!(commands.after_copy.size, u64::MAX);
}

#[test]
fn barrier_after_vertex_use_under_single_buffer() {
    let manager = single_buffer_manager();
    let vertex_buffer = resource(3, 96);
    assert_eq!(
        manager.cmd_barrier_after_vertex_buffer_use(&vertex_buffer),
        BarrierCommand {
            src_stage: vk::PipelineStageFlags::VERTEX_INPUT.as_raw(),
            dst_stage: vk::PipelineStageFlags::HOST.as_raw(),
            src_access: vk::AccessFlags::VERTEX_ATTRIBUTE_READ.as_raw(),
            dst_access: vk::AccessFlags::HOST_WRITE.as_raw(),
            buffer: vertex_buffer.buffer,
            offset: 0,
            size: vk::WHOLE_SIZE,
        }
    );
}

#[test]
fn barrier_after_vertex_use_under_staging() {
    let manager = staging_manager();
    let vertex_buffer = resource(3, 96);
    assert_eq!(
        manager.cmd_barrier_after_vertex_buffer_use(&vertex_buffer),
        BarrierCommand {
            src_stage: vk::PipelineStageFlags::VERTEX_INPUT.as_raw(),
            dst_stage: vk::PipelineStageFlags::TRANSFER.as_raw(),
            src_access: vk::AccessFlags::VERTEX_ATTRIBUTE_READ.as_raw(),
            dst_access: vk::AccessFlags::TRANSFER_WRITE.as_raw(),
            buffer: vertex_buffer.buffer,
            offset: 0,
            size: vk::WHOLE_SIZE,
        }
    );
}

#[test]
fn policy_names_its_memory_types() {
    let single = HostAccessPolicy::SingleBuffer(3);
    assert_eq!((single.device_memory_type(), single.host_memory_type()), (3, 3));
    let staged = HostAccessPolicy::UseStaging { host_memory_type: 4, device_memory_type: 1 };
    assert_eq!((staged.device_memory_type(), staged.host_memory_type()), (1, 4));
}

#[test]
fn staging_policy_never_names_one_type_twice() {
    for flags in [
        vec![DEVICE_LOCAL, HOST_COHERENT],
        vec![HOST_COHERENT, DEVICE_LOCAL],
        vec![HOST_VISIBLE, DEVICE_LOCAL | HOST_VISIBLE, HOST_COHERENT | HOST_VISIBLE, DEVICE_LOCAL],
    ] {
        match HostAccessPolicy::select(&flags, flags.len() as u32) {
            Some(HostAccessPolicy::UseStaging { host_memory_type, device_memory_type }) => {
                assert_ne!(host_memory_type, device_memory_type);
                assert_eq!(flags[host_memory_type] & HOST_COHERENT, HOST_COHERENT);
                assert_eq!(flags[device_memory_type] & DEVICE_LOCAL, DEVICE_LOCAL);
            }
            other => panic!("expected staging, got {:?}", other),
        }
    }
}
