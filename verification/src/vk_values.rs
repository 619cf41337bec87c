//! Raw values of the Vulkan flags and enums that the decisions read or emit.
//!
//! Each value has two faces: a spec function that gives its number, for
//! contracts, and a function that fetches it from `ash` at run time. The
//! second kind is trusted: its contract repeats the number that `ash` defines.

use ash::vk;
use vstd::prelude::*;

verus! {

/// A memory type that lives on the device.
pub open spec fn memory_device_local() -> u32 {
    0x1
}

/// `ash::vk::MemoryPropertyFlags::DEVICE_LOCAL` as a raw value; the contract states the
/// number that `ash` defines for it.
#[verifier::external_body]
pub(crate) fn memory_device_local_bits() -> (r: u32)
    ensures
        r == memory_device_local(),
{
    vk::MemoryPropertyFlags::DEVICE_LOCAL.as_raw()
}

/// A memory type whose host writes need no explicit flush.
pub open spec fn memory_host_coherent() -> u32 {
    0x4
}

/// `ash::vk::MemoryPropertyFlags::HOST_COHERENT` as a raw value; the contract states the
/// number that `ash` defines for it.
#[verifier::external_body]
pub(crate) fn memory_host_coherent_bits() -> (r: u32)
    ensures
        r == memory_host_coherent(),
{
    vk::MemoryPropertyFlags::HOST_COHERENT.as_raw()
}

/// A queue family that accepts graphics work.
pub open spec fn queue_graphics() -> u32 {
    0x1
}

/// `ash::vk::QueueFlags::GRAPHICS` as a raw value; the contract states the
/// number that `ash` defines for it.
#[verifier::external_body]
pub(crate) fn queue_graphics_bits() -> (r: u32)
    ensures
        r == queue_graphics(),
{
    vk::QueueFlags::GRAPHICS.as_raw()
}

/// A buffer that a copy may read from.
pub open spec fn usage_transfer_src() -> u32 {
    0x1
}

/// `ash::vk::BufferUsageFlags::TRANSFER_SRC` as a raw value; the contract states the
/// number that `ash` defines for it.
#[verifier::external_body]
pub(crate) fn usage_transfer_src_bits() -> (r: u32)
    ensures
        r == usage_transfer_src(),
{
    vk::BufferUsageFlags::TRANSFER_SRC.as_raw()
}

/// A buffer that a copy may write to.
pub open spec fn usage_transfer_dst() -> u32 {
    0x2
}

/// `ash::vk::BufferUsageFlags::TRANSFER_DST` as a raw value; the contract states the
/// number that `ash` defines for it.
#[verifier::external_body]
pub(crate) fn usage_transfer_dst_bits() -> (r: u32)
    ensures
        r == usage_transfer_dst(),
{
    vk::BufferUsageFlags::TRANSFER_DST.as_raw()
}

/// Reads of vertex attributes by the vertex fetch.
pub open spec fn access_vertex_attribute_read() -> u32 {
    0x4
}

/// `ash::vk::AccessFlags::VERTEX_ATTRIBUTE_READ` as a raw value; the contract states the
/// number that `ash` defines for it.
#[verifier::external_body]
pub(crate) fn access_vertex_attribute_read_bits() -> (r: u32)
    ensures
        r == access_vertex_attribute_read(),
{
    vk::AccessFlags::VERTEX_ATTRIBUTE_READ.as_raw()
}

/// Reads made by a copy.
pub open spec fn access_transfer_read() -> u32 {
    0x800
}

/// `ash::vk::AccessFlags::TRANSFER_READ` as a raw value; the contract states the
/// number that `ash` defines for it.
#[verifier::external_body]
pub(crate) fn access_transfer_read_bits() -> (r: u32)
    ensures
        r == access_transfer_read(),
{
    vk::AccessFlags::TRANSFER_READ.as_raw()
}

/// Writes made by a copy.
pub open spec fn access_transfer_write() -> u32 {
    0x1000
}

/// `ash::vk::AccessFlags::TRANSFER_WRITE` as a raw value; the contract states the
/// number that `ash` defines for it.
#[verifier::external_body]
pub(crate) fn access_transfer_write_bits() -> (r: u32)
    ensures
        r == access_transfer_write(),
{
    vk::AccessFlags::TRANSFER_WRITE.as_raw()
}

/// Writes made by the host through mapped memory.
pub open spec fn access_host_write() -> u32 {
    0x4000
}

/// `ash::vk::AccessFlags::HOST_WRITE` as a raw value; the contract states the
/// number that `ash` defines for it.
#[verifier::external_body]
pub(crate) fn access_host_write_bits() -> (r: u32)
    ensures
        r == access_host_write(),
{
    vk::AccessFlags::HOST_WRITE.as_raw()
}

/// The pipeline stage that fetches vertices.
pub open spec fn stage_vertex_input() -> u32 {
    0x4
}

/// `ash::vk::PipelineStageFlags::VERTEX_INPUT` as a raw value; the contract states the
/// number that `ash` defines for it.
#[verifier::external_body]
pub(crate) fn stage_vertex_input_bits() -> (r: u32)
    ensures
        r == stage_vertex_input(),
{
    vk::PipelineStageFlags::VERTEX_INPUT.as_raw()
}

/// The pipeline stage that runs copies.
pub open spec fn stage_transfer() -> u32 {
    0x1000
}

/// `ash::vk::PipelineStageFlags::TRANSFER` as a raw value; the contract states the
/// number that `ash` defines for it.
#[verifier::external_body]
pub(crate) fn stage_transfer_bits() -> (r: u32)
    ensures
        r == stage_transfer(),
{
    vk::PipelineStageFlags::TRANSFER.as_raw()
}

/// The pseudo-stage of host reads and writes.
pub open spec fn stage_host() -> u32 {
    0x4000
}

/// `ash::vk::PipelineStageFlags::HOST` as a raw value; the contract states the
/// number that `ash` defines for it.
#[verifier::external_body]
pub(crate) fn stage_host_bits() -> (r: u32)
    ensures
        r == stage_host(),
{
    vk::PipelineStageFlags::HOST.as_raw()
}

/// A GPU that shares memory with the host.
pub open spec fn device_type_integrated_gpu() -> i32 {
    1
}

/// `ash::vk::PhysicalDeviceType::INTEGRATED_GPU` as a raw value; the contract states the
/// number that `ash` defines for it.
#[verifier::external_body]
pub(crate) fn device_type_integrated_gpu_raw() -> (r: i32)
    ensures
        r == device_type_integrated_gpu(),
{
    vk::PhysicalDeviceType::INTEGRATED_GPU.as_raw()
}

/// A GPU with memory of its own.
pub open spec fn device_type_discrete_gpu() -> i32 {
    2
}

/// `ash::vk::PhysicalDeviceType::DISCRETE_GPU` as a raw value; the contract states the
/// number that `ash` defines for it.
#[verifier::external_body]
pub(crate) fn device_type_discrete_gpu_raw() -> (r: i32)
    ensures
        r == device_type_discrete_gpu(),
{
    vk::PhysicalDeviceType::DISCRETE_GPU.as_raw()
}

/// A device that runs on the host processor.
pub open spec fn device_type_cpu() -> i32 {
    4
}

/// `ash::vk::PhysicalDeviceType::CPU` as a raw value; the contract states the
/// number that `ash` defines for it.
#[verifier::external_body]
pub(crate) fn device_type_cpu_raw() -> (r: i32)
    ensures
        r == device_type_cpu(),
{
    vk::PhysicalDeviceType::CPU.as_raw()
}

/// Four 8-bit channels in the order blue, green, red, alpha.
pub open spec fn format_b8g8r8a8_unorm() -> i32 {
    44
}

/// `ash::vk::Format::B8G8R8A8_UNORM` as a raw value; the contract states the
/// number that `ash` defines for it.
#[verifier::external_body]
pub(crate) fn format_b8g8r8a8_unorm_raw() -> (r: i32)
    ensures
        r == format_b8g8r8a8_unorm(),
{
    vk::Format::B8G8R8A8_UNORM.as_raw()
}

/// The sRGB colour space with its non-linear transfer function.
pub open spec fn color_space_srgb_nonlinear() -> i32 {
    0
}

/// `ash::vk::ColorSpaceKHR::SRGB_NONLINEAR` as a raw value; the contract states the
/// number that `ash` defines for it.
#[verifier::external_body]
pub(crate) fn color_space_srgb_nonlinear_raw() -> (r: i32)
    ensures
        r == color_space_srgb_nonlinear(),
{
    vk::ColorSpaceKHR::SRGB_NONLINEAR.as_raw()
}

/// Presentation that does not wait for the vertical blank.
pub open spec fn present_mode_immediate() -> i32 {
    0
}

/// `ash::vk::PresentModeKHR::IMMEDIATE` as a raw value; the contract states the
/// number that `ash` defines for it.
#[verifier::external_body]
pub(crate) fn present_mode_immediate_raw() -> (r: i32)
    ensures
        r == present_mode_immediate(),
{
    vk::PresentModeKHR::IMMEDIATE.as_raw()
}

/// Presentation from a single-entry queue that the newest image replaces.
pub open spec fn present_mode_mailbox() -> i32 {
    1
}

/// `ash::vk::PresentModeKHR::MAILBOX` as a raw value; the contract states the
/// number that `ash` defines for it.
#[verifier::external_body]
pub(crate) fn present_mode_mailbox_raw() -> (r: i32)
    ensures
        r == present_mode_mailbox(),
{
    vk::PresentModeKHR::MAILBOX.as_raw()
}

/// The range that reaches from an offset to the end of a buffer.
pub open spec fn whole_size() -> u64 {
    0xffff_ffff_ffff_ffff
}

/// `ash::vk::WHOLE_SIZE` as a raw value; the contract states the
/// number that `ash` defines for it.
#[verifier::external_body]
pub(crate) fn whole_size_value() -> (r: u64)
    ensures
        r == whole_size(),
{
    vk::WHOLE_SIZE
}

/// Every bit of `wanted` is set in `flags`.
pub open spec fn has_all(flags: u32, wanted: u32) -> bool {
    (flags & wanted) == wanted
}

/// `ash::vk::MemoryPropertyFlags::contains` on flags rebuilt from raw bits:
/// true exactly when `wanted` is a subset of `flags`.
#[verifier::external_body]
pub(crate) fn memory_flags_contain(flags: u32, wanted: u32) -> (r: bool)
    ensures
        r == has_all(flags, wanted),
{
    vk::MemoryPropertyFlags::from_raw(flags).contains(vk::MemoryPropertyFlags::from_raw(wanted))
}

/// `ash::vk::QueueFlags::contains` on flags rebuilt from raw bits: true
/// exactly when `wanted` is a subset of `flags`.
#[verifier::external_body]
pub(crate) fn queue_flags_contain(flags: u32, wanted: u32) -> (r: bool)
    ensures
        r == has_all(flags, wanted),
{
    vk::QueueFlags::from_raw(flags).contains(vk::QueueFlags::from_raw(wanted))
}

} // verus!
