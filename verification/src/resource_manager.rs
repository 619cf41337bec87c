//! Buffer bookkeeping: which memory types the buffers use and how data
//! reaches them.
//!
//! The manager never talks to the device. Each method says what has to be
//! created, recorded or submitted; the caller does it and reports the handles
//! it got.

use crate::vk_values::{
    access_host_write,
    access_host_write_bits,
    access_transfer_read,
    access_transfer_read_bits,
    access_transfer_write,
    access_transfer_write_bits,
    access_vertex_attribute_read,
    access_vertex_attribute_read_bits,
    has_all,
    memory_device_local,
    memory_device_local_bits,
    memory_flags_contain,
    memory_host_coherent,
    memory_host_coherent_bits,
    stage_host,
    stage_host_bits,
    stage_transfer,
    stage_transfer_bits,
    stage_vertex_input,
    stage_vertex_input_bits,
    usage_transfer_dst,
    usage_transfer_dst_bits,
    usage_transfer_src,
    usage_transfer_src_bits,
    whole_size,
    whole_size_value,
};
use ash::vk;
use vstd::prelude::*;

verus! {

/// `ash::vk::Buffer`, carried through as an opaque handle.
#[verifier::external_type_specification]
#[verifier::external_body]
pub struct ExBuffer(vk::Buffer);

/// `ash::vk::DeviceMemory`, carried through as an opaque handle.
#[verifier::external_type_specification]
#[verifier::external_body]
pub struct ExDeviceMemory(vk::DeviceMemory);

/// `ash::vk::Fence`, carried through as an opaque handle.
#[verifier::external_type_specification]
#[verifier::external_body]
pub struct ExFence(vk::Fence);

/// How the host gets data into device buffers.
#[derive(Debug, Clone, Copy, PartialEq, Eq, Structural)]
pub enum HostAccessPolicy {
    /// Write into a host-coherent staging buffer, then copy on the device.
    UseStaging { host_memory_type: usize, device_memory_type: usize },
    /// One memory type is both device-local and host-coherent: write directly.
    SingleBuffer(usize),
}

/// A buffer together with the memory bound to it and the size it was asked for.
#[derive(Debug, Clone, Copy, PartialEq, Eq)]
pub struct Resource {
    pub buffer: vk::Buffer,
    pub memory: vk::DeviceMemory,
    pub size: u64,
}

/// What to ask the device for when a buffer is created.
#[derive(Debug, Clone, Copy, PartialEq, Eq, Structural)]
pub struct BufferRequest {
    /// Size of the buffer in bytes.
    pub size: u64,
    /// Raw buffer usage flags.
    pub usage: u32,
    /// Index of the memory type to allocate from.
    pub memory_type_index: u32,
    /// Whether a fence, created signaled, has to accompany the buffer.
    pub needs_transfer_fence: bool,
}

/// A buffer memory barrier over a whole buffer, with the pipeline stages it
/// separates. All masks are raw flag bits.
#[derive(Debug, Clone, Copy, PartialEq, Eq)]
pub struct BarrierCommand {
    pub src_stage: u32,
    pub dst_stage: u32,
    pub src_access: u32,
    pub dst_access: u32,
    pub buffer: vk::Buffer,
    pub offset: u64,
    pub size: u64,
}

/// A copy of `size` bytes from the start of `src` to the start of `dst`.
#[derive(Debug, Clone, Copy, PartialEq, Eq)]
pub struct CopyCommand {
    pub src: vk::Buffer,
    pub dst: vk::Buffer,
    pub size: u64,
}

/// The commands of one staged upload, in recording order.
#[derive(Debug, Clone, Copy, PartialEq, Eq)]
pub struct TransferCommands {
    pub before_copy: BarrierCommand,
    pub copy: CopyCommand,
    pub after_copy: BarrierCommand,
}

/// Where the bytes of an upload go first.
#[derive(Debug, Clone, Copy, PartialEq, Eq)]
pub enum FillStep {
    /// Map `memory`, write `byte_len` bytes, unmap. Nothing else follows.
    Direct { memory: vk::DeviceMemory, byte_len: u64 },
    /// Wait for `fence` and reset it, then write `byte_len` bytes into the
    /// staging buffer: `reuse` if there is one, whatever its size, else a
    /// buffer made from `create`. The copy to the target follows.
    Staged { fence: vk::Fence, reuse: Option<Resource>, create: BufferRequest, byte_len: u64 },
}

/// Why an upload cannot start.
#[derive(Debug, Clone, Copy, PartialEq, Eq, Structural)]
pub enum FillError {
    /// The byte length of the data does not fit in `usize`.
    SizeOverflow,
    /// The data is longer than the target buffer.
    TooLarge,
    /// Staging is in use but no buffer was created yet, so no fence exists.
    MissingFence,
}

/// The manager's state: the buffers it made, the policy it follows, and what
/// staged uploads keep between calls.
pub struct ResourceManager {
    pub resources: Vec<Resource>,
    pub host_access_policy: HostAccessPolicy,
    staging_buffer: Option<Resource>,
    transfer_completed_fence: Option<vk::Fence>,
}

/// How many memory types count: as many as reported, but no more than given.
pub open spec fn usable_types(flags: Seq<u32>, count: u32) -> int {
    if count as int <= flags.len() {
        count as int
    } else {
        flags.len() as int
    }
}

/// `i` is the first usable memory type that has every bit of `wanted`.
pub open spec fn first_memory_type(flags: Seq<u32>, count: u32, wanted: u32, i: int) -> bool {
    &&& 0 <= i < usable_types(flags, count)
    &&& has_all(flags[i], wanted)
    &&& forall|j: int| 0 <= j < i ==> !has_all(#[trigger] flags[j], wanted)
}

/// No usable memory type has every bit of `wanted`.
pub open spec fn no_memory_type(flags: Seq<u32>, count: u32, wanted: u32) -> bool {
    forall|j: int| 0 <= j < usable_types(flags, count) ==> !has_all(#[trigger] flags[j], wanted)
}

/// The bits of a memory type that serves device and host at once.
pub open spec fn memory_shared() -> u32 {
    memory_device_local() | memory_host_coherent()
}

/// `policy` is the one that the memory types call for: a single shared type
/// where there is one, else the first host-coherent and the first
/// device-local type, else none.
pub open spec fn policy_of(flags: Seq<u32>, count: u32, policy: Option<HostAccessPolicy>) -> bool {
    match policy {
        Some(HostAccessPolicy::SingleBuffer(i)) => first_memory_type(
            flags,
            count,
            memory_shared(),
            i as int,
        ),
        Some(HostAccessPolicy::UseStaging { host_memory_type, device_memory_type }) => {
            &&& no_memory_type(flags, count, memory_shared())
            &&& first_memory_type(flags, count, memory_host_coherent(), host_memory_type as int)
            &&& first_memory_type(flags, count, memory_device_local(), device_memory_type as int)
        },
        None => {
            &&& no_memory_type(flags, count, memory_shared())
            &&& (no_memory_type(flags, count, memory_host_coherent()) || no_memory_type(
                flags,
                count,
                memory_device_local(),
            ))
        },
    }
}

/// The first usable memory type with every bit of `wanted`, if there is one.
pub fn find_memory_type(memory_type_flags: &[u32], memory_type_count: u32, wanted: u32) -> (r:
    Option<usize>)
    ensures
        match r {
            Some(i) => first_memory_type(memory_type_flags@, memory_type_count, wanted, i as int),
            None => no_memory_type(memory_type_flags@, memory_type_count, wanted),
        },
{
    let mut i: usize = 0;
    while i < memory_type_flags.len() && i < memory_type_count as usize
        invariant
            0 <= i <= usable_types(memory_type_flags@, memory_type_count),
            forall|j: int| 0 <= j < i ==> !has_all(#[trigger] memory_type_flags@[j], wanted),
        decreases memory_type_flags.len() - i,
    {
        if memory_flags_contain(memory_type_flags[i], wanted) {
            return Some(i);
        }
        i += 1;
    }
    None
}

impl HostAccessPolicy {
    /// The memory type that buffers handed to the device are allocated from.
    pub open spec fn device_type(self) -> usize {
        match self {
            HostAccessPolicy::SingleBuffer(i) => i,
            HostAccessPolicy::UseStaging { device_memory_type, .. } => device_memory_type,
        }
    }

    /// The memory type that the host writes into.
    pub open spec fn host_type(self) -> usize {
        match self {
            HostAccessPolicy::SingleBuffer(i) => i,
            HostAccessPolicy::UseStaging { host_memory_type, .. } => host_memory_type,
        }
    }

    /// Whether uploads go through a staging buffer.
    pub open spec fn stages(self) -> bool {
        self is UseStaging
    }

    /// The memory type that buffers handed to the device are allocated from.
    pub fn device_memory_type(&self) -> (r: usize)
        ensures
            r == self.device_type(),
    {
        match self {
            HostAccessPolicy::SingleBuffer(i) => *i,
            HostAccessPolicy::UseStaging { device_memory_type, .. } => *device_memory_type,
        }
    }

    /// The memory type that the host writes into.
    pub fn host_memory_type(&self) -> (r: usize)
        ensures
            r == self.host_type(),
    {
        match self {
            HostAccessPolicy::SingleBuffer(i) => *i,
            HostAccessPolicy::UseStaging { host_memory_type, .. } => *host_memory_type,
        }
    }

    /// Picks the policy from the property flags of the device's memory types.
    /// Only the first `memory_type_count` entries count. `None` means that
    /// the device offers no way to get host data into device memory.
    pub fn select(memory_type_flags: &[u32], memory_type_count: u32) -> (r: Option<
        HostAccessPolicy,
    >)
        ensures
            policy_of(memory_type_flags@, memory_type_count, r),
    {
        let device_local = memory_device_local_bits();
        let host_coherent = memory_host_coherent_bits();
        match find_memory_type(memory_type_flags, memory_type_count, device_local | host_coherent) {
            Some(i) => Some(HostAccessPolicy::SingleBuffer(i)),
            None => {
                let host = find_memory_type(memory_type_flags, memory_type_count, host_coherent);
                let device = find_memory_type(memory_type_flags, memory_type_count, device_local);
                match (host, device) {
                    (Some(host_memory_type), Some(device_memory_type)) => Some(
                        HostAccessPolicy::UseStaging { host_memory_type, device_memory_type },
                    ),
                    _ => None,
                }
            },
        }
    }
}

/// The memory types decide the policy: two policies that both fit the same
/// memory types are the same policy.
pub proof fn policy_is_unique(
    flags: Seq<u32>,
    count: u32,
    a: Option<HostAccessPolicy>,
    b: Option<HostAccessPolicy>,
)
    requires
        policy_of(flags, count, a),
        policy_of(flags, count, b),
    ensures
        a == b,
{
    first_memory_type_is_unique(flags, count, memory_shared());
    first_memory_type_is_unique(flags, count, memory_host_coherent());
    first_memory_type_is_unique(flags, count, memory_device_local());
}

/// At most one index is the first memory type with `wanted`, and none is when
/// no memory type has it.
pub proof fn first_memory_type_is_unique(flags: Seq<u32>, count: u32, wanted: u32)
    ensures
        forall|i: int, j: int|
            first_memory_type(flags, count, wanted, i) && first_memory_type(flags, count, wanted, j)
                ==> i == j,
        forall|i: int|
            first_memory_type(flags, count, wanted, i) ==> !no_memory_type(flags, count, wanted),
{
}

/// A staging policy never names one memory type twice, and every index that a
/// chosen policy names is below the reported count.
pub proof fn policy_indices(flags: Seq<u32>, count: u32, policy: HostAccessPolicy)
    requires
        policy_of(flags, count, Some(policy)),
    ensures
        policy.device_type() < count,
        policy matches HostAccessPolicy::UseStaging { host_memory_type, device_memory_type } ==> {
            &&& host_memory_type < count
            &&& host_memory_type != device_memory_type
        },
        has_all(flags[policy.device_type() as int], memory_device_local()),
{
    match policy {
        HostAccessPolicy::SingleBuffer(i) => {
            let f = flags[i as int];
            assert(has_all(f, memory_shared()) ==> has_all(f, memory_device_local())) by {
                shared_bits(f);
            }
        },
        HostAccessPolicy::UseStaging { host_memory_type, device_memory_type } => {
            let f = flags[host_memory_type as int];
            assert(!has_all(f, memory_shared()));
            shared_bits(f);
        },
    }
}

/// A memory type has the shared bits exactly when it is device-local and
/// host-coherent.
pub proof fn shared_bits(f: u32)
    ensures
        has_all(f, memory_shared()) <==> has_all(f, memory_device_local()) && has_all(
            f,
            memory_host_coherent(),
        ),
{
    assert(((f & (0x1u32 | 0x4u32)) == (0x1u32 | 0x4u32)) <==> ((f & 0x1u32) == 0x1u32) && ((f
        & 0x4u32) == 0x4u32)) by (bit_vector);
}

impl ResourceManager {
    /// The buffers made so far, oldest first.
    pub closed spec fn buffers(&self) -> Seq<Resource> {
        self.resources@
    }

    /// The policy that the manager follows.
    pub closed spec fn policy(&self) -> HostAccessPolicy {
        self.host_access_policy
    }

    /// The staging buffer kept for the next staged upload.
    pub closed spec fn staging(&self) -> Option<Resource> {
        self.staging_buffer
    }

    /// The fence that the last staged upload signals.
    pub closed spec fn transfer_fence(&self) -> Option<vk::Fence> {
        self.transfer_completed_fence
    }

    /// A manager with no buffers yet, following the policy that the memory
    /// types call for. `None` where they allow no policy.
    pub fn new(memory_type_flags: &[u32], memory_type_count: u32) -> (r: Option<ResourceManager>)
        ensures
            policy_of(
                memory_type_flags@,
                memory_type_count,
                match r {
                    Some(m) => Some(m.policy()),
                    None => None,
                },
            ),
            r matches Some(m) ==> {
                &&& m.buffers().len() == 0
                &&& m.staging() is None
                &&& m.transfer_fence() is None
            },
    {
        match HostAccessPolicy::select(memory_type_flags, memory_type_count) {
            Some(host_access_policy) => Some(
                ResourceManager {
                    resources: Vec::new(),
                    host_access_policy,
                    staging_buffer: None,
                    transfer_completed_fence: None,
                },
            ),
            None => None,
        }
    }

    /// The staging buffer kept for the next staged upload.
    pub fn staging_buffer(&self) -> (r: Option<Resource>)
        ensures
            r == self.staging(),
    {
        self.staging_buffer
    }

    /// The fence that the last staged upload signals.
    pub fn transfer_completed_fence(&self) -> (r: Option<vk::Fence>)
        ensures
            r == self.transfer_fence(),
    {
        self.transfer_completed_fence
    }

    /// What to create for a buffer of `size` bytes with the given raw usage
    /// flags. Under staging the buffer must also accept copies, and a fence,
    /// created signaled, comes with it.
    pub fn buffer_request(&self, size: u64, usage: u32) -> (r: BufferRequest)
        ensures
            r.size == size,
            r.usage == if self.policy().stages() {
                usage | usage_transfer_dst()
            } else {
                usage
            },
            r.memory_type_index == self.policy().device_type() as u32,
            r.needs_transfer_fence == self.policy().stages(),
    {
        match self.host_access_policy {
            HostAccessPolicy::SingleBuffer(memory_type) => BufferRequest {
                size,
                usage,
                memory_type_index: #[verifier::truncate]
                (memory_type as u32),
                needs_transfer_fence: false,
            },
            HostAccessPolicy::UseStaging { host_memory_type: _, device_memory_type } => {
                BufferRequest {
                    size,
                    usage: usage | usage_transfer_dst_bits(),
                    memory_type_index: #[verifier::truncate]
                    (device_memory_type as u32),
                    needs_transfer_fence: true,
                }
            },
        }
    }

    /// Records a buffer that the device made from a `buffer_request`: the
    /// new resource joins the list, and under staging `fence` replaces the
    /// fence held so far.
    pub fn create_buffer(
        &mut self,
        size: u64,
        buffer: vk::Buffer,
        memory: vk::DeviceMemory,
        fence: Option<vk::Fence>,
    ) -> (r: Resource)
        ensures
            r == (Resource { buffer, memory, size }),
            final(self).buffers() == old(self).buffers().push(r),
            final(self).policy() == old(self).policy(),
            final(self).staging() == old(self).staging(),
            final(self).transfer_fence() == if old(self).policy().stages() {
                fence
            } else {
                old(self).transfer_fence()
            },
    {
        if let HostAccessPolicy::UseStaging { .. } = self.host_access_policy {
            self.transfer_completed_fence = fence;
        }
        let res = Resource { buffer, memory, size };
        self.resources.push(res);
        res
    }

    /// The byte length of an upload of `element_count` items of
    /// `element_size` bytes each into `resource`, or the first reason why
    /// the upload cannot start.
    pub open spec fn fill_size(
        self,
        resource: Resource,
        element_count: usize,
        element_size: usize,
    ) -> Result<u64, FillError> {
        let bytes = element_count as int * element_size as int;
        if bytes > usize::MAX {
            Err(FillError::SizeOverflow)
        } else if bytes > resource.size {
            Err(FillError::TooLarge)
        } else if self.policy().stages() && self.transfer_fence() is None {
            Err(FillError::MissingFence)
        } else {
            Ok(bytes as u64)
        }
    }

    /// The first step of an upload, for each state and input: a direct write
    /// under the single-buffer policy, else a write to the staging buffer,
    /// which is the one kept from the upload before or, without one, a new
    /// buffer of exactly the data's length in the host's memory type.
    pub open spec fn fill_step(
        self,
        resource: Resource,
        element_count: usize,
        element_size: usize,
    ) -> Result<FillStep, FillError> {
        match self.fill_size(resource, element_count, element_size) {
            Err(e) => Err(e),
            Ok(byte_len) => match self.policy() {
                HostAccessPolicy::SingleBuffer(_) => Ok(
                    FillStep::Direct { memory: resource.memory, byte_len },
                ),
                HostAccessPolicy::UseStaging { host_memory_type, .. } => Ok(
                    FillStep::Staged {
                        fence: self.transfer_fence()->Some_0,
                        reuse: self.staging(),
                        create: BufferRequest {
                            size: byte_len,
                            usage: usage_transfer_src(),
                            memory_type_index: host_memory_type as u32,
                            needs_transfer_fence: false,
                        },
                        byte_len,
                    },
                ),
            },
        }
    }

    /// Checks whether an upload can start, and gives its length in bytes.
    /// The manager is left as it is.
    pub fn fill_check(&self, resource: &Resource, element_count: usize, element_size: usize) -> (r:
        Result<u64, FillError>)
        ensures
            r == self.fill_size(*resource, element_count, element_size),
    {
        let bytes = match element_count.checked_mul(element_size) {
            Some(bytes) => bytes,
            None => {
                return Err(FillError::SizeOverflow);
            },
        };
        let byte_len = bytes as u64;
        if byte_len > resource.size {
            return Err(FillError::TooLarge);
        }
        if let HostAccessPolicy::UseStaging { .. } = self.host_access_policy {
            if self.transfer_completed_fence.is_none() {
                return Err(FillError::MissingFence);
            }
        }
        Ok(byte_len)
    }

    /// Starts an upload of `element_count` items of `element_size` bytes each
    /// into `resource`. A staged upload takes the staging buffer out of the
    /// manager until `stage_transfer` puts one back; in every other case the
    /// manager is unchanged.
    pub fn fill_buffer(
        &mut self,
        resource: Resource,
        element_count: usize,
        element_size: usize,
    ) -> (r: Result<FillStep, FillError>)
        ensures
            r == old(self).fill_step(resource, element_count, element_size),
            final(self).buffers() == old(self).buffers(),
            final(self).policy() == old(self).policy(),
            final(self).transfer_fence() == old(self).transfer_fence(),
            final(self).staging() == if r is Ok && old(self).policy().stages() {
                None
            } else {
                old(self).staging()
            },
    {
        let byte_len = match self.fill_check(&resource, element_count, element_size) {
            Ok(byte_len) => byte_len,
            Err(e) => {
                return Err(e);
            },
        };
        match self.host_access_policy {
            HostAccessPolicy::SingleBuffer(_) => Ok(
                FillStep::Direct { memory: resource.memory, byte_len },
            ),
            HostAccessPolicy::UseStaging { host_memory_type, device_memory_type: _ } => {
                let fence = match self.transfer_completed_fence {
                    Some(fence) => fence,
                    None => {
                        return Err(FillError::MissingFence);
                    },
                };
                let reuse = self.staging_buffer.take();
                Ok(
                    FillStep::Staged {
                        fence,
                        reuse,
                        create: BufferRequest {
                            size: byte_len,
                            usage: usage_transfer_src_bits(),
                            memory_type_index: #[verifier::truncate]
                            (host_memory_type as u32),
                            needs_transfer_fence: false,
                        },
                        byte_len,
                    },
                )
            },
        }
    }

    /// The commands that move `byte_len` staged bytes into `target`: make the
    /// host's writes visible to the copy, copy, then make the copy's writes
    /// visible to the vertex fetch. The manager keeps `staging` for the next
    /// upload.
    pub fn stage_transfer(&mut self, staging: Resource, target: Resource, byte_len: u64) -> (r:
        TransferCommands)
        ensures
            r.before_copy == (BarrierCommand {
                src_stage: stage_host(),
                dst_stage: stage_transfer(),
                src_access: access_host_write(),
                dst_access: access_transfer_read(),
                buffer: staging.buffer,
                offset: 0,
                size: whole_size(),
            }),
            r.copy == (CopyCommand { src: staging.buffer, dst: target.buffer, size: byte_len }),
            r.after_copy == (BarrierCommand {
                src_stage: stage_transfer(),
                dst_stage: stage_vertex_input(),
                src_access: access_transfer_write(),
                dst_access: access_vertex_attribute_read(),
                buffer: target.buffer,
                offset: 0,
                size: whole_size(),
            }),
            final(self).staging() == Some(staging),
            final(self).buffers() == old(self).buffers(),
            final(self).policy() == old(self).policy(),
            final(self).transfer_fence() == old(self).transfer_fence(),
    {
        let before_copy = BarrierCommand {
            src_stage: stage_host_bits(),
            dst_stage: stage_transfer_bits(),
            src_access: access_host_write_bits(),
            dst_access: access_transfer_read_bits(),
            buffer: staging.buffer,
            offset: 0,
            size: whole_size_value(),
        };
        let copy = CopyCommand { src: staging.buffer, dst: target.buffer, size: byte_len };
        let after_copy = BarrierCommand {
            src_stage: stage_transfer_bits(),
            dst_stage: stage_vertex_input_bits(),
            src_access: access_transfer_write_bits(),
            dst_access: access_vertex_attribute_read_bits(),
            buffer: target.buffer,
            offset: 0,
            size: whole_size_value(),
        };
        self.staging_buffer = Some(staging);
        TransferCommands { before_copy, copy, after_copy }
    }

    /// The barrier that follows a frame's read of `vertex_buffer`: the next
    /// write to it, by the host or by a copy according to the policy, waits
    /// for the vertex fetch.
    pub open spec fn vertex_use_barrier(&self, vertex_buffer: Resource) -> BarrierCommand {
        BarrierCommand {
            src_stage: stage_vertex_input(),
            dst_stage: if self.policy().stages() {
                stage_transfer()
            } else {
                stage_host()
            },
            src_access: access_vertex_attribute_read(),
            dst_access: if self.policy().stages() {
                access_transfer_write()
            } else {
                access_host_write()
            },
            buffer: vertex_buffer.buffer,
            offset: 0,
            size: whole_size(),
        }
    }

    /// The barrier to record once a frame has read `vertex_buffer`.
    pub fn cmd_barrier_after_vertex_buffer_use(&self, vertex_buffer: &Resource) -> (r:
        BarrierCommand)
        ensures
            r == self.vertex_use_barrier(*vertex_buffer),
    {
        let (dst_stage, dst_access) = match self.host_access_policy {
            HostAccessPolicy::SingleBuffer(_) => (stage_host_bits(), access_host_write_bits()),
            HostAccessPolicy::UseStaging { host_memory_type: _, device_memory_type: _ } => (
                stage_transfer_bits(),
                access_transfer_write_bits(),
            ),
        };
        BarrierCommand {
            src_stage: stage_vertex_input_bits(),
            dst_stage,
            src_access: access_vertex_attribute_read_bits(),
            dst_access,
            buffer: vertex_buffer.buffer,
            offset: 0,
            size: whole_size_value(),
        }
    }
}

} // verus!
