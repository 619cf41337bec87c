//! Decisions of a small Vulkan rendering harness, separated from the driver
//! calls that carry them out.
//!
//! Every function here maps plain values (raw flag bits, raw enum values,
//! sizes, handles) to the next thing the harness has to do. The caller makes
//! the driver calls and hands the outcome back.
//!
//! - `vk_values`: the numbers behind the Vulkan flags and enums in use.
//! - `device_choice`: extension and layer support, physical device, queue
//!   family.
//! - `resource_manager`: memory-type policy, buffer creation, uploads.
//! - `texture`: from decoded image to texture bytes.
//! - `swapchain`: configuration and recreation of the swapchain.
//! - `frame`: the ring of per-frame objects.
//! - `harness`: the state of the running application and its frame plan.
//! - `world`: storage layout of the world's chunks.

pub mod device_choice;
pub mod frame;
pub mod harness;
pub mod resource_manager;
pub mod swapchain;
pub mod texture;
pub mod vk_values;
pub mod world;

pub use crate::harness::VulkanApp;
pub use crate::resource_manager::{HostAccessPolicy, Resource, ResourceManager};
pub use crate::world::Chunk;
