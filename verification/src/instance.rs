//! How the engine introduces itself to the Vulkan driver.
use vstd::prelude::*;

verus! {

/// A Vulkan version number packed as the API expects it: variant in the top
/// three bits, then major (7 bits), minor (10 bits) and patch (12 bits).
pub open spec fn spec_api_version(variant: u32, major: u32, minor: u32, patch: u32) -> u32 {
    (variant << 29u32) | (major << 22u32) | (minor << 12u32) | patch
}

/// Packs a Vulkan version number (the packing of the `VK_MAKE_API_VERSION`
/// macro, which `ash::vk::make_api_version` also computes).
fn make_api_version(variant: u32, major: u32, minor: u32, patch: u32) -> (v: u32)
    ensures
        v == spec_api_version(variant, major, minor, patch),
{
    (variant << 29u32) | (major << 22u32) | (minor << 12u32) | patch
}

/// What the engine tells the driver about itself when it creates the
/// Vulkan instance.
#[derive(Clone, Copy, Debug)]
pub struct ApplicationInfo {
    pub application_name: &'static str,
    pub application_version: u32,
    pub engine_name: &'static str,
    pub engine_version: u32,
    /// Highest Vulkan version the engine uses.
    pub api_version: u32,
}

/// The engine's application info: "Nova GE" 1.0.0 on the "Nova Engine"
/// 1.0.0, for Vulkan 1.2.
pub fn application_info() -> (info: ApplicationInfo)
    ensures
        info.application_name == "Nova GE",
        info.engine_name == "Nova Engine",
        info.application_version == spec_api_version(0, 1, 0, 0),
        info.engine_version == spec_api_version(0, 1, 0, 0),
        info.api_version == spec_api_version(0, 1, 2, 0),
        info.application_version == 0x0040_0000,
        info.api_version == 0x0040_2000,
{
    assert(spec_api_version(0, 1, 0, 0) == 0x0040_0000) by (bit_vector);
    assert(spec_api_version(0, 1, 2, 0) == 0x0040_2000) by (bit_vector);
    ApplicationInfo {
        application_name: "Nova GE",
        application_version: make_api_version(0, 1, 0, 0),
        engine_name: "Nova Engine",
        engine_version: make_api_version(0, 1, 0, 0),
        api_version: make_api_version(0, 1, 2, 0),
    }
}

} // verus!
