//! Instance bootstrap: API version packing, required extensions, layers
//! and the diagnostics-messenger configuration.

use vstd::prelude::*;

verus! {

use vstd::string::StringExecFns;
use crate::error::VulkanError;
use crate::str_eq;

/// Diagnostics severity bit: verbose messages.
pub const DEBUG_SEVERITY_VERBOSE: u32 = 0x1;

/// Diagnostics severity bit: warnings.
pub const DEBUG_SEVERITY_WARNING: u32 = 0x100;

/// Diagnostics severity bit: errors.
pub const DEBUG_SEVERITY_ERROR: u32 = 0x1000;

/// Diagnostics type bit: general messages.
pub const DEBUG_TYPE_GENERAL: u32 = 0x1;

/// Diagnostics type bit: validation findings.
pub const DEBUG_TYPE_VALIDATION: u32 = 0x2;

/// Diagnostics type bit: performance findings.
pub const DEBUG_TYPE_PERFORMANCE: u32 = 0x4;

/// Name of the validation layer the diagnostics toggle asks for.
pub open spec fn spec_validation_layer_name() -> Seq<char> {
    "VK_LAYER_KHRONOS_validation"@
}

/// Name of the diagnostics-messenger instance extension.
pub open spec fn spec_debug_utils_extension_name() -> Seq<char> {
    "VK_EXT_debug_utils"@
}

/// The validation layer's name, for the unverified shell to request.
pub fn validation_layer_name() -> (r: &'static str)
    ensures
        r@ == spec_validation_layer_name(),
{
    "VK_LAYER_KHRONOS_validation"
}

/// Packs a semantic version the way the API encodes it: ten bits each for
/// major and minor, twelve for patch.
pub fn make_api_version(major: u32, minor: u32, patch: u32) -> (r: u32)
    requires
        major < 0x400,
        minor < 0x400,
        patch < 0x1000,
    ensures
        r == major * 0x40_0000 + minor * 0x1000 + patch,
{
    let r = (major << 22u32) | (minor << 12u32) | patch;
    proof {
        assert(((major << 22u32) | (minor << 12u32) | patch) == major * 0x40_0000 + minor * 0x1000
            + patch) by (bit_vector)
            requires
                major < 0x400,
                minor < 0x400,
                patch < 0x1000,
        ;
    }
    r
}

/// Whether the validation layer is among the layers the driver reports.
pub fn check_validation_layer_support(available_layers: &Vec<String>) -> (r: bool)
    ensures
        r == exists|i: int|
            0 <= i < available_layers@.len() && (#[trigger] available_layers@[i])@
                == spec_validation_layer_name(),
{
    let mut i: usize = 0;
    while i < available_layers.len()
        invariant
            i <= available_layers@.len(),
            forall|j: int|
                0 <= j < i ==> (#[trigger] available_layers@[j])@ != spec_validation_layer_name(),
        decreases available_layers@.len() - i,
    {
        if str_eq(available_layers[i].as_str(), "VK_LAYER_KHRONOS_validation") {
            return true;
        }
        i = i + 1;
    }
    false
}

/// What the diagnostics messenger listens for: warning, error and verbose
/// severities, across all three message types. Diagnostics only surface
/// messages; they never alter control flow.
#[derive(Clone, Copy, Debug, PartialEq, Eq, Structural)]
pub struct DebugMessengerConfig {
    pub message_severity: u32,
    pub message_type: u32,
}

/// The fixed diagnostics-messenger configuration.
pub fn debug_messenger_config() -> (r: DebugMessengerConfig)
    ensures
        r.message_severity == (DEBUG_SEVERITY_VERBOSE | DEBUG_SEVERITY_WARNING
            | DEBUG_SEVERITY_ERROR),
        r.message_type == (DEBUG_TYPE_GENERAL | DEBUG_TYPE_VALIDATION | DEBUG_TYPE_PERFORMANCE),
{
    DebugMessengerConfig {
        message_severity: DEBUG_SEVERITY_VERBOSE | DEBUG_SEVERITY_WARNING | DEBUG_SEVERITY_ERROR,
        message_type: DEBUG_TYPE_GENERAL | DEBUG_TYPE_VALIDATION | DEBUG_TYPE_PERFORMANCE,
    }
}

/// Everything the instance is created with.
#[derive(Clone, Debug)]
pub struct InstanceConfig {
    pub application_name: String,
    pub engine_name: String,
    pub application_version: u32,
    pub engine_version: u32,
    pub api_version: u32,
    /// The platform's required surface extensions, plus the diagnostics
    /// extension when diagnostics are enabled.
    pub extensions: Vec<String>,
    /// The validation layer when diagnostics are enabled, nothing otherwise.
    pub layers: Vec<String>,
    pub enable_validation: bool,
}

/// Builds the instance request from the platform's required extensions and
/// the diagnostics toggle.
///
/// Fails exactly when diagnostics were requested but the validation layer
/// is not available: silently downgrading would hide validation issues.
pub fn build_instance_config(
    platform_extensions: Vec<String>,
    validation_enabled: bool,
    available_layers: &Vec<String>,
) -> (r: Result<InstanceConfig, VulkanError>)
    ensures
        (r is Err) <==> (validation_enabled && !(exists|i: int|
            0 <= i < available_layers@.len() && (#[trigger] available_layers@[i])@
                == spec_validation_layer_name())),
        r matches Err(e) ==> e == VulkanError::ValidationLayerUnavailable,
        r matches Ok(c) ==> {
            &&& c.application_name@ == "Hello Triangle"@
            &&& c.engine_name@ == "No Engine"@
            &&& c.application_version == 0x40_0000
            &&& c.engine_version == 0x40_0000
            &&& c.api_version == 0x40_0000
            &&& c.extensions@.len() == platform_extensions@.len() + (if validation_enabled {
                1int
            } else {
                0int
            })
            &&& (forall|i: int|
                0 <= i < platform_extensions@.len() ==> c.extensions@[i]
                    == platform_extensions@[i])
            &&& (validation_enabled ==> c.extensions@.last()@ == spec_debug_utils_extension_name())
            &&& (if validation_enabled {
                c.layers@.len() == 1 && c.layers@[0]@ == spec_validation_layer_name()
            } else {
                c.layers@.len() == 0
            })
            &&& c.enable_validation == validation_enabled
        },
{
    if validation_enabled && !check_validation_layer_support(available_layers) {
        return Err(VulkanError::ValidationLayerUnavailable);
    }
    let mut extensions = platform_extensions;
    let mut layers: Vec<String> = Vec::new();
    if validation_enabled {
        extensions.push(String::from_str("VK_EXT_debug_utils"));
        layers.push(String::from_str("VK_LAYER_KHRONOS_validation"));
    }
    let api_version = make_api_version(1, 0, 0);
    Ok(
        InstanceConfig {
            application_name: String::from_str("Hello Triangle"),
            engine_name: String::from_str("No Engine"),
            application_version: api_version,
            engine_version: api_version,
            api_version,
            extensions,
            layers,
            enable_validation: validation_enabled,
        },
    )
}

} // verus!
