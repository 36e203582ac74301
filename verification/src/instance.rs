use vstd::prelude::*;

use crate::errors::FatalError;
use crate::names::{all_names_present, all_names_present_spec, copy_bytes, copy_names, names_view};

verus! {

/// The name of the debug-diagnostics instance extension, byte by byte:
/// `VK_EXT_debug_utils`.
pub open spec fn debug_extension_name() -> Seq<u8> {
    seq![
        86u8, 75u8, 95u8, 69u8, 88u8, 84u8, 95u8, 100u8, 101u8, 98u8, 117u8, 103u8, 95u8, 117u8,
        116u8, 105u8, 108u8, 115u8,
    ]
}

/// Build the debug-diagnostics extension name as bytes.
pub fn debug_extension_name_bytes() -> (r: Vec<u8>)
    ensures
        r@ == debug_extension_name(),
{
    let r: Vec<u8> = vec![
        86u8, 75u8, 95u8, 69u8, 88u8, 84u8, 95u8, 100u8, 101u8, 98u8, 117u8, 103u8, 95u8, 117u8,
        116u8, 105u8, 108u8, 115u8,
    ];
    proof {
        assert(r@ =~= debug_extension_name());
    }
    r
}

/// A version number packed the way the driver reads it: the variant in the
/// top three bits, then a 7-bit major, a 10-bit minor and a 12-bit patch.
/// The fields occupy disjoint bit ranges, so the packing is the plain sum of
/// the shifted fields.
pub open spec fn packed_version(variant: u32, major: u32, minor: u32, patch: u32) -> int
    recommends
        variant < 8,
        major < 128,
        minor < 1024,
        patch < 4096,
{
    variant * 0x2000_0000 + major * 0x40_0000 + minor * 0x1000 + patch
}

/// Pack a version number for the driver. The field bounds are what the
/// packing's bit widths admit; within them the packed value fits a `u32`.
pub fn make_api_version(variant: u32, major: u32, minor: u32, patch: u32) -> (r: u32)
    requires
        variant < 8,
        major < 128,
        minor < 1024,
        patch < 4096,
    ensures
        r == packed_version(variant, major, minor, patch),
{
    variant * 0x2000_0000 + major * 0x40_0000 + minor * 0x1000 + patch
}

/// Everything the instance-create request needs, resolved before any native
/// call: the application's name and packed version, the extension names to
/// enable, the layer names to enable, whether the diagnostics configuration
/// is attached inline to the create request, and whether a separate messenger
/// object is created once the instance exists.
#[derive(PartialEq, Eq, Debug)]
pub struct InstanceConfig {
    pub app_name: Vec<u8>,
    pub app_version: u32,
    pub extensions: Vec<Vec<u8>>,
    pub layers: Vec<Vec<u8>>,
    pub attach_debug_to_create: bool,
    pub create_messenger: bool,
}

/// Resolve the instance-create request. The application's name and packed
/// version are carried into the request unchanged.
///
/// With validation enabled, every requested layer must appear by exact name
/// match among the layers the driver supports; otherwise the bootstrap fails
/// fatally before any instance is created — a session-start precondition, not
/// a retryable condition. The enabled extensions are the platform-required
/// presentation extensions, with the debug-diagnostics extension appended iff
/// validation is enabled; the layers are the requested ones iff validation is
/// enabled; the inline diagnostics configuration and the separate messenger
/// both exist iff validation is enabled.
pub fn plan_instance(
    app_name: &Vec<u8>,
    app_version: u32,
    enable_validation: bool,
    required_layers: &Vec<Vec<u8>>,
    available_layers: &Vec<Vec<u8>>,
    platform_extensions: &Vec<Vec<u8>>,
) -> (r: Result<InstanceConfig, FatalError>)
    ensures
        (r is Err) <==> (enable_validation && !all_names_present_spec(
            names_view(required_layers@),
            names_view(available_layers@),
        )),
        (r matches Err(e) ==> e == FatalError::UnsupportedLayer),
        (r matches Ok(c) ==> {
            &&& c.app_name@ == app_name@
            &&& c.app_version == app_version
            &&& enable_validation ==> names_view(c.extensions@) == names_view(
                platform_extensions@,
            ).push(debug_extension_name())
            &&& !enable_validation ==> names_view(c.extensions@) == names_view(
                platform_extensions@,
            )
            &&& enable_validation ==> names_view(c.layers@) == names_view(required_layers@)
            &&& !enable_validation ==> c.layers@.len() == 0
            &&& c.attach_debug_to_create == enable_validation
            &&& c.create_messenger == enable_validation
        }),
{
    if enable_validation {
        if !all_names_present(required_layers, available_layers) {
            return Err(FatalError::UnsupportedLayer);
        }
    }
    let mut extensions = copy_names(platform_extensions);
    let mut layers: Vec<Vec<u8>> = Vec::new();
    if enable_validation {
        extensions.push(debug_extension_name_bytes());
        layers = copy_names(required_layers);
    }
    let config = InstanceConfig {
        app_name: copy_bytes(app_name),
        app_version,
        extensions,
        layers,
        attach_debug_to_create: enable_validation,
        create_messenger: enable_validation,
    };
    proof {
        if enable_validation {
            assert(names_view(config.extensions@) =~= names_view(platform_extensions@).push(
                debug_extension_name(),
            ));
        }
    }
    Ok(config)
}

} // verus!
