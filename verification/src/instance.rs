//! What the creation of the instance is told: which layers and which
//! extensions are enabled.

use vstd::prelude::*;
use crate::error::{Error, VkcResult};
use crate::names::{contains_name, name_from, spec_contains_name};
use crate::version::{Version, spec_make_version};
use crate::vk::{DEBUG_REPORT_ERROR_BIT_EXT, DEBUG_REPORT_WARNING_BIT_EXT};

verus! {

/// The name of the layer that validates.
pub open spec fn validation_layer_name() -> Seq<u8> {
    seq![86, 75, 95, 76, 65, 89, 69, 82, 95, 76, 85, 78, 65, 82, 71, 95, 115, 116, 97, 110, 100, 97, 114, 100, 95, 118, 97, 108, 105, 100, 97, 116, 105, 111, 110]
}

/// The layers that validation needs.
pub fn validation_layers() -> (names: Vec<Vec<u8>>)
    ensures
        names@.len() == 1,
        names@[0]@ == validation_layer_name(),
{
    let name: [u8; 35] = [86, 75, 95, 76, 65, 89, 69, 82, 95, 76, 85, 78, 65, 82, 71, 95, 115, 116, 97, 110, 100, 97, 114, 100, 95, 118, 97, 108, 105, 100, 97, 116, 105, 111, 110];
    let bytes = name_from(name.as_slice());
    assert(bytes@ =~= validation_layer_name());
    let mut names: Vec<Vec<u8>> = Vec::new();
    names.push(bytes);
    names
}

/// Whether every layer that validation needs is among `available_layers`.
pub fn check_validation_layer_support(available_layers: &[Vec<u8>]) -> (supported: bool)
    ensures
        supported == spec_contains_name(available_layers@, validation_layer_name()),
{
    let required = validation_layers();
    contains_name(available_layers, required[0].as_slice())
}

/// The layers to enable: the validation layers where validation is asked
/// for, else none. Asking for validation where its layers are not
/// installed is an error.
pub fn enabled_layer_names(
    available_layers: &[Vec<u8>],
    enable_validation: bool,
) -> (result: VkcResult<Vec<Vec<u8>>>)
    ensures
        enable_validation && !spec_contains_name(available_layers@, validation_layer_name())
            ==> result is Err && result->Err_0 == Error::ValidationLayersUnavailable,
        enable_validation && spec_contains_name(available_layers@, validation_layer_name()) ==> {
            &&& result is Ok
            &&& result->Ok_0@.len() == 1
            &&& result->Ok_0@[0]@ == validation_layer_name()
        },
        !enable_validation ==> result is Ok && result->Ok_0@.len() == 0,
{
    if enable_validation && !check_validation_layer_support(available_layers) {
        return Err(Error::ValidationLayersUnavailable);
    }
    if enable_validation {
        Ok(validation_layers())
    } else {
        Ok(Vec::new())
    }
}

/// An extension on offer: its name and its revision.
pub struct ExtensionProperties {
    pub extension_name: Vec<u8>,
    pub spec_version: u32,
}

/// The names of `extensions`, in their order.
pub fn extension_names(extensions: &[ExtensionProperties]) -> (names: Vec<Vec<u8>>)
    ensures
        names@.len() == extensions@.len(),
        forall|i: int|
            0 <= i < names@.len() ==> (#[trigger] names@[i])@ == extensions@[i].extension_name@,
{
    let mut names: Vec<Vec<u8>> = Vec::new();
    let mut i: usize = 0;
    while i < extensions.len()
        invariant
            0 <= i <= extensions@.len(),
            names@.len() == i,
            forall|j: int|
                0 <= j < i ==> (#[trigger] names@[j])@ == extensions@[j].extension_name@,
        decreases extensions@.len() - i,
    {
        names.push(name_from(extensions[i].extension_name.as_slice()));
        i = i + 1;
    }
    names
}

/// What the application tells of itself.
pub struct ApplicationInfo {
    pub application_name: Vec<u8>,
    pub application_version: u32,
    pub engine_name: Vec<u8>,
    pub engine_version: u32,
    /// The version of the API that the application is written for.
    pub api_version: u32,
}

/// The name of the application.
pub open spec fn application_name() -> Seq<u8> {
    seq![72, 101, 108, 108, 111, 32, 84, 114, 105, 97, 110, 103, 108, 101]
}

/// The name of the engine, of which there is none.
pub open spec fn engine_name() -> Seq<u8> {
    seq![78, 111, 32, 69, 110, 103, 105, 110, 101]
}

/// What this application tells of itself: its name and version 1.0.0, no
/// engine, and version 1.0.51 of the API.
pub fn application_info() -> (info: ApplicationInfo)
    ensures
        info.application_name@ == application_name(),
        info.application_version == spec_make_version(1, 0, 0),
        info.engine_name@ == engine_name(),
        info.engine_version == spec_make_version(1, 0, 0),
        info.api_version == spec_make_version(1, 0, 51),
{
    let app_name: [u8; 14] = [72, 101, 108, 108, 111, 32, 84, 114, 105, 97, 110, 103, 108, 101];
    let engine: [u8; 9] = [78, 111, 32, 69, 110, 103, 105, 110, 101];
    let application_name = name_from(app_name.as_slice());
    let engine_name = name_from(engine.as_slice());
    assert(application_name@ =~= self::application_name());
    assert(engine_name@ =~= self::engine_name());
    ApplicationInfo {
        application_name,
        application_version: Version::new(1, 0, 0).packed(),
        engine_name,
        engine_version: Version::new(1, 0, 0).packed(),
        api_version: Version::new(1, 0, 51).packed(),
    }
}

/// Everything that the creation of the instance is told.
pub struct Instance {
    pub application_info: ApplicationInfo,
    pub enabled_layer_names: Vec<Vec<u8>>,
    pub enabled_extension_names: Vec<Vec<u8>>,
    /// Whether a debug report callback is installed.
    pub debug_report: bool,
    /// The kinds of message that the callback is called for.
    pub debug_report_flags: u32,
}

impl Instance {
    /// Plans the instance: every extension on offer is enabled, and the
    /// validation layers with a debug report callback for errors and
    /// warnings where validation is asked for.
    pub fn new(
        app_info: ApplicationInfo,
        available_layers: &[Vec<u8>],
        available_extensions: &[ExtensionProperties],
        enable_validation: bool,
    ) -> (result: VkcResult<Instance>)
        ensures
            enable_validation && !spec_contains_name(available_layers@, validation_layer_name())
                ==> result is Err && result->Err_0 == Error::ValidationLayersUnavailable,
            !enable_validation || spec_contains_name(available_layers@, validation_layer_name())
                ==> {
                &&& result is Ok
                &&& result->Ok_0.application_info == app_info
                &&& result->Ok_0.debug_report == enable_validation
                &&& result->Ok_0.debug_report_flags == if enable_validation {
                    DEBUG_REPORT_ERROR_BIT_EXT | DEBUG_REPORT_WARNING_BIT_EXT
                } else {
                    0
                }
                &&& result->Ok_0.enabled_layer_names@.len() == if enable_validation {
                    1nat
                } else {
                    0nat
                }
                &&& enable_validation ==> result->Ok_0.enabled_layer_names@[0]@
                    == validation_layer_name()
                &&& result->Ok_0.enabled_extension_names@.len() == available_extensions@.len()
                &&& forall|i: int|
                    0 <= i < available_extensions@.len() ==> (
                    #[trigger] result->Ok_0.enabled_extension_names@[i])@
                        == available_extensions@[i].extension_name@
            },
    {
        let enabled_layer_names = match enabled_layer_names(available_layers, enable_validation) {
            Ok(names) => names,
            Err(e) => {
                return Err(e);
            },
        };
        let enabled_extension_names = extension_names(available_extensions);
        let debug_report_flags: u32 = if enable_validation {
            DEBUG_REPORT_ERROR_BIT_EXT | DEBUG_REPORT_WARNING_BIT_EXT
        } else {
            0
        };
        Ok(
            Instance {
                application_info: app_info,
                enabled_layer_names,
                enabled_extension_names,
                debug_report: enable_validation,
                debug_report_flags,
            },
        )
    }
}

/// The physical devices of an instance. That there is none is an error.
pub fn enumerate_physical_devices(devices: Vec<u64>) -> (result: VkcResult<Vec<u64>>)
    ensures
        devices@.len() == 0 ==> result is Err && result->Err_0 == Error::NoPhysicalDevices,
        devices@.len() > 0 ==> result is Ok && result->Ok_0 == devices,
{
    if devices.len() == 0 {
        Err(Error::NoPhysicalDevices)
    } else {
        Ok(devices)
    }
}

} // verus!
