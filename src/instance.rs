use vstd::prelude::*;

verus! {

/// Raw value of `VK_DEBUG_UTILS_MESSAGE_TYPE_GENERAL_BIT_EXT`.
pub const MESSAGE_TYPE_GENERAL: u32 = 0x1;
/// Raw value of `VK_DEBUG_UTILS_MESSAGE_TYPE_VALIDATION_BIT_EXT`.
pub const MESSAGE_TYPE_VALIDATION: u32 = 0x2;
/// Raw value of `VK_DEBUG_UTILS_MESSAGE_TYPE_PERFORMANCE_BIT_EXT`.
pub const MESSAGE_TYPE_PERFORMANCE: u32 = 0x4;
/// Raw value of `VK_DEBUG_UTILS_MESSAGE_TYPE_DEVICE_ADDRESS_BINDING_BIT_EXT`.
pub const MESSAGE_TYPE_DEVICE_ADDRESS_BINDING: u32 = 0x8;
/// Raw value of `VK_DEBUG_UTILS_MESSAGE_SEVERITY_VERBOSE_BIT_EXT`.
pub const SEVERITY_VERBOSE: u32 = 0x1;
/// Raw value of `VK_DEBUG_UTILS_MESSAGE_SEVERITY_INFO_BIT_EXT`.
pub const SEVERITY_INFO: u32 = 0x10;
/// Raw value of `VK_DEBUG_UTILS_MESSAGE_SEVERITY_WARNING_BIT_EXT`.
pub const SEVERITY_WARNING: u32 = 0x100;
/// Raw value of `VK_DEBUG_UTILS_MESSAGE_SEVERITY_ERROR_BIT_EXT`.
pub const SEVERITY_ERROR: u32 = 0x1000;

/// An instance extension the backend enables.
#[derive(Debug, Clone, Copy, PartialEq, Eq, Structural)]
pub enum InstanceExtension {
    /// `VK_KHR_get_physical_device_properties2`
    GetPhysicalDeviceProperties2,
    /// `VK_EXT_debug_utils`
    DebugUtils,
}

/// An instance layer the backend enables.
#[derive(Debug, Clone, Copy, PartialEq, Eq, Structural)]
pub enum InstanceLayer {
    /// `VK_LAYER_KHRONOS_validation`
    KhronosValidation,
}

/// Settings of the Vulkan instance to create.
#[derive(Debug)]
pub struct InstanceBuilder<'a> {
    debug: bool,
    title: Option<&'a str>,
}

impl<'a> InstanceBuilder<'a> {
    pub closed spec fn spec_debug(&self) -> bool {
        self.debug
    }

    pub closed spec fn spec_title(&self) -> Option<&'a str> {
        self.title
    }

    /// A builder with debugging off and no title.
    pub fn new() -> (r: Self)
        ensures
            !r.spec_debug(),
            r.spec_title() is None,
    {
        InstanceBuilder { debug: false, title: None }
    }

    /// Turns validation and debug messages on or off.
    pub fn debug(self, value: bool) -> (r: Self)
        ensures
            r.spec_debug() == value,
            r.spec_title() == self.spec_title(),
    {
        InstanceBuilder { debug: value, ..self }
    }

    /// Sets the application title.
    pub fn title(self, value: &'a str) -> (r: Self)
        ensures
            r.spec_debug() == self.spec_debug(),
            r.spec_title() == Some(value),
    {
        InstanceBuilder { title: Some(value), ..self }
    }

    pub fn is_debug(&self) -> (r: bool)
        ensures
            r == self.spec_debug(),
    {
        self.debug
    }

    pub fn get_title(&self) -> (r: Option<&'a str>)
        ensures
            r == self.spec_title(),
    {
        self.title
    }

    /// The instance extensions to enable: debug utilities only when
    /// debugging.
    pub fn extensions(&self) -> (r: Vec<InstanceExtension>)
        ensures
            r@ == if self.spec_debug() {
                seq![InstanceExtension::GetPhysicalDeviceProperties2, InstanceExtension::DebugUtils]
            } else {
                seq![InstanceExtension::GetPhysicalDeviceProperties2]
            },
    {
        let mut names = Vec::new();
        names.push(InstanceExtension::GetPhysicalDeviceProperties2);
        if self.debug {
            names.push(InstanceExtension::DebugUtils);
        }
        assert(names@ =~= if self.spec_debug() {
            seq![InstanceExtension::GetPhysicalDeviceProperties2, InstanceExtension::DebugUtils]
        } else {
            seq![InstanceExtension::GetPhysicalDeviceProperties2]
        });
        names
    }

    /// The instance layers to enable: the validation layer only when
    /// debugging.
    pub fn layers(&self) -> (r: Vec<InstanceLayer>)
        ensures
            r@ == if self.spec_debug() {
                seq![InstanceLayer::KhronosValidation]
            } else {
                Seq::<InstanceLayer>::empty()
            },
    {
        let mut names = Vec::new();
        if self.debug {
            names.push(InstanceLayer::KhronosValidation);
        }
        assert(names@ =~= if self.spec_debug() {
            seq![InstanceLayer::KhronosValidation]
        } else {
            Seq::<InstanceLayer>::empty()
        });
        names
    }
}

impl<'a> Default for InstanceBuilder<'a> {
    fn default() -> (r: Self)
        ensures
            !r.spec_debug(),
            r.spec_title() is None,
    {
        InstanceBuilder::new()
    }
}

/// `VK_MAKE_API_VERSION`: variant, major, minor and patch packed in 32 bits.
pub fn make_api_version(variant: u32, major: u32, minor: u32, patch: u32) -> (r: u32)
    requires
        variant < 8,
        major < 128,
        minor < 1024,
        patch < 4096,
    ensures
        r == variant * 0x2000_0000 + major * 0x40_0000 + minor * 0x1000 + patch,
{
    assert((variant << 29u32) | (major << 22u32) | (minor << 12u32) | patch == variant
        * 0x2000_0000 + major * 0x40_0000 + minor * 0x1000 + patch) by (bit_vector)
        requires
            variant < 8,
            major < 128,
            minor < 1024,
            patch < 4096,
    ;
    (variant << 29u32) | (major << 22u32) | (minor << 12u32) | patch
}

/// The API version the instance asks for: Vulkan 1.3.
pub fn api_version() -> (r: u32)
    ensures
        r == 1 * 0x40_0000 + 3 * 0x1000,
{
    make_api_version(0, 1, 3, 0)
}

/// Message types the debug messenger reports: validation, performance and
/// general.
pub fn debug_message_types() -> (r: u32)
    ensures
        r == MESSAGE_TYPE_VALIDATION | MESSAGE_TYPE_PERFORMANCE | MESSAGE_TYPE_GENERAL,
{
    MESSAGE_TYPE_VALIDATION | MESSAGE_TYPE_PERFORMANCE | MESSAGE_TYPE_GENERAL
}

/// Message severities the debug messenger reports: error, warning and info.
pub fn debug_message_severities() -> (r: u32)
    ensures
        r == SEVERITY_ERROR | SEVERITY_WARNING | SEVERITY_INFO,
{
    SEVERITY_ERROR | SEVERITY_WARNING | SEVERITY_INFO
}

/// The log level a debug message is reported at.
#[derive(Debug, Clone, Copy, PartialEq, Eq, Structural)]
pub enum LogLevel {
    Error,
    Warn,
    Trace,
    Info,
}

/// The label of a debug message's type: exactly one known type bit gives
/// its name, anything else no label.
pub fn message_type_label(ty: u32) -> (r: &'static str)
    ensures
        ty == MESSAGE_TYPE_DEVICE_ADDRESS_BINDING ==> r@ == "Device address binding"@,
        ty == MESSAGE_TYPE_PERFORMANCE ==> r@ == "Perf"@,
        ty == MESSAGE_TYPE_VALIDATION ==> r@ == "Validation"@,
        ty != MESSAGE_TYPE_DEVICE_ADDRESS_BINDING && ty != MESSAGE_TYPE_PERFORMANCE && ty
            != MESSAGE_TYPE_VALIDATION ==> r@ == ""@,
{
    proof {
        reveal_strlit("Device address binding");
        reveal_strlit("Perf");
        reveal_strlit("Validation");
        reveal_strlit("");
    }
    if ty == MESSAGE_TYPE_DEVICE_ADDRESS_BINDING {
        "Device address binding"
    } else if ty == MESSAGE_TYPE_PERFORMANCE {
        "Perf"
    } else if ty == MESSAGE_TYPE_VALIDATION {
        "Validation"
    } else {
        ""
    }
}

/// The log level of a debug message of the given severity: error, warning
/// and verbose map to their own level, anything else to info.
pub fn message_log_level(severity: u32) -> (r: LogLevel)
    ensures
        r == (if severity == SEVERITY_ERROR {
            LogLevel::Error
        } else if severity == SEVERITY_WARNING {
            LogLevel::Warn
        } else if severity == SEVERITY_VERBOSE {
            LogLevel::Trace
        } else {
            LogLevel::Info
        }),
{
    if severity == SEVERITY_ERROR {
        LogLevel::Error
    } else if severity == SEVERITY_WARNING {
        LogLevel::Warn
    } else if severity == SEVERITY_VERBOSE {
        LogLevel::Trace
    } else {
        LogLevel::Info
    }
}

} // verus!
