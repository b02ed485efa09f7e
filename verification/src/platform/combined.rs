//! Types whose condition combines several tests of the target with `all`,
//! `any` and `not`.

use crate::platform::{Conditional, Target};
use crate::text::texts;
use vstd::prelude::*;
use vstd::string::*;

verus! {

/// Code for Linux on a 64-bit machine: both tests have to hold.
pub struct Linux64Code {
    /// Number of processors to plan for.
    pub processor_count: usize,
    /// Size of the main memory in bytes; zero while it is not known.
    pub memory_size: u64,
}

impl Conditional for Linux64Code {
    open spec fn built_for(target: &Target) -> bool {
        target.os_is("linux"@) && target.pointer_width == 64
    }

    fn is_built_for(target: &Target) -> (built: bool) {
        target.is_os("linux") && target.pointer_width == 64
    }
}

impl Linux64Code {
    /// Four processors, and a memory size that is not known yet.
    pub fn new() -> (code: Self)
        ensures
            code.processor_count == 4,
            code.memory_size == 0,
    {
        Self { processor_count: 4, memory_size: 0 }
    }

    /// One thread for each processor, but never more than sixteen.
    pub fn get_optimal_thread_count(&self) -> (threads: usize)
        ensures
            threads == if self.processor_count <= 16 {
                self.processor_count
            } else {
                16
            },
    {
        if self.processor_count <= 16 {
            self.processor_count
        } else {
            16
        }
    }
}

/// Code for Apple's systems, macOS or iOS: either test is enough.
pub struct ApplePlatformCode {
    /// Name of the operating system.
    pub platform_type: String,
    /// Whether the Metal graphics interface is at hand.
    pub metal_available: bool,
    /// Version of Core Foundation.
    pub core_foundation_version: u32,
}

impl Conditional for ApplePlatformCode {
    open spec fn built_for(target: &Target) -> bool {
        target.os_is("macos"@) || target.os_is("ios"@)
    }

    fn is_built_for(target: &Target) -> (built: bool) {
        target.is_os("macos") || target.is_os("ios")
    }
}

impl ApplePlatformCode {
    /// The code for `target`: Metal is taken to be at hand exactly on
    /// `aarch64`, Apple's own processors.
    pub fn new(target: &Target) -> (code: Self)
        ensures
            code.platform_type@ == target.os@,
            code.metal_available == target.arch_is("aarch64"@),
            code.core_foundation_version == 1500,
    {
        Self {
            platform_type: target.os.clone(),
            metal_available: target.is_arch("aarch64"),
            core_foundation_version: 1500,
        }
    }

    /// Whether the Metal graphics interface is at hand.
    pub fn supports_metal(&self) -> (metal: bool)
        ensures
            metal == self.metal_available,
    {
        self.metal_available
    }
}

/// Code for every system but Windows.
pub struct UnixLikeCode {
    /// What the system offers, the common features first.
    pub unix_features: Vec<String>,
    /// Whether the system follows POSIX.
    pub posix_compliance: bool,
}

impl Conditional for UnixLikeCode {
    open spec fn built_for(target: &Target) -> bool {
        !target.os_is("windows"@)
    }

    fn is_built_for(target: &Target) -> (built: bool) {
        !target.is_os("windows")
    }
}

impl UnixLikeCode {
    /// The features of a Unix-like `target`: three that all such systems
    /// share, then two more on Linux, or two others on macOS.
    pub open spec fn features_of(target: &Target) -> Seq<Seq<char>> {
        let common = seq!["POSIX 兼容"@, "Unix 信号处理"@, "文件描述符"@];
        if target.os_is("linux"@) {
            common + seq!["inotify 文件监控"@, "epoll I/O 多路复用"@]
        } else if target.os_is("macos"@) {
            common + seq!["FSEvents 文件系统事件"@, "kqueue 事件通知"@]
        } else {
            common
        }
    }

    /// The code for `target`, with the features of its system.
    pub fn new(target: &Target) -> (code: Self)
        ensures
            texts(code.unix_features@) == Self::features_of(target),
            code.posix_compliance,
    {
        let mut features: Vec<String> = Vec::new();
        features.push(String::from_str("POSIX 兼容"));
        features.push(String::from_str("Unix 信号处理"));
        features.push(String::from_str("文件描述符"));
        if target.is_os("linux") {
            features.push(String::from_str("inotify 文件监控"));
            features.push(String::from_str("epoll I/O 多路复用"));
        } else if target.is_os("macos") {
            features.push(String::from_str("FSEvents 文件系统事件"));
            features.push(String::from_str("kqueue 事件通知"));
        }
        assert(texts(features@) =~= Self::features_of(target));
        Self { unix_features: features, posix_compliance: true }
    }

    /// The features, as they were collected.
    pub fn get_features(&self) -> (features: &Vec<String>)
        ensures
            *features == self.unix_features,
    {
        &self.unix_features
    }
}

/// Code behind the optional feature `advanced-features`.
pub struct AdvancedFeatureCode {
    /// Whether the experimental interface is open.
    pub experimental_api: bool,
    /// Whether the features under test are open.
    pub beta_features: bool,
    /// Whether the build is a debug build.
    pub debug_mode_enabled: bool,
}

impl Conditional for AdvancedFeatureCode {
    open spec fn built_for(target: &Target) -> bool {
        target.has_feature("advanced-features"@)
    }

    fn is_built_for(target: &Target) -> (built: bool) {
        target.is_feature_enabled("advanced-features")
    }
}

impl AdvancedFeatureCode {
    /// The code for `target`: the experimental interface is open in debug
    /// builds only, the features under test always.
    pub fn new(target: &Target) -> (code: Self)
        ensures
            code.experimental_api == target.debug_assertions,
            code.beta_features,
            code.debug_mode_enabled == target.debug_assertions,
    {
        Self {
            experimental_api: target.debug_assertions,
            beta_features: true,
            debug_mode_enabled: target.debug_assertions,
        }
    }

    /// Whether the experimental interface is open.
    pub fn is_experimental_enabled(&self) -> (enabled: bool)
        ensures
            enabled == self.experimental_api,
    {
        self.experimental_api
    }
}

/// Code for a Unix system other than macOS on `x86_64` or `aarch64`: a
/// family, an excluded system and a choice of architectures at once.
pub struct SpecificUnixCode {
    /// Which Unix it is.
    pub variant: String,
    /// How far the code is tuned to the architecture.
    pub optimization_level: u8,
    /// What the system supports.
    pub supported_features: Vec<String>,
}

impl Conditional for SpecificUnixCode {
    open spec fn built_for(target: &Target) -> bool {
        &&& target.family_is("unix"@)
        &&& !target.os_is("macos"@)
        &&& target.arch_is("x86_64"@) || target.arch_is("aarch64"@)
    }

    fn is_built_for(target: &Target) -> (built: bool) {
        target.is_family("unix") && !target.is_os("macos") && (target.is_arch("x86_64") || target.is_arch(
            "aarch64",
        ))
    }
}

impl SpecificUnixCode {
    /// The name of the Unix that `target` runs.
    pub open spec fn variant_of(target: &Target) -> Seq<char> {
        if target.os_is("linux"@) {
            "Linux"@
        } else if target.os_is("freebsd"@) {
            "FreeBSD"@
        } else {
            "Unknown Unix"@
        }
    }

    /// What `target` supports: two features everywhere, a third on Linux.
    pub open spec fn features_of(target: &Target) -> Seq<Seq<char>> {
        let common = seq!["POSIX 标准"@, "64位架构支持"@];
        if target.os_is("linux"@) {
            common.push("Linux 特定优化"@)
        } else {
            common
        }
    }

    /// The code for `target`, tuned to level two.
    pub fn new(target: &Target) -> (code: Self)
        ensures
            code.variant@ == Self::variant_of(target),
            code.optimization_level == 2,
            texts(code.supported_features@) == Self::features_of(target),
    {
        let variant = if target.is_os("linux") {
            String::from_str("Linux")
        } else if target.is_os("freebsd") {
            String::from_str("FreeBSD")
        } else {
            String::from_str("Unknown Unix")
        };
        let mut features: Vec<String> = Vec::new();
        features.push(String::from_str("POSIX 标准"));
        features.push(String::from_str("64位架构支持"));
        if target.is_os("linux") {
            features.push(String::from_str("Linux 特定优化"));
        }
        assert(texts(features@) =~= Self::features_of(target));
        Self { variant, optimization_level: 2, supported_features: features }
    }

    /// Which Unix it is.
    pub fn get_variant(&self) -> (variant: &str)
        ensures
            variant@ == self.variant@,
    {
        self.variant.as_str()
    }
}

/// Marks code that is built for Apple's systems.
pub struct AppleCode;

impl Conditional for AppleCode {
    open spec fn built_for(target: &Target) -> bool {
        target.os_is("macos"@) || target.os_is("ios"@)
    }

    fn is_built_for(target: &Target) -> (built: bool) {
        target.is_os("macos") || target.is_os("ios")
    }
}

/// Marks code that is built for every system but Windows.
pub struct NonWindowsCode;

impl Conditional for NonWindowsCode {
    open spec fn built_for(target: &Target) -> bool {
        !target.os_is("windows"@)
    }

    fn is_built_for(target: &Target) -> (built: bool) {
        !target.is_os("windows")
    }
}

/// Marks code behind the optional feature `custom-feature`.
pub struct CustomFeatureCode;

impl Conditional for CustomFeatureCode {
    open spec fn built_for(target: &Target) -> bool {
        target.has_feature("custom-feature"@)
    }

    fn is_built_for(target: &Target) -> (built: bool) {
        target.is_feature_enabled("custom-feature")
    }
}

} // verus!
