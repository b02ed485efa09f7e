//! Types that are built for one operating system each.

use crate::platform::{Conditional, Target};
use crate::text::literal_texts;
use vstd::prelude::*;
use vstd::string::*;

verus! {

/// Code that is built for Linux only.
pub struct LinuxCode {
    /// The edition's name and version.
    pub version: String,
    /// Whether the platform's features are switched on.
    pub features_enabled: bool,
}

impl Conditional for LinuxCode {
    open spec fn built_for(target: &Target) -> bool {
        target.os_is("linux"@)
    }

    fn is_built_for(target: &Target) -> (built: bool) {
        target.is_os("linux")
    }
}

impl LinuxCode {
    /// The Linux edition, with every feature switched on.
    pub fn new() -> (code: Self)
        ensures
            code.version@ == "Linux Edition v2.0"@,
            code.features_enabled,
    {
        Self { version: String::from_str("Linux Edition v2.0"), features_enabled: true }
    }

    /// The features that only Linux has, in the order they are listed.
    pub open spec fn linux_features() -> Seq<Seq<char>> {
        seq!["epoll 支持"@, "inotify 文件监控"@, "信号处理"@, "Unix 域套接字"@]
    }

    /// Lists the features that only Linux has.
    pub fn get_linux_features(&self) -> (features: Vec<&'static str>)
        ensures
            literal_texts(features@) == Self::linux_features(),
    {
        let mut features: Vec<&'static str> = Vec::new();
        features.push("epoll 支持");
        features.push("inotify 文件监控");
        features.push("信号处理");
        features.push("Unix 域套接字");
        assert(literal_texts(features@) =~= Self::linux_features());
        features
    }
}

/// Code that is built for macOS only.
pub struct MacOSCode {
    /// The edition's name and version.
    pub version: String,
    /// How closely the code is tied to the system.
    pub integration_level: u8,
}

impl Conditional for MacOSCode {
    open spec fn built_for(target: &Target) -> bool {
        target.os_is("macos"@)
    }

    fn is_built_for(target: &Target) -> (built: bool) {
        target.is_os("macos")
    }
}

impl MacOSCode {
    /// The macOS edition, at integration level three.
    pub fn new() -> (code: Self)
        ensures
            code.version@ == "macOS Edition v2.0"@,
            code.integration_level == 3,
    {
        Self { version: String::from_str("macOS Edition v2.0"), integration_level: 3 }
    }

    /// The features that only macOS has, in the order they are listed.
    pub open spec fn macos_features() -> Seq<Seq<char>> {
        seq!["Grand Central Dispatch"@, "Metal 图形 API"@, "Core Foundation"@, "Mach 端口通信"@]
    }

    /// Lists the features that only macOS has.
    pub fn get_macos_features(&self) -> (features: Vec<&'static str>)
        ensures
            literal_texts(features@) == Self::macos_features(),
    {
        let mut features: Vec<&'static str> = Vec::new();
        features.push("Grand Central Dispatch");
        features.push("Metal 图形 API");
        features.push("Core Foundation");
        features.push("Mach 端口通信");
        assert(literal_texts(features@) =~= Self::macos_features());
        features
    }
}

/// Code that is built for Windows only.
pub struct WindowsCode {
    /// The edition's name and version.
    pub version: String,
    /// Whether the registry may be read and written.
    pub registry_access: bool,
}

impl Conditional for WindowsCode {
    open spec fn built_for(target: &Target) -> bool {
        target.os_is("windows"@)
    }

    fn is_built_for(target: &Target) -> (built: bool) {
        target.is_os("windows")
    }
}

impl WindowsCode {
    /// The Windows edition, with access to the registry.
    pub fn new() -> (code: Self)
        ensures
            code.version@ == "Windows Edition v2.0"@,
            code.registry_access,
    {
        Self { version: String::from_str("Windows Edition v2.0"), registry_access: true }
    }
}

} // verus!
