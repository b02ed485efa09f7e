//! One type for every supported operating system, with the capabilities of
//! the system it was made for.

use crate::platform::{Conditional, Target};
use crate::text::{bool_str, bool_text, labelled, str_eq, texts};
use vstd::prelude::*;
use vstd::string::*;

verus! {

/// What the operating system offers, by system.
#[derive(Debug)]
pub enum PlatformCapabilities {
    Linux { epoll: bool, signals: bool, unix_sockets: bool },
    MacOS { metal: bool, gcd: bool, core_foundation: bool },
    Windows { win32: bool, com: bool, registry: bool },
}

/// The capabilities that a build for `target` starts out with: all of those
/// of its operating system.
pub open spec fn initial_capabilities(target: &Target) -> PlatformCapabilities {
    if target.os_is("linux"@) {
        PlatformCapabilities::Linux { epoll: true, signals: true, unix_sockets: true }
    } else if target.os_is("macos"@) {
        PlatformCapabilities::MacOS { metal: true, gcd: true, core_foundation: true }
    } else {
        PlatformCapabilities::Windows { win32: true, com: true, registry: true }
    }
}

impl PlatformCapabilities {
    /// Whether the capability called `feature` is present. A name that
    /// belongs to another system, or to none, is not.
    pub open spec fn supports(&self, feature: Seq<char>) -> bool {
        match *self {
            PlatformCapabilities::Linux { epoll, signals, unix_sockets } => {
                if feature == "epoll"@ {
                    epoll
                } else if feature == "signals"@ {
                    signals
                } else if feature == "unix_sockets"@ {
                    unix_sockets
                } else {
                    false
                }
            },
            PlatformCapabilities::MacOS { metal, gcd, core_foundation } => {
                if feature == "metal"@ {
                    metal
                } else if feature == "gcd"@ {
                    gcd
                } else if feature == "core_foundation"@ {
                    core_foundation
                } else {
                    false
                }
            },
            PlatformCapabilities::Windows { win32, com, registry } => {
                if feature == "win32"@ {
                    win32
                } else if feature == "com"@ {
                    com
                } else if feature == "registry"@ {
                    registry
                } else {
                    false
                }
            },
        }
    }

    /// The heading and the three entries that a greeting lists for these
    /// capabilities.
    pub open spec fn report(&self) -> Seq<Seq<char>> {
        match *self {
            PlatformCapabilities::Linux { epoll, signals, unix_sockets } => seq![
                "🐧 Linux Capabilities:"@,
                "   epoll support: "@ + bool_text(epoll),
                "   signal handling: "@ + bool_text(signals),
                "   Unix sockets: "@ + bool_text(unix_sockets),
            ],
            PlatformCapabilities::MacOS { metal, gcd, core_foundation } => seq![
                "🍎 macOS Capabilities:"@,
                "   Metal API: "@ + bool_text(metal),
                "   GCD support: "@ + bool_text(gcd),
                "   Core Foundation: "@ + bool_text(core_foundation),
            ],
            PlatformCapabilities::Windows { win32, com, registry } => seq![
                "🪟 Windows Capabilities:"@,
                "   Win32 API: "@ + bool_text(win32),
                "   COM support: "@ + bool_text(com),
                "   Registry access: "@ + bool_text(registry),
            ],
        }
    }
}

impl Conditional for PlatformCapabilities {
    open spec fn built_for(target: &Target) -> bool {
        target.os_is("linux"@) || target.os_is("macos"@) || target.os_is("windows"@)
    }

    fn is_built_for(target: &Target) -> (built: bool) {
        target.is_os("linux") || target.is_os("macos") || target.is_os("windows")
    }
}

/// Code that is built for Linux, macOS and Windows alike.
pub struct CrossPlatformCode {
    /// Name of the operating system.
    pub platform: String,
    /// Name of the processor architecture.
    pub architecture: String,
    /// What the operating system offers.
    pub capabilities: PlatformCapabilities,
}

impl Conditional for CrossPlatformCode {
    open spec fn built_for(target: &Target) -> bool {
        target.os_is("linux"@) || target.os_is("macos"@) || target.os_is("windows"@)
    }

    fn is_built_for(target: &Target) -> (built: bool) {
        target.is_os("linux") || target.is_os("macos") || target.is_os("windows")
    }
}

impl CrossPlatformCode {
    /// The code for `target`: its system and architecture by name, and every
    /// capability of its system switched on.
    ///
    /// The type exists for the three supported systems only, so `target`
    /// has to be one of them.
    pub fn new(target: &Target) -> (code: Self)
        requires
            Self::built_for(target),
        ensures
            code.platform@ == target.os@,
            code.architecture@ == target.arch@,
            code.capabilities == initial_capabilities(target),
    {
        let platform = target.os.clone();
        let architecture = target.arch.clone();
        let capabilities = if target.is_os("linux") {
            PlatformCapabilities::Linux { epoll: true, signals: true, unix_sockets: true }
        } else if target.is_os("macos") {
            PlatformCapabilities::MacOS { metal: true, gcd: true, core_foundation: true }
        } else {
            PlatformCapabilities::Windows { win32: true, com: true, registry: true }
        };
        Self { platform, architecture, capabilities }
    }

    /// The lines of the greeting: the platform, the architecture, and the
    /// capabilities of the system under their heading.
    pub open spec fn greeting(&self) -> Seq<Seq<char>> {
        seq![
            "🌍 Hello from "@ + self.platform@ + " platform!"@,
            "🏗️  Architecture: "@ + self.architecture@,
        ] + self.capabilities.report()
    }

    /// Composes the greeting, one string for each line to print.
    pub fn greet(&self) -> (lines: Vec<String>)
        ensures
            texts(lines@) == self.greeting(),
    {
        let mut hello = String::from_str("🌍 Hello from ");
        hello.append(self.platform.as_str());
        hello.append(" platform!");
        let mut lines: Vec<String> = Vec::new();
        lines.push(hello);
        lines.push(labelled("🏗️  Architecture: ", self.architecture.as_str()));
        match &self.capabilities {
            PlatformCapabilities::Linux { epoll, signals, unix_sockets } => {
                lines.push(String::from_str("🐧 Linux Capabilities:"));
                lines.push(labelled("   epoll support: ", bool_str(*epoll)));
                lines.push(labelled("   signal handling: ", bool_str(*signals)));
                lines.push(labelled("   Unix sockets: ", bool_str(*unix_sockets)));
            },
            PlatformCapabilities::MacOS { metal, gcd, core_foundation } => {
                lines.push(String::from_str("🍎 macOS Capabilities:"));
                lines.push(labelled("   Metal API: ", bool_str(*metal)));
                lines.push(labelled("   GCD support: ", bool_str(*gcd)));
                lines.push(labelled("   Core Foundation: ", bool_str(*core_foundation)));
            },
            PlatformCapabilities::Windows { win32, com, registry } => {
                lines.push(String::from_str("🪟 Windows Capabilities:"));
                lines.push(labelled("   Win32 API: ", bool_str(*win32)));
                lines.push(labelled("   COM support: ", bool_str(*com)));
                lines.push(labelled("   Registry access: ", bool_str(*registry)));
            },
        }
        assert(texts(lines@) =~= self.greeting());
        lines
    }

    /// Whether the capability called `feature` is present on this platform.
    pub fn supports_feature(&self, feature: &str) -> (supported: bool)
        ensures
            supported == self.capabilities.supports(feature@),
    {
        match &self.capabilities {
            PlatformCapabilities::Linux { epoll, signals, unix_sockets } => {
                if str_eq(feature, "epoll") {
                    *epoll
                } else if str_eq(feature, "signals") {
                    *signals
                } else if str_eq(feature, "unix_sockets") {
                    *unix_sockets
                } else {
                    false
                }
            },
            PlatformCapabilities::MacOS { metal, gcd, core_foundation } => {
                if str_eq(feature, "metal") {
                    *metal
                } else if str_eq(feature, "gcd") {
                    *gcd
                } else if str_eq(feature, "core_foundation") {
                    *core_foundation
                } else {
                    false
                }
            },
            PlatformCapabilities::Windows { win32, com, registry } => {
                if str_eq(feature, "win32") {
                    *win32
                } else if str_eq(feature, "com") {
                    *com
                } else if str_eq(feature, "registry") {
                    *registry
                } else {
                    false
                }
            },
        }
    }
}

} // verus!
