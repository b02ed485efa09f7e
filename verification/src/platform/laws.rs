//! How the conditions of the items relate to each other, for every target.

use crate::platform::combined::{
    AppleCode, ApplePlatformCode, Linux64Code, NonWindowsCode, SpecificUnixCode, UnixLikeCode,
};
use crate::platform::cross_platform::{CrossPlatformCode, PlatformCapabilities};
use crate::platform::single_os::{LinuxCode, MacOSCode, WindowsCode};
use crate::platform::{Conditional, Target};
use vstd::prelude::*;

verus! {

/// The names of the three supported systems differ from each other.
proof fn lemma_system_names_differ()
    ensures
        "linux"@ != "macos"@,
        "linux"@ != "windows"@,
        "macos"@ != "windows"@,
{
    reveal_strlit("linux");
    reveal_strlit("macos");
    reveal_strlit("windows");
    assert("linux"@[0] == 'l' && "macos"@[0] == 'm' && "windows"@[0] == 'w');
}

/// No build contains the code of two systems.
pub proof fn lemma_one_system_at_most(target: &Target)
    ensures
        !(LinuxCode::built_for(target) && MacOSCode::built_for(target)),
        !(LinuxCode::built_for(target) && WindowsCode::built_for(target)),
        !(MacOSCode::built_for(target) && WindowsCode::built_for(target)),
{
    lemma_system_names_differ();
}

/// The cross-platform code, and the capabilities it holds, are built
/// exactly where the code of one of the three systems is.
pub proof fn lemma_cross_platform_covers_the_systems(target: &Target)
    ensures
        CrossPlatformCode::built_for(target) == (LinuxCode::built_for(target)
            || MacOSCode::built_for(target) || WindowsCode::built_for(target)),
        PlatformCapabilities::built_for(target) == CrossPlatformCode::built_for(target),
{
}

/// A condition that adds a test holds on fewer targets: the code for 64-bit
/// Linux needs Linux, the code for Apple's systems comes with macOS, and
/// the code for specific Unix systems is never built with that of macOS.
pub proof fn lemma_combined_conditions(target: &Target)
    ensures
        Linux64Code::built_for(target) ==> LinuxCode::built_for(target),
        MacOSCode::built_for(target) ==> ApplePlatformCode::built_for(target),
        AppleCode::built_for(target) == ApplePlatformCode::built_for(target),
        !(SpecificUnixCode::built_for(target) && MacOSCode::built_for(target)),
{
}

/// The code for every system but Windows is built exactly where the code
/// of Windows is not.
pub proof fn lemma_windows_or_not(target: &Target)
    ensures
        UnixLikeCode::built_for(target) == !WindowsCode::built_for(target),
        NonWindowsCode::built_for(target) == UnixLikeCode::built_for(target),
{
}

} // verus!
