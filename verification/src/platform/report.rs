//! What a program reports about the target it was built for: the code of
//! its system, the target's names, and the conditions that hold of it.

use crate::platform::single_os::{LinuxCode, MacOSCode};
use crate::platform::Target;
use crate::text::{bool_str, bool_text, labelled, texts};
use vstd::prelude::*;
use vstd::string::*;

verus! {

/// The report on the code of the target's system: macOS is looked for
/// first, then Linux; for each, the code of the system is made and its
/// version shown. Other systems get one line that says so.
pub open spec fn system_code_report(target: &Target) -> Seq<Seq<char>> {
    if target.os_is("macos"@) {
        seq!["→ 运行 macOS 特定的代码"@, "→ 创建了 macOS 专用代码: "@ + "macOS Edition v2.0"@]
    } else if target.os_is("linux"@) {
        seq!["→ 运行 Linux 特定的代码"@, "→ 创建了 Linux 专用代码: "@ + "Linux Edition v2.0"@]
    } else {
        seq!["→ 我们不完全支持这个操作系统"@]
    }
}

/// Composes the report on the code of the target's system.
pub fn system_code_lines(target: &Target) -> (lines: Vec<String>)
    ensures
        texts(lines@) == system_code_report(target),
{
    let mut lines: Vec<String> = Vec::new();
    if target.is_os("macos") {
        let code = MacOSCode::new();
        lines.push(String::from_str("→ 运行 macOS 特定的代码"));
        lines.push(labelled("→ 创建了 macOS 专用代码: ", code.version.as_str()));
    } else if target.is_os("linux") {
        let code = LinuxCode::new();
        lines.push(String::from_str("→ 运行 Linux 特定的代码"));
        lines.push(labelled("→ 创建了 Linux 专用代码: ", code.version.as_str()));
    } else {
        lines.push(String::from_str("→ 我们不完全支持这个操作系统"));
    }
    assert(texts(lines@) =~= system_code_report(target));
    lines
}

/// The names of the target: system, architecture and family.
pub open spec fn target_report(target: &Target) -> Seq<Seq<char>> {
    seq![
        "   操作系统: "@ + target.os@,
        "   架构: "@ + target.arch@,
        "   系列家族: "@ + target.family@,
    ]
}

/// Composes the lines that name the target.
pub fn target_lines(target: &Target) -> (lines: Vec<String>)
    ensures
        texts(lines@) == target_report(target),
{
    let mut lines: Vec<String> = Vec::new();
    lines.push(labelled("   操作系统: ", target.os.as_str()));
    lines.push(labelled("   架构: ", target.arch.as_str()));
    lines.push(labelled("   系列家族: ", target.family.as_str()));
    assert(texts(lines@) =~= target_report(target));
    lines
}

/// The line on the architecture, for the three architectures that have one.
pub open spec fn architecture_report(target: &Target) -> Seq<Seq<char>> {
    if target.arch_is("x86_64"@) {
        seq!["   运行在 x86_64 架构上"@]
    } else if target.arch_is("aarch64"@) {
        seq!["   运行在 ARM64/aarch64 架构上"@]
    } else if target.arch_is("x86"@) {
        seq!["   运行在 x86 架构上"@]
    } else {
        seq![]
    }
}

/// The conditions that hold of the target: whether pointers are 64 bits
/// wide, whether the family is Unix, whether it is Windows, whether debug
/// assertions are on; then the line on the architecture, if it has one.
pub open spec fn condition_report(target: &Target) -> Seq<Seq<char>> {
    seq![
        "   是否为 64 位系统: "@ + bool_text(target.pointer_width == 64),
        "   是否为 Unix 系统: "@ + bool_text(target.family_is("unix"@)),
        "   是否为 Windows 系统: "@ + bool_text(target.family_is("windows"@)),
        "   是否为调试模式: "@ + bool_text(target.debug_assertions),
    ] + architecture_report(target)
}

/// Composes the lines on the conditions that hold of the target.
pub fn condition_lines(target: &Target) -> (lines: Vec<String>)
    ensures
        texts(lines@) == condition_report(target),
{
    let mut lines: Vec<String> = Vec::new();
    lines.push(labelled("   是否为 64 位系统: ", bool_str(target.pointer_width == 64)));
    lines.push(labelled("   是否为 Unix 系统: ", bool_str(target.is_family("unix"))));
    lines.push(labelled("   是否为 Windows 系统: ", bool_str(target.is_family("windows"))));
    lines.push(labelled("   是否为调试模式: ", bool_str(target.debug_assertions)));
    if target.is_arch("x86_64") {
        lines.push(String::from_str("   运行在 x86_64 架构上"));
    } else if target.is_arch("aarch64") {
        lines.push(String::from_str("   运行在 ARM64/aarch64 架构上"));
    } else if target.is_arch("x86") {
        lines.push(String::from_str("   运行在 x86 架构上"));
    }
    assert(texts(lines@) =~= condition_report(target));
    lines
}

} // verus!
