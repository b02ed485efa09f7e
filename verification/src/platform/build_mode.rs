//! What a build reports about itself: one text for debug builds, another for
//! release builds.

use crate::platform::Target;
use crate::text::literal_texts;
use vstd::prelude::*;

verus! {

/// The report of a debug build.
pub open spec fn debug_lines() -> Seq<Seq<char>> {
    seq![
        "🔍 这是调试模式下的信息"@,
        "✅ 调试功能已启用"@,
        "📊 性能监控已开启"@,
        "🪲 日志级别: DEBUG"@,
        "🔧 开发者选项:"@,
        "   - 详细的错误堆栈跟踪"@,
        "   - 内存分配跟踪"@,
        "   - 性能分析工具"@,
    ]
}

/// The report of a release build.
pub open spec fn release_lines() -> Seq<Seq<char>> {
    seq![
        "🚀 这是发布模式下的信息"@,
        "⚡ 优化版本正在运行"@,
        "🔒 生产环境配置已加载"@,
        "📈 性能优化已启用"@,
        "🎯 生产特性:"@,
        "   - 编译器优化已开启"@,
        "   - 内存使用优化"@,
        "   - 执行速度优化"@,
        "   - 错误处理简化"@,
    ]
}

/// The lines that a debug build prints about itself.
pub fn debug_info() -> (lines: Vec<&'static str>)
    ensures
        literal_texts(lines@) == debug_lines(),
{
    let mut lines: Vec<&'static str> = Vec::new();
    lines.push("🔍 这是调试模式下的信息");
    lines.push("✅ 调试功能已启用");
    lines.push("📊 性能监控已开启");
    lines.push("🪲 日志级别: DEBUG");
    lines.push("🔧 开发者选项:");
    lines.push("   - 详细的错误堆栈跟踪");
    lines.push("   - 内存分配跟踪");
    lines.push("   - 性能分析工具");
    assert(literal_texts(lines@) =~= debug_lines());
    lines
}

/// The lines that a release build prints about itself.
pub fn release_info() -> (lines: Vec<&'static str>)
    ensures
        literal_texts(lines@) == release_lines(),
{
    let mut lines: Vec<&'static str> = Vec::new();
    lines.push("🚀 这是发布模式下的信息");
    lines.push("⚡ 优化版本正在运行");
    lines.push("🔒 生产环境配置已加载");
    lines.push("📈 性能优化已启用");
    lines.push("🎯 生产特性:");
    lines.push("   - 编译器优化已开启");
    lines.push("   - 内存使用优化");
    lines.push("   - 执行速度优化");
    lines.push("   - 错误处理简化");
    assert(literal_texts(lines@) =~= release_lines());
    lines
}

/// The report of a build for `target`: a build holds the debug report when
/// debug assertions are compiled in, and the release report when they are
/// not, never both.
pub fn build_info(target: &Target) -> (lines: Vec<&'static str>)
    ensures
        literal_texts(lines@) == if target.debug_assertions {
            debug_lines()
        } else {
            release_lines()
        },
{
    if target.debug_assertions {
        debug_info()
    } else {
        release_info()
    }
}

} // verus!
