use rust_lessons::platform::build_mode::{build_info, debug_info, release_info};
use rust_lessons::platform::combined::{
    AdvancedFeatureCode, AppleCode, ApplePlatformCode, CustomFeatureCode, Linux64Code,
    NonWindowsCode, SpecificUnixCode, UnixLikeCode,
};
use rust_lessons::platform::cross_platform::{CrossPlatformCode, PlatformCapabilities};
use rust_lessons::platform::report::{condition_lines, system_code_lines, target_lines};
use rust_lessons::platform::single_os::{LinuxCode, MacOSCode, WindowsCode};
use rust_lessons::platform::{Conditional, Target};

fn target(os: &str, arch: &str, pointer_width: u32, unix: bool) -> Target {
    Target {
        os: os.to_string(),
        arch: arch.to_string(),
        family: if unix { "unix".to_string() } else { "windows".to_string() },
        pointer_width,
        debug_assertions: false,
        features: Vec::new(),
    }
}

fn linux() -> Target {
    target("linux", "x86_64", 64, true)
}

fn macos() -> Target {
    target("macos", "aarch64", 64, true)
}

fn windows() -> Target {
    target("windows", "x86_64", 64, false)
}

#[test]
fn target_tests_compare_whole_names() {
    let t = linux();
    assert!(t.is_os("linux"));
    assert!(!t.is_os("linu"));
    assert!(!t.is_os("linux "));
    assert!(!t.is_os(""));
    assert!(t.is_arch("x86_64"));
    assert!(!t.is_arch("x86"));
    assert!(t.is_family("unix"));
    assert!(!t.is_family("windows"));
    assert!(windows().is_family("windows"));
}

#[test]
fn target_features_are_found_by_name() {
    let mut t = linux();
    assert!(!t.is_feature_enabled("advanced-features"));
    t.features.push("custom-feature".to_string());
    t.features.push("advanced-features".to_string());
    assert!(t.is_feature_enabled("advanced-features"));
    assert!(t.is_feature_enabled("custom-feature"));
    assert!(!t.is_feature_enabled("advanced"));
}

#[test]
fn linux_code_has_its_version() {
    let code = LinuxCode::new();
    assert_eq!(code.version, "Linux Edition v2.0");
    assert!(code.features_enabled);
}

#[test]
fn linux_code_lists_four_features() {
    let code = LinuxCode::new();
    assert_eq!(
        code.get_linux_features(),
        vec!["epoll 支持", "inotify 文件监控", "信号处理", "Unix 域套接字"]
    );
}

#[test]
fn macos_code_has_its_version_and_level() {
    let code = MacOSCode::new();
    assert_eq!(code.version, "macOS Edition v2.0");
    assert_eq!(code.integration_level, 3);
}

#[test]
fn macos_code_lists_four_features() {
    let code = MacOSCode::new();
    assert_eq!(
        code.get_macos_features(),
        vec!["Grand Central Dispatch", "Metal 图形 API", "Core Foundation", "Mach 端口通信"]
    );
}

#[test]
fn windows_code_has_its_version() {
    let code = WindowsCode::new();
    assert_eq!(code.version, "Windows Edition v2.0");
    assert!(code.registry_access);
}

#[test]
fn single_system_types_are_built_for_their_system_only() {
    assert!(LinuxCode::is_built_for(&linux()));
    assert!(!LinuxCode::is_built_for(&macos()));
    assert!(!LinuxCode::is_built_for(&windows()));
    assert!(MacOSCode::is_built_for(&macos()));
    assert!(!MacOSCode::is_built_for(&linux()));
    assert!(WindowsCode::is_built_for(&windows()));
    assert!(!WindowsCode::is_built_for(&linux()));
}

#[test]
fn cross_platform_code_is_built_for_three_systems() {
    assert!(CrossPlatformCode::is_built_for(&linux()));
    assert!(CrossPlatformCode::is_built_for(&macos()));
    assert!(CrossPlatformCode::is_built_for(&windows()));
    assert!(!CrossPlatformCode::is_built_for(&target("ios", "aarch64", 64, true)));
    assert!(PlatformCapabilities::is_built_for(&windows()));
    assert!(!PlatformCapabilities::is_built_for(&target("freebsd", "x86_64", 64, true)));
}

#[test]
fn cross_platform_code_on_linux() {
    let code = CrossPlatformCode::new(&linux());
    assert_eq!(code.platform, "linux");
    assert_eq!(code.architecture, "x86_64");
    assert!(matches!(
        code.capabilities,
        PlatformCapabilities::Linux { epoll: true, signals: true, unix_sockets: true }
    ));
}

#[test]
fn cross_platform_code_on_macos() {
    let code = CrossPlatformCode::new(&macos());
    assert_eq!(code.platform, "macos");
    assert_eq!(code.architecture, "aarch64");
    assert!(matches!(
        code.capabilities,
        PlatformCapabilities::MacOS { metal: true, gcd: true, core_foundation: true }
    ));
}

#[test]
fn cross_platform_code_on_windows() {
    let code = CrossPlatformCode::new(&windows());
    assert_eq!(code.platform, "windows");
    assert!(matches!(
        code.capabilities,
        PlatformCapabilities::Windows { win32: true, com: true, registry: true }
    ));
}

#[test]
fn greeting_on_linux() {
    let code = CrossPlatformCode::new(&linux());
    assert_eq!(
        code.greet(),
        vec![
            "🌍 Hello from linux platform!",
            "🏗️  Architecture: x86_64",
            "🐧 Linux Capabilities:",
            "   epoll support: true",
            "   signal handling: true",
            "   Unix sockets: true",
        ]
    );
}

#[test]
fn greeting_on_macos() {
    let code = CrossPlatformCode::new(&macos());
    assert_eq!(
        code.greet(),
        vec![
            "🌍 Hello from macos platform!",
            "🏗️  Architecture: aarch64",
            "🍎 macOS Capabilities:",
            "   Metal API: true",
            "   GCD support: true",
            "   Core Foundation: true",
        ]
    );
}

#[test]
fn greeting_shows_missing_capabilities() {
    let code = CrossPlatformCode {
        platform: "windows".to_string(),
        architecture: "x86".to_string(),
        capabilities: PlatformCapabilities::Windows { win32: true, com: false, registry: false },
    };
    assert_eq!(
        code.greet(),
        vec![
            "🌍 Hello from windows platform!",
            "🏗️  Architecture: x86",
            "🪟 Windows Capabilities:",
            "   Win32 API: true",
            "   COM support: false",
            "   Registry access: false",
        ]
    );
}

#[test]
fn supports_feature_knows_the_features_of_its_system() {
    let code = CrossPlatformCode::new(&linux());
    assert!(code.supports_feature("epoll"));
    assert!(code.supports_feature("signals"));
    assert!(code.supports_feature("unix_sockets"));
    assert!(!code.supports_feature("metal"));
    assert!(!code.supports_feature("registry"));
    assert!(!code.supports_feature(""));
    assert!(!code.supports_feature("EPOLL"));

    let code = CrossPlatformCode::new(&macos());
    assert!(code.supports_feature("metal"));
    assert!(code.supports_feature("gcd"));
    assert!(code.supports_feature("core_foundation"));
    assert!(!code.supports_feature("epoll"));

    let code = CrossPlatformCode::new(&windows());
    assert!(code.supports_feature("win32"));
    assert!(code.supports_feature("com"));
    assert!(code.supports_feature("registry"));
    assert!(!code.supports_feature("gcd"));
}

#[test]
fn supports_feature_reports_a_capability_that_is_switched_off() {
    let code = CrossPlatformCode {
        platform: "linux".to_string(),
        architecture: "x86_64".to_string(),
        capabilities: PlatformCapabilities::Linux {
            epoll: false,
            signals: true,
            unix_sockets: false,
        },
    };
    assert!(!code.supports_feature("epoll"));
    assert!(code.supports_feature("signals"));
    assert!(!code.supports_feature("unix_sockets"));
}

#[test]
fn debug_report_has_eight_lines() {
    let lines = debug_info();
    assert_eq!(lines.len(), 8);
    assert_eq!(lines[0], "🔍 这是调试模式下的信息");
    assert_eq!(lines[3], "🪲 日志级别: DEBUG");
    assert_eq!(lines[7], "   - 性能分析工具");
}

#[test]
fn release_report_has_nine_lines() {
    let lines = release_info();
    assert_eq!(lines.len(), 9);
    assert_eq!(lines[0], "🚀 这是发布模式下的信息");
    assert_eq!(lines[4], "🎯 生产特性:");
    assert_eq!(lines[8], "   - 错误处理简化");
}

#[test]
fn build_report_follows_debug_assertions() {
    let mut t = linux();
    assert_eq!(build_info(&t), release_info());
    t.debug_assertions = true;
    assert_eq!(build_info(&t), debug_info());
}

#[test]
fn linux64_code_needs_both_conditions() {
    assert!(Linux64Code::is_built_for(&linux()));
    assert!(!Linux64Code::is_built_for(&target("linux", "x86", 32, true)));
    assert!(!Linux64Code::is_built_for(&macos()));
}

#[test]
fn linux64_code_starts_with_four_processors() {
    let code = Linux64Code::new();
    assert_eq!(code.processor_count, 4);
    assert_eq!(code.memory_size, 0);
    assert_eq!(code.get_optimal_thread_count(), 4);
}

#[test]
fn thread_count_is_capped_at_sixteen() {
    assert_eq!(Linux64Code { processor_count: 0, memory_size: 0 }.get_optimal_thread_count(), 0);
    assert_eq!(Linux64Code { processor_count: 15, memory_size: 0 }.get_optimal_thread_count(), 15);
    assert_eq!(Linux64Code { processor_count: 16, memory_size: 0 }.get_optimal_thread_count(), 16);
    assert_eq!(Linux64Code { processor_count: 17, memory_size: 0 }.get_optimal_thread_count(), 16);
    assert_eq!(
        Linux64Code { processor_count: usize::MAX, memory_size: 0 }.get_optimal_thread_count(),
        16
    );
}

#[test]
fn apple_code_is_built_for_either_system() {
    let ios = target("ios", "aarch64", 64, true);
    assert!(ApplePlatformCode::is_built_for(&macos()));
    assert!(ApplePlatformCode::is_built_for(&ios));
    assert!(!ApplePlatformCode::is_built_for(&linux()));
    assert!(AppleCode::is_built_for(&macos()));
    assert!(AppleCode::is_built_for(&ios));
    assert!(!AppleCode::is_built_for(&windows()));
}

#[test]
fn apple_code_has_metal_on_aarch64_only() {
    let code = ApplePlatformCode::new(&macos());
    assert_eq!(code.platform_type, "macos");
    assert_eq!(code.core_foundation_version, 1500);
    assert!(code.metal_available);
    assert!(code.supports_metal());

    let code = ApplePlatformCode::new(&target("macos", "x86_64", 64, true));
    assert!(!code.supports_metal());

    let code = ApplePlatformCode::new(&target("ios", "aarch64", 64, true));
    assert_eq!(code.platform_type, "ios");
    assert!(code.supports_metal());
}

#[test]
fn unix_like_code_is_built_everywhere_but_on_windows() {
    assert!(UnixLikeCode::is_built_for(&linux()));
    assert!(UnixLikeCode::is_built_for(&macos()));
    assert!(!UnixLikeCode::is_built_for(&windows()));
    assert!(NonWindowsCode::is_built_for(&target("freebsd", "x86_64", 64, true)));
    assert!(!NonWindowsCode::is_built_for(&windows()));
}

#[test]
fn unix_like_features_on_linux() {
    let code = UnixLikeCode::new(&linux());
    assert!(code.posix_compliance);
    assert_eq!(
        code.get_features(),
        &vec![
            "POSIX 兼容".to_string(),
            "Unix 信号处理".to_string(),
            "文件描述符".to_string(),
            "inotify 文件监控".to_string(),
            "epoll I/O 多路复用".to_string(),
        ]
    );
}

#[test]
fn unix_like_features_on_macos() {
    let code = UnixLikeCode::new(&macos());
    assert_eq!(
        code.get_features(),
        &vec![
            "POSIX 兼容".to_string(),
            "Unix 信号处理".to_string(),
            "文件描述符".to_string(),
            "FSEvents 文件系统事件".to_string(),
            "kqueue 事件通知".to_string(),
        ]
    );
}

#[test]
fn unix_like_features_elsewhere() {
    let code = UnixLikeCode::new(&target("freebsd", "x86_64", 64, true));
    assert!(code.posix_compliance);
    assert_eq!(
        code.get_features(),
        &vec!["POSIX 兼容".to_string(), "Unix 信号处理".to_string(), "文件描述符".to_string()]
    );
}

#[test]
fn advanced_feature_code_needs_its_feature() {
    let mut t = linux();
    assert!(!AdvancedFeatureCode::is_built_for(&t));
    assert!(!CustomFeatureCode::is_built_for(&t));
    t.features.push("advanced-features".to_string());
    assert!(AdvancedFeatureCode::is_built_for(&t));
    assert!(!CustomFeatureCode::is_built_for(&t));
    t.features.push("custom-feature".to_string());
    assert!(CustomFeatureCode::is_built_for(&t));
}

#[test]
fn experimental_interface_follows_debug_assertions() {
    let mut t = linux();
    let code = AdvancedFeatureCode::new(&t);
    assert!(!code.experimental_api);
    assert!(code.beta_features);
    assert!(!code.debug_mode_enabled);
    assert!(!code.is_experimental_enabled());

    t.debug_assertions = true;
    let code = AdvancedFeatureCode::new(&t);
    assert!(code.beta_features);
    assert!(code.debug_mode_enabled);
    assert!(code.is_experimental_enabled());
}

#[test]
fn specific_unix_code_needs_all_three_conditions() {
    assert!(SpecificUnixCode::is_built_for(&linux()));
    assert!(SpecificUnixCode::is_built_for(&target("freebsd", "aarch64", 64, true)));
    assert!(!SpecificUnixCode::is_built_for(&macos()));
    assert!(!SpecificUnixCode::is_built_for(&windows()));
    assert!(!SpecificUnixCode::is_built_for(&target("linux", "x86", 32, true)));
    assert!(!SpecificUnixCode::is_built_for(&target("linux", "x86_64", 64, false)));
}

#[test]
fn specific_unix_code_on_linux() {
    let code = SpecificUnixCode::new(&linux());
    assert_eq!(code.get_variant(), "Linux");
    assert_eq!(code.optimization_level, 2);
    assert_eq!(code.supported_features, vec!["POSIX 标准", "64位架构支持", "Linux 特定优化"]);
}

#[test]
fn specific_unix_code_on_freebsd() {
    let code = SpecificUnixCode::new(&target("freebsd", "x86_64", 64, true));
    assert_eq!(code.get_variant(), "FreeBSD");
    assert_eq!(code.optimization_level, 2);
    assert_eq!(code.supported_features, vec!["POSIX 标准", "64位架构支持"]);
}

#[test]
fn specific_unix_code_on_another_unix() {
    let code = SpecificUnixCode::new(&target("netbsd", "aarch64", 64, true));
    assert_eq!(code.get_variant(), "Unknown Unix");
    assert_eq!(code.supported_features, vec!["POSIX 标准", "64位架构支持"]);
}

#[test]
fn system_code_report_on_linux() {
    assert_eq!(
        system_code_lines(&linux()),
        vec!["→ 运行 Linux 特定的代码", "→ 创建了 Linux 专用代码: Linux Edition v2.0"]
    );
}

#[test]
fn system_code_report_on_macos() {
    assert_eq!(
        system_code_lines(&macos()),
        vec!["→ 运行 macOS 特定的代码", "→ 创建了 macOS 专用代码: macOS Edition v2.0"]
    );
}

#[test]
fn system_code_report_elsewhere() {
    assert_eq!(system_code_lines(&windows()), vec!["→ 我们不完全支持这个操作系统"]);
}

#[test]
fn target_report_names_system_architecture_and_family() {
    assert_eq!(
        target_lines(&linux()),
        vec!["   操作系统: linux", "   架构: x86_64", "   系列家族: unix"]
    );
    let mut bare = target("none", "riscv64", 64, false);
    bare.family = String::new();
    assert_eq!(
        target_lines(&bare),
        vec!["   操作系统: none", "   架构: riscv64", "   系列家族: "]
    );
}

#[test]
fn condition_report_on_linux() {
    assert_eq!(
        condition_lines(&linux()),
        vec![
            "   是否为 64 位系统: true",
            "   是否为 Unix 系统: true",
            "   是否为 Windows 系统: false",
            "   是否为调试模式: false",
            "   运行在 x86_64 架构上",
        ]
    );
}

#[test]
fn condition_report_on_a_debug_build_for_windows() {
    let mut t = target("windows", "x86", 32, false);
    t.debug_assertions = true;
    assert_eq!(
        condition_lines(&t),
        vec![
            "   是否为 64 位系统: false",
            "   是否为 Unix 系统: false",
            "   是否为 Windows 系统: true",
            "   是否为调试模式: true",
            "   运行在 x86 架构上",
        ]
    );
}

#[test]
fn condition_report_names_three_architectures_only() {
    assert_eq!(condition_lines(&macos())[4], "   运行在 ARM64/aarch64 架构上");
    assert_eq!(condition_lines(&target("linux", "riscv64", 64, true)).len(), 4);
}
