use neatflix_mpvrs::errors::Error;
use neatflix_mpvrs::presets::{
    apply_preset, detect_gpu_vendor, detect_high_end_system, detect_system_info,
    get_preset_details, get_recommended_preset, list_available_presets, preset_args, GpuVendor,
    PerformanceLevel, Platform, SystemInfo,
};

#[test]
fn all_twelve_presets_are_listed() {
    let names = list_available_presets();
    assert_eq!(
        names,
        vec![
            "macos-balanced",
            "macos-high-quality",
            "macos-fast",
            "windows-nvidia-balanced",
            "windows-amd-balanced",
            "windows-intel-balanced",
            "windows-nvidia-high-quality",
            "windows-amd-high-quality",
            "windows-intel-fast",
            "linux-balanced",
            "linux-high-quality",
            "linux-fast",
        ]
    );
}

#[test]
fn details_find_known_presets_only() {
    let p = get_preset_details("macos-balanced").expect("known preset");
    assert_eq!(p.name, "macos-balanced");
    assert_eq!(p.platform, Some(Platform::MacOS));
    assert_eq!(p.performance_level, PerformanceLevel::Balanced);
    assert!(get_preset_details("atari-fast").is_none());
}

#[test]
fn apply_preset_renders_option_flags() {
    let args = apply_preset("macos-balanced").unwrap();
    assert_eq!(args.len(), 14);
    assert_eq!(args[0], "--vo=gpu-next");
    assert_eq!(args[1], "--profile=gpu-hq");
    assert_eq!(args[13], "--audio-channels=auto-safe");
}

#[test]
fn apply_preset_rejects_unknown_names() {
    match apply_preset("no-such-preset") {
        Err(Error::ConfigError(m)) => {
            assert_eq!(m, "Preset 'no-such-preset' not found");
        }
        _ => panic!("unknown preset must be a configuration error"),
    }
}

#[test]
fn preset_args_formats_every_option() {
    let p = get_preset_details("linux-fast").unwrap();
    let args = preset_args(&p);
    assert_eq!(args.len(), p.config_options.len());
    for (arg, (k, v)) in args.iter().zip(p.config_options.iter()) {
        assert_eq!(arg, &format!("--{}={}", k, v));
    }
}

#[test]
fn recommended_preset_follows_the_system() {
    let mac_high = SystemInfo {
        platform: Platform::MacOS,
        gpu_vendor: GpuVendor::Apple,
        is_high_end: true,
    };
    assert_eq!(get_recommended_preset(&mac_high), "macos-high-quality");

    let win_nvidia = SystemInfo {
        platform: Platform::Windows,
        gpu_vendor: GpuVendor::Nvidia,
        is_high_end: false,
    };
    assert_eq!(get_recommended_preset(&win_nvidia), "windows-nvidia-balanced");

    let win_intel_low = SystemInfo {
        platform: Platform::Windows,
        gpu_vendor: GpuVendor::Intel,
        is_high_end: false,
    };
    assert_eq!(get_recommended_preset(&win_intel_low), "windows-intel-fast");

    let win_unknown = SystemInfo {
        platform: Platform::Windows,
        gpu_vendor: GpuVendor::Unknown,
        is_high_end: true,
    };
    assert_eq!(get_recommended_preset(&win_unknown), "windows-nvidia-balanced");

    let linux_low = SystemInfo {
        platform: Platform::Linux,
        gpu_vendor: GpuVendor::AMD,
        is_high_end: false,
    };
    assert_eq!(get_recommended_preset(&linux_low), "linux-balanced");
}

#[test]
fn every_recommended_preset_is_known() {
    for platform in [Platform::MacOS, Platform::Windows, Platform::Linux] {
        for vendor in [
            GpuVendor::Nvidia,
            GpuVendor::AMD,
            GpuVendor::Intel,
            GpuVendor::Apple,
            GpuVendor::Unknown,
        ] {
            for high in [false, true] {
                let info = SystemInfo { platform, gpu_vendor: vendor, is_high_end: high };
                let name = get_recommended_preset(&info);
                assert!(
                    get_preset_details(name.as_str()).is_some(),
                    "unknown recommendation {}",
                    name
                );
            }
        }
    }
}

#[test]
fn gpu_vendor_is_read_from_the_adapter_description() {
    assert_eq!(
        detect_gpu_vendor(Platform::Linux, "01:00.0 vga: nvidia corporation ad104"),
        GpuVendor::Nvidia
    );
    assert_eq!(
        detect_gpu_vendor(Platform::Windows, "amd radeon rx 6800"),
        GpuVendor::AMD
    );
    assert_eq!(
        detect_gpu_vendor(Platform::Windows, "intel(r) uhd graphics"),
        GpuVendor::Intel
    );
    assert_eq!(detect_gpu_vendor(Platform::Linux, "some vga device"), GpuVendor::Unknown);
    assert_eq!(detect_gpu_vendor(Platform::MacOS, "apple m2"), GpuVendor::Apple);
    assert_eq!(detect_gpu_vendor(Platform::MacOS, "radeon pro"), GpuVendor::Intel);
}

#[test]
fn high_end_detection_follows_the_platform_rules() {
    assert!(detect_high_end_system(Platform::MacOS, "Apple M1 Pro", ""));
    assert!(detect_high_end_system(Platform::MacOS, "Apple M2", ""));
    assert!(!detect_high_end_system(Platform::MacOS, "Apple M1", ""));
    assert!(detect_high_end_system(Platform::Windows, "", "nvidia geforce rtx 4070"));
    assert!(detect_high_end_system(Platform::Linux, "", "amd radeon rx 6800 xt"));
    assert!(!detect_high_end_system(Platform::Linux, "", "intel uhd 620"));
}

#[test]
fn system_info_combines_the_probes() {
    let info = detect_system_info(
        Platform::Linux,
        "AMD Ryzen 9",
        "amd radeon rx 6800 xt (vega?)",
    );
    assert_eq!(info.platform, Platform::Linux);
    assert_eq!(info.gpu_vendor, GpuVendor::AMD);
    assert!(info.is_high_end);
}
