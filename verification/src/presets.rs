//! Named player-configuration presets: a fixed table of flag sets per
//! platform and quality level, the lookup API over it, and the
//! classification of a detected system into a recommended preset.

use vstd::prelude::*;
use vstd::string::StringExecFns;
use crate::errors::Error;
use crate::text::{str_eq, str_contains, spec_contains, push_str_chars, chars_to_string};

verus! {

/// The platforms the presets distinguish.
#[derive(Debug, Clone, Copy, PartialEq, Eq, Structural)]
pub enum Platform {
    MacOS,
    Windows,
    Linux,
}

/// How a preset trades performance against quality.
#[derive(Debug, Clone, Copy, PartialEq, Eq, Structural)]
pub enum PerformanceLevel {
    /// Optimized for performance.
    Fast,
    /// Balanced performance and quality.
    Balanced,
    /// Optimized for quality.
    HighQuality,
}

/// The graphics vendors the presets distinguish.
#[derive(Debug, Clone, Copy, PartialEq, Eq, Structural)]
pub enum GpuVendor {
    Nvidia,
    AMD,
    Intel,
    Apple,
    Unknown,
}

/// What was detected about the running system.
#[derive(Debug, Clone)]
pub struct SystemInfo {
    /// The platform.
    pub platform: Platform,
    /// The graphics vendor.
    pub gpu_vendor: GpuVendor,
    /// Whether the hardware counts as high-end.
    pub is_high_end: bool,
}

/// One named preset: its flag table and what it is for.
#[derive(Debug, Clone)]
pub struct PresetConfig {
    /// The preset's name.
    pub name: String,
    /// What the preset is for.
    pub description: String,
    /// The platform it targets, if one.
    pub platform: Option<Platform>,
    /// Its performance/quality trade.
    pub performance_level: PerformanceLevel,
    /// The player options it sets, as key and value.
    pub config_options: Vec<(String, String)>,
}

/// The names of the presets the table holds, in its order.
pub open spec fn spec_preset_names() -> Seq<Seq<char>> {
    seq![
        "macos-balanced"@,
        "macos-high-quality"@,
        "macos-fast"@,
        "windows-nvidia-balanced"@,
        "windows-amd-balanced"@,
        "windows-intel-balanced"@,
        "windows-nvidia-high-quality"@,
        "windows-amd-high-quality"@,
        "windows-intel-fast"@,
        "linux-balanced"@,
        "linux-high-quality"@,
        "linux-fast"@,
    ]
}

/// Whether a preset of this name exists.
pub open spec fn spec_known_preset(name: Seq<char>) -> bool {
    exists|i: int| 0 <= i < spec_preset_names().len() && spec_preset_names()[i] == name
}

/// The texts of an option table: each key and value.
pub open spec fn spec_option_views(opts: Seq<(String, String)>) -> Seq<(Seq<char>, Seq<char>)> {
    opts.map_values(|o: (String, String)| (o.0@, o.1@))
}

/// The option tables of the presets, one per entry of
/// `spec_preset_names`, in the same order.
pub open spec fn spec_preset_table() -> Seq<Seq<(Seq<char>, Seq<char>)>> {
    seq![
        seq![
            ("vo"@, "gpu-next"@),
            ("profile"@, "gpu-hq"@),
            ("gpu-context"@, "macvk"@),
            ("hwdec"@, "videotoolbox"@),
            ("hwdec-codecs"@, "all"@),
            ("video-sync"@, "display-resample"@),
            ("interpolation"@, "yes"@),
            ("target-colorspace-hint"@, "yes"@),
            ("icc-profile-auto"@, "yes"@),
            ("scale"@, "spline36"@),
            ("dscale"@, "mitchell"@),
            ("cscale"@, "spline36"@),
            ("ao"@, "coreaudio"@),
            ("audio-channels"@, "auto-safe"@),
        ],
        seq![
            ("vo"@, "gpu-next"@),
            ("profile"@, "gpu-hq"@),
            ("gpu-context"@, "macvk"@),
            ("hwdec"@, "videotoolbox"@),
            ("hwdec-codecs"@, "all"@),
            ("video-sync"@, "display-resample"@),
            ("interpolation"@, "yes"@),
            ("target-colorspace-hint"@, "yes"@),
            ("icc-profile-auto"@, "yes"@),
            ("target-prim"@, "apple"@),
            ("target-trc"@, "gamma2.2"@),
            ("hdr-compute-peak"@, "auto"@),
            ("scale"@, "ewa_lanczossharp"@),
            ("dscale"@, "ewa_lanczos"@),
            ("cscale"@, "ewa_lanczos"@),
            ("gpu-dumb-mode"@, "no"@),
            ("deband"@, "yes"@),
            ("deband-iterations"@, "2"@),
            ("deband-threshold"@, "35"@),
            ("ao"@, "coreaudio"@),
            ("audio-channels"@, "auto-safe"@),
        ],
        seq![
            ("vo"@, "gpu"@),
            ("hwdec"@, "videotoolbox"@),
            ("hwdec-codecs"@, "all"@),
            ("video-sync"@, "audio"@),
            ("interpolation"@, "no"@),
            ("scale"@, "bilinear"@),
            ("dscale"@, "bilinear"@),
            ("cscale"@, "bilinear"@),
            ("deband"@, "no"@),
            ("ao"@, "coreaudio"@),
            ("audio-channels"@, "stereo"@),
        ],
        seq![
            ("profile"@, "gpu-hq"@),
            ("gpu-api"@, "d3d11"@),
            ("hwdec"@, "auto-copy"@),
            ("hwdec-codecs"@, "all"@),
            ("d3d11-adapter"@, "auto"@),
            ("d3d11-exclusive-fs"@, "yes"@),
            ("d3d11-flip"@, "yes"@),
            ("video-sync"@, "display-resample"@),
            ("interpolation"@, "yes"@),
            ("scale"@, "spline36"@),
            ("dscale"@, "mitchell"@),
            ("cscale"@, "spline36"@),
            ("audio-channels"@, "auto-safe"@),
        ],
        seq![
            ("profile"@, "gpu-hq"@),
            ("gpu-api"@, "d3d11"@),
            ("hwdec"@, "auto-copy"@),
            ("hwdec-codecs"@, "all"@),
            ("d3d11-adapter"@, "auto"@),
            ("d3d11-exclusive-fs"@, "yes"@),
            ("video-sync"@, "display-resample"@),
            ("interpolation"@, "yes"@),
            ("scale"@, "spline36"@),
            ("dscale"@, "mitchell"@),
            ("cscale"@, "spline36"@),
            ("audio-channels"@, "auto-safe"@),
        ],
        seq![
            ("profile"@, "gpu-hq"@),
            ("gpu-api"@, "d3d11"@),
            ("hwdec"@, "auto-copy"@),
            ("hwdec-codecs"@, "all"@),
            ("d3d11-adapter"@, "auto"@),
            ("video-sync"@, "display-resample"@),
            ("interpolation"@, "no"@),
            ("scale"@, "spline36"@),
            ("dscale"@, "mitchell"@),
            ("cscale"@, "spline36"@),
            ("audio-channels"@, "auto-safe"@),
        ],
        seq![
            ("profile"@, "gpu-hq"@),
            ("gpu-api"@, "d3d11"@),
            ("hwdec"@, "auto-copy"@),
            ("hwdec-codecs"@, "all"@),
            ("d3d11-adapter"@, "auto"@),
            ("d3d11-exclusive-fs"@, "yes"@),
            ("d3d11-flip"@, "yes"@),
            ("video-sync"@, "display-resample"@),
            ("interpolation"@, "yes"@),
            ("scale"@, "ewa_lanczossharp"@),
            ("dscale"@, "ewa_lanczos"@),
            ("cscale"@, "ewa_lanczossoft"@),
            ("deband"@, "yes"@),
            ("deband-iterations"@, "2"@),
            ("deband-threshold"@, "35"@),
            ("audio-channels"@, "auto-safe"@),
        ],
        seq![
            ("profile"@, "gpu-hq"@),
            ("gpu-api"@, "d3d11"@),
            ("hwdec"@, "auto-copy"@),
            ("hwdec-codecs"@, "all"@),
            ("d3d11-adapter"@, "auto"@),
            ("d3d11-exclusive-fs"@, "yes"@),
            ("video-sync"@, "display-resample"@),
            ("interpolation"@, "yes"@),
            ("scale"@, "ewa_lanczossharp"@),
            ("dscale"@, "ewa_lanczos"@),
            ("cscale"@, "ewa_lanczossoft"@),
            ("deband"@, "yes"@),
            ("deband-iterations"@, "2"@),
            ("deband-threshold"@, "35"@),
            ("audio-channels"@, "auto-safe"@),
        ],
        seq![
            ("gpu-api"@, "d3d11"@),
            ("hwdec"@, "auto-copy"@),
            ("hwdec-codecs"@, "all"@),
            ("d3d11-adapter"@, "auto"@),
            ("video-sync"@, "audio"@),
            ("interpolation"@, "no"@),
            ("scale"@, "bilinear"@),
            ("dscale"@, "bilinear"@),
            ("cscale"@, "bilinear"@),
            ("deband"@, "no"@),
            ("audio-channels"@, "stereo"@),
        ],
        seq![
            ("profile"@, "gpu-hq"@),
            ("vo"@, "gpu"@),
            ("hwdec"@, "auto-safe"@),
            ("hwdec-codecs"@, "all"@),
            ("video-sync"@, "display-resample"@),
            ("interpolation"@, "yes"@),
            ("scale"@, "spline36"@),
            ("dscale"@, "mitchell"@),
            ("cscale"@, "spline36"@),
            ("audio-channels"@, "auto-safe"@),
        ],
        seq![
            ("profile"@, "gpu-hq"@),
            ("vo"@, "gpu"@),
            ("hwdec"@, "auto-safe"@),
            ("hwdec-codecs"@, "all"@),
            ("video-sync"@, "display-resample"@),
            ("interpolation"@, "yes"@),
            ("scale"@, "ewa_lanczossharp"@),
            ("dscale"@, "ewa_lanczos"@),
            ("cscale"@, "ewa_lanczossoft"@),
            ("deband"@, "yes"@),
            ("deband-iterations"@, "2"@),
            ("deband-threshold"@, "35"@),
            ("audio-channels"@, "auto-safe"@),
        ],
        seq![
            ("vo"@, "gpu"@),
            ("hwdec"@, "auto-safe"@),
            ("hwdec-codecs"@, "all"@),
            ("video-sync"@, "audio"@),
            ("interpolation"@, "no"@),
            ("scale"@, "bilinear"@),
            ("dscale"@, "bilinear"@),
            ("cscale"@, "bilinear"@),
            ("deband"@, "no"@),
            ("audio-channels"@, "stereo"@),
        ],
    ]
}

/// The option table of the preset named `name` (empty for an unknown
/// name).
pub open spec fn spec_preset_options(name: Seq<char>) -> Seq<(Seq<char>, Seq<char>)> {
    if name == "macos-balanced"@ {
        spec_preset_table()[0]
    } else if name == "macos-high-quality"@ {
        spec_preset_table()[1]
    } else if name == "macos-fast"@ {
        spec_preset_table()[2]
    } else if name == "windows-nvidia-balanced"@ {
        spec_preset_table()[3]
    } else if name == "windows-amd-balanced"@ {
        spec_preset_table()[4]
    } else if name == "windows-intel-balanced"@ {
        spec_preset_table()[5]
    } else if name == "windows-nvidia-high-quality"@ {
        spec_preset_table()[6]
    } else if name == "windows-amd-high-quality"@ {
        spec_preset_table()[7]
    } else if name == "windows-intel-fast"@ {
        spec_preset_table()[8]
    } else if name == "linux-balanced"@ {
        spec_preset_table()[9]
    } else if name == "linux-high-quality"@ {
        spec_preset_table()[10]
    } else if name == "linux-fast"@ {
        spec_preset_table()[11]
    } else {
        Seq::empty()
    }
}

/// One `--key=value` flag text per option, in table order.
pub open spec fn spec_flag_texts(opts: Seq<(Seq<char>, Seq<char>)>) -> Seq<Seq<char>> {
    opts.map_values(|o: (Seq<char>, Seq<char>)| "--"@ + o.0 + "="@ + o.1)
}

/// The flags a known preset name resolves to.
pub open spec fn spec_preset_flags(name: Seq<char>) -> Seq<Seq<char>> {
    spec_flag_texts(spec_preset_options(name))
}

/// Indexing the name list selects the matching option table.
pub proof fn lemma_preset_options_at(i: int)
    requires
        0 <= i < spec_preset_names().len(),
    ensures
        spec_preset_options(spec_preset_names()[i]) == spec_preset_table()[i],
{
    reveal_strlit("macos-balanced");
    reveal_strlit("macos-high-quality");
    reveal_strlit("macos-fast");
    reveal_strlit("windows-nvidia-balanced");
    reveal_strlit("windows-amd-balanced");
    reveal_strlit("windows-intel-balanced");
    reveal_strlit("windows-nvidia-high-quality");
    reveal_strlit("windows-amd-high-quality");
    reveal_strlit("windows-intel-fast");
    reveal_strlit("linux-balanced");
    reveal_strlit("linux-high-quality");
    reveal_strlit("linux-fast");
    assert("macos-high-quality"@ != "macos-balanced"@) by {
        assert("macos-high-quality"@.len() == 18);
        assert("macos-balanced"@.len() == 14);
    }
    assert("macos-fast"@ != "macos-balanced"@) by {
        assert("macos-fast"@.len() == 10);
        assert("macos-balanced"@.len() == 14);
    }
    assert("macos-fast"@ != "macos-high-quality"@) by {
        assert("macos-fast"@.len() == 10);
        assert("macos-high-quality"@.len() == 18);
    }
    assert("windows-nvidia-balanced"@ != "macos-balanced"@) by {
        assert("windows-nvidia-balanced"@.len() == 23);
        assert("macos-balanced"@.len() == 14);
    }
    assert("windows-nvidia-balanced"@ != "macos-high-quality"@) by {
        assert("windows-nvidia-balanced"@.len() == 23);
        assert("macos-high-quality"@.len() == 18);
    }
    assert("windows-nvidia-balanced"@ != "macos-fast"@) by {
        assert("windows-nvidia-balanced"@.len() == 23);
        assert("macos-fast"@.len() == 10);
    }
    assert("windows-amd-balanced"@ != "macos-balanced"@) by {
        assert("windows-amd-balanced"@.len() == 20);
        assert("macos-balanced"@.len() == 14);
    }
    assert("windows-amd-balanced"@ != "macos-high-quality"@) by {
        assert("windows-amd-balanced"@.len() == 20);
        assert("macos-high-quality"@.len() == 18);
    }
    assert("windows-amd-balanced"@ != "macos-fast"@) by {
        assert("windows-amd-balanced"@.len() == 20);
        assert("macos-fast"@.len() == 10);
    }
    assert("windows-amd-balanced"@ != "windows-nvidia-balanced"@) by {
        assert("windows-amd-balanced"@.len() == 20);
        assert("windows-nvidia-balanced"@.len() == 23);
    }
    assert("windows-intel-balanced"@ != "macos-balanced"@) by {
        assert("windows-intel-balanced"@.len() == 22);
        assert("macos-balanced"@.len() == 14);
    }
    assert("windows-intel-balanced"@ != "macos-high-quality"@) by {
        assert("windows-intel-balanced"@.len() == 22);
        assert("macos-high-quality"@.len() == 18);
    }
    assert("windows-intel-balanced"@ != "macos-fast"@) by {
        assert("windows-intel-balanced"@.len() == 22);
        assert("macos-fast"@.len() == 10);
    }
    assert("windows-intel-balanced"@ != "windows-nvidia-balanced"@) by {
        assert("windows-intel-balanced"@.len() == 22);
        assert("windows-nvidia-balanced"@.len() == 23);
    }
    assert("windows-intel-balanced"@ != "windows-amd-balanced"@) by {
        assert("windows-intel-balanced"@.len() == 22);
        assert("windows-amd-balanced"@.len() == 20);
    }
    assert("windows-nvidia-high-quality"@ != "macos-balanced"@) by {
        assert("windows-nvidia-high-quality"@.len() == 27);
        assert("macos-balanced"@.len() == 14);
    }
    assert("windows-nvidia-high-quality"@ != "macos-high-quality"@) by {
        assert("windows-nvidia-high-quality"@.len() == 27);
        assert("macos-high-quality"@.len() == 18);
    }
    assert("windows-nvidia-high-quality"@ != "macos-fast"@) by {
        assert("windows-nvidia-high-quality"@.len() == 27);
        assert("macos-fast"@.len() == 10);
    }
    assert("windows-nvidia-high-quality"@ != "windows-nvidia-balanced"@) by {
        assert("windows-nvidia-high-quality"@.len() == 27);
        assert("windows-nvidia-balanced"@.len() == 23);
    }
    assert("windows-nvidia-high-quality"@ != "windows-amd-balanced"@) by {
        assert("windows-nvidia-high-quality"@.len() == 27);
        assert("windows-amd-balanced"@.len() == 20);
    }
    assert("windows-nvidia-high-quality"@ != "windows-intel-balanced"@) by {
        assert("windows-nvidia-high-quality"@.len() == 27);
        assert("windows-intel-balanced"@.len() == 22);
    }
    assert("windows-amd-high-quality"@ != "macos-balanced"@) by {
        assert("windows-amd-high-quality"@.len() == 24);
        assert("macos-balanced"@.len() == 14);
    }
    assert("windows-amd-high-quality"@ != "macos-high-quality"@) by {
        assert("windows-amd-high-quality"@.len() == 24);
        assert("macos-high-quality"@.len() == 18);
    }
    assert("windows-amd-high-quality"@ != "macos-fast"@) by {
        assert("windows-amd-high-quality"@.len() == 24);
        assert("macos-fast"@.len() == 10);
    }
    assert("windows-amd-high-quality"@ != "windows-nvidia-balanced"@) by {
        assert("windows-amd-high-quality"@.len() == 24);
        assert("windows-nvidia-balanced"@.len() == 23);
    }
    assert("windows-amd-high-quality"@ != "windows-amd-balanced"@) by {
        assert("windows-amd-high-quality"@.len() == 24);
        assert("windows-amd-balanced"@.len() == 20);
    }
    assert("windows-amd-high-quality"@ != "windows-intel-balanced"@) by {
        assert("windows-amd-high-quality"@.len() == 24);
        assert("windows-intel-balanced"@.len() == 22);
    }
    assert("windows-amd-high-quality"@ != "windows-nvidia-high-quality"@) by {
        assert("windows-amd-high-quality"@.len() == 24);
        assert("windows-nvidia-high-quality"@.len() == 27);
    }
    assert("windows-intel-fast"@ != "macos-balanced"@) by {
        assert("windows-intel-fast"@.len() == 18);
        assert("macos-balanced"@.len() == 14);
    }
    assert("windows-intel-fast"@ != "macos-high-quality"@) by {
        assert("windows-intel-fast"@[0] == 'w');
        assert("macos-high-quality"@[0] == 'm');
    }
    assert("windows-intel-fast"@ != "macos-fast"@) by {
        assert("windows-intel-fast"@.len() == 18);
        assert("macos-fast"@.len() == 10);
    }
    assert("windows-intel-fast"@ != "windows-nvidia-balanced"@) by {
        assert("windows-intel-fast"@.len() == 18);
        assert("windows-nvidia-balanced"@.len() == 23);
    }
    assert("windows-intel-fast"@ != "windows-amd-balanced"@) by {
        assert("windows-intel-fast"@.len() == 18);
        assert("windows-amd-balanced"@.len() == 20);
    }
    assert("windows-intel-fast"@ != "windows-intel-balanced"@) by {
        assert("windows-intel-fast"@.len() == 18);
        assert("windows-intel-balanced"@.len() == 22);
    }
    assert("windows-intel-fast"@ != "windows-nvidia-high-quality"@) by {
        assert("windows-intel-fast"@.len() == 18);
        assert("windows-nvidia-high-quality"@.len() == 27);
    }
    assert("windows-intel-fast"@ != "windows-amd-high-quality"@) by {
        assert("windows-intel-fast"@.len() == 18);
        assert("windows-amd-high-quality"@.len() == 24);
    }
    assert("linux-balanced"@ != "macos-balanced"@) by {
        assert("linux-balanced"@[0] == 'l');
        assert("macos-balanced"@[0] == 'm');
    }
    assert("linux-balanced"@ != "macos-high-quality"@) by {
        assert("linux-balanced"@.len() == 14);
        assert("macos-high-quality"@.len() == 18);
    }
    assert("linux-balanced"@ != "macos-fast"@) by {
        assert("linux-balanced"@.len() == 14);
        assert("macos-fast"@.len() == 10);
    }
    assert("linux-balanced"@ != "windows-nvidia-balanced"@) by {
        assert("linux-balanced"@.len() == 14);
        assert("windows-nvidia-balanced"@.len() == 23);
    }
    assert("linux-balanced"@ != "windows-amd-balanced"@) by {
        assert("linux-balanced"@.len() == 14);
        assert("windows-amd-balanced"@.len() == 20);
    }
    assert("linux-balanced"@ != "windows-intel-balanced"@) by {
        assert("linux-balanced"@.len() == 14);
        assert("windows-intel-balanced"@.len() == 22);
    }
    assert("linux-balanced"@ != "windows-nvidia-high-quality"@) by {
        assert("linux-balanced"@.len() == 14);
        assert("windows-nvidia-high-quality"@.len() == 27);
    }
    assert("linux-balanced"@ != "windows-amd-high-quality"@) by {
        assert("linux-balanced"@.len() == 14);
        assert("windows-amd-high-quality"@.len() == 24);
    }
    assert("linux-balanced"@ != "windows-intel-fast"@) by {
        assert("linux-balanced"@.len() == 14);
        assert("windows-intel-fast"@.len() == 18);
    }
    assert("linux-high-quality"@ != "macos-balanced"@) by {
        assert("linux-high-quality"@.len() == 18);
        assert("macos-balanced"@.len() == 14);
    }
    assert("linux-high-quality"@ != "macos-high-quality"@) by {
        assert("linux-high-quality"@[0] == 'l');
        assert("macos-high-quality"@[0] == 'm');
    }
    assert("linux-high-quality"@ != "macos-fast"@) by {
        assert("linux-high-quality"@.len() == 18);
        assert("macos-fast"@.len() == 10);
    }
    assert("linux-high-quality"@ != "windows-nvidia-balanced"@) by {
        assert("linux-high-quality"@.len() == 18);
        assert("windows-nvidia-balanced"@.len() == 23);
    }
    assert("linux-high-quality"@ != "windows-amd-balanced"@) by {
        assert("linux-high-quality"@.len() == 18);
        assert("windows-amd-balanced"@.len() == 20);
    }
    assert("linux-high-quality"@ != "windows-intel-balanced"@) by {
        assert("linux-high-quality"@.len() == 18);
        assert("windows-intel-balanced"@.len() == 22);
    }
    assert("linux-high-quality"@ != "windows-nvidia-high-quality"@) by {
        assert("linux-high-quality"@.len() == 18);
        assert("windows-nvidia-high-quality"@.len() == 27);
    }
    assert("linux-high-quality"@ != "windows-amd-high-quality"@) by {
        assert("linux-high-quality"@.len() == 18);
        assert("windows-amd-high-quality"@.len() == 24);
    }
    assert("linux-high-quality"@ != "windows-intel-fast"@) by {
        assert("linux-high-quality"@[0] == 'l');
        assert("windows-intel-fast"@[0] == 'w');
    }
    assert("linux-high-quality"@ != "linux-balanced"@) by {
        assert("linux-high-quality"@.len() == 18);
        assert("linux-balanced"@.len() == 14);
    }
    assert("linux-fast"@ != "macos-balanced"@) by {
        assert("linux-fast"@.len() == 10);
        assert("macos-balanced"@.len() == 14);
    }
    assert("linux-fast"@ != "macos-high-quality"@) by {
        assert("linux-fast"@.len() == 10);
        assert("macos-high-quality"@.len() == 18);
    }
    assert("linux-fast"@ != "macos-fast"@) by {
        assert("linux-fast"@[0] == 'l');
        assert("macos-fast"@[0] == 'm');
    }
    assert("linux-fast"@ != "windows-nvidia-balanced"@) by {
        assert("linux-fast"@.len() == 10);
        assert("windows-nvidia-balanced"@.len() == 23);
    }
    assert("linux-fast"@ != "windows-amd-balanced"@) by {
        assert("linux-fast"@.len() == 10);
        assert("windows-amd-balanced"@.len() == 20);
    }
    assert("linux-fast"@ != "windows-intel-balanced"@) by {
        assert("linux-fast"@.len() == 10);
        assert("windows-intel-balanced"@.len() == 22);
    }
    assert("linux-fast"@ != "windows-nvidia-high-quality"@) by {
        assert("linux-fast"@.len() == 10);
        assert("windows-nvidia-high-quality"@.len() == 27);
    }
    assert("linux-fast"@ != "windows-amd-high-quality"@) by {
        assert("linux-fast"@.len() == 10);
        assert("windows-amd-high-quality"@.len() == 24);
    }
    assert("linux-fast"@ != "windows-intel-fast"@) by {
        assert("linux-fast"@.len() == 10);
        assert("windows-intel-fast"@.len() == 18);
    }
    assert("linux-fast"@ != "linux-balanced"@) by {
        assert("linux-fast"@.len() == 10);
        assert("linux-balanced"@.len() == 14);
    }
    assert("linux-fast"@ != "linux-high-quality"@) by {
        assert("linux-fast"@.len() == 10);
        assert("linux-high-quality"@.len() == 18);
    }
    assert(spec_preset_options("macos-balanced"@) == spec_preset_table()[0]);
    assert(spec_preset_options("macos-high-quality"@) == spec_preset_table()[1]);
    assert(spec_preset_options("macos-fast"@) == spec_preset_table()[2]);
    assert(spec_preset_options("windows-nvidia-balanced"@) == spec_preset_table()[3]);
    assert(spec_preset_options("windows-amd-balanced"@) == spec_preset_table()[4]);
    assert(spec_preset_options("windows-intel-balanced"@) == spec_preset_table()[5]);
    assert(spec_preset_options("windows-nvidia-high-quality"@) == spec_preset_table()[6]);
    assert(spec_preset_options("windows-amd-high-quality"@) == spec_preset_table()[7]);
    assert(spec_preset_options("windows-intel-fast"@) == spec_preset_table()[8]);
    assert(spec_preset_options("linux-balanced"@) == spec_preset_table()[9]);
    assert(spec_preset_options("linux-high-quality"@) == spec_preset_table()[10]);
    assert(spec_preset_options("linux-fast"@) == spec_preset_table()[11]);
}

fn opt(k: &str, v: &str) -> (r: (String, String))
    ensures
        r.0@ == k@,
        r.1@ == v@,
{
    (String::from_str(k), String::from_str(v))
}

fn create_macos_balanced_preset() -> (p: PresetConfig)
    ensures
        p.name@ == "macos-balanced"@,
        p.platform == Some(Platform::MacOS),
        p.performance_level == PerformanceLevel::Balanced,
        spec_option_views(p.config_options@) == spec_preset_table()[0],
{
    let config_options = vec![
        opt("vo", "gpu-next"),
        opt("profile", "gpu-hq"),
        opt("gpu-context", "macvk"),
        opt("hwdec", "videotoolbox"),
        opt("hwdec-codecs", "all"),
        opt("video-sync", "display-resample"),
        opt("interpolation", "yes"),
        opt("target-colorspace-hint", "yes"),
        opt("icc-profile-auto", "yes"),
        opt("scale", "spline36"),
        opt("dscale", "mitchell"),
        opt("cscale", "spline36"),
        opt("ao", "coreaudio"),
        opt("audio-channels", "auto-safe"),
    ];
    proof {
        assert(spec_option_views(config_options@) =~~= spec_preset_table()[0]);
    }
    PresetConfig {
        name: String::from_str("macos-balanced"),
        description: String::from_str("Balanced preset for macOS with Apple Silicon"),
        platform: Some(Platform::MacOS),
        performance_level: PerformanceLevel::Balanced,
        config_options,
    }
}

fn create_macos_high_quality_preset() -> (p: PresetConfig)
    ensures
        p.name@ == "macos-high-quality"@,
        p.platform == Some(Platform::MacOS),
        p.performance_level == PerformanceLevel::HighQuality,
        spec_option_views(p.config_options@) == spec_preset_table()[1],
{
    let config_options = vec![
        opt("vo", "gpu-next"),
        opt("profile", "gpu-hq"),
        opt("gpu-context", "macvk"),
        opt("hwdec", "videotoolbox"),
        opt("hwdec-codecs", "all"),
        opt("video-sync", "display-resample"),
        opt("interpolation", "yes"),
        opt("target-colorspace-hint", "yes"),
        opt("icc-profile-auto", "yes"),
        opt("target-prim", "apple"),
        opt("target-trc", "gamma2.2"),
        opt("hdr-compute-peak", "auto"),
        opt("scale", "ewa_lanczossharp"),
        opt("dscale", "ewa_lanczos"),
        opt("cscale", "ewa_lanczos"),
        opt("gpu-dumb-mode", "no"),
        opt("deband", "yes"),
        opt("deband-iterations", "2"),
        opt("deband-threshold", "35"),
        opt("ao", "coreaudio"),
        opt("audio-channels", "auto-safe"),
    ];
    proof {
        assert(spec_option_views(config_options@) =~~= spec_preset_table()[1]);
    }
    PresetConfig {
        name: String::from_str("macos-high-quality"),
        description: String::from_str("High quality preset for macOS with Apple Silicon"),
        platform: Some(Platform::MacOS),
        performance_level: PerformanceLevel::HighQuality,
        config_options,
    }
}

fn create_macos_fast_preset() -> (p: PresetConfig)
    ensures
        p.name@ == "macos-fast"@,
        p.platform == Some(Platform::MacOS),
        p.performance_level == PerformanceLevel::Fast,
        spec_option_views(p.config_options@) == spec_preset_table()[2],
{
    let config_options = vec![
        opt("vo", "gpu"),
        opt("hwdec", "videotoolbox"),
        opt("hwdec-codecs", "all"),
        opt("video-sync", "audio"),
        opt("interpolation", "no"),
        opt("scale", "bilinear"),
        opt("dscale", "bilinear"),
        opt("cscale", "bilinear"),
        opt("deband", "no"),
        opt("ao", "coreaudio"),
        opt("audio-channels", "stereo"),
    ];
    proof {
        assert(spec_option_views(config_options@) =~~= spec_preset_table()[2]);
    }
    PresetConfig {
        name: String::from_str("macos-fast"),
        description: String::from_str("Fast preset for macOS with lower-end hardware"),
        platform: Some(Platform::MacOS),
        performance_level: PerformanceLevel::Fast,
        config_options,
    }
}

fn create_windows_nvidia_balanced_preset() -> (p: PresetConfig)
    ensures
        p.name@ == "windows-nvidia-balanced"@,
        p.platform == Some(Platform::Windows),
        p.performance_level == PerformanceLevel::Balanced,
        spec_option_views(p.config_options@) == spec_preset_table()[3],
{
    let config_options = vec![
        opt("profile", "gpu-hq"),
        opt("gpu-api", "d3d11"),
        opt("hwdec", "auto-copy"),
        opt("hwdec-codecs", "all"),
        opt("d3d11-adapter", "auto"),
        opt("d3d11-exclusive-fs", "yes"),
        opt("d3d11-flip", "yes"),
        opt("video-sync", "display-resample"),
        opt("interpolation", "yes"),
        opt("scale", "spline36"),
        opt("dscale", "mitchell"),
        opt("cscale", "spline36"),
        opt("audio-channels", "auto-safe"),
    ];
    proof {
        assert(spec_option_views(config_options@) =~~= spec_preset_table()[3]);
    }
    PresetConfig {
        name: String::from_str("windows-nvidia-balanced"),
        description: String::from_str("Balanced preset for Windows with NVIDIA GPUs"),
        platform: Some(Platform::Windows),
        performance_level: PerformanceLevel::Balanced,
        config_options,
    }
}

fn create_windows_amd_balanced_preset() -> (p: PresetConfig)
    ensures
        p.name@ == "windows-amd-balanced"@,
        p.platform == Some(Platform::Windows),
        p.performance_level == PerformanceLevel::Balanced,
        spec_option_views(p.config_options@) == spec_preset_table()[4],
{
    let config_options = vec![
        opt("profile", "gpu-hq"),
        opt("gpu-api", "d3d11"),
        opt("hwdec", "auto-copy"),
        opt("hwdec-codecs", "all"),
        opt("d3d11-adapter", "auto"),
        opt("d3d11-exclusive-fs", "yes"),
        opt("video-sync", "display-resample"),
        opt("interpolation", "yes"),
        opt("scale", "spline36"),
        opt("dscale", "mitchell"),
        opt("cscale", "spline36"),
        opt("audio-channels", "auto-safe"),
    ];
    proof {
        assert(spec_option_views(config_options@) =~~= spec_preset_table()[4]);
    }
    PresetConfig {
        name: String::from_str("windows-amd-balanced"),
        description: String::from_str("Balanced preset for Windows with AMD GPUs"),
        platform: Some(Platform::Windows),
        performance_level: PerformanceLevel::Balanced,
        config_options,
    }
}

fn create_windows_intel_balanced_preset() -> (p: PresetConfig)
    ensures
        p.name@ == "windows-intel-balanced"@,
        p.platform == Some(Platform::Windows),
        p.performance_level == PerformanceLevel::Balanced,
        spec_option_views(p.config_options@) == spec_preset_table()[5],
{
    let config_options = vec![
        opt("profile", "gpu-hq"),
        opt("gpu-api", "d3d11"),
        opt("hwdec", "auto-copy"),
        opt("hwdec-codecs", "all"),
        opt("d3d11-adapter", "auto"),
        opt("video-sync", "display-resample"),
        opt("interpolation", "no"),
        opt("scale", "spline36"),
        opt("dscale", "mitchell"),
        opt("cscale", "spline36"),
        opt("audio-channels", "auto-safe"),
    ];
    proof {
        assert(spec_option_views(config_options@) =~~= spec_preset_table()[5]);
    }
    PresetConfig {
        name: String::from_str("windows-intel-balanced"),
        description: String::from_str("Balanced preset for Windows with Intel GPUs"),
        platform: Some(Platform::Windows),
        performance_level: PerformanceLevel::Balanced,
        config_options,
    }
}

fn create_windows_nvidia_high_quality_preset() -> (p: PresetConfig)
    ensures
        p.name@ == "windows-nvidia-high-quality"@,
        p.platform == Some(Platform::Windows),
        p.performance_level == PerformanceLevel::HighQuality,
        spec_option_views(p.config_options@) == spec_preset_table()[6],
{
    let config_options = vec![
        opt("profile", "gpu-hq"),
        opt("gpu-api", "d3d11"),
        opt("hwdec", "auto-copy"),
        opt("hwdec-codecs", "all"),
        opt("d3d11-adapter", "auto"),
        opt("d3d11-exclusive-fs", "yes"),
        opt("d3d11-flip", "yes"),
        opt("video-sync", "display-resample"),
        opt("interpolation", "yes"),
        opt("scale", "ewa_lanczossharp"),
        opt("dscale", "ewa_lanczos"),
        opt("cscale", "ewa_lanczossoft"),
        opt("deband", "yes"),
        opt("deband-iterations", "2"),
        opt("deband-threshold", "35"),
        opt("audio-channels", "auto-safe"),
    ];
    proof {
        assert(spec_option_views(config_options@) =~~= spec_preset_table()[6]);
    }
    PresetConfig {
        name: String::from_str("windows-nvidia-high-quality"),
        description: String::from_str("High quality preset for Windows with NVIDIA GPUs"),
        platform: Some(Platform::Windows),
        performance_level: PerformanceLevel::HighQuality,
        config_options,
    }
}

fn create_windows_amd_high_quality_preset() -> (p: PresetConfig)
    ensures
        p.name@ == "windows-amd-high-quality"@,
        p.platform == Some(Platform::Windows),
        p.performance_level == PerformanceLevel::HighQuality,
        spec_option_views(p.config_options@) == spec_preset_table()[7],
{
    let config_options = vec![
        opt("profile", "gpu-hq"),
        opt("gpu-api", "d3d11"),
        opt("hwdec", "auto-copy"),
        opt("hwdec-codecs", "all"),
        opt("d3d11-adapter", "auto"),
        opt("d3d11-exclusive-fs", "yes"),
        opt("video-sync", "display-resample"),
        opt("interpolation", "yes"),
        opt("scale", "ewa_lanczossharp"),
        opt("dscale", "ewa_lanczos"),
        opt("cscale", "ewa_lanczossoft"),
        opt("deband", "yes"),
        opt("deband-iterations", "2"),
        opt("deband-threshold", "35"),
        opt("audio-channels", "auto-safe"),
    ];
    proof {
        assert(spec_option_views(config_options@) =~~= spec_preset_table()[7]);
    }
    PresetConfig {
        name: String::from_str("windows-amd-high-quality"),
        description: String::from_str("High quality preset for Windows with AMD GPUs"),
        platform: Some(Platform::Windows),
        performance_level: PerformanceLevel::HighQuality,
        config_options,
    }
}

fn create_windows_intel_fast_preset() -> (p: PresetConfig)
    ensures
        p.name@ == "windows-intel-fast"@,
        p.platform == Some(Platform::Windows),
        p.performance_level == PerformanceLevel::Fast,
        spec_option_views(p.config_options@) == spec_preset_table()[8],
{
    let config_options = vec![
        opt("gpu-api", "d3d11"),
        opt("hwdec", "auto-copy"),
        opt("hwdec-codecs", "all"),
        opt("d3d11-adapter", "auto"),
        opt("video-sync", "audio"),
        opt("interpolation", "no"),
        opt("scale", "bilinear"),
        opt("dscale", "bilinear"),
        opt("cscale", "bilinear"),
        opt("deband", "no"),
        opt("audio-channels", "stereo"),
    ];
    proof {
        assert(spec_option_views(config_options@) =~~= spec_preset_table()[8]);
    }
    PresetConfig {
        name: String::from_str("windows-intel-fast"),
        description: String::from_str("Fast preset for Windows with Intel GPUs"),
        platform: Some(Platform::Windows),
        performance_level: PerformanceLevel::Fast,
        config_options,
    }
}

fn create_linux_balanced_preset() -> (p: PresetConfig)
    ensures
        p.name@ == "linux-balanced"@,
        p.platform == Some(Platform::Linux),
        p.performance_level == PerformanceLevel::Balanced,
        spec_option_views(p.config_options@) == spec_preset_table()[9],
{
    let config_options = vec![
        opt("profile", "gpu-hq"),
        opt("vo", "gpu"),
        opt("hwdec", "auto-safe"),
        opt("hwdec-codecs", "all"),
        opt("video-sync", "display-resample"),
        opt("interpolation", "yes"),
        opt("scale", "spline36"),
        opt("dscale", "mitchell"),
        opt("cscale", "spline36"),
        opt("audio-channels", "auto-safe"),
    ];
    proof {
        assert(spec_option_views(config_options@) =~~= spec_preset_table()[9]);
    }
    PresetConfig {
        name: String::from_str("linux-balanced"),
        description: String::from_str("Balanced preset for Linux"),
        platform: Some(Platform::Linux),
        performance_level: PerformanceLevel::Balanced,
        config_options,
    }
}

fn create_linux_high_quality_preset() -> (p: PresetConfig)
    ensures
        p.name@ == "linux-high-quality"@,
        p.platform == Some(Platform::Linux),
        p.performance_level == PerformanceLevel::HighQuality,
        spec_option_views(p.config_options@) == spec_preset_table()[10],
{
    let config_options = vec![
        opt("profile", "gpu-hq"),
        opt("vo", "gpu"),
        opt("hwdec", "auto-safe"),
        opt("hwdec-codecs", "all"),
        opt("video-sync", "display-resample"),
        opt("interpolation", "yes"),
        opt("scale", "ewa_lanczossharp"),
        opt("dscale", "ewa_lanczos"),
        opt("cscale", "ewa_lanczossoft"),
        opt("deband", "yes"),
        opt("deband-iterations", "2"),
        opt("deband-threshold", "35"),
        opt("audio-channels", "auto-safe"),
    ];
    proof {
        assert(spec_option_views(config_options@) =~~= spec_preset_table()[10]);
    }
    PresetConfig {
        name: String::from_str("linux-high-quality"),
        description: String::from_str("High quality preset for Linux"),
        platform: Some(Platform::Linux),
        performance_level: PerformanceLevel::HighQuality,
        config_options,
    }
}

fn create_linux_fast_preset() -> (p: PresetConfig)
    ensures
        p.name@ == "linux-fast"@,
        p.platform == Some(Platform::Linux),
        p.performance_level == PerformanceLevel::Fast,
        spec_option_views(p.config_options@) == spec_preset_table()[11],
{
    let config_options = vec![
        opt("vo", "gpu"),
        opt("hwdec", "auto-safe"),
        opt("hwdec-codecs", "all"),
        opt("video-sync", "audio"),
        opt("interpolation", "no"),
        opt("scale", "bilinear"),
        opt("dscale", "bilinear"),
        opt("cscale", "bilinear"),
        opt("deband", "no"),
        opt("audio-channels", "stereo"),
    ];
    proof {
        assert(spec_option_views(config_options@) =~~= spec_preset_table()[11]);
    }
    PresetConfig {
        name: String::from_str("linux-fast"),
        description: String::from_str("Fast preset for Linux"),
        platform: Some(Platform::Linux),
        performance_level: PerformanceLevel::Fast,
        config_options,
    }
}

/// The preset table, in a fixed order. The names are exactly
/// `spec_preset_names`, each appearing once.
pub fn preset_registry() -> (r: Vec<PresetConfig>)
    ensures
        r@.len() == spec_preset_names().len(),
        forall|i: int| 0 <= i < r@.len() ==> #[trigger] r@[i].name@ == spec_preset_names()[i],
        forall|i: int|
            0 <= i < r@.len() ==> spec_option_views(#[trigger] r@[i].config_options@)
                == spec_preset_table()[i],
{
    let r = vec![
        create_macos_balanced_preset(),
        create_macos_high_quality_preset(),
        create_macos_fast_preset(),
        create_windows_nvidia_balanced_preset(),
        create_windows_amd_balanced_preset(),
        create_windows_intel_balanced_preset(),
        create_windows_nvidia_high_quality_preset(),
        create_windows_amd_high_quality_preset(),
        create_windows_intel_fast_preset(),
        create_linux_balanced_preset(),
        create_linux_high_quality_preset(),
        create_linux_fast_preset(),
    ];
    r
}

/// The names of all presets, in the table's order.
pub fn list_available_presets() -> (r: Vec<String>)
    ensures
        r@.len() == spec_preset_names().len(),
        forall|i: int| 0 <= i < r@.len() ==> #[trigger] r@[i]@ == spec_preset_names()[i],
{
    let presets = preset_registry();
    let mut names: Vec<String> = Vec::new();
    let mut i: usize = 0;
    while i < presets.len()
        invariant
            i <= presets@.len(),
            presets@.len() == spec_preset_names().len(),
            forall|k: int|
                0 <= k < presets@.len() ==> #[trigger] presets@[k].name@
                    == spec_preset_names()[k],
            names@.len() == i,
            forall|k: int| 0 <= k < i ==> #[trigger] names@[k]@ == spec_preset_names()[k],
        decreases presets@.len() - i,
    {
        names.push(presets[i].name.clone());
        i = i + 1;
    }
    names
}

/// Looks a preset up by name: a known name finds its entry, an unknown one
/// finds nothing.
pub fn get_preset_details(preset_name: &str) -> (r: Option<PresetConfig>)
    ensures
        (r is Some) == spec_known_preset(preset_name@),
        r matches Some(p) ==> p.name@ == preset_name@ && spec_option_views(p.config_options@)
            == spec_preset_options(preset_name@),
{
    let presets = preset_registry();
    let mut rest = presets;
    let mut i: usize = 0;
    while rest.len() > 0
        invariant
            i + rest@.len() == spec_preset_names().len(),
            forall|k: int|
                0 <= k < rest@.len() ==> #[trigger] rest@[k].name@ == spec_preset_names()[k + i],
            forall|k: int|
                0 <= k < rest@.len() ==> spec_option_views(#[trigger] rest@[k].config_options@)
                    == spec_preset_table()[k + i],
            forall|k: int| 0 <= k < i ==> spec_preset_names()[k] != preset_name@,
        decreases rest@.len(),
    {
        let p = rest.remove(0);
        if str_eq(p.name.as_str(), preset_name) {
            proof {
                assert(spec_preset_names()[i as int] == preset_name@);
                lemma_preset_options_at(i as int);
            }
            return Some(p);
        }
        proof {
            assert(spec_preset_names()[i as int] != preset_name@);
        }
        i = i + 1;
    }
    proof {
        assert forall|k: int|
            0 <= k < spec_preset_names().len() implies spec_preset_names()[k]
            != preset_name@ by {}
    }
    None
}

/// The player flags a preset's option table denotes: one `--key=value`
/// argument per option, in table order.
pub fn preset_args(preset: &PresetConfig) -> (args: Vec<String>)
    ensures
        args@.len() == preset.config_options@.len(),
        forall|i: int|
            0 <= i < args@.len() ==> #[trigger] args@[i]@ == "--"@
                + preset.config_options@[i].0@ + "="@ + preset.config_options@[i].1@,
{
    let mut args: Vec<String> = Vec::new();
    let mut i: usize = 0;
    while i < preset.config_options.len()
        invariant
            i <= preset.config_options@.len(),
            args@.len() == i,
            forall|k: int|
                0 <= k < i ==> #[trigger] args@[k]@ == "--"@ + preset.config_options@[k].0@
                    + "="@ + preset.config_options@[k].1@,
        decreases preset.config_options@.len() - i,
    {
        let mut cs: Vec<char> = Vec::new();
        push_str_chars(&mut cs, "--");
        push_str_chars(&mut cs, preset.config_options[i].0.as_str());
        push_str_chars(&mut cs, "=");
        push_str_chars(&mut cs, preset.config_options[i].1.as_str());
        args.push(chars_to_string(&cs));
        i = i + 1;
    }
    args
}

/// Resolves a preset name to its player flags: one `--key=value` argument
/// per entry of the named preset's option table, in table order, for a
/// known name; an unknown name is a configuration error naming the preset.
pub fn apply_preset(preset_name: &str) -> (r: Result<Vec<String>, Error>)
    ensures
        (r is Ok) == spec_known_preset(preset_name@),
        r matches Ok(args) ==> args@.map_values(|s: String| s@) == spec_preset_flags(
            preset_name@,
        ),
        r matches Err(e) ==> (e matches Error::ConfigError(m) && m@ == "Preset '"@
            + preset_name@ + "' not found"@),
{
    match get_preset_details(preset_name) {
        Some(preset) => {
            let args = preset_args(&preset);
            proof {
                let opts = spec_preset_options(preset_name@);
                assert(spec_option_views(preset.config_options@).len()
                    == preset.config_options@.len());
                let lhs = args@.map_values(|s: String| s@);
                let rhs = spec_flag_texts(opts);
                assert forall|i: int| 0 <= i < lhs.len() implies #[trigger] lhs[i]
                    == rhs[i] by {
                    assert(spec_option_views(preset.config_options@)[i] == opts[i]);
                    assert(args@[i]@ == "--"@ + preset.config_options@[i].0@ + "="@
                        + preset.config_options@[i].1@);
                }
                assert(lhs =~= rhs);
            }
            Ok(args)
        },
        None => {
            let mut cs: Vec<char> = Vec::new();
            push_str_chars(&mut cs, "Preset '");
            push_str_chars(&mut cs, preset_name);
            push_str_chars(&mut cs, "' not found");
            let msg = chars_to_string(&cs);
            proof {
                assert(msg@ =~= "Preset '"@ + preset_name@ + "' not found"@);
            }
            Err(Error::ConfigError(msg))
        },
    }
}

/// The preset recommended for a system: per platform, the high-quality
/// variant on high-end hardware and the balanced one otherwise; on Windows
/// the graphics vendor picks the family, and Intel gets the balanced or
/// fast variant instead.
pub open spec fn spec_recommended_preset(info: SystemInfo) -> Seq<char> {
    match info.platform {
        Platform::MacOS => if info.is_high_end {
            "macos-high-quality"@
        } else {
            "macos-balanced"@
        },
        Platform::Windows => match info.gpu_vendor {
            GpuVendor::Nvidia => if info.is_high_end {
                "windows-nvidia-high-quality"@
            } else {
                "windows-nvidia-balanced"@
            },
            GpuVendor::AMD => if info.is_high_end {
                "windows-amd-high-quality"@
            } else {
                "windows-amd-balanced"@
            },
            GpuVendor::Intel => if info.is_high_end {
                "windows-intel-balanced"@
            } else {
                "windows-intel-fast"@
            },
            _ => "windows-nvidia-balanced"@,
        },
        Platform::Linux => if info.is_high_end {
            "linux-high-quality"@
        } else {
            "linux-balanced"@
        },
    }
}

/// Names the preset recommended for the detected system.
pub fn get_recommended_preset(info: &SystemInfo) -> (r: String)
    ensures
        r@ == spec_recommended_preset(*info),
{
    match info.platform {
        Platform::MacOS => {
            if info.is_high_end {
                String::from_str("macos-high-quality")
            } else {
                String::from_str("macos-balanced")
            }
        },
        Platform::Windows => {
            match info.gpu_vendor {
                GpuVendor::Nvidia => {
                    if info.is_high_end {
                        String::from_str("windows-nvidia-high-quality")
                    } else {
                        String::from_str("windows-nvidia-balanced")
                    }
                },
                GpuVendor::AMD => {
                    if info.is_high_end {
                        String::from_str("windows-amd-high-quality")
                    } else {
                        String::from_str("windows-amd-balanced")
                    }
                },
                GpuVendor::Intel => {
                    if info.is_high_end {
                        String::from_str("windows-intel-balanced")
                    } else {
                        String::from_str("windows-intel-fast")
                    }
                },
                _ => String::from_str("windows-nvidia-balanced"),
            }
        },
        Platform::Linux => {
            if info.is_high_end {
                String::from_str("linux-high-quality")
            } else {
                String::from_str("linux-balanced")
            }
        },
    }
}

/// The graphics vendor a lowercased adapter description denotes.
pub open spec fn spec_gpu_vendor(platform: Platform, gpu_info: Seq<char>) -> GpuVendor {
    if platform == Platform::MacOS {
        if spec_contains(gpu_info, "apple"@) {
            GpuVendor::Apple
        } else {
            GpuVendor::Intel
        }
    } else if spec_contains(gpu_info, "nvidia"@) {
        GpuVendor::Nvidia
    } else if spec_contains(gpu_info, "amd"@) || spec_contains(gpu_info, "radeon"@)
        || spec_contains(gpu_info, "ati"@) {
        GpuVendor::AMD
    } else if spec_contains(gpu_info, "intel"@) {
        GpuVendor::Intel
    } else {
        GpuVendor::Unknown
    }
}

/// Classifies a lowercased adapter description into a vendor. On macOS an
/// Apple processor means Apple graphics, anything else Intel.
pub fn detect_gpu_vendor(platform: Platform, gpu_info: &str) -> (r: GpuVendor)
    ensures
        r == spec_gpu_vendor(platform, gpu_info@),
{
    if platform == Platform::MacOS {
        if str_contains(gpu_info, "apple") {
            GpuVendor::Apple
        } else {
            GpuVendor::Intel
        }
    } else if str_contains(gpu_info, "nvidia") {
        GpuVendor::Nvidia
    } else if str_contains(gpu_info, "amd") || str_contains(gpu_info, "radeon") || str_contains(
        gpu_info,
        "ati",
    ) {
        GpuVendor::AMD
    } else if str_contains(gpu_info, "intel") {
        GpuVendor::Intel
    } else {
        GpuVendor::Unknown
    }
}

/// Whether a system counts as high-end: on macOS by its processor
/// generation, elsewhere by well-known high-end adapter families in the
/// lowercased description.
pub open spec fn spec_high_end(platform: Platform, cpu_info: Seq<char>, gpu_info: Seq<char>) -> bool {
    if platform == Platform::MacOS {
        spec_contains(cpu_info, "M1 Pro"@) || spec_contains(cpu_info, "M1 Max"@)
            || spec_contains(cpu_info, "M1 Ultra"@) || spec_contains(cpu_info, "M2"@)
            || spec_contains(cpu_info, "M3"@)
    } else {
        spec_contains(gpu_info, "rtx"@) || spec_contains(gpu_info, "gtx 1080"@)
            || spec_contains(gpu_info, "gtx 1070"@) || spec_contains(gpu_info, "rx 6"@)
            || spec_contains(gpu_info, "rx 5"@) || spec_contains(gpu_info, "vega"@)
    }
}

/// Classifies a system as high-end or not.
pub fn detect_high_end_system(platform: Platform, cpu_info: &str, gpu_info: &str) -> (r: bool)
    ensures
        r == spec_high_end(platform, cpu_info@, gpu_info@),
{
    if platform == Platform::MacOS {
        str_contains(cpu_info, "M1 Pro") || str_contains(cpu_info, "M1 Max") || str_contains(
            cpu_info,
            "M1 Ultra",
        ) || str_contains(cpu_info, "M2") || str_contains(cpu_info, "M3")
    } else {
        str_contains(gpu_info, "rtx") || str_contains(gpu_info, "gtx 1080") || str_contains(
            gpu_info,
            "gtx 1070",
        ) || str_contains(gpu_info, "rx 6") || str_contains(gpu_info, "rx 5") || str_contains(
            gpu_info,
            "vega",
        )
    }
}

/// Classifies the platform's probe output: the processor description (as
/// the platform reports it) and the lowercased adapter description become
/// the vendor and the high-end verdict.
pub fn detect_system_info(platform: Platform, cpu_info: &str, gpu_info: &str) -> (r: SystemInfo)
    ensures
        r.platform == platform,
        r.gpu_vendor == spec_gpu_vendor(platform, gpu_info@),
        r.is_high_end == spec_high_end(platform, cpu_info@, gpu_info@),
{
    SystemInfo {
        platform,
        gpu_vendor: detect_gpu_vendor(platform, gpu_info),
        is_high_end: detect_high_end_system(platform, cpu_info, gpu_info),
    }
}

} // verus!
