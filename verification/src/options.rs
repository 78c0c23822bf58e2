//! Playback and window options, and their translation to the player's
//! command-line flags. Times are whole milliseconds; opacity is thousandths.

use vstd::prelude::*;
use vstd::string::StringExecFns;
use crate::text::{
    spec_u64_dec, spec_i64_dec, spec_ms_dec, push_u64_dec, push_i64_dec, push_ms_dec,
    push_str_chars, chars_to_string,
};

verus! {

/// Window configuration for one player instance.
#[derive(Debug, Clone)]
pub struct WindowOptions {
    /// Whether to use a borderless window.
    pub borderless: bool,
    /// Window position on the screen.
    pub position: Option<(i32, i32)>,
    /// Window size.
    pub size: Option<(u32, u32)>,
    /// Whether the window stays on top.
    pub always_on_top: bool,
    /// Window opacity in thousandths (0 transparent, 1000 opaque).
    pub opacity_mill: Option<u32>,
    /// Whether the window starts hidden.
    pub start_hidden: bool,
}

impl Default for WindowOptions {
    /// All options off.
    fn default() -> (r: Self)
        ensures
            !r.borderless,
            r.position is None,
            r.size is None,
            !r.always_on_top,
            r.opacity_mill is None,
            !r.start_hidden,
    {
        WindowOptions {
            borderless: false,
            position: None,
            size: None,
            always_on_top: false,
            opacity_mill: None,
            start_hidden: false,
        }
    }
}

/// Options for one playback request.
#[derive(Debug, Clone)]
pub struct PlaybackOptions {
    /// Start position in milliseconds.
    pub start_time_ms: Option<i64>,
    /// The configuration preset to apply.
    pub preset: Option<String>,
    /// Extra player arguments, appended last so they override the rest.
    pub extra_args: Vec<String>,
    /// Window title.
    pub title: Option<String>,
    /// Whether progress reporting is wanted.
    pub report_progress: bool,
    /// Progress reporting interval in milliseconds.
    pub progress_interval_ms: Option<u64>,
    /// Window configuration.
    pub window: Option<WindowOptions>,
    /// Connection timeout in milliseconds.
    pub connection_timeout_ms: Option<u64>,
}

impl Default for PlaybackOptions {
    /// The defaults: progress reported once a second, everything else unset.
    fn default() -> (r: Self)
        ensures
            r.start_time_ms is None,
            r.preset is None,
            r.extra_args@ =~= Seq::<String>::empty(),
            r.title is None,
            r.report_progress,
            r.progress_interval_ms == Some(1000u64),
            r.window is None,
            r.connection_timeout_ms is None,
    {
        PlaybackOptions {
            start_time_ms: None,
            preset: None,
            extra_args: Vec::new(),
            title: None,
            report_progress: true,
            progress_interval_ms: Some(1000),
            window: None,
            connection_timeout_ms: None,
        }
    }
}

/// Options for spawning one player process.
#[derive(Debug, Clone)]
pub struct SpawnOptions {
    /// The configuration preset to apply.
    pub preset: Option<String>,
    /// Extra player arguments.
    pub extra_args: Vec<String>,
    /// Window configuration.
    pub window: Option<WindowOptions>,
}

/// The texts of a list of argument strings.
pub open spec fn spec_arg_views(args: Seq<String>) -> Seq<Seq<char>> {
    args.map_values(|s: String| s@)
}

/// Appending one string appends its text to the views.
pub proof fn lemma_arg_views_push(pre: Seq<String>, s: String)
    ensures
        spec_arg_views(pre.push(s)) == spec_arg_views(pre).push(s@),
{
    let lhs = spec_arg_views(pre.push(s));
    let rhs = spec_arg_views(pre).push(s@);
    assert forall|k: int| 0 <= k < lhs.len() implies #[trigger] lhs[k] == rhs[k] by {
        if k < pre.len() {
            assert(pre.push(s)[k] == pre[k]);
            assert(rhs[k] == spec_arg_views(pre)[k]);
        } else {
            assert(pre.push(s)[k] == s);
        }
    }
    assert(lhs =~= rhs);
}

/// The extra arguments that playback options add: the caller's own, then a
/// start flag for the start position, then a title flag for the title.
pub open spec fn spec_playback_extra_args(o: PlaybackOptions) -> Seq<Seq<char>> {
    spec_arg_views(o.extra_args@) + (match o.start_time_ms {
        Some(ms) => seq!["--start="@ + spec_ms_dec(ms as int)],
        None => Seq::empty(),
    }) + (match o.title {
        Some(t) => seq!["--title="@ + t@],
        None => Seq::empty(),
    })
}

/// Turns playback options into spawn options: preset and window carry over,
/// and the start position and title become player flags.
pub fn spawn_options_from(o: &PlaybackOptions) -> (r: SpawnOptions)
    ensures
        spec_arg_views(r.extra_args@) == spec_playback_extra_args(*o),
        r.preset is Some <==> o.preset is Some,
        r.preset matches Some(p) ==> (o.preset matches Some(q) && p@ == q@),
        r.window == o.window,
{
    let mut extra: Vec<String> = clone_strings(&o.extra_args);
    if let Some(ms) = o.start_time_ms {
        let mut cs: Vec<char> = Vec::new();
        push_str_chars(&mut cs, "--start=");
        push_ms_dec(&mut cs, ms);
        extra.push(chars_to_string(&cs));
    }
    if let Some(t) = &o.title {
        let mut cs: Vec<char> = Vec::new();
        push_str_chars(&mut cs, "--title=");
        push_str_chars(&mut cs, t.as_str());
        extra.push(chars_to_string(&cs));
    }
    proof {
        assert(spec_arg_views(extra@) =~= spec_playback_extra_args(*o));
    }
    SpawnOptions { preset: clone_opt_string(&o.preset), extra_args: extra, window: clone_opt_window(&o.window) }
}

/// The property writes a window update denotes, each as the property name
/// and the value's JSON token text, in order: the position as `X+Y`, the
/// size as `WxH`, on-top when asked, the opacity as a unit fraction
/// (clamped), and minimized when the window starts hidden.
pub open spec fn spec_window_updates(w: WindowOptions) -> Seq<(Seq<char>, Seq<char>)> {
    (match w.position {
        Some((x, y)) => seq![
            (
                "window-pos"@,
                crate::ipc::spec_json_string(
                    spec_i64_dec(x as int) + seq!['+'] + spec_i64_dec(y as int),
                ),
            ),
        ],
        None => Seq::empty(),
    }) + (match w.size {
        Some((wd, ht)) => seq![
            (
                "geometry"@,
                crate::ipc::spec_json_string(
                    spec_u64_dec(wd as nat) + seq!['x'] + spec_u64_dec(ht as nat),
                ),
            ),
        ],
        None => Seq::empty(),
    }) + (if w.always_on_top {
        seq![("ontop"@, "true"@)]
    } else {
        Seq::empty()
    }) + (match w.opacity_mill {
        Some(o) => seq![
            (
                "alpha"@,
                spec_ms_dec(
                    if o > 1000 {
                        1000int
                    } else {
                        o as int
                    },
                ),
            ),
        ],
        None => Seq::empty(),
    }) + (if w.start_hidden {
        seq![("window-minimized"@, "true"@)]
    } else {
        Seq::empty()
    })
}

/// The property writes for a window update, as the set-property commands'
/// name and value arguments.
pub fn update_window_commands(w: &WindowOptions) -> (r: Vec<(String, crate::protocol::JsonArg)>)
    ensures
        r@.map_values(
            |p: (String, crate::protocol::JsonArg)|
                (p.0@, crate::protocol::spec_encode_arg(p.1)),
        ) == spec_window_updates(*w),
{
    let mut r: Vec<(String, crate::protocol::JsonArg)> = Vec::new();
    if let Some((x, y)) = w.position {
        let mut cs: Vec<char> = Vec::new();
        push_i64_dec(&mut cs, x as i64);
        cs.push('+');
        push_i64_dec(&mut cs, y as i64);
        proof {
            assert(cs@ =~= spec_i64_dec(x as int) + seq!['+'] + spec_i64_dec(y as int));
        }
        let ghost pre = r@;
        r.push(
            (String::from_str("window-pos"), crate::protocol::JsonArg::Str(chars_to_string(&cs))),
        );
        proof {
            lemma_update_views_push(pre, r@.last());
        }
    }
    let ghost v1 = spec_update_views(r@);
    proof {
        assert(v1 =~~= (match w.position {
            Some((x, y)) => seq![
                (
                    "window-pos"@,
                    crate::ipc::spec_json_string(
                        spec_i64_dec(x as int) + seq!['+'] + spec_i64_dec(y as int),
                    ),
                ),
            ],
            None => Seq::<(Seq<char>, Seq<char>)>::empty(),
        }));
    }
    if let Some((wd, ht)) = w.size {
        let mut cs: Vec<char> = Vec::new();
        push_u64_dec(&mut cs, wd as u64);
        cs.push('x');
        push_u64_dec(&mut cs, ht as u64);
        proof {
            assert(cs@ =~= spec_u64_dec(wd as nat) + seq!['x'] + spec_u64_dec(ht as nat));
        }
        let ghost pre = r@;
        r.push(
            (String::from_str("geometry"), crate::protocol::JsonArg::Str(chars_to_string(&cs))),
        );
        proof {
            lemma_update_views_push(pre, r@.last());
        }
    }
    let ghost v2 = spec_update_views(r@);
    proof {
        assert(v2 =~~= v1 + (match w.size {
            Some((wd, ht)) => seq![
                (
                    "geometry"@,
                    crate::ipc::spec_json_string(
                        spec_u64_dec(wd as nat) + seq!['x'] + spec_u64_dec(ht as nat),
                    ),
                ),
            ],
            None => Seq::<(Seq<char>, Seq<char>)>::empty(),
        }));
    }
    if w.always_on_top {
        let ghost pre = r@;
        r.push((String::from_str("ontop"), crate::protocol::JsonArg::Bool(true)));
        proof {
            lemma_update_views_push(pre, r@.last());
        }
    }
    let ghost v3 = spec_update_views(r@);
    proof {
        assert(v3 =~~= v2 + (if w.always_on_top {
            seq![("ontop"@, "true"@)]
        } else {
            Seq::<(Seq<char>, Seq<char>)>::empty()
        }));
    }
    if let Some(o) = w.opacity_mill {
        let clamped: i64 = if o > 1000 {
            1000
        } else {
            o as i64
        };
        let ghost pre = r@;
        r.push((String::from_str("alpha"), crate::protocol::JsonArg::Milli(clamped)));
        proof {
            lemma_update_views_push(pre, r@.last());
        }
    }
    let ghost v4 = spec_update_views(r@);
    proof {
        assert(v4 =~~= v3 + (match w.opacity_mill {
            Some(o) => seq![
                (
                    "alpha"@,
                    spec_ms_dec(
                        if o > 1000 {
                            1000int
                        } else {
                            o as int
                        },
                    ),
                ),
            ],
            None => Seq::<(Seq<char>, Seq<char>)>::empty(),
        }));
    }
    if w.start_hidden {
        let ghost pre = r@;
        r.push((String::from_str("window-minimized"), crate::protocol::JsonArg::Bool(true)));
        proof {
            lemma_update_views_push(pre, r@.last());
        }
    }
    proof {
        let v5 = spec_update_views(r@);
        assert(v5 =~~= v4 + (if w.start_hidden {
            seq![("window-minimized"@, "true"@)]
        } else {
            Seq::<(Seq<char>, Seq<char>)>::empty()
        }));
        assert(v5 =~~= spec_window_updates(*w));
    }
    r
}

/// The texts of a property-write list: each property name and its value's
/// JSON token.
pub open spec fn spec_update_views(r: Seq<(String, crate::protocol::JsonArg)>) -> Seq<
    (Seq<char>, Seq<char>),
> {
    r.map_values(
        |p: (String, crate::protocol::JsonArg)| (p.0@, crate::protocol::spec_encode_arg(p.1)),
    )
}

proof fn lemma_update_views_push(
    pre: Seq<(String, crate::protocol::JsonArg)>,
    p: (String, crate::protocol::JsonArg),
)
    ensures
        spec_update_views(pre.push(p)) == spec_update_views(pre).push(
            (p.0@, crate::protocol::spec_encode_arg(p.1)),
        ),
{
    let lhs = spec_update_views(pre.push(p));
    let rhs = spec_update_views(pre).push((p.0@, crate::protocol::spec_encode_arg(p.1)));
    assert forall|k: int| 0 <= k < lhs.len() implies #[trigger] lhs[k] == rhs[k] by {
        if k < pre.len() {
            assert(pre.push(p)[k] == pre[k]);
            assert(rhs[k] == spec_update_views(pre)[k]);
        } else {
            assert(pre.push(p)[k] == p);
        }
    }
    assert(lhs =~= rhs);
}

/// Copies a list of strings, keeping every text.
pub fn clone_strings(args: &Vec<String>) -> (r: Vec<String>)
    ensures
        spec_arg_views(r@) == spec_arg_views(args@),
{
    let mut r: Vec<String> = Vec::new();
    let mut i: usize = 0;
    proof {
        assert(spec_arg_views(r@) =~= spec_arg_views(args@.take(0)));
    }
    while i < args.len()
        invariant
            i <= args@.len(),
            spec_arg_views(r@) == spec_arg_views(args@.take(i as int)),
        decreases args@.len() - i,
    {
        let s = args[i].clone();
        let ghost pre = r@;
        r.push(s);
        proof {
            assert(args@.take(i + 1) =~= args@.take(i as int).push(args@[i as int]));
            assert(spec_arg_views(pre).len() == pre.len());
            assert(spec_arg_views(args@.take(i as int)).len() == i);
            let lhs = spec_arg_views(r@);
            let rhs = spec_arg_views(args@.take(i + 1));
            assert forall|k: int| 0 <= k < lhs.len() implies #[trigger] lhs[k] == rhs[k] by {
                if k < i {
                    assert(spec_arg_views(pre)[k] == pre[k]@);
                    assert(r@[k] == pre[k]);
                }
            }
            assert(lhs =~= rhs);
        }
        i = i + 1;
    }
    proof {
        assert(args@.take(args@.len() as int) =~= args@);
    }
    r
}

fn clone_opt_string(s: &Option<String>) -> (r: Option<String>)
    ensures
        r is Some <==> s is Some,
        r matches Some(a) ==> (s matches Some(b) && a@ == b@),
{
    match s {
        Some(v) => Some(v.clone()),
        None => None,
    }
}

fn clone_opt_window(w: &Option<WindowOptions>) -> (r: Option<WindowOptions>)
    ensures
        r == *w,
{
    match w {
        Some(v) => Some(
            WindowOptions {
                borderless: v.borderless,
                position: v.position,
                size: v.size,
                always_on_top: v.always_on_top,
                opacity_mill: v.opacity_mill,
                start_hidden: v.start_hidden,
            },
        ),
        None => None,
    }
}

} // verus!
