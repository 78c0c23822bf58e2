//! Building the player process's command line: the fixed flags, the
//! configuration directory, the IPC server flag with the instance's socket
//! path, preset flags, window flags, the caller's extra arguments, and the
//! media source last.

use vstd::prelude::*;
use crate::options::{WindowOptions, spec_arg_views, lemma_arg_views_push};
use crate::text::{
    spec_u64_dec, spec_i64_dec, spec_ms_dec, push_u64_dec, push_i64_dec, push_ms_dec,
    push_str_chars, chars_to_string,
};

verus! {

/// The geometry text for a window: the size as `WxH` when given, then the
/// position as `+X+Y` when given.
pub open spec fn spec_geometry(w: WindowOptions) -> Seq<char> {
    (match w.size {
        Some((wd, ht)) => spec_u64_dec(wd as nat) + seq!['x'] + spec_u64_dec(ht as nat),
        None => Seq::empty(),
    }) + (match w.position {
        Some((x, y)) => seq!['+'] + spec_i64_dec(x as int) + seq!['+'] + spec_i64_dec(y as int),
        None => Seq::empty(),
    })
}

/// Opacity clamped to the unit range, in thousandths.
pub open spec fn spec_clamped_opacity(o: u32) -> int {
    if o > 1000 {
        1000
    } else {
        o as int
    }
}

/// The flags a window configuration adds: borderless flags, the geometry,
/// on-top, opacity, and hidden start, in that order.
pub open spec fn spec_window_args(w: WindowOptions) -> Seq<Seq<char>> {
    (if w.borderless {
        seq!["--border=no"@, "--no-window-decorations"@]
    } else {
        Seq::empty()
    }) + (if spec_geometry(w).len() > 0 {
        seq!["--geometry="@ + spec_geometry(w)]
    } else {
        Seq::empty()
    }) + (if w.always_on_top {
        seq!["--ontop"@]
    } else {
        Seq::empty()
    }) + (match w.opacity_mill {
        Some(o) => seq!["--alpha="@ + spec_ms_dec(spec_clamped_opacity(o))],
        None => Seq::empty(),
    }) + (if w.start_hidden {
        seq!["--force-window=yes"@, "--start-hidden"@]
    } else {
        Seq::empty()
    })
}

/// Appends the flags for a window configuration.
#[verifier::rlimit(60)]
pub fn apply_window_options(args: &mut Vec<String>, window: &WindowOptions)
    ensures
        spec_arg_views(final(args)@) == spec_arg_views(old(args)@) + spec_window_args(*window),
{
    let ghost v0 = spec_arg_views(args@);
    if window.borderless {
        push_arg_str(args, "--border=no");
        push_arg_str(args, "--no-window-decorations");
    }
    let ghost v1 = spec_arg_views(args@);
    proof {
        assert(v1 =~= v0 + (if window.borderless {
            seq!["--border=no"@, "--no-window-decorations"@]
        } else {
            Seq::<Seq<char>>::empty()
        }));
    }
    let mut geom: Vec<char> = Vec::new();
    if let Some((wd, ht)) = window.size {
        push_u64_dec(&mut geom, wd as u64);
        geom.push('x');
        push_u64_dec(&mut geom, ht as u64);
    }
    if let Some((x, y)) = window.position {
        geom.push('+');
        push_i64_dec(&mut geom, x as i64);
        geom.push('+');
        push_i64_dec(&mut geom, y as i64);
    }
    proof {
        assert(geom@ =~= spec_geometry(*window));
    }
    if geom.len() > 0 {
        let mut cs: Vec<char> = Vec::new();
        push_str_chars(&mut cs, "--geometry=");
        let mut i: usize = 0;
        while i < geom.len()
            invariant
                i <= geom@.len(),
                cs@ == "--geometry="@ + geom@.take(i as int),
            decreases geom@.len() - i,
        {
            cs.push(geom[i]);
            proof {
                assert(cs@ =~= "--geometry="@ + geom@.take(i + 1));
            }
            i = i + 1;
        }
        proof {
            assert(geom@.take(geom@.len() as int) =~= geom@);
        }
        let v = chars_to_string(&cs);
        let ghost prev = args@;
        args.push(v);
        proof {
            lemma_arg_views_push(prev, args@.last());
        }
    }
    let ghost v2 = spec_arg_views(args@);
    proof {
        assert(v2 =~= v1 + (if spec_geometry(*window).len() > 0 {
            seq!["--geometry="@ + spec_geometry(*window)]
        } else {
            Seq::<Seq<char>>::empty()
        }));
    }
    if window.always_on_top {
        push_arg_str(args, "--ontop");
    }
    let ghost v3 = spec_arg_views(args@);
    proof {
        assert(v3 =~= v2 + (if window.always_on_top {
            seq!["--ontop"@]
        } else {
            Seq::<Seq<char>>::empty()
        }));
    }
    if let Some(o) = window.opacity_mill {
        let clamped: u32 = if o > 1000 {
            1000
        } else {
            o
        };
        let mut cs: Vec<char> = Vec::new();
        push_str_chars(&mut cs, "--alpha=");
        push_ms_dec(&mut cs, clamped as i64);
        let v = chars_to_string(&cs);
        let ghost prev = args@;
        args.push(v);
        proof {
            lemma_arg_views_push(prev, args@.last());
        }
    }
    let ghost v4 = spec_arg_views(args@);
    proof {
        assert(v4 =~= v3 + (match window.opacity_mill {
            Some(o) => seq!["--alpha="@ + spec_ms_dec(spec_clamped_opacity(o))],
            None => Seq::<Seq<char>>::empty(),
        }));
    }
    if window.start_hidden {
        push_arg_str(args, "--force-window=yes");
        push_arg_str(args, "--start-hidden");
    }
    proof {
        let v5 = spec_arg_views(args@);
        assert(v5 =~= v4 + (if window.start_hidden {
            seq!["--force-window=yes"@, "--start-hidden"@]
        } else {
            Seq::<Seq<char>>::empty()
        }));
        assert(v5 =~= v0 + spec_window_args(*window));
    }
}

/// Appends one literal argument.
fn push_arg_str(args: &mut Vec<String>, s: &str)
    ensures
        spec_arg_views(final(args)@) == spec_arg_views(old(args)@).push(s@),
{
    let mut cs: Vec<char> = Vec::new();
    push_str_chars(&mut cs, s);
    let v = chars_to_string(&cs);
    let ghost pre = args@;
    args.push(v);
    proof {
        lemma_arg_views_push(pre, args@.last());
    }
}

/// Appends an argument made of a literal prefix and a text.
fn push_arg_concat(args: &mut Vec<String>, prefix: &str, tail: &str)
    ensures
        spec_arg_views(final(args)@) == spec_arg_views(old(args)@).push(prefix@ + tail@),
{
    let mut cs: Vec<char> = Vec::new();
    push_str_chars(&mut cs, prefix);
    push_str_chars(&mut cs, tail);
    let v = chars_to_string(&cs);
    let ghost pre = args@;
    args.push(v);
    proof {
        lemma_arg_views_push(pre, args@.last());
    }
}

/// The whole command line for one player process: the verbosity flag, the
/// configuration directory, the on-screen-controller flags, the IPC server
/// flag with this instance's socket path, the preset's flags, the window
/// flags (or the default borderless flag), the caller's extra arguments
/// (which override what precedes them), and the media source last.
pub open spec fn spec_spawn_args(
    file_or_url: Seq<char>,
    socket_path: Seq<char>,
    config_dir: Seq<char>,
    preset_args: Seq<Seq<char>>,
    window: Option<WindowOptions>,
    extra_args: Seq<Seq<char>>,
) -> Seq<Seq<char>> {
    seq![
        "--msg-level=all=v"@,
        "--config-dir="@ + config_dir,
        "--osc=no"@,
        "--osd-bar=no"@,
        "--input-ipc-server="@ + socket_path,
    ] + preset_args + (match window {
        Some(w) => spec_window_args(w),
        None => seq!["--border=no"@],
    }) + extra_args + seq![file_or_url]
}

/// Builds the command line for one player process. The preset's flags are
/// resolved by the caller (a preset that cannot be resolved contributes
/// nothing, never a failure).
pub fn build_spawn_args(
    file_or_url: &str,
    socket_path: &str,
    config_dir: &str,
    preset_args: &Vec<String>,
    window: &Option<WindowOptions>,
    extra_args: &Vec<String>,
) -> (r: Vec<String>)
    ensures
        spec_arg_views(r@) == spec_spawn_args(
            file_or_url@,
            socket_path@,
            config_dir@,
            spec_arg_views(preset_args@),
            *window,
            spec_arg_views(extra_args@),
        ),
{
    let mut args: Vec<String> = Vec::new();
    push_arg_str(&mut args, "--msg-level=all=v");
    push_arg_concat(&mut args, "--config-dir=", config_dir);
    push_arg_str(&mut args, "--osc=no");
    push_arg_str(&mut args, "--osd-bar=no");
    push_arg_concat(&mut args, "--input-ipc-server=", socket_path);
    append_strings(&mut args, preset_args);
    match window {
        Some(w) => apply_window_options(&mut args, w),
        None => push_arg_str(&mut args, "--border=no"),
    }
    append_strings(&mut args, extra_args);
    push_arg_str(&mut args, file_or_url);
    proof {
        assert(spec_arg_views(args@) =~= spec_spawn_args(
            file_or_url@,
            socket_path@,
            config_dir@,
            spec_arg_views(preset_args@),
            *window,
            spec_arg_views(extra_args@),
        ));
    }
    args
}

/// Appends copies of the given arguments.
fn append_strings(args: &mut Vec<String>, more: &Vec<String>)
    ensures
        spec_arg_views(final(args)@) == spec_arg_views(old(args)@) + spec_arg_views(more@),
{
    let mut i: usize = 0;
    proof {
        assert(spec_arg_views(args@) =~= spec_arg_views(old(args)@) + spec_arg_views(
            more@.take(0),
        ));
    }
    while i < more.len()
        invariant
            i <= more@.len(),
            spec_arg_views(args@) == spec_arg_views(old(args)@) + spec_arg_views(
                more@.take(i as int),
            ),
        decreases more@.len() - i,
    {
        let s = more[i].clone();
        let ghost prev = args@;
        args.push(s);
        proof {
            lemma_arg_views_push(prev, args@.last());
            assert(args@.last()@ == more@[i as int]@);
            assert(more@.take(i + 1) =~= more@.take(i as int).push(more@[i as int]));
            lemma_arg_views_push(more@.take(i as int), more@[i as int]);
            assert(spec_arg_views(args@) =~= spec_arg_views(old(args)@) + spec_arg_views(
                more@.take(i + 1),
            ));
        }
        i = i + 1;
    }
    proof {
        assert(more@.take(more@.len() as int) =~= more@);
    }
}

} // verus!
