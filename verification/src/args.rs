//! Argument vectors for the external probing and transcoding tools.
//!
//! Every invocation of an external tool is described here as an exact list
//! of arguments, derived from the encoding plan and the involved paths.

use vstd::prelude::*;
use crate::frac::Frac;
use crate::frac::pow10;
use crate::frac::pow10_val;
use crate::naming::dec_digits;
use crate::naming::digit_char;
use crate::naming::string_from_chars;
use crate::naming::u64_digits;
use crate::policy::EncodingPlan;

verus! {

// ---------------------------------------------------------------------------
// Time stamps as decimal seconds.
// ---------------------------------------------------------------------------

/// Six decimal digits, zero padded: the fractional part of a time stamp.
pub open spec fn pad6(n: nat) -> Seq<char> {
    Seq::new(6, |i: int| digit_char((n / pow10((5 - i) as nat)) % 10))
}

/// A rational number of seconds as `[-]I.FFFFFF`, truncated to
/// microsecond precision.
pub open spec fn frac_fmt(f: Frac) -> Seq<char> {
    let sign: Seq<char> = if f.neg && f.num > 0 {
        seq!['-']
    } else {
        Seq::empty()
    };
    let ip = (f.num / f.den) as nat;
    let fp = (((f.num % f.den) as nat) * 1000000) / (f.den as nat);
    sign + dec_digits(ip) + seq!['.'] + pad6(fp)
}

fn digit_char_exec(d: u64) -> (c: char)
    requires
        d < 10,
    ensures
        c == digit_char(d as nat),
{
    (48 + d as u8) as char
}

/// Format a rational number of seconds for a tool argument.
pub fn frac_seconds(f: &Frac) -> (r: String)
    requires
        f.wf(),
    ensures
        r@ == frac_fmt(*f),
{
    let mut v: Vec<char> = Vec::new();
    if f.is_negative() {
        v.push('-');
    }
    let ip: u64 = f.num / f.den;
    let mut digits = u64_digits(ip);
    v.append(&mut digits);
    v.push('.');
    let fp: u128 = (((f.num % f.den) as u128) * 1000000) / (f.den as u128);
    let ghost fpn = (((f.num % f.den) as nat) * 1000000) / (f.den as nat);
    assert(fp == fpn);
    let ghost before = v@;
    let mut i: usize = 0;
    while i < 6
        invariant
            i <= 6,
            fp == fpn,
            v@ =~= before + pad6(fpn).take(i as int),
        decreases 6 - i,
    {
        let p = pow10_val(5 - i);
        let d: u64 = ((fp / (p as u128)) % 10) as u64;
        assert(d == (fpn / pow10((5 - i as int) as nat)) % 10);
        v.push(digit_char_exec(d));
        assert(pad6(fpn).take(i + 1) =~= pad6(fpn).take(i as int).push(pad6(fpn)[i as int]));
        i += 1;
    }
    assert(pad6(fpn).take(6) =~= pad6(fpn));
    assert(v@ =~= frac_fmt(*f));
    string_from_chars(&v)
}

// ---------------------------------------------------------------------------
// Argument vectors.
// ---------------------------------------------------------------------------

fn push_arg(v: &mut Vec<String>, s: &str)
    ensures
        final(v).deep_view() =~= old(v).deep_view().push(s@),
{
    v.push(s.to_owned());
    assert(v.deep_view() =~= old(v).deep_view().push(s@));
}

fn push_arg_string(v: &mut Vec<String>, s: String)
    ensures
        final(v).deep_view() =~= old(v).deep_view().push(s@),
{
    let ghost sv = s@;
    v.push(s);
    assert(v.deep_view() =~= old(v).deep_view().push(sv));
}

/// The version-query argument of either tool.
pub open spec fn version_args_spec() -> Seq<Seq<char>> {
    seq!["-version"@]
}

/// Arguments of the liveness version query run against each tool.
pub fn version_args() -> (v: Vec<String>)
    ensures
        v.deep_view() =~= version_args_spec(),
{
    let mut v: Vec<String> = Vec::new();
    push_arg(&mut v, "-version");
    assert(v.deep_view() =~= version_args_spec());
    v
}

/// The probe invocation: codec, dimensions, frame rates and frame count of
/// the first video stream, and the container duration, as structured output.
pub open spec fn probe_args_spec(path: Seq<char>) -> Seq<Seq<char>> {
    seq![
        "-v"@,
        "error"@,
        "-select_streams"@,
        "v:0"@,
        "-show_entries"@,
        "stream=codec_name,width,height,avg_frame_rate,r_frame_rate,nb_frames"@,
        "-show_entries"@,
        "format=duration"@,
        "-of"@,
        "json"@,
        path,
    ]
}

/// Build the probing tool's argument vector for a source path.
pub fn probe_args(path: &str) -> (v: Vec<String>)
    ensures
        v.deep_view() =~= probe_args_spec(path@),
{
    let mut v: Vec<String> = Vec::new();
    push_arg(&mut v, "-v");
    push_arg(&mut v, "error");
    push_arg(&mut v, "-select_streams");
    push_arg(&mut v, "v:0");
    push_arg(&mut v, "-show_entries");
    push_arg(&mut v, "stream=codec_name,width,height,avg_frame_rate,r_frame_rate,nb_frames");
    push_arg(&mut v, "-show_entries");
    push_arg(&mut v, "format=duration");
    push_arg(&mut v, "-of");
    push_arg(&mut v, "json");
    push_arg(&mut v, path);
    assert(v.deep_view() =~= probe_args_spec(path@));
    v
}

/// The scale-and-crop filter for a chosen height: scale the shorter
/// dimension to the height, then crop to a 16:9 frame.
pub open spec fn scale_filter_spec(h: u32) -> Seq<char> {
    "scale=-2:"@ + dec_digits(h as nat) + ",crop=iw:trunc(iw*9/16)"@
}

/// Build the scale-and-crop filter expression.
pub fn scale_filter(h: u32) -> (r: String)
    ensures
        r@ == scale_filter_spec(h),
{
    let mut s = "scale=-2:".to_owned();
    let digits = u64_digits(h as u64);
    let ds = string_from_chars(&digits);
    s.append(ds.as_str());
    s.append(",crop=iw:trunc(iw*9/16)");
    s
}

/// The segment-export invocation: trim to the effective window, optionally
/// scale and crop, then encode with the royalty-free codec at a quality
/// target, audio stripped, at the target frame rate with constant timing.
pub open spec fn segment_args_spec(path: Seq<char>, plan: EncodingPlan, out: Seq<char>) -> Seq<
    Seq<char>,
> {
    let pre = seq![
        "-y"@,
        "-ss"@,
        frac_fmt(plan.start),
        "-to"@,
        frac_fmt(plan.end),
        "-i"@,
        path,
    ];
    let vf: Seq<Seq<char>> = match plan.height {
        Some(h) => seq!["-vf"@, scale_filter_spec(h)],
        None => Seq::empty(),
    };
    let post = seq![
        "-c:v"@,
        "libvpx-vp9"@,
        "-b:v"@,
        "0"@,
        "-crf"@,
        "30"@,
        "-pix_fmt"@,
        "yuv420p"@,
        "-row-mt"@,
        "1"@,
        "-tile-columns"@,
        "2"@,
        "-threads"@,
        "0"@,
        "-an"@,
        "-r"@,
        dec_digits(plan.fps as nat),
        "-vsync"@,
        "cfr"@,
        out,
    ];
    pre + vf + post
}

/// Build the transcoder's argument vector for the segment export.
pub fn segment_args(path: &str, plan: &EncodingPlan, out: &str) -> (v: Vec<String>)
    requires
        plan.start.wf(),
        plan.end.wf(),
    ensures
        v.deep_view() =~= segment_args_spec(path@, *plan, out@),
{
    let mut v: Vec<String> = Vec::new();
    push_arg(&mut v, "-y");
    push_arg(&mut v, "-ss");
    push_arg_string(&mut v, frac_seconds(&plan.start));
    push_arg(&mut v, "-to");
    push_arg_string(&mut v, frac_seconds(&plan.end));
    push_arg(&mut v, "-i");
    push_arg(&mut v, path);
    match plan.height {
        Some(h) => {
            push_arg(&mut v, "-vf");
            push_arg_string(&mut v, scale_filter(h));
        },
        None => {},
    }
    push_arg(&mut v, "-c:v");
    push_arg(&mut v, "libvpx-vp9");
    push_arg(&mut v, "-b:v");
    push_arg(&mut v, "0");
    push_arg(&mut v, "-crf");
    push_arg(&mut v, "30");
    push_arg(&mut v, "-pix_fmt");
    push_arg(&mut v, "yuv420p");
    push_arg(&mut v, "-row-mt");
    push_arg(&mut v, "1");
    push_arg(&mut v, "-tile-columns");
    push_arg(&mut v, "2");
    push_arg(&mut v, "-threads");
    push_arg(&mut v, "0");
    push_arg(&mut v, "-an");
    push_arg(&mut v, "-r");
    let fps_digits = u64_digits(plan.fps as u64);
    push_arg_string(&mut v, string_from_chars(&fps_digits));
    push_arg(&mut v, "-vsync");
    push_arg(&mut v, "cfr");
    push_arg(&mut v, out);
    assert(v.deep_view() =~= segment_args_spec(path@, *plan, out@));
    v
}

/// The poster invocation: exactly one frame, high image quality,
/// overwrite if the output exists.
pub open spec fn poster_args_spec(input: Seq<char>, out: Seq<char>) -> Seq<Seq<char>> {
    seq![
        "-y"@,
        "-hide_banner"@,
        "-loglevel"@,
        "error"@,
        "-i"@,
        input,
        "-frames:v"@,
        "1"@,
        "-q:v"@,
        "2"@,
        out,
    ]
}

/// Build the transcoder's argument vector for the poster extraction.
pub fn poster_args(input: &str, out: &str) -> (v: Vec<String>)
    ensures
        v.deep_view() =~= poster_args_spec(input@, out@),
{
    let mut v: Vec<String> = Vec::new();
    push_arg(&mut v, "-y");
    push_arg(&mut v, "-hide_banner");
    push_arg(&mut v, "-loglevel");
    push_arg(&mut v, "error");
    push_arg(&mut v, "-i");
    push_arg(&mut v, input);
    push_arg(&mut v, "-frames:v");
    push_arg(&mut v, "1");
    push_arg(&mut v, "-q:v");
    push_arg(&mut v, "2");
    push_arg(&mut v, out);
    assert(v.deep_view() =~= poster_args_spec(input@, out@));
    v
}

} // verus!
