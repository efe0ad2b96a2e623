//! Interpreting the probing tool's structured output.
//!
//! The probe's standard output is a JSON document. An outside crate parses
//! it and reads the first video stream's fields; that extraction depends on
//! the output bytes alone and is named `probe_extract`. Everything the
//! pipeline then decides — defaults, frame rates, variable-frame-rate
//! detection, the error taxonomy — is derived from the extracted plain
//! fields by verified code, pinned field by field against the name.

use vstd::prelude::*;
use vstd::string::StringExecFns;
use crate::errors::ExportError;
use crate::frac::Frac;
use crate::frac::dec_sem;
use crate::frac::frac_eq;
use crate::frac::frac_sem;
use crate::frac::parse_decimal;
use crate::frac::parse_fraction;
use crate::policy::zero_frac;

verus! {

/// The plain content one probe document yields: whether the bytes parse
/// as a document, whether a first video stream is present, and the stream
/// and format fields read from them.
pub struct ProbeFields {
    pub parsed: bool,
    pub has_stream: bool,
    pub codec: Option<Seq<char>>,
    pub width: Option<u64>,
    pub height: Option<u64>,
    pub avg: Option<Seq<char>>,
    pub rfr: Option<Seq<char>>,
    pub nb_present: bool,
    pub duration: Option<Seq<char>>,
}

/// What the outside JSON parser and accessors extract from given probe
/// output bytes; a function of the bytes alone.
pub uninterp spec fn probe_extract(bytes: Seq<u8>) -> ProbeFields;

/// Relies on `serde_json::from_slice::<Value>`, `Value::get` (by key and
/// by index) and `Value::as_str`: parses the probe output and reads the
/// two frame-rate strings of the first video stream, together with
/// whether the document parsed and whether a first stream is present.
/// Depends on the bytes alone.
#[verifier::external_body]
fn extract_probe_rates(bytes: &Vec<u8>) -> (r: (bool, bool, Option<String>, Option<String>))
    ensures
        r.0 == probe_extract(bytes@).parsed,
        r.1 == probe_extract(bytes@).has_stream,
        r.2.deep_view() == probe_extract(bytes@).avg,
        r.3.deep_view() == probe_extract(bytes@).rfr,
{
    let doc: Option<serde_json::Value> = serde_json::from_slice(bytes.as_slice()).ok();
    let stream = doc.as_ref().and_then(|d| d.get("streams")).and_then(|s| s.get(0));
    let avg = stream.and_then(|s| s.get("avg_frame_rate")).and_then(|v| v.as_str());
    let rfr = stream.and_then(|s| s.get("r_frame_rate")).and_then(|v| v.as_str());
    (doc.is_some(), stream.is_some(), avg.map(|s| s.to_owned()), rfr.map(|s| s.to_owned()))
}

/// Relies on `serde_json::from_slice::<Value>`, `Value::get` (by key and
/// by index), `Value::as_u64` and `Value::as_str`: parses the probe
/// output and reads the first video stream's codec name, dimensions and
/// frame-count presence. Depends on the bytes alone.
#[verifier::external_body]
fn extract_probe_shape(bytes: &Vec<u8>) -> (r: (Option<String>, Option<u64>, Option<u64>, bool))
    ensures
        r.0.deep_view() == probe_extract(bytes@).codec,
        r.1 == probe_extract(bytes@).width,
        r.2 == probe_extract(bytes@).height,
        r.3 == probe_extract(bytes@).nb_present,
{
    let doc: Option<serde_json::Value> = serde_json::from_slice(bytes.as_slice()).ok();
    let stream = doc.as_ref().and_then(|d| d.get("streams")).and_then(|s| s.get(0));
    let codec = stream.and_then(|s| s.get("codec_name")).and_then(|v| v.as_str());
    let width = stream.and_then(|s| s.get("width")).and_then(|v| v.as_u64());
    let height = stream.and_then(|s| s.get("height")).and_then(|v| v.as_u64());
    let nb = stream.and_then(|s| s.get("nb_frames")).is_some();
    (codec.map(|s| s.to_owned()), width, height, nb)
}

/// Relies on `serde_json::from_slice::<Value>`, `Value::get` and
/// `Value::as_str`: parses the probe output and reads the container
/// duration string from its format object. Depends on the bytes alone.
#[verifier::external_body]
fn extract_probe_duration(bytes: &Vec<u8>) -> (r: Option<String>)
    ensures
        r.deep_view() == probe_extract(bytes@).duration,
{
    let doc: Option<serde_json::Value> = serde_json::from_slice(bytes.as_slice()).ok();
    let dur = doc.as_ref().and_then(|d| d.get("format")).and_then(|f| f.get("duration"));
    dur.and_then(|v| v.as_str()).map(|s| s.to_owned())
}

/// A normalized snapshot of one probe of a media file.
pub struct VideoMeta {
    /// The probed source path.
    pub path: String,
    /// Container duration in seconds; zero when unknown.
    pub duration: Frac,
    /// Frame width in pixels; zero when unknown.
    pub width: u32,
    /// Frame height in pixels; zero when unknown.
    pub height: u32,
    /// Average frame rate; zero when unparseable.
    pub fps: Frac,
    /// The stream shows signs of variable frame timing.
    pub vfr: bool,
    /// Codec name; empty when unknown.
    pub codec: String,
}

impl VideoMeta {
    pub open spec fn wf(self) -> bool {
        self.duration.wf() && self.fps.wf()
    }
}

/// The duration field parsed as a plain decimal, defaulting to zero.
pub open spec fn duration_sem(d: Option<Seq<char>>) -> Frac {
    match d {
        Some(s) => match dec_sem(s) {
            Some(f) => f,
            None => zero_frac(),
        },
        None => zero_frac(),
    }
}

/// The average frame rate parsed as a fraction, defaulting to zero.
pub open spec fn avg_fps_sem(a: Option<Seq<char>>) -> Frac {
    match a {
        Some(s) => match frac_sem(s) {
            Some(f) => f,
            None => zero_frac(),
        },
        None => zero_frac(),
    }
}

/// The instantaneous frame rate parsed as a fraction, defaulting to the
/// average frame rate.
pub open spec fn inst_fps_sem(r: Option<Seq<char>>, avg: Frac) -> Frac {
    match r {
        Some(s) => match frac_sem(s) {
            Some(f) => f,
            None => avg,
        },
        None => avg,
    }
}

/// Variable frame timing: the two frame-rate fractions disagree in value,
/// or the frame-count field is absent. Either signal alone is conclusive.
pub open spec fn vfr_sem(avg: Frac, inst: Frac, nb_frames_present: bool) -> bool {
    !avg.eqv(inst) || !nb_frames_present
}

/// A probed dimension: the number when it is in range, else zero.
pub open spec fn dim_sem(d: Option<u64>) -> u32 {
    match d {
        Some(w) => if w <= u32::MAX {
            w as u32
        } else {
            0
        },
        None => 0,
    }
}

/// The codec name, defaulting to empty.
pub open spec fn codec_sem(c: Option<Seq<char>>) -> Seq<char> {
    match c {
        Some(s) => s,
        None => Seq::<char>::empty(),
    }
}

/// The metadata record derived from given extracted fields.
pub open spec fn meta_sem(m: VideoMeta, path: Seq<char>, f: ProbeFields) -> bool {
    &&& m.path@ == path
    &&& m.duration == duration_sem(f.duration)
    &&& m.fps == avg_fps_sem(f.avg)
    &&& m.vfr == vfr_sem(
        avg_fps_sem(f.avg),
        inst_fps_sem(f.rfr, avg_fps_sem(f.avg)),
        f.nb_present,
    )
    &&& m.width == dim_sem(f.width)
    &&& m.height == dim_sem(f.height)
    &&& m.codec@ == codec_sem(f.codec)
}

/// Derive the normalized metadata record from the extracted stream and
/// format fields of one probe.
pub fn derive_meta(
    path: String,
    codec: Option<String>,
    width: Option<u64>,
    height: Option<u64>,
    avg: Option<String>,
    rfr: Option<String>,
    nb_frames_present: bool,
    duration: Option<String>,
) -> (m: VideoMeta)
    ensures
        m.wf(),
        m.path@ == path@,
        m.duration == duration_sem(duration.deep_view()),
        m.fps == avg_fps_sem(avg.deep_view()),
        m.vfr == vfr_sem(
            avg_fps_sem(avg.deep_view()),
            inst_fps_sem(rfr.deep_view(), avg_fps_sem(avg.deep_view())),
            nb_frames_present,
        ),
        m.width == dim_sem(width),
        m.height == dim_sem(height),
        m.codec@ == codec_sem(codec.deep_view()),
{
    let dur: Frac = match duration {
        Some(ref s) => match parse_decimal(s.as_str()) {
            Some(f) => f,
            None => frac_zero_exec(),
        },
        None => frac_zero_exec(),
    };
    let avg_f: Frac = match avg {
        Some(ref s) => match parse_fraction(s.as_str()) {
            Some(f) => f,
            None => frac_zero_exec(),
        },
        None => frac_zero_exec(),
    };
    let inst_f: Frac = match rfr {
        Some(ref s) => match parse_fraction(s.as_str()) {
            Some(f) => f,
            None => avg_f,
        },
        None => avg_f,
    };
    let vfr = !frac_eq(&avg_f, &inst_f) || !nb_frames_present;
    let w: u32 = match width {
        Some(w) => if w <= 0xffff_ffff {
            w as u32
        } else {
            0
        },
        None => 0,
    };
    let h: u32 = match height {
        Some(h) => if h <= 0xffff_ffff {
            h as u32
        } else {
            0
        },
        None => 0,
    };
    let codec_s: String = match codec {
        Some(c) => c,
        None => String::new(),
    };
    VideoMeta { path, duration: dur, width: w, height: h, fps: avg_f, vfr, codec: codec_s }
}

fn frac_zero_exec() -> (r: Frac)
    ensures
        r == zero_frac(),
{
    Frac { neg: false, num: 0, den: 1 }
}

/// Law: the metadata is marked constant-rate exactly when the average and
/// instantaneous frame-rate fractions agree in value and the frame-count
/// field is present.
pub proof fn lemma_vfr_iff(avg: Frac, inst: Frac, nb_frames_present: bool)
    ensures
        !vfr_sem(avg, inst, nb_frames_present) <==> (avg.eqv(inst) && nb_frames_present),
{
}

/// Interpret one finished probe invocation.
///
/// A failed exit is a probe failure carrying the rendered exit status and
/// the captured diagnostics; output that does not parse is a probe
/// failure; a document without a video stream is an unsupported format;
/// otherwise the metadata record is derived from the extracted stream and
/// format fields, exactly as `meta_sem` states.
pub fn interpret_probe(
    path: String,
    exit_ok: bool,
    stdout: &Vec<u8>,
    status: &str,
    stderr: &str,
) -> (r: Result<VideoMeta, ExportError>)
    ensures
        !exit_ok ==> (r matches Err(e) && (e matches ExportError::ProbeFailed(m) && m@
            == "ffprobe exited with "@ + status@ + ": "@ + stderr@)),
        exit_ok && !probe_extract(stdout@).parsed ==> (r matches Err(e) && (
        e matches ExportError::ProbeFailed(m) && m@ == "malformed probe output"@)),
        exit_ok && probe_extract(stdout@).parsed && !probe_extract(stdout@).has_stream ==> (
        r matches Err(e) && e is UnsupportedFormat),
        exit_ok && probe_extract(stdout@).parsed && probe_extract(stdout@).has_stream ==> (
        r matches Ok(m) && m.wf() && meta_sem(m, path@, probe_extract(stdout@))),
{
    if !exit_ok {
        let mut msg = "ffprobe exited with ".to_owned();
        msg.append(status);
        msg.append(": ");
        msg.append(stderr);
        return Err(ExportError::ProbeFailed(msg));
    }
    let (parsed, has_stream, avg, rfr) = extract_probe_rates(stdout);
    let (codec, width, height, nb_present) = extract_probe_shape(stdout);
    let duration = extract_probe_duration(stdout);
    if !parsed {
        return Err(ExportError::ProbeFailed("malformed probe output".to_owned()));
    }
    if !has_stream {
        return Err(ExportError::UnsupportedFormat);
    }
    Ok(derive_meta(path, codec, width, height, avg, rfr, nb_present, duration))
}

} // verus!
