use wallpaper_export::args::{frac_seconds, poster_args, probe_args, scale_filter, segment_args, version_args};
use wallpaper_export::archive::build_archive;
use wallpaper_export::errors::ExportError;
use wallpaper_export::frac::Frac;
use wallpaper_export::locate::{candidate_paths, pick_first, split_colons};
use wallpaper_export::naming::{dest_path, join_path, manifest_text, sanitize_name, staging_dir, themes_dir, u64_string};
use wallpaper_export::ping;
use wallpaper_export::policy::EncodingPlan;
use std::io::Read;

fn fr2(neg: bool, num: u64, den: u64) -> Frac {
    Frac { neg, num, den }
}

#[test]
fn ping_acknowledges() {
    assert_eq!(ping(), "ok");
}

#[test]
fn numerals_render() {
    assert_eq!(u64_string(0), "0");
    assert_eq!(u64_string(7), "7");
    assert_eq!(u64_string(12345), "12345");
    assert_eq!(u64_string(u64::MAX), "18446744073709551615");
}

#[test]
fn seconds_render_with_six_decimals() {
    assert_eq!(frac_seconds(&fr2(false, 2, 1)), "2.000000");
    assert_eq!(frac_seconds(&fr2(false, 29, 10)), "2.900000");
    assert_eq!(frac_seconds(&fr2(true, 5, 2)), "-2.500000");
    assert_eq!(frac_seconds(&fr2(false, 0, 1)), "0.000000");
    // 1/3 truncates at microsecond precision
    assert_eq!(frac_seconds(&fr2(false, 1, 3)), "0.333333");
}

#[test]
fn sanitizer_replaces_outside_characters() {
    assert_eq!(sanitize_name("My Theme"), "My_Theme");
    assert_eq!(sanitize_name("a.b/c:d"), "a_b_c_d");
    assert_eq!(sanitize_name("ok-name_2"), "ok-name_2");
}

#[test]
fn sanitizer_keeps_all_punctuation_as_underscores() {
    // an all-punctuation name maps to underscores; only an empty name
    // falls back to the placeholder
    assert_eq!(sanitize_name("!!!"), "___");
}

#[test]
fn sanitizer_empty_name_falls_back() {
    assert_eq!(sanitize_name(""), "wallpaper");
}

#[test]
fn manifest_renders_exactly() {
    let m = manifest_text("My Theme");
    assert_eq!(
        m,
        "[Info]\nName=My Theme\nVersion=1\n\n[Start Page]\nbackground = background.webm\nfirst frame image = first_frame_start_page.jpg\n"
    );
}

#[test]
fn paths_are_well_known() {
    assert_eq!(join_path("/a/b", "c.txt"), "/a/b/c.txt");
    assert_eq!(staging_dir("/home/u", "id-1"), "/home/u/Library/Caches/opera-lw/id-1");
    assert_eq!(
        themes_dir("/home/u"),
        "/home/u/Library/Application Support/com.operasoftware.OperaGX/themes"
    );
    assert_eq!(
        dest_path("/home/u", "My Theme"),
        "/home/u/Library/Application Support/com.operasoftware.OperaGX/themes/My_Theme.zip"
    );
    assert_eq!(
        dest_path("/home/u", ""),
        "/home/u/Library/Application Support/com.operasoftware.OperaGX/themes/wallpaper.zip"
    );
}

#[test]
fn version_and_probe_arguments() {
    let v: Vec<String> = version_args();
    assert_eq!(v, vec!["-version"]);
    let p = probe_args("/tmp/in.mov");
    assert_eq!(
        p,
        vec![
            "-v",
            "error",
            "-select_streams",
            "v:0",
            "-show_entries",
            "stream=codec_name,width,height,avg_frame_rate,r_frame_rate,nb_frames",
            "-show_entries",
            "format=duration",
            "-of",
            "json",
            "/tmp/in.mov",
        ]
    );
}

#[test]
fn segment_arguments_with_geometry() {
    let plan = EncodingPlan {
        start: fr2(false, 2, 1),
        end: fr2(false, 5, 1),
        fps: 30,
        height: Some(1080),
    };
    let a = segment_args("/tmp/in.mov", &plan, "/stage/background.webm");
    assert_eq!(
        a,
        vec![
            "-y",
            "-ss",
            "2.000000",
            "-to",
            "5.000000",
            "-i",
            "/tmp/in.mov",
            "-vf",
            "scale=-2:1080,crop=iw:trunc(iw*9/16)",
            "-c:v",
            "libvpx-vp9",
            "-b:v",
            "0",
            "-crf",
            "30",
            "-pix_fmt",
            "yuv420p",
            "-row-mt",
            "1",
            "-tile-columns",
            "2",
            "-threads",
            "0",
            "-an",
            "-r",
            "30",
            "-vsync",
            "cfr",
            "/stage/background.webm",
        ]
    );
}

#[test]
fn segment_arguments_without_geometry() {
    let plan = EncodingPlan { start: fr2(false, 0, 1), end: fr2(false, 10, 1), fps: 24, height: None };
    let a = segment_args("in.mp4", &plan, "out.webm");
    assert!(!a.iter().any(|s| s == "-vf"));
    assert_eq!(a[0], "-y");
    assert_eq!(a[a.len() - 1], "out.webm");
    let rpos = a.iter().position(|s| s == "-r").unwrap();
    assert_eq!(a[rpos + 1], "24");
}

#[test]
fn scale_filter_expression() {
    assert_eq!(scale_filter(2160), "scale=-2:2160,crop=iw:trunc(iw*9/16)");
}

#[test]
fn poster_arguments() {
    let a = poster_args("/tmp/in.mov", "/stage/first_frame_start_page.jpg");
    assert_eq!(
        a,
        vec![
            "-y",
            "-hide_banner",
            "-loglevel",
            "error",
            "-i",
            "/tmp/in.mov",
            "-frames:v",
            "1",
            "-q:v",
            "2",
            "/stage/first_frame_start_page.jpg",
        ]
    );
}

#[test]
fn error_messages() {
    assert_eq!(
        ExportError::ToolUnavailable("x".to_string()).message(),
        "tool unavailable: x"
    );
    assert_eq!(ExportError::ProbeFailed("y".to_string()).message(), "probe failed: y");
    assert_eq!(
        ExportError::UnsupportedFormat.message(),
        "Unsupported format (no video stream)"
    );
    assert_eq!(
        ExportError::TranscodeFailed("z".to_string()).message(),
        "transcode failed: z"
    );
    assert_eq!(
        ExportError::FilesystemFailed("w".to_string()).message(),
        "filesystem operation failed: w"
    );
    assert_eq!(ExportError::NoOutputProduced.message(), "no outputs generated");
}

#[test]
fn archive_round_trips_through_zip() {
    let manifest = manifest_text("My Theme");
    let video: Vec<u8> = vec![1, 2, 3, 4, 5];
    let poster: Vec<u8> = vec![9, 8, 7];
    let bytes = build_archive(manifest.as_str(), &video, &poster);
    let mut z = zip::ZipArchive::new(std::io::Cursor::new(bytes)).unwrap();
    assert_eq!(z.len(), 3);
    let mut names: Vec<String> = Vec::new();
    for i in 0..z.len() {
        names.push(z.by_index(i).unwrap().name().to_string());
    }
    assert_eq!(names, vec!["persona.ini", "background.webm", "first_frame_start_page.jpg"]);
    let mut persona = String::new();
    z.by_name("persona.ini").unwrap().read_to_string(&mut persona).unwrap();
    assert_eq!(persona, manifest);
    let mut vid: Vec<u8> = Vec::new();
    z.by_name("background.webm").unwrap().read_to_end(&mut vid).unwrap();
    assert_eq!(vid, video);
    let mut pos: Vec<u8> = Vec::new();
    z.by_name("first_frame_start_page.jpg").unwrap().read_to_end(&mut pos).unwrap();
    assert_eq!(pos, poster);
}

#[test]
fn search_path_splitting() {
    assert_eq!(split_colons("/usr/local/bin:/usr/bin"), vec!["/usr/local/bin", "/usr/bin"]);
    assert_eq!(split_colons(""), vec![""]);
    assert_eq!(split_colons("a::b"), vec!["a", "", "b"]);
    assert_eq!(split_colons("single"), vec!["single"]);
}

#[test]
fn candidate_list_and_first_pick() {
    let dirs: Vec<String> = vec!["/opt/x".to_string(), "/usr/bin".to_string()];
    let c = candidate_paths("ffmpeg", &dirs);
    assert_eq!(c, vec!["/opt/x/ffmpeg", "/usr/bin/ffmpeg"]);
    assert_eq!(pick_first(&vec![false, true, true]), Some(1));
    assert_eq!(pick_first(&vec![false, false]), None);
    assert_eq!(pick_first(&vec![]), None);
}
