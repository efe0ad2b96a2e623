use wallpaper_export::errors::ExportError;
use wallpaper_export::frac::Frac;
use wallpaper_export::pipeline::{on_event, start_export, Action, Event, Exporter, Step, ToolKind};
use wallpaper_export::policy::ExportRequest;
use wallpaper_export::probe::interpret_probe;
use std::io::Read;

fn fr3(num: u64, den: u64) -> Frac {
    Frac { neg: false, num, den }
}

fn tool_ok_event() -> Event {
    Event::Tool {
        spawned: true,
        exit_ok: true,
        stdout: Vec::new(),
        status: String::new(),
        stderr: String::new(),
    }
}

fn probe_json() -> Vec<u8> {
    "{\"streams\":[{\"codec_name\":\"h264\",\"width\":1920,\"height\":1080,\"avg_frame_rate\":\"30/1\",\"r_frame_rate\":\"30/1\",\"nb_frames\":\"300\"}],\"format\":{\"duration\":\"10.000000\"}}"
        .as_bytes()
        .to_vec()
}

#[test]
fn probe_interpretation_success() {
    let m = interpret_probe("in.mov".to_string(), true, &probe_json(), "", "").unwrap();
    assert_eq!(m.path, "in.mov");
    assert_eq!((m.duration.num, m.duration.den), (10_000_000, 1_000_000));
    assert_eq!((m.width, m.height), (1920, 1080));
    assert_eq!((m.fps.num, m.fps.den), (30, 1));
    assert!(!m.vfr);
    assert_eq!(m.codec, "h264");
}

#[test]
fn probe_vfr_when_rates_disagree() {
    let json = "{\"streams\":[{\"codec_name\":\"h264\",\"avg_frame_rate\":\"30000/1001\",\"r_frame_rate\":\"60/1\",\"nb_frames\":\"300\"}],\"format\":{\"duration\":\"10\"}}"
        .as_bytes()
        .to_vec();
    let m = interpret_probe("a".to_string(), true, &json, "", "").unwrap();
    assert!(m.vfr);
}

#[test]
fn probe_vfr_when_frame_count_missing() {
    let json = "{\"streams\":[{\"avg_frame_rate\":\"30/1\",\"r_frame_rate\":\"30/1\"}],\"format\":{\"duration\":\"10\"}}"
        .as_bytes()
        .to_vec();
    let m = interpret_probe("a".to_string(), true, &json, "", "").unwrap();
    assert!(m.vfr);
}

#[test]
fn probe_equal_value_rates_are_constant_rate() {
    // equal in value, differently written
    let json = "{\"streams\":[{\"avg_frame_rate\":\"30000/1001\",\"r_frame_rate\":\"60000/2002\",\"nb_frames\":\"1\"}],\"format\":{}}"
        .as_bytes()
        .to_vec();
    let m = interpret_probe("a".to_string(), true, &json, "", "").unwrap();
    assert!(!m.vfr);
    assert_eq!((m.duration.num, m.duration.den), (0, 1));
}

#[test]
fn probe_defaults_when_fields_missing() {
    let json = b"{\"streams\":[{}]}".to_vec();
    let m = interpret_probe("a".to_string(), true, &json, "", "").unwrap();
    assert_eq!((m.duration.num, m.width, m.height), (0, 0, 0));
    assert_eq!(m.fps.num, 0);
    assert!(m.vfr);
    assert_eq!(m.codec, "");
}

#[test]
fn probe_failure_carries_diagnostics() {
    let r = interpret_probe("a".to_string(), false, &Vec::new(), "exit status: 1", "boom");
    match r {
        Err(ExportError::ProbeFailed(m)) => {
            assert_eq!(m, "ffprobe exited with exit status: 1: boom")
        },
        _ => panic!("expected a probe failure"),
    }
}

#[test]
fn probe_malformed_output() {
    let r = interpret_probe("a".to_string(), true, &b"not json".to_vec(), "", "");
    match r {
        Err(ExportError::ProbeFailed(m)) => assert_eq!(m, "malformed probe output"),
        _ => panic!("expected a probe failure"),
    }
}

#[test]
fn probe_no_video_stream() {
    let r = interpret_probe("a".to_string(), true, &b"{\"streams\":[]}".to_vec(), "", "");
    assert!(matches!(r, Err(ExportError::UnsupportedFormat)));
    let r2 = interpret_probe("a".to_string(), true, &b"{}".to_vec(), "", "");
    assert!(matches!(r2, Err(ExportError::UnsupportedFormat)));
}

fn request() -> ExportRequest {
    ExportRequest {
        path: "/tmp/in.mov".to_string(),
        start: fr3(2, 1),
        end: fr3(5, 1),
        sizes: vec![1080],
        name: "My Theme".to_string(),
    }
}

fn expect_tool(step: &Step) -> (bool, Vec<String>) {
    match step {
        Step::Do(Action::RunTool { tool, args }) => {
            (matches!(tool, ToolKind::Probe), args.clone())
        },
        _ => panic!("expected a tool action"),
    }
}

#[test]
fn export_tool_missing_fails_before_staging() {
    let (m, step) = start_export(request(), "/h".to_string());
    // the very first action is a version query, no directory work
    let (is_probe, args) = expect_tool(&step);
    assert!(is_probe);
    assert_eq!(args, vec!["-version"]);
    let (m2, step2) = on_event(
        m,
        Event::Tool {
            spawned: false,
            exit_ok: false,
            stdout: Vec::new(),
            status: String::new(),
            stderr: String::new(),
        },
    );
    match step2 {
        Step::Finished(Err(ExportError::ToolUnavailable(_))) => {},
        _ => panic!("expected the export to fail with a missing tool"),
    }
    let _ = m2;
}

fn walk_to_transcoding(home: &str) -> (Exporter, String, Vec<String>) {
    let (m, step) = start_export(request(), home.to_string());
    let (_, args) = expect_tool(&step);
    assert_eq!(args, vec!["-version"]);
    let (m, step) = on_event(m, tool_ok_event());
    let (is_probe, args) = expect_tool(&step);
    assert!(!is_probe);
    assert_eq!(args, vec!["-version"]);
    let (m, step) = on_event(m, tool_ok_event());
    let (is_probe, args) = expect_tool(&step);
    assert!(is_probe);
    assert_eq!(args[args.len() - 1], "/tmp/in.mov");
    let (m, step) = on_event(
        m,
        Event::Tool {
            spawned: true,
            exit_ok: true,
            stdout: probe_json(),
            status: String::new(),
            stderr: String::new(),
        },
    );
    let staging = match &step {
        Step::Do(Action::MakeDir { path }) => path.clone(),
        _ => panic!("expected the staging directory to be created"),
    };
    let prefix = format!("{}/Library/Caches/opera-lw/", home);
    assert!(staging.starts_with(&prefix));
    assert_eq!(staging.len(), prefix.len() + 36);
    let (m, step) = on_event(m, Event::Fs { ok: true, msg: String::new() });
    let (is_probe, args) = expect_tool(&step);
    assert!(!is_probe);
    (m, staging, args)
}

#[test]
fn export_failed_transcode_cleans_staging_and_writes_nothing() {
    let (m, staging, _args) = walk_to_transcoding("/h");
    let (m, step) = on_event(
        m,
        Event::Tool {
            spawned: true,
            exit_ok: false,
            stdout: Vec::new(),
            status: "exit status: 1".to_string(),
            stderr: "boom".to_string(),
        },
    );
    match &step {
        Step::Do(Action::RemoveDir { path }) => assert_eq!(path, &staging),
        _ => panic!("expected the staging directory to be removed"),
    }
    let (_, step) = on_event(m, Event::Fs { ok: true, msg: String::new() });
    match step {
        Step::Finished(Err(ExportError::TranscodeFailed(msg))) => {
            assert_eq!(msg, "ffmpeg video failed: boom");
        },
        _ => panic!("expected the transcode failure to be reported"),
    }
}

#[test]
fn export_success_walks_the_whole_pipeline() {
    let (m, staging, args) = walk_to_transcoding("/h");
    // the segment invocation trims, scales and paces as planned
    let video_path = format!("{}/background.webm", staging);
    assert_eq!(args[1], "-ss");
    assert_eq!(args[2], "2.000000");
    assert_eq!(args[3], "-to");
    assert_eq!(args[4], "5.000000");
    assert_eq!(args[6], "/tmp/in.mov");
    assert_eq!(args[8], "scale=-2:1080,crop=iw:trunc(iw*9/16)");
    assert_eq!(args[args.len() - 1], video_path);
    let rpos = args.iter().position(|s| s == "-r").unwrap();
    assert_eq!(args[rpos + 1], "30");
    // transcode succeeded; the poster comes next
    let (m, step) = on_event(m, tool_ok_event());
    let (_, pargs) = expect_tool(&step);
    let poster_path = format!("{}/first_frame_start_page.jpg", staging);
    assert_eq!(pargs[pargs.len() - 1], poster_path);
    // poster succeeded; the assets are read back
    let (m, step) = on_event(m, tool_ok_event());
    match &step {
        Step::Do(Action::ReadFile { path }) => assert_eq!(path, &video_path),
        _ => panic!("expected the video asset to be read"),
    }
    let video_bytes: Vec<u8> = vec![1, 2, 3];
    let (m, step) = on_event(
        m,
        Event::Data { ok: true, bytes: video_bytes.clone(), msg: String::new() },
    );
    match &step {
        Step::Do(Action::ReadFile { path }) => assert_eq!(path, &poster_path),
        _ => panic!("expected the poster image to be read"),
    }
    let poster_bytes: Vec<u8> = vec![9, 9];
    let (m, step) = on_event(
        m,
        Event::Data { ok: true, bytes: poster_bytes.clone(), msg: String::new() },
    );
    match &step {
        Step::Do(Action::MakeDir { path }) => {
            assert_eq!(path, "/h/Library/Application Support/com.operasoftware.OperaGX/themes");
        },
        _ => panic!("expected the themes directory to be created"),
    }
    let (m, step) = on_event(m, Event::Fs { ok: true, msg: String::new() });
    let (dest, data) = match step {
        Step::Do(Action::WriteFile { path, data }) => (path, data),
        _ => panic!("expected the archive to be written"),
    };
    assert_eq!(
        dest,
        "/h/Library/Application Support/com.operasoftware.OperaGX/themes/My_Theme.zip"
    );
    // the written bytes are the finished bundle
    let mut z = zip::ZipArchive::new(std::io::Cursor::new(data)).unwrap();
    assert_eq!(z.len(), 3);
    let mut persona = String::new();
    z.by_name("persona.ini").unwrap().read_to_string(&mut persona).unwrap();
    assert!(persona.contains("Name=My Theme"));
    let mut vid: Vec<u8> = Vec::new();
    z.by_name("background.webm").unwrap().read_to_end(&mut vid).unwrap();
    assert_eq!(vid, video_bytes);
    let mut pos: Vec<u8> = Vec::new();
    z.by_name("first_frame_start_page.jpg").unwrap().read_to_end(&mut pos).unwrap();
    assert_eq!(pos, poster_bytes);
    // the staging directory is removed, then the destination is reported
    let (m, step) = on_event(m, Event::Fs { ok: true, msg: String::new() });
    match &step {
        Step::Do(Action::RemoveDir { path }) => assert_eq!(path, &staging),
        _ => panic!("expected the staging directory to be removed"),
    }
    let (_, step) = on_event(m, Event::Fs { ok: true, msg: String::new() });
    match step {
        Step::Finished(Ok(d)) => assert_eq!(d, dest),
        _ => panic!("expected the export to succeed"),
    }
}

#[test]
fn export_probe_error_is_reported() {
    let (m, _) = start_export(request(), "/h".to_string());
    let (m, _) = on_event(m, tool_ok_event());
    let (m, _) = on_event(m, tool_ok_event());
    let (_, step) = on_event(
        m,
        Event::Tool {
            spawned: true,
            exit_ok: true,
            stdout: b"{\"streams\":[]}".to_vec(),
            status: String::new(),
            stderr: String::new(),
        },
    );
    match step {
        Step::Finished(Err(ExportError::UnsupportedFormat)) => {},
        _ => panic!("expected the unsupported format to be reported"),
    }
}

#[test]
fn export_probe_spawn_failure_is_tool_unavailable() {
    let (m, _) = start_export(request(), "/h".to_string());
    let (m, _) = on_event(m, tool_ok_event());
    let (m, _) = on_event(m, tool_ok_event());
    let (_, step) = on_event(
        m,
        Event::Tool {
            spawned: false,
            exit_ok: false,
            stdout: Vec::new(),
            status: String::new(),
            stderr: "gone".to_string(),
        },
    );
    match step {
        Step::Finished(Err(ExportError::ToolUnavailable(msg))) => {
            assert_eq!(msg, "failed to spawn ffprobe");
        },
        _ => panic!("expected the missing probe tool to be reported"),
    }
}

#[test]
fn export_failed_poster_cleans_staging_with_diagnostics() {
    let (m, staging, _args) = walk_to_transcoding("/h");
    let (m, _) = on_event(m, tool_ok_event());
    let (m, step) = on_event(
        m,
        Event::Tool {
            spawned: true,
            exit_ok: false,
            stdout: Vec::new(),
            status: "exit status: 1".to_string(),
            stderr: "pboom".to_string(),
        },
    );
    match &step {
        Step::Do(Action::RemoveDir { path }) => assert_eq!(path, &staging),
        _ => panic!("expected the staging directory to be removed"),
    }
    let (_, step) = on_event(m, Event::Fs { ok: true, msg: String::new() });
    match step {
        Step::Finished(Err(ExportError::TranscodeFailed(msg))) => {
            assert_eq!(msg, "ffmpeg poster failed: pboom");
        },
        _ => panic!("expected the poster failure to be reported"),
    }
}
