//! The export pipeline as a state machine.
//!
//! The machine makes every decision of one export: which tool to run with
//! which arguments, which directories to make and remove, what to write
//! where, and how each failure maps to the error taxonomy. The surrounding
//! shell only performs the requested actions and reports their outcomes
//! back as events. The staging directory is removed on every exit path
//! that created it, and the destination archive is written only after both
//! assets exist.

use vstd::prelude::*;
use crate::args::poster_args;
use crate::args::poster_args_spec;
use crate::args::probe_args;
use crate::args::probe_args_spec;
use crate::args::segment_args;
use crate::args::segment_args_spec;
use crate::args::version_args;
use crate::args::version_args_spec;
use crate::archive::build_archive;
use crate::archive::bundle_entries;
use crate::archive::zip_encoding;
use crate::errors::ExportError;
use crate::naming::dest_path;
use crate::naming::dest_path_spec;
use crate::naming::join_path;
use crate::naming::joined_spec;
use crate::naming::manifest_spec;
use crate::naming::manifest_text;
use crate::naming::staging_dir;
use crate::naming::staging_dir_spec;
use crate::naming::themes_dir;
use crate::naming::themes_dir_spec;
use crate::policy::EncodingPlan;
use crate::policy::ExportRequest;
use crate::policy::compute_plan;
use crate::policy::fps_spec;
use crate::policy::height_spec;
use crate::policy::window_spec;
use crate::probe::VideoMeta;
use crate::probe::interpret_probe;
use crate::probe::meta_sem;
use crate::probe::probe_extract;

verus! {

/// Which external tool an action runs.
pub enum ToolKind {
    /// The metadata probing tool.
    Probe,
    /// The transcoding tool.
    Encode,
}

/// One piece of outside work the shell must perform for the machine.
pub enum Action {
    /// Run a tool with the given arguments, capturing output and status.
    RunTool { tool: ToolKind, args: Vec<String> },
    /// Create a directory and all missing parents.
    MakeDir { path: String },
    /// Read a file fully into memory.
    ReadFile { path: String },
    /// Write a file, overwriting any existing one.
    WriteFile { path: String, data: Vec<u8> },
    /// Remove a directory tree.
    RemoveDir { path: String },
}

/// The outcome of one performed action.
pub enum Event {
    /// A tool run finished, or could not be started. `status` is the
    /// rendered exit status of a run that finished.
    Tool { spawned: bool, exit_ok: bool, stdout: Vec<u8>, status: String, stderr: String },
    /// A directory, write or removal action finished.
    Fs { ok: bool, msg: String },
    /// A read action finished.
    Data { ok: bool, bytes: Vec<u8>, msg: String },
}

/// What the machine asks for next: more outside work, or the result.
pub enum Step {
    Do(Action),
    Finished(Result<String, ExportError>),
}

/// Where the export stands.
pub enum Phase {
    /// Verifying the probing tool answers a version query.
    CheckProbe,
    /// Verifying the transcoding tool answers a version query.
    CheckEncode,
    /// Probing the source.
    Probing,
    /// Creating the staging directory.
    MakeStaging,
    /// Producing the video asset.
    Transcoding,
    /// Producing the poster image.
    Postering,
    /// Reading the video asset back.
    ReadingVideo,
    /// Reading the poster image back.
    ReadingPoster,
    /// Creating the destination themes directory.
    MakeThemes,
    /// Writing the finished archive.
    Writing,
    /// Removing the staging directory after success.
    CleanupOk,
    /// Removing the staging directory after a failure.
    CleanupErr,
    /// The export is over.
    Done,
}

/// The export state machine.
pub struct Exporter {
    /// The job being exported.
    pub req: ExportRequest,
    /// The injected per-user root directory.
    pub home: String,
    /// The fresh unique identifier of this run's staging directory.
    pub run_id: String,
    /// Where the export stands.
    pub phase: Phase,
    /// The probed metadata, once the probe succeeded.
    pub meta: Option<VideoMeta>,
    /// The encoding decisions, once computed.
    pub plan: Option<EncodingPlan>,
    /// The video asset bytes, once read back.
    pub video: Option<Vec<u8>>,
    /// The poster image bytes, once read back.
    pub poster: Option<Vec<u8>>,
    /// The destination archive path, once written.
    pub dest: Option<String>,
    /// The error to report, once a failure is being cleaned up.
    pub fail: Option<ExportError>,
}

/// The tool ran and exited successfully.
pub open spec fn tool_ok(ev: Event) -> bool {
    ev matches Event::Tool { spawned: true, exit_ok: true, .. }
}

/// The file system action succeeded.
pub open spec fn fs_ok(ev: Event) -> bool {
    ev matches Event::Fs { ok: true, .. }
}

/// The read succeeded.
pub open spec fn data_ok(ev: Event) -> bool {
    ev matches Event::Data { ok: true, .. }
}

/// The event kind the machine expects in each phase.
pub open spec fn ev_fits(phase: Phase, ev: Event) -> bool {
    match phase {
        Phase::CheckProbe => ev is Tool,
        Phase::CheckEncode => ev is Tool,
        Phase::Probing => ev is Tool,
        Phase::MakeStaging => ev is Fs,
        Phase::Transcoding => ev is Tool,
        Phase::Postering => ev is Tool,
        Phase::ReadingVideo => ev is Data,
        Phase::ReadingPoster => ev is Data,
        Phase::MakeThemes => ev is Fs,
        Phase::Writing => ev is Fs,
        Phase::CleanupOk => true,
        Phase::CleanupErr => true,
        Phase::Done => false,
    }
}

impl Exporter {
    /// The staging directory of this run.
    pub open spec fn staging_spec(self) -> Seq<char> {
        staging_dir_spec(self.home@, self.run_id@)
    }

    /// The video asset path inside the staging directory.
    pub open spec fn video_path_spec(self) -> Seq<char> {
        joined_spec(self.staging_spec(), "background.webm"@)
    }

    /// The poster image path inside the staging directory.
    pub open spec fn poster_path_spec(self) -> Seq<char> {
        joined_spec(self.staging_spec(), "first_frame_start_page.jpg"@)
    }

    /// The plan on record is exactly the policy's decisions for the probed
    /// metadata and the request.
    pub open spec fn plan_ok(self) -> bool {
        &&& self.meta matches Some(m)
        &&& self.plan matches Some(p)
        &&& (p.start, p.end) == window_spec(
            self.req.start,
            self.req.end,
            self.meta->Some_0.duration,
        )
        &&& p.fps == fps_spec(self.meta->Some_0.fps)
        &&& 1 <= p.fps <= 30
        &&& p.height == height_spec(self.req.sizes@)
        &&& p.start.wf()
        &&& p.end.wf()
    }

    /// The machine's invariant: what each phase must have on record.
    pub open spec fn wf(self) -> bool {
        &&& self.req.wf()
        &&& match self.phase {
            Phase::CheckProbe | Phase::CheckEncode | Phase::Probing => true,
            Phase::MakeStaging | Phase::Transcoding | Phase::Postering => self.plan_ok(),
            Phase::ReadingVideo => self.plan_ok(),
            Phase::ReadingPoster => self.plan_ok() && self.video is Some,
            Phase::MakeThemes => self.plan_ok() && self.video is Some && self.poster is Some,
            Phase::Writing => self.plan_ok() && self.video is Some && self.poster is Some
                && self.dest is Some,
            Phase::CleanupOk => self.dest is Some,
            Phase::CleanupErr => self.fail is Some,
            Phase::Done => true,
        }
    }
}

/// Relies on `uuid::Uuid::new_v4` and its hyphenated rendering: a freshly
/// generated random identifier, 36 characters long.
#[verifier::external_body]
fn fresh_run_id() -> (r: String)
    ensures
        r@.len() == 36,
{
    uuid::Uuid::new_v4().to_string()
}

/// Begin an export: the machine first verifies the probing tool is
/// invocable, before any other work.
pub fn start_export(req: ExportRequest, home: String) -> (r: (Exporter, Step))
    requires
        req.wf(),
    ensures
        r.0.wf(),
        r.0.phase is CheckProbe,
        r.0.req == req,
        r.0.home@ == home@,
        r.1 matches Step::Do(a) && (a matches Action::RunTool { tool, args } && tool is Probe
            && args.deep_view() == version_args_spec()),
{
    let run_id = fresh_run_id();
    let m = Exporter {
        req,
        home,
        run_id,
        phase: Phase::CheckProbe,
        meta: None,
        plan: None,
        video: None,
        poster: None,
        dest: None,
        fail: None,
    };
    let step = Step::Do(Action::RunTool { tool: ToolKind::Probe, args: version_args() });
    (m, step)
}

/// Feed the outcome of the last action to the machine and get the next
/// step.
///
/// The contract walks the whole pipeline: a failed tool check ends the
/// export as `ToolUnavailable` before any staging directory is asked for;
/// a probe failure ends it with the probe's error; once the staging
/// directory exists, every failure first asks for its removal and then
/// reports the mapped error; the archive is written only in the `Writing`
/// step, at the destination path, with exactly the assembled bundle bytes.
pub fn on_event(self_: Exporter, ev: Event) -> (r: (Exporter, Step))
    requires
        self_.wf(),
        ev_fits(self_.phase, ev),
    ensures
        r.0.wf(),
        r.0.req == self_.req,
        r.0.home == self_.home,
        r.0.run_id == self_.run_id,
        // Tool checks: fail fast, no staging yet.
        self_.phase is CheckProbe && !tool_ok(ev) ==> (r.1 matches Step::Finished(res) && (
        res matches Err(e) && (e matches ExportError::ToolUnavailable(m) && m@
            == "ffprobe did not answer a version query"@))),
        self_.phase is CheckProbe && tool_ok(ev) ==> (r.0.phase is CheckEncode && (
        r.1 matches Step::Do(a) && (a matches Action::RunTool { tool, args } && tool is Encode
            && args.deep_view() == version_args_spec()))),
        self_.phase is CheckEncode && !tool_ok(ev) ==> (r.1 matches Step::Finished(res) && (
        res matches Err(e) && (e matches ExportError::ToolUnavailable(m) && m@
            == "ffmpeg did not answer a version query"@))),
        self_.phase is CheckEncode && tool_ok(ev) ==> (r.0.phase is Probing && (
        r.1 matches Step::Do(a) && (a matches Action::RunTool { tool, args } && tool is Probe
            && args.deep_view() == probe_args_spec(self_.req.path@)))),
        // Probing: each outcome of the probe is pinned — a spawn failure,
        // a failed exit with its diagnostics, unparseable output, a missing
        // video stream, or the plan computed and staging asked for.
        self_.phase is Probing && !(ev matches Event::Tool { spawned: true, .. }) ==> (
        r.1 matches Step::Finished(res) && (res matches Err(e) && (
        e matches ExportError::ToolUnavailable(m) && m@ == "failed to spawn ffprobe"@))),
        self_.phase is Probing && (ev matches Event::Tool { spawned: true, exit_ok: false, .. })
            ==> (r.1 matches Step::Finished(res) && (res matches Err(e) && (
        e matches ExportError::ProbeFailed(m) && m@ == "ffprobe exited with "@
            + ev->Tool_status@ + ": "@ + ev->Tool_stderr@))),
        self_.phase is Probing && tool_ok(ev) && !probe_extract(ev->Tool_stdout@).parsed ==> (
        r.1 matches Step::Finished(res) && (res matches Err(e) && (
        e matches ExportError::ProbeFailed(m) && m@ == "malformed probe output"@))),
        self_.phase is Probing && tool_ok(ev) && probe_extract(ev->Tool_stdout@).parsed
            && !probe_extract(ev->Tool_stdout@).has_stream ==> (r.1 matches Step::Finished(res)
            && (res matches Err(e) && e is UnsupportedFormat)),
        self_.phase is Probing && tool_ok(ev) && probe_extract(ev->Tool_stdout@).parsed
            && probe_extract(ev->Tool_stdout@).has_stream ==> (r.0.phase is MakeStaging
            && r.0.plan_ok() && (r.0.meta matches Some(m) && meta_sem(
            m,
            self_.req.path@,
            probe_extract(ev->Tool_stdout@),
        )) && (r.1 matches Step::Do(a) && (a matches Action::MakeDir { path } && path@
            == r.0.staging_spec()))),
        // Staging directory.
        self_.phase is MakeStaging && !fs_ok(ev) ==> (r.1 matches Step::Finished(res) && (
        res matches Err(e) && (e matches ExportError::FilesystemFailed(m) && m@
            == "mkdir staging: "@ + ev->Fs_msg@))),
        self_.phase is MakeStaging && fs_ok(ev) ==> (r.0.phase is Transcoding && (
        r.1 matches Step::Do(a) && (a matches Action::RunTool { tool, args } && tool is Encode
            && args.deep_view() == segment_args_spec(
            self_.req.path@,
            self_.plan->Some_0,
            self_.video_path_spec(),
        )))),
        // Transcoding: a failure removes the staging directory and reports
        // a transcode failure; no archive is ever written on this path.
        self_.phase is Transcoding && !tool_ok(ev) ==> (r.0.phase is CleanupErr && (
        r.0.fail matches Some(e) && (e matches ExportError::TranscodeFailed(m) && m@
            == "ffmpeg video failed: "@ + ev->Tool_stderr@)) && (r.1 matches Step::Do(a) && (
        a matches Action::RemoveDir { path } && path@ == self_.staging_spec()))),
        self_.phase is Transcoding && tool_ok(ev) ==> (r.0.phase is Postering && (
        r.1 matches Step::Do(a) && (a matches Action::RunTool { tool, args } && tool is Encode
            && args.deep_view() == poster_args_spec(
            self_.req.path@,
            self_.poster_path_spec(),
        )))),
        // Poster extraction.
        self_.phase is Postering && !tool_ok(ev) ==> (r.0.phase is CleanupErr && (
        r.0.fail matches Some(e) && (e matches ExportError::TranscodeFailed(m) && m@
            == "ffmpeg poster failed: "@ + ev->Tool_stderr@)) && (r.1 matches Step::Do(a) && (
        a matches Action::RemoveDir { path } && path@ == self_.staging_spec()))),
        self_.phase is Postering && tool_ok(ev) ==> (r.0.phase is ReadingVideo && (
        r.1 matches Step::Do(a) && (a matches Action::ReadFile { path } && path@
            == self_.video_path_spec()))),
        // Reading the assets back.
        self_.phase is ReadingVideo && !data_ok(ev) ==> (r.0.phase is CleanupErr && (
        r.0.fail matches Some(e) && (e matches ExportError::FilesystemFailed(m) && m@
            == "read background.webm: "@ + ev->Data_msg@)) && (r.1 matches Step::Do(a) && (
        a matches Action::RemoveDir { path } && path@ == self_.staging_spec()))),
        self_.phase is ReadingVideo && data_ok(ev) ==> (r.0.phase is ReadingPoster && (
        r.0.video matches Some(v) && v@ == ev->Data_bytes@) && (r.1 matches Step::Do(a) && (
        a matches Action::ReadFile { path } && path@ == self_.poster_path_spec()))),
        self_.phase is ReadingPoster && !data_ok(ev) ==> (r.0.phase is CleanupErr && (
        r.0.fail matches Some(e) && (e matches ExportError::FilesystemFailed(m) && m@
            == "read first_frame_start_page.jpg: "@ + ev->Data_msg@)) && (
        r.1 matches Step::Do(a) && (a matches Action::RemoveDir { path } && path@
            == self_.staging_spec()))),
        self_.phase is ReadingPoster && data_ok(ev) ==> (r.0.phase is MakeThemes && (
        r.0.poster matches Some(p) && p@ == ev->Data_bytes@) && r.0.video == self_.video && (
        r.1 matches Step::Do(a) && (a matches Action::MakeDir { path } && path@
            == themes_dir_spec(self_.home@)))),
        // The destination directory, then the archive write: exactly the
        // assembled bundle, at the destination path.
        self_.phase is MakeThemes && !fs_ok(ev) ==> (r.0.phase is CleanupErr && (
        r.0.fail matches Some(e) && (e matches ExportError::FilesystemFailed(m) && m@
            == "mkdir themes: "@ + ev->Fs_msg@)) && (r.1 matches Step::Do(a) && (
        a matches Action::RemoveDir { path } && path@ == self_.staging_spec()))),
        self_.phase is MakeThemes && fs_ok(ev) ==> (r.0.phase is Writing && (
        r.1 matches Step::Do(a) && (a matches Action::WriteFile { path, data } && path@
            == dest_path_spec(self_.home@, self_.req.name@) && data@ == zip_encoding(
            bundle_entries(
                manifest_spec(self_.req.name@),
                self_.video->Some_0@,
                self_.poster->Some_0@,
            ),
        ) && (r.0.dest matches Some(d) && d@ == path@)))),
        self_.phase is Writing && !fs_ok(ev) ==> (r.0.phase is CleanupErr && (
        r.0.fail matches Some(e) && (e matches ExportError::FilesystemFailed(m) && m@
            == "zip write: "@ + ev->Fs_msg@)) && (r.1 matches Step::Do(a) && (
        a matches Action::RemoveDir { path } && path@ == self_.staging_spec()))),
        self_.phase is Writing && fs_ok(ev) ==> (r.0.phase is CleanupOk && r.0.dest
            == self_.dest && (r.1 matches Step::Do(a) && (a matches Action::RemoveDir { path }
            && path@ == self_.staging_spec()))),
        // Cleanup: the staging directory is gone either way; report.
        self_.phase is CleanupOk ==> (r.1 matches Step::Finished(res) && (res matches Ok(d) && d@
            == self_.dest->Some_0@)),
        self_.phase is CleanupErr ==> (r.1 matches Step::Finished(res) && (res matches Err(e) && e
            == self_.fail->Some_0)),
        // Once finished, the machine is done.
        r.1 is Finished ==> r.0.phase is Done,
{
    let Exporter { req, home, run_id, phase, meta, plan, video, poster, dest, fail } = self_;
    match phase {
        Phase::CheckProbe => {
            match ev {
                Event::Tool { spawned, exit_ok, .. } => {
                    if spawned && exit_ok {
                        let step = Step::Do(
                            Action::RunTool { tool: ToolKind::Encode, args: version_args() },
                        );
                        (
                            Exporter {
                                req,
                                home,
                                run_id,
                                phase: Phase::CheckEncode,
                                meta,
                                plan,
                                video,
                                poster,
                                dest,
                                fail,
                            },
                            step,
                        )
                    } else {
                        (
                            Exporter {
                                req,
                                home,
                                run_id,
                                phase: Phase::Done,
                                meta,
                                plan,
                                video,
                                poster,
                                dest,
                                fail,
                            },
                            Step::Finished(
                                Err(
                                    ExportError::ToolUnavailable(
                                        "ffprobe did not answer a version query".to_owned(),
                                    ),
                                ),
                            ),
                        )
                    }
                },
                _ => vstd::pervasive::unreached(),
            }
        },
        Phase::CheckEncode => {
            match ev {
                Event::Tool { spawned, exit_ok, .. } => {
                    if spawned && exit_ok {
                        let step = Step::Do(
                            Action::RunTool {
                                tool: ToolKind::Probe,
                                args: probe_args(req.path.as_str()),
                            },
                        );
                        (
                            Exporter {
                                req,
                                home,
                                run_id,
                                phase: Phase::Probing,
                                meta,
                                plan,
                                video,
                                poster,
                                dest,
                                fail,
                            },
                            step,
                        )
                    } else {
                        (
                            Exporter {
                                req,
                                home,
                                run_id,
                                phase: Phase::Done,
                                meta,
                                plan,
                                video,
                                poster,
                                dest,
                                fail,
                            },
                            Step::Finished(
                                Err(
                                    ExportError::ToolUnavailable(
                                        "ffmpeg did not answer a version query".to_owned(),
                                    ),
                                ),
                            ),
                        )
                    }
                },
                _ => vstd::pervasive::unreached(),
            }
        },
        Phase::Probing => {
            match ev {
                Event::Tool { spawned, exit_ok, stdout, status, stderr } => {
                    if !spawned {
                        return (
                            Exporter {
                                req,
                                home,
                                run_id,
                                phase: Phase::Done,
                                meta,
                                plan,
                                video,
                                poster,
                                dest,
                                fail,
                            },
                            Step::Finished(
                                Err(
                                    ExportError::ToolUnavailable(
                                        "failed to spawn ffprobe".to_owned(),
                                    ),
                                ),
                            ),
                        );
                    }
                    match interpret_probe(
                        req.path.clone(),
                        exit_ok,
                        &stdout,
                        status.as_str(),
                        stderr.as_str(),
                    ) {
                        Ok(m) => {
                            let p = compute_plan(
                                &m.duration,
                                &m.fps,
                                &req.start,
                                &req.end,
                                &req.sizes,
                            );
                            let next = Exporter {
                                req,
                                home,
                                run_id,
                                phase: Phase::MakeStaging,
                                meta: Some(m),
                                plan: Some(p),
                                video,
                                poster,
                                dest,
                                fail,
                            };
                            let path = staging_dir(next.home.as_str(), next.run_id.as_str());
                            let step = Step::Do(Action::MakeDir { path });
                            (next, step)
                        },
                        Err(e) => (
                            Exporter {
                                req,
                                home,
                                run_id,
                                phase: Phase::Done,
                                meta,
                                plan,
                                video,
                                poster,
                                dest,
                                fail,
                            },
                            Step::Finished(Err(e)),
                        ),
                    }
                },
                _ => vstd::pervasive::unreached(),
            }
        },
        Phase::MakeStaging => {
            match ev {
                Event::Fs { ok, msg } => {
                    if ok {
                        let next = Exporter {
                            req,
                            home,
                            run_id,
                            phase: Phase::Transcoding,
                            meta,
                            plan,
                            video,
                            poster,
                            dest,
                            fail,
                        };
                        let staging = staging_dir(next.home.as_str(), next.run_id.as_str());
                        let out = join_path(staging.as_str(), "background.webm");
                        let args = match &next.plan {
                            Some(p) => segment_args(next.req.path.as_str(), p, out.as_str()),
                            None => vstd::pervasive::unreached(),
                        };
                        let step = Step::Do(Action::RunTool { tool: ToolKind::Encode, args });
                        (next, step)
                    } else {
                        let mut m = "mkdir staging: ".to_owned();
                        m.append(msg.as_str());
                        (
                            Exporter {
                                req,
                                home,
                                run_id,
                                phase: Phase::Done,
                                meta,
                                plan,
                                video,
                                poster,
                                dest,
                                fail,
                            },
                            Step::Finished(Err(ExportError::FilesystemFailed(m))),
                        )
                    }
                },
                _ => vstd::pervasive::unreached(),
            }
        },
        Phase::Transcoding => {
            match ev {
                Event::Tool { spawned, exit_ok, stderr, .. } => {
                    if spawned && exit_ok {
                        let next = Exporter {
                            req,
                            home,
                            run_id,
                            phase: Phase::Postering,
                            meta,
                            plan,
                            video,
                            poster,
                            dest,
                            fail,
                        };
                        let staging = staging_dir(next.home.as_str(), next.run_id.as_str());
                        let out = join_path(staging.as_str(), "first_frame_start_page.jpg");
                        let args = poster_args(next.req.path.as_str(), out.as_str());
                        let step = Step::Do(Action::RunTool { tool: ToolKind::Encode, args });
                        (next, step)
                    } else {
                        let mut m = "ffmpeg video failed: ".to_owned();
                        m.append(stderr.as_str());
                        let next = Exporter {
                            req,
                            home,
                            run_id,
                            phase: Phase::CleanupErr,
                            meta,
                            plan,
                            video,
                            poster,
                            dest,
                            fail: Some(ExportError::TranscodeFailed(m)),
                        };
                        let staging = staging_dir(next.home.as_str(), next.run_id.as_str());
                        let step = Step::Do(Action::RemoveDir { path: staging });
                        (next, step)
                    }
                },
                _ => vstd::pervasive::unreached(),
            }
        },
        Phase::Postering => {
            match ev {
                Event::Tool { spawned, exit_ok, stderr, .. } => {
                    if spawned && exit_ok {
                        let next = Exporter {
                            req,
                            home,
                            run_id,
                            phase: Phase::ReadingVideo,
                            meta,
                            plan,
                            video,
                            poster,
                            dest,
                            fail,
                        };
                        let staging = staging_dir(next.home.as_str(), next.run_id.as_str());
                        let path = join_path(staging.as_str(), "background.webm");
                        let step = Step::Do(Action::ReadFile { path });
                        (next, step)
                    } else {
                        let mut m = "ffmpeg poster failed: ".to_owned();
                        m.append(stderr.as_str());
                        let next = Exporter {
                            req,
                            home,
                            run_id,
                            phase: Phase::CleanupErr,
                            meta,
                            plan,
                            video,
                            poster,
                            dest,
                            fail: Some(ExportError::TranscodeFailed(m)),
                        };
                        let staging = staging_dir(next.home.as_str(), next.run_id.as_str());
                        let step = Step::Do(Action::RemoveDir { path: staging });
                        (next, step)
                    }
                },
                _ => vstd::pervasive::unreached(),
            }
        },
        Phase::ReadingVideo => {
            match ev {
                Event::Data { ok, bytes, msg } => {
                    if ok {
                        let next = Exporter {
                            req,
                            home,
                            run_id,
                            phase: Phase::ReadingPoster,
                            meta,
                            plan,
                            video: Some(bytes),
                            poster,
                            dest,
                            fail,
                        };
                        let staging = staging_dir(next.home.as_str(), next.run_id.as_str());
                        let path = join_path(staging.as_str(), "first_frame_start_page.jpg");
                        let step = Step::Do(Action::ReadFile { path });
                        (next, step)
                    } else {
                        let mut m = "read background.webm: ".to_owned();
                        m.append(msg.as_str());
                        let next = Exporter {
                            req,
                            home,
                            run_id,
                            phase: Phase::CleanupErr,
                            meta,
                            plan,
                            video,
                            poster,
                            dest,
                            fail: Some(ExportError::FilesystemFailed(m)),
                        };
                        let staging = staging_dir(next.home.as_str(), next.run_id.as_str());
                        let step = Step::Do(Action::RemoveDir { path: staging });
                        (next, step)
                    }
                },
                _ => vstd::pervasive::unreached(),
            }
        },
        Phase::ReadingPoster => {
            match ev {
                Event::Data { ok, bytes, msg } => {
                    if ok {
                        let next = Exporter {
                            req,
                            home,
                            run_id,
                            phase: Phase::MakeThemes,
                            meta,
                            plan,
                            video,
                            poster: Some(bytes),
                            dest,
                            fail,
                        };
                        let path = themes_dir(next.home.as_str());
                        let step = Step::Do(Action::MakeDir { path });
                        (next, step)
                    } else {
                        let mut m = "read first_frame_start_page.jpg: ".to_owned();
                        m.append(msg.as_str());
                        let next = Exporter {
                            req,
                            home,
                            run_id,
                            phase: Phase::CleanupErr,
                            meta,
                            plan,
                            video,
                            poster,
                            dest,
                            fail: Some(ExportError::FilesystemFailed(m)),
                        };
                        let staging = staging_dir(next.home.as_str(), next.run_id.as_str());
                        let step = Step::Do(Action::RemoveDir { path: staging });
                        (next, step)
                    }
                },
                _ => vstd::pervasive::unreached(),
            }
        },
        Phase::MakeThemes => {
            match ev {
                Event::Fs { ok, msg } => {
                    if ok {
                        let manifest = manifest_text(req.name.as_str());
                        let data = match (&video, &poster) {
                            (Some(v), Some(p)) => build_archive(manifest.as_str(), v, p),
                            _ => vstd::pervasive::unreached(),
                        };
                        let path = dest_path(home.as_str(), req.name.as_str());
                        let next = Exporter {
                            req,
                            home,
                            run_id,
                            phase: Phase::Writing,
                            meta,
                            plan,
                            video,
                            poster,
                            dest: Some(path.clone()),
                            fail,
                        };
                        let step = Step::Do(Action::WriteFile { path, data });
                        (next, step)
                    } else {
                        let mut m = "mkdir themes: ".to_owned();
                        m.append(msg.as_str());
                        let next = Exporter {
                            req,
                            home,
                            run_id,
                            phase: Phase::CleanupErr,
                            meta,
                            plan,
                            video,
                            poster,
                            dest,
                            fail: Some(ExportError::FilesystemFailed(m)),
                        };
                        let staging = staging_dir(next.home.as_str(), next.run_id.as_str());
                        let step = Step::Do(Action::RemoveDir { path: staging });
                        (next, step)
                    }
                },
                _ => vstd::pervasive::unreached(),
            }
        },
        Phase::Writing => {
            match ev {
                Event::Fs { ok, msg } => {
                    let staging = staging_dir(home.as_str(), run_id.as_str());
                    if ok {
                        let next = Exporter {
                            req,
                            home,
                            run_id,
                            phase: Phase::CleanupOk,
                            meta,
                            plan,
                            video,
                            poster,
                            dest,
                            fail,
                        };
                        let step = Step::Do(Action::RemoveDir { path: staging });
                        (next, step)
                    } else {
                        let mut m = "zip write: ".to_owned();
                        m.append(msg.as_str());
                        let next = Exporter {
                            req,
                            home,
                            run_id,
                            phase: Phase::CleanupErr,
                            meta,
                            plan,
                            video,
                            poster,
                            dest,
                            fail: Some(ExportError::FilesystemFailed(m)),
                        };
                        let step = Step::Do(Action::RemoveDir { path: staging });
                        (next, step)
                    }
                },
                _ => vstd::pervasive::unreached(),
            }
        },
        Phase::CleanupOk => {
            let d = match dest {
                Some(d) => d,
                None => vstd::pervasive::unreached(),
            };
            let next = Exporter {
                req,
                home,
                run_id,
                phase: Phase::Done,
                meta,
                plan,
                video,
                poster,
                dest: Some(d.clone()),
                fail,
            };
            (next, Step::Finished(Ok(d)))
        },
        Phase::CleanupErr => {
            let e = match fail {
                Some(e) => e,
                None => vstd::pervasive::unreached(),
            };
            let next = Exporter {
                req,
                home,
                run_id,
                phase: Phase::Done,
                meta,
                plan,
                video,
                poster,
                dest,
                fail: None,
            };
            (next, Step::Finished(Err(e)))
        },
        Phase::Done => vstd::pervasive::unreached(),
    }
}

} // verus!
