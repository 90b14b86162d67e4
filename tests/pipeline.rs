use dragonfly::config::ToolPaths;
use dragonfly::encode::{
    encode_args, encode_outcome, input_frame_rate, scale_filter, EncodeFramesDescriptor,
};
use dragonfly::frames::{
    first_stream_resolution, frame_file_name, frame_job, frame_yaw, output_resolution,
    probe_args, render_args, render_filter, Rational, Resolution, SourceResolution, StreamSize,
};
use dragonfly::scheduler::{BatchScheduler, SchedulerAction};
use dragonfly::session::{extract_dir_name, SessionStore, SESSION_FILE_NAME};
use dragonfly::text::{join_path, pad_with_zeros, rational_to_text, thousandths_to_text};
use dragonfly::{DragonflyError, ExtractFramesDescriptor, Interpolation};

fn descriptor(frame_count: usize, j: usize) -> ExtractFramesDescriptor {
    ExtractFramesDescriptor {
        frame_count,
        ih_fov: 360_000,
        iv_fov: 180_000,
        h_fov: 60_000,
        v_fov: 45_000,
        j,
        interpolation: Interpolation::Linear,
    }
}

/// What a fake job runner saw while driving a scheduler to its end.
struct Run {
    spawned: Vec<usize>,
    batches: Vec<Vec<usize>>,
    max_in_flight: usize,
    started: usize,
    reaped: usize,
    progress: Vec<(usize, usize)>,
    outcome: SchedulerAction,
}

/// Drives a scheduler with a fake runner: jobs in `failing` exit with a failure,
/// jobs in `unspawnable` cannot be started.
fn drive(frame_count: usize, j: usize, failing: &[usize], unspawnable: &[usize]) -> Run {
    let mut s = BatchScheduler::new(frame_count, j);
    let mut running: Vec<usize> = Vec::new();
    let mut run = Run {
        spawned: Vec::new(),
        batches: Vec::new(),
        max_in_flight: 0,
        started: 0,
        reaped: 0,
        progress: Vec::new(),
        outcome: SchedulerAction::Done,
    };
    loop {
        match s.next_action() {
            SchedulerAction::Spawn(i) => {
                run.spawned.push(i);
                if unspawnable.contains(&i) {
                    s.spawn_failed();
                    continue;
                }
                if running.is_empty() {
                    run.batches.push(Vec::new());
                }
                run.batches.last_mut().unwrap().push(i);
                running.push(i);
                run.started += 1;
                s.job_started();
                run.max_in_flight = run.max_in_flight.max(running.len());
                assert_eq!(s.in_flight(), running.len());
            }
            SchedulerAction::Reap => {
                // Reap the most recently started first: completion order is not index order.
                let i = running.pop().unwrap();
                run.reaped += 1;
                let ok = !failing.contains(&i);
                run.progress.push(s.job_finished(ok, Some(if ok { 0 } else { 10 + i as i32 })));
            }
            other => {
                run.outcome = other;
                return run;
            }
        }
    }
}

#[test]
fn yaw_values_for_eight_frames() {
    let expected = ["-180", "-135", "-90", "-45", "0", "45", "90", "135"];
    for i in 0..8 {
        let yaw = frame_yaw(i, 8);
        assert_eq!(yaw.numer, 360 * i as i128 - 1440);
        assert_eq!(yaw.denom, 8);
        assert_eq!(yaw.to_text(), expected[i]);
    }
}

#[test]
fn yaw_values_rise_within_one_turn() {
    for n in [1usize, 2, 3, 7, 360, 1000] {
        let first = frame_yaw(0, n);
        assert_eq!(first.numer, -180 * first.denom as i128);
        let mut prev: Option<Rational> = None;
        for i in 0..n {
            let y = frame_yaw(i, n);
            // -180 <= yaw < 180
            assert!(y.numer >= -180 * y.denom as i128);
            assert!(y.numer < 180 * y.denom as i128);
            if let Some(p) = prev {
                assert!(p.numer * (y.denom as i128) < y.numer * (p.denom as i128));
            }
            prev = Some(y);
        }
    }
}

#[test]
fn yaw_text_of_inexact_step() {
    assert_eq!(frame_yaw(1, 7).to_text(), "-900/7");
    assert_eq!(frame_yaw(0, 7).to_text(), "-180");
}

#[test]
fn frame_file_names_are_zero_padded() {
    assert_eq!(frame_file_name(0), "frame_00000000.jpg");
    assert_eq!(frame_file_name(7), "frame_00000007.jpg");
    assert_eq!(frame_file_name(123456789), "frame_123456789.jpg");
}

#[test]
fn eight_frames_four_at_a_time() {
    let run = drive(8, 4, &[], &[]);
    assert_eq!(run.outcome, SchedulerAction::Done);
    assert_eq!(run.batches, vec![vec![0, 1, 2, 3], vec![4, 5, 6, 7]]);
    assert_eq!(run.max_in_flight, 4);
    assert_eq!(run.progress.last(), Some(&(8, 8)));

    let d = descriptor(8, 4);
    let size = output_resolution(&d, &SourceResolution { width: 4000, height: 2000 });
    let yaws = ["-180", "-135", "-90", "-45", "0", "45", "90", "135"];
    for i in run.spawned {
        let job = frame_job(i, 8, "/tmp/frames");
        let args = render_args("in.jpg", &job, &d, &size);
        assert_eq!(args[15], format!("/tmp/frames/frame_{:08}.jpg", i));
        assert!(args[7].starts_with(&format!("v360=e:flat:yaw={}:pitch=0:roll=0:", yaws[i])));
    }
}

#[test]
fn concurrency_never_exceeds_limit() {
    for n in 0..20usize {
        for j in 1..7usize {
            let run = drive(n, j, &[], &[]);
            assert_eq!(run.outcome, SchedulerAction::Done);
            assert!(run.max_in_flight <= j);
            assert_eq!(run.spawned, (0..n).collect::<Vec<_>>());
            assert_eq!(run.started, run.reaped);
            assert_eq!(run.batches.len(), (n + j - 1) / j);
        }
    }
}

#[test]
fn zero_frames_is_a_successful_no_op() {
    let run = drive(0, 4, &[], &[]);
    assert_eq!(run.outcome, SchedulerAction::Done);
    assert!(run.spawned.is_empty());
}

#[test]
fn one_at_a_time_is_sequential() {
    let run = drive(3, 1, &[], &[]);
    assert_eq!(run.batches, vec![vec![0], vec![1], vec![2]]);
    assert_eq!(run.max_in_flight, 1);
}

#[test]
fn remainder_forms_a_last_partial_batch() {
    let run = drive(10, 4, &[], &[]);
    assert_eq!(run.batches, vec![vec![0, 1, 2, 3], vec![4, 5, 6, 7], vec![8, 9]]);
}

#[test]
fn failure_drains_its_batch_and_stops() {
    let run = drive(8, 4, &[1], &[]);
    assert_eq!(run.outcome, SchedulerAction::Failed(Some(11)));
    assert_eq!(run.spawned, vec![0, 1, 2, 3]);
    assert_eq!(run.started, 4);
    assert_eq!(run.reaped, 4);
}

#[test]
fn failure_in_last_batch_is_reported() {
    let run = drive(8, 4, &[7], &[]);
    assert_eq!(run.outcome, SchedulerAction::Failed(Some(17)));
    assert_eq!(run.started, 8);
    assert_eq!(run.reaped, 8);
}

#[test]
fn spawn_failure_drains_started_jobs() {
    let run = drive(8, 4, &[], &[2]);
    assert_eq!(run.outcome, SchedulerAction::Failed(None));
    assert_eq!(run.spawned, vec![0, 1, 2]);
    assert_eq!(run.started, 2);
    assert_eq!(run.reaped, 2);
}

#[test]
fn progress_counts_finished_jobs() {
    let run = drive(5, 2, &[], &[]);
    assert_eq!(run.progress, vec![(1, 5), (2, 5), (3, 5), (4, 5), (5, 5)]);
}

#[test]
fn input_rate_for_240_frames_over_ten_seconds() {
    let rate = input_frame_rate(240, 10_000).unwrap();
    assert_eq!(rate, Rational { numer: 240_000, denom: 10_000 });
    assert_eq!(rate.to_text(), "24");
}

#[test]
fn input_rate_that_is_not_whole() {
    assert_eq!(input_frame_rate(100, 3_000).unwrap().to_text(), "100000/3000");
}

#[test]
fn empty_frame_set_is_an_error() {
    assert_eq!(input_frame_rate(0, 10_000), Err(DragonflyError::EmptyFrameSet));
    let d = EncodeFramesDescriptor {
        length: 10_000,
        fps: 60_000,
        scale: "1.0".to_string(),
        scale_number: Some("1".to_string()),
    };
    assert_eq!(encode_args("out.mp4", "/tmp/f", &d, 0), Err(DragonflyError::EmptyFrameSet));
    assert_eq!(input_frame_rate(0, 0), Err(DragonflyError::EmptyFrameSet));
}

#[test]
fn zero_length_is_an_error() {
    assert_eq!(input_frame_rate(10, 0), Err(DragonflyError::InvalidLength));
}

#[test]
fn encoder_arguments() {
    let d = EncodeFramesDescriptor {
        length: 10_000,
        fps: 60_000,
        scale: "0.50".to_string(),
        scale_number: Some("0.5".to_string()),
    };
    let args = encode_args("out.mp4", "/tmp/f/", &d, 240).unwrap();
    let expected = [
        "-hide_banner",
        "-loglevel",
        "error",
        "-nostats",
        "-r",
        "24",
        "-i",
        "/tmp/f/frame_%08d.jpg",
        "-c:v",
        "libx264",
        "-preset",
        "slow",
        "-crf",
        "18",
        "-pix_fmt",
        "yuv420p",
        "-tune",
        "stillimage",
        "-g",
        "239",
        "-vf",
        "scale=iw*0.5:ih*0.5",
        "-r",
        "60",
        "-y",
        "out.mp4",
    ];
    assert_eq!(args, expected.iter().map(|s| s.to_string()).collect::<Vec<_>>());
}

#[test]
fn scale_filter_number_or_expression() {
    assert_eq!(scale_filter("1.0", Some("1")), "scale=iw*1:ih*1");
    assert_eq!(scale_filter("1.5", Some("1.5")), "scale=iw*1.5:ih*1.5");
    assert_eq!(scale_filter("-1", Some("-1")), "scale=iw*-1:ih*-1");
    assert_eq!(scale_filter("1e1", Some("10")), "scale=iw*10:ih*10");
    assert_eq!(scale_filter("1920:-1", None), "scale=1920:-1");
    assert_eq!(scale_filter("1.2.3", None), "scale=1.2.3");
}

#[test]
fn encode_outcome_follows_exit_status() {
    assert_eq!(encode_outcome(true, Some(0)), Ok(Some(0)));
    assert_eq!(encode_outcome(false, Some(1)), Err(DragonflyError::FfmpegEncodeFailed(Some(1))));
    assert_eq!(encode_outcome(false, None), Err(DragonflyError::FfmpegEncodeFailed(None)));
}

#[test]
fn session_round_trip() {
    let mut store = SessionStore::new();
    assert_eq!(store.load(), Err(DragonflyError::SessionNotFound));
    store.save("/tmp/com.jshrake.dragonfly-1");
    assert_eq!(store.load(), Ok("/tmp/com.jshrake.dragonfly-1".to_string()));
    store.save("/tmp/other");
    assert_eq!(store.load(), Ok("/tmp/other".to_string()));
    let restored = SessionStore::from_record(Some("/x".to_string()));
    assert_eq!(restored.load(), Ok("/x".to_string()));
    assert_eq!(SessionStore::from_record(None).load(), Err(DragonflyError::SessionNotFound));
    assert_eq!(SESSION_FILE_NAME, ".dragonfly");
}

#[test]
fn extraction_directory_name() {
    assert_eq!(extract_dir_name(1700000000), "com.jshrake.dragonfly-1700000000");
    assert_eq!(extract_dir_name(0), "com.jshrake.dragonfly-0");
}

#[test]
fn output_resolution_from_fov_ratios() {
    let d = descriptor(8, 4);
    let r = output_resolution(&d, &SourceResolution { width: 4000, height: 2000 });
    assert_eq!(r, Resolution { width: 666, height: 500 });
}

#[test]
fn render_filter_text() {
    let d = ExtractFramesDescriptor { h_fov: 22_500, interpolation: Interpolation::Lanczos, ..descriptor(4, 2) };
    let job = frame_job(1, 4, "frames");
    assert_eq!(job.output_path, "frames/frame_00000001.jpg");
    let f = render_filter(&job, &d, &Resolution { width: 250, height: 500 });
    assert_eq!(
        f,
        "v360=e:flat:yaw=-90:pitch=0:roll=0:ih_fov=360:iv_fov=180:h_fov=22.5:v_fov=45:w=250:h=500:interp=lanczos"
    );
}

#[test]
fn render_arguments() {
    let d = descriptor(2, 1);
    let job = frame_job(1, 2, "");
    let args = render_args("pano.jpg", &job, &d, &Resolution { width: 1, height: 2 });
    assert_eq!(args.len(), 16);
    assert_eq!(args[4], "-i");
    assert_eq!(args[5], "pano.jpg");
    assert_eq!(args[15], "frame_00000001.jpg");
    assert!(args[7].contains(":interp=linear"));
}

#[test]
fn probe_arguments() {
    let args = probe_args("a b.jpg");
    assert_eq!(
        args,
        vec!["-v", "error", "-select_streams", "v:0", "-show_entries", "stream=width,height", "-of", "json=compact=1", "a b.jpg"]
    );
}

#[test]
fn first_stream_is_selected() {
    let streams = vec![StreamSize { width: 8000, height: 4000 }, StreamSize { width: 1, height: 1 }];
    assert_eq!(first_stream_resolution(&streams), Ok(SourceResolution { width: 8000, height: 4000 }));
    assert_eq!(first_stream_resolution(&vec![]), Err(DragonflyError::SourceContainsNoStream));
    assert_eq!(
        first_stream_resolution(&vec![StreamSize { width: 0, height: 10 }]),
        Err(DragonflyError::InvalidResolution)
    );
}

#[test]
fn invalid_configuration_is_rejected() {
    assert_eq!(descriptor(8, 4).validate(), Ok(()));
    assert_eq!(descriptor(8, 0).validate(), Err(DragonflyError::InvalidConcurrency));
    let d = ExtractFramesDescriptor { iv_fov: 0, ..descriptor(8, 0) };
    assert_eq!(d.validate(), Err(DragonflyError::InvalidFieldOfView));
}

#[test]
fn decimal_rendering() {
    assert_eq!(thousandths_to_text(60_000), "60");
    assert_eq!(thousandths_to_text(22_500), "22.5");
    assert_eq!(thousandths_to_text(1_050), "1.05");
    assert_eq!(thousandths_to_text(1_005), "1.005");
    assert_eq!(thousandths_to_text(5), "0.005");
    assert_eq!(rational_to_text(-1260, 7), "-180");
    assert_eq!(rational_to_text(3, 2), "3/2");
    assert_eq!(rational_to_text(0, 5), "0");
    assert_eq!(pad_with_zeros("42".to_string(), 5), "00042");
}

#[test]
fn path_joining() {
    assert_eq!(join_path("/tmp/a", "b"), "/tmp/a/b");
    assert_eq!(join_path("/tmp/a/", "b"), "/tmp/a/b");
    assert_eq!(join_path("", "b"), "b");
}

#[test]
fn tool_paths_defaults_and_overrides() {
    let t = ToolPaths::resolve(None, None, false);
    assert_eq!((t.ffmpeg.as_str(), t.ffprobe.as_str()), ("ffmpeg", "ffprobe"));
    let t = ToolPaths::resolve(None, None, true);
    assert_eq!((t.ffmpeg.as_str(), t.ffprobe.as_str()), ("ffmpeg.exe", "ffprobe.exe"));
    let t = ToolPaths::resolve(Some("/opt/ff".to_string()), None, true);
    assert_eq!((t.ffmpeg.as_str(), t.ffprobe.as_str()), ("/opt/ff", "ffprobe.exe"));
}

#[test]
fn interpolation_names_round_trip() {
    let all = [
        Interpolation::Near,
        Interpolation::Linear,
        Interpolation::Cubic,
        Interpolation::Lanczos,
        Interpolation::Spline16,
        Interpolation::Lagrange9,
        Interpolation::Gaussian,
        Interpolation::Mitchell,
    ];
    for i in all {
        assert_eq!(Interpolation::from_name(i.name()), Some(i));
    }
    assert_eq!(Interpolation::from_name("spline16"), Some(Interpolation::Spline16));
    assert_eq!(Interpolation::from_name("Linear"), None);
    assert_eq!(Interpolation::from_name(""), None);
}

#[test]
fn failure_code_is_the_first_failure() {
    let run = drive(8, 4, &[0, 2], &[]);
    // Jobs are reaped last-started first, so job 2 fails before job 0.
    assert_eq!(run.outcome, SchedulerAction::Failed(Some(12)));
}
