//! Tile identity, command construction and the tile-job pipeline.

use atlas_core::command::{handle_output, sync_file_from_s3_command, sync_file_to_s3_command, Command};
use atlas_core::config::{AtlasConfig, Backend, ComputeProvider};
use atlas_core::error::Error;
use atlas_core::index::{index_content, index_destination};
use atlas_core::stitch_all::{plan_stitch_jobs, StitchAllConfig, StitchJob};
use atlas_core::tile::Tile;
use atlas_core::tile_job::{ComputeLock, TileJob, TileRunner, TileStage};

fn tile(lon: &str, lat: &str, width: &str) -> Tile {
    Tile { lon: lon.to_string(), lat: lat.to_string(), width: width.to_string() }
}

fn config(run_id: &str) -> AtlasConfig {
    AtlasConfig {
        run_id: run_id.to_string(),
        master: "tiles.csv".to_string(),
        centre_lon: "-1".to_string(),
        centre_lat: "54".to_string(),
        skip: None,
        amount: None,
        tvs_executable: "tvs".to_string(),
        longest_lines_cogs: "cogs".to_string(),
        provider: ComputeProvider::Local,
        backend: Backend::Vulkan,
        enable_cleanup: false,
        cpu_kernel_threads: None,
    }
}

#[test]
fn cog_filename_is_lon_underscore_lat() {
    assert_eq!(tile("-1", "54", "10000").cog_filename(), "-1_54.tiff");
    assert_eq!(tile("1.5", "-2.25", "10000").cog_filename(), "1.5_-2.25.tiff");
}

#[test]
fn canonical_filename_is_lon_comma_lat() {
    assert_eq!(tile("-1", "54", "10000").canonical_filename(), "-1,54.bt");
}

#[test]
fn index_line_holds_filename_and_width() {
    assert_eq!(tile("-1", "54", "10000").index_line(), "-1_54.tiff 10000");
}

#[test]
fn index_content_joins_lines() {
    let tiles = vec![tile("-1", "54", "10000"), tile("2", "3", "8000")];
    assert_eq!(index_content(&tiles), "-1_54.tiff 10000\n2_3.tiff 8000");
    assert_eq!(index_content(&Vec::new()), "");
    assert_eq!(
        index_destination("run-A"),
        "s3://viewview/runs/run-A/longest_lines_cogs/index.txt"
    );
}

#[test]
fn remote_line_reconstructs_the_shell_command() {
    let c = Command {
        executable: "./tvs".to_string(),
        args: vec!["compute".to_string(), "a.bt".to_string()],
        env: vec![("RUST_BACKTRACE".to_string(), "1".to_string())],
        current_dir: Some("deep".to_string()),
    };
    assert_eq!(c.remote_line(), "cd ~/viewview/deep && RUST_BACKTRACE=1 ./tvs compute a.bt");
    let bare = Command {
        executable: "true".to_string(),
        args: Vec::new(),
        env: Vec::new(),
        current_dir: None,
    };
    assert_eq!(bare.remote_line(), "cd ~/viewview &&  true ");
}

#[test]
fn s3_commands_run_the_project_script() {
    let put = sync_file_to_s3_command("a.tiff", "s3://viewview/a.tiff");
    assert_eq!(put.executable, "./ctl.sh");
    assert_eq!(put.args, vec!["s3", "put", "a.tiff", "s3://viewview/a.tiff"]);
    let get = sync_file_from_s3_command("s3://viewview/a.bt", "out/a.bt");
    assert_eq!(get.args, vec!["s3", "get", "--force", "s3://viewview/a.bt", "out/a.bt"]);
}

#[test]
fn handle_output_success_hands_back_stdout() {
    let r = handle_output("./ctl.sh s3 put", 0, "uploaded\n", "");
    assert_eq!(r.unwrap(), "uploaded\n");
}

#[test]
fn handle_output_failure_carries_command_and_streams() {
    let r = handle_output("./tvs compute", 2, "partial", "broken");
    match r {
        Err(Error::ExternalCommandFailure(m)) => {
            assert_eq!(m, "./tvs compute\nSTDOUT:\npartial\nSTDERR:\nbroken\n");
        }
        other => panic!("expected an external command failure, got {other:?}"),
    }
}

#[test]
fn handle_output_strips_ansi_escapes_from_the_report() {
    let r = handle_output("./tvs", 1, "\u{1b}[31mred\u{1b}[0m", "\u{1b}[1mbold\u{1b}[0m");
    match r {
        Err(Error::ExternalCommandFailure(m)) => {
            assert!(m.contains("red"));
            assert!(m.contains("bold"));
            assert!(!m.contains('\u{1b}'));
        }
        other => panic!("expected an external command failure, got {other:?}"),
    }
}

#[test]
fn job_directory_is_local_or_timestamped() {
    let local = TileRunner { job: TileJob { config: config("local"), tile: tile("-1", "54", "10000") } };
    assert_eq!(local.job_directory(123), "work/local");
    let prod = TileRunner { job: TileJob { config: config("run-A"), tile: tile("-1", "54", "10000") } };
    assert_eq!(prod.job_directory(1712345678901), "work/1712345678901");
}

#[test]
fn compute_command_runs_the_kernel_serially_configured() {
    let mut cfg = config("run-A");
    cfg.backend = Backend::CPU;
    cfg.cpu_kernel_threads = Some(8);
    let runner = TileRunner { job: TileJob { config: cfg, tile: tile("-1", "54", "10000") } };
    let c = runner.compute_command("work/1/-1,54.bt", "work/1");
    assert_eq!(c.executable, "tvs");
    assert_eq!(
        c.args,
        vec![
            "compute",
            "work/1/-1,54.bt",
            "--output-dir",
            "work/1",
            "--scale",
            "100",
            "--disable-image-render",
            "--backend",
            "cpu",
            "--process",
            "total-surfaces,longest-lines",
            "--thread-count",
            "8",
        ]
    );
    assert_eq!(
        c.env,
        vec![
            ("RUST_BACKTRACE".to_string(), "1".to_string()),
            ("RUST_LOG".to_string(), "off,total_viewsheds=trace".to_string()),
        ]
    );
}

#[test]
fn compute_command_omits_thread_count_by_default() {
    let runner = TileRunner { job: TileJob { config: config("run-A"), tile: tile("-1", "54", "10000") } };
    let c = runner.compute_command("in.bt", "work/1");
    assert_eq!(c.args.last().unwrap(), "total-surfaces,longest-lines");
    assert_eq!(c.args[8], "vulkan");
}

#[test]
fn pipeline_stage_commands_are_exact() {
    let runner = TileRunner { job: TileJob { config: config("run-A"), tile: tile("-1", "54", "10000") } };
    let dirs = runner.ensure_directories_command("work/1");
    assert_eq!(dirs.executable, "mkdir");
    assert_eq!(dirs.args, vec!["-p", "work/1/archive", "work/1/longest_lines"]);
    let dl = runner.download_command("work/1");
    assert_eq!(
        dl.args,
        vec!["s3", "get", "--force", "s3://viewview/stitched/-1,54.bt", "work/1/-1,54.bt"]
    );
    let assets = runner.prepare_for_cloud_command("total_surfaces.bt", "work/1");
    assert_eq!(assets.executable, "./ctl.sh");
    assert_eq!(assets.args, vec!["prepare_for_cloud", "total_surfaces.bt", "-1_54.tiff"]);
    assert_eq!(assets.env, vec![("OUTPUT_DIR".to_string(), "work/1".to_string())]);
}

#[test]
fn uploads_are_skipped_exactly_on_a_local_run() {
    let local = TileRunner { job: TileJob { config: config("local"), tile: tile("-1", "54", "10000") } };
    assert!(local.upload_raw_command("work/local").is_none());
    assert!(local.upload_longest_lines_command("work/local").is_none());
    let prod = TileRunner { job: TileJob { config: config("run-A"), tile: tile("-1", "54", "10000") } };
    let raw = prod.upload_raw_command("work/1").unwrap();
    assert_eq!(
        raw.args,
        vec!["s3", "put", "work/1/tmp/plain.tif", "s3://viewview/runs/run-A/raw/-1_54.tiff"]
    );
    let cog = prod.upload_longest_lines_command("work/1").unwrap();
    assert_eq!(
        cog.args,
        vec![
            "s3",
            "put",
            "work/1/cogs/-1_54.tiff",
            "s3://viewview/runs/run-A/longest_lines_cogs/-1_54.tiff"
        ]
    );
}

#[test]
fn cleanup_runs_exactly_when_enabled() {
    let off = TileRunner { job: TileJob { config: config("run-A"), tile: tile("-1", "54", "10000") } };
    assert!(off.cleanup_command("work/1").is_none());
    let mut cfg = config("run-A");
    cfg.enable_cleanup = true;
    let on = TileRunner { job: TileJob { config: cfg, tile: tile("-1", "54", "10000") } };
    let c = on.cleanup_command("work/1").unwrap();
    assert_eq!(c.executable, "rm");
    assert_eq!(c.args, vec!["-r", "work/1"]);
}

#[test]
fn stages_run_in_their_fixed_order() {
    let mut s = TileStage::EnsureDirs;
    let expected = [
        TileStage::Download,
        TileStage::Compute,
        TileStage::Assets,
        TileStage::Upload,
        TileStage::Cleanup,
        TileStage::Finished,
        TileStage::Finished,
    ];
    for e in expected {
        s = s.next();
        assert_eq!(s, e);
    }
}

#[test]
fn compute_gate_admits_one_holder() {
    let mut gate = ComputeLock::new();
    assert!(gate.try_acquire());
    assert!(!gate.try_acquire());
    gate.release();
    assert!(gate.try_acquire());
}

#[test]
fn error_messages_name_their_kind() {
    assert_eq!(Error::JobNotFound.message(), "job not found");
    assert_eq!(
        Error::ConfigConflict.message(),
        "config conflict: completed jobs from a different run exist"
    );
    assert_eq!(
        Error::ExternalCommandFailure("x".to_string()).message(),
        "external command failed: x"
    );
    assert_eq!(Error::ConnectionFailure("y".to_string()).message(), "connection failed: y");
    assert_eq!(Error::QueueFailure("z".to_string()).message(), "queue failure: z");
    assert_eq!(Error::DataFormatFailure("w".to_string()).message(), "data format failure: w");
}

#[test]
fn stitch_command_requires_an_elevation_source() {
    let cfg = StitchAllConfig { master: "tiles.csv".to_string(), dems: None, num_cpus: 4 };
    let job = StitchJob { config: cfg, tile: tile("-1", "54", "10000") };
    assert!(matches!(job.stitch_command(), Err(Error::DataFormatFailure(_))));
    let cfg2 = StitchAllConfig {
        master: "tiles.csv".to_string(),
        dems: Some("dems".to_string()),
        num_cpus: 4,
    };
    let job2 = StitchJob { config: cfg2, tile: tile("-1", "54", "10000") };
    let c = job2.stitch_command().unwrap();
    assert_eq!(c.executable, "target/debug/tasks");
    assert_eq!(
        c.args,
        vec!["stitch", "--dems", "dems", "--centre", "-1,54", "--width", "10000"]
    );
    let up = job2.upload_command();
    assert_eq!(up.args, vec!["s3", "put", "output/-1,54.bt", "s3://viewview/stitched/-1,54.bt"]);
}

#[test]
fn stitch_plan_skips_the_leading_tiles() {
    let cfg = StitchAllConfig { master: "m".to_string(), dems: Some("d".to_string()), num_cpus: 1 };
    let mut tiles = Vec::new();
    for i in 0..502u32 {
        tiles.push(tile(&i.to_string(), "0", "10000"));
    }
    let jobs = plan_stitch_jobs(&cfg, &tiles);
    assert_eq!(jobs.len(), 2);
    assert_eq!(jobs[0].tile.lon, "500");
    assert_eq!(jobs[1].tile.lon, "501");
    assert!(plan_stitch_jobs(&cfg, &tiles[..5].to_vec()).is_empty());
}
