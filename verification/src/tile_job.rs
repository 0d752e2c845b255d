//! One tile's pipeline: the commands of its stages, in their fixed order,
//! and the lock that keeps the compute stage singleton per machine.

use vstd::prelude::*;
use vstd::string::StringExecFns;

use crate::command::{sync_file_from_s3_command, sync_file_to_s3_command, Command};
use crate::config::{spec_backend_name, AtlasConfig};
use crate::numbers::{spec_u64_string, u64_to_string};
use crate::tile::{spec_canonical_filename, spec_cog_filename, Tile};

verus! {

/// The size in meters of each point in the raw elevation data.
pub const DEM_SCALE: u64 = 100;

/// Where a job's artifacts live on the machine, relative to the working
/// directory.
pub const TVS_OUTPUT_DIRECTORY: &'static str = "output";

/// How many tile-job pipelines may be active at once on one machine. The
/// compute lock below is independent of this: concurrency lets one job upload
/// while another computes.
pub const TILE_WORKER_CONCURRENCY: u64 = 2;

/// A worker job that processes one tile.
#[derive(Debug, PartialEq, Eq)]
pub struct TileJob {
    /// The run's configuration, carried so the job survives a restart.
    pub config: AtlasConfig,
    /// The tile to process.
    pub tile: Tile,
}

impl Clone for TileJob {
    /// An exact copy of the job.
    fn clone(&self) -> (r: Self)
        ensures
            r == *self,
    {
        TileJob { config: self.config.clone(), tile: self.tile.clone() }
    }
}

/// The stages of one tile job, in the only order they may run.
#[derive(Debug, Clone, Copy, PartialEq, Eq, Structural)]
pub enum TileStage {
    /// Create the job's directories.
    EnsureDirs,
    /// Pull the stitched elevation input from the object store.
    Download,
    /// Run the viewshed kernel, serialized by the compute lock.
    Compute,
    /// Turn the kernel outputs into cloud-ready rasters.
    Assets,
    /// Push the artifacts to the object store (skipped on a local run).
    Upload,
    /// Remove the job directory (only when cleanup is enabled).
    Cleanup,
    /// Nothing left to do.
    Finished,
}

impl TileStage {
    /// The stage that follows this one: stages run in exactly this order.
    pub fn next(&self) -> (r: TileStage)
        ensures
            *self is EnsureDirs ==> r is Download,
            *self is Download ==> r is Compute,
            *self is Compute ==> r is Assets,
            *self is Assets ==> r is Upload,
            *self is Upload ==> r is Cleanup,
            *self is Cleanup ==> r is Finished,
            *self is Finished ==> r is Finished,
    {
        match self {
            TileStage::EnsureDirs => TileStage::Download,
            TileStage::Download => TileStage::Compute,
            TileStage::Compute => TileStage::Assets,
            TileStage::Assets => TileStage::Upload,
            TileStage::Upload => TileStage::Cleanup,
            TileStage::Cleanup => TileStage::Finished,
            TileStage::Finished => TileStage::Finished,
        }
    }
}

/// The per-job directory on the machine: `work/local` for the non-production
/// run, else `work/` followed by the job's start timestamp in milliseconds.
pub open spec fn spec_job_directory(config: AtlasConfig, timestamp_ms: u64) -> Seq<char> {
    if config.run_id@ == "local"@ {
        "work/"@ + "local"@
    } else {
        "work/"@ + spec_u64_string(timestamp_ms)
    }
}

/// Distinct start timestamps give distinct job directories, so jobs on one
/// machine never collide on their working files.
pub proof fn lemma_job_directory_injective(config: AtlasConfig, t1: u64, t2: u64)
    requires
        config.run_id@ != "local"@,
        t1 != t2,
    ensures
        spec_job_directory(config, t1) != spec_job_directory(config, t2),
{
    crate::numbers::lemma_u64_string_injective(t1, t2);
    let s1 = spec_u64_string(t1);
    let s2 = spec_u64_string(t2);
    if "work/"@ + s1 == "work/"@ + s2 {
        assert(s1 =~= s2) by {
            assert(("work/"@ + s1).len() == "work/"@.len() + s1.len());
            assert(("work/"@ + s2).len() == "work/"@.len() + s2.len());
            assert(s1.len() == s2.len());
            assert(forall|i: int|
                0 <= i < s1.len() ==> s1[i] == ("work/"@ + s1)[i + "work/"@.len()] && s2[i] == (
                "work/"@ + s2)[i + "work/"@.len()]);
        }
    }
}

/// Builds the commands of one tile job's stages.
#[derive(Debug)]
pub struct TileRunner {
    /// Details about this particular job.
    pub job: TileJob,
}

impl TileRunner {
    /// The per-job directory for a job started at a given millisecond
    /// timestamp.
    pub fn job_directory(&self, timestamp_ms: u64) -> (r: String)
        ensures
            r@ == spec_job_directory(self.job.config, timestamp_ms),
    {
        let mut dir = String::from_str("work/");
        if self.job.config.is_local_run() {
            dir.append("local");
        } else {
            let ts = u64_to_string(timestamp_ms);
            dir.append(ts.as_str());
        }
        dir
    }

    /// The command that creates the job's directories.
    pub fn ensure_directories_command(&self, job_directory: &str) -> (r: Command)
        ensures
            r.executable@ == "mkdir"@,
            r.args@.map_values(|s: String| s@) == seq![
                "-p"@,
                job_directory@ + "/archive"@,
                job_directory@ + "/longest_lines"@,
            ],
            r.env@.len() == 0,
            r.current_dir is None,
    {
        let mut archive = String::from_str(job_directory);
        archive.append("/archive");
        let mut lines_dir = String::from_str(job_directory);
        lines_dir.append("/longest_lines");
        let mut args: Vec<String> = Vec::new();
        args.push(String::from_str("-p"));
        args.push(archive);
        args.push(lines_dir);
        proof {
            assert(args@.map_values(|s: String| s@) =~= seq![
                "-p"@,
                job_directory@ + "/archive"@,
                job_directory@ + "/longest_lines"@,
            ]);
        }
        Command { executable: String::from_str("mkdir"), args, env: Vec::new(), current_dir: None }
    }

    /// The command that pulls the stitched elevation input into the job
    /// directory.
    pub fn download_command(&self, job_directory: &str) -> (r: Command)
        ensures
            r.executable@ == "./ctl.sh"@,
            r.args@.map_values(|s: String| s@) == seq![
                "s3"@,
                "get"@,
                "--force"@,
                "s3://viewview/stitched/"@ + spec_canonical_filename(
                    self.job.tile.lon@,
                    self.job.tile.lat@,
                ),
                job_directory@ + "/"@ + spec_canonical_filename(
                    self.job.tile.lon@,
                    self.job.tile.lat@,
                ),
            ],
    {
        let bt = self.job.tile.canonical_filename();
        let mut from = String::from_str("s3://viewview/stitched/");
        from.append(bt.as_str());
        let mut to = String::from_str(job_directory);
        to.append("/");
        to.append(bt.as_str());
        sync_file_from_s3_command(from.as_str(), to.as_str())
    }

    /// The compute command: the viewshed kernel on the downloaded input, the
    /// backend from the configuration, and — only when configured — a thread
    /// cap.
    pub fn compute_command(&self, bt_filepath: &str, job_directory: &str) -> (r: Command)
        ensures
            r.executable@ == self.job.config.tvs_executable@,
            r.args@.map_values(|s: String| s@) == {
                let base = seq![
                    "compute"@,
                    bt_filepath@,
                    "--output-dir"@,
                    job_directory@,
                    "--scale"@,
                    "100"@,
                    "--disable-image-render"@,
                    "--backend"@,
                    spec_backend_name(self.job.config.backend),
                    "--process"@,
                    "total-surfaces,longest-lines"@,
                ];
                match self.job.config.cpu_kernel_threads {
                    Some(n) => base + seq!["--thread-count"@, spec_u64_string(n)],
                    None => base,
                }
            },
            r.env@.map_values(|p: (String, String)| (p.0@, p.1@)) == seq![
                ("RUST_BACKTRACE"@, "1"@),
                ("RUST_LOG"@, "off,total_viewsheds=trace"@),
            ],
            r.current_dir is None,
    {
        let mut args: Vec<String> = Vec::new();
        args.push(String::from_str("compute"));
        args.push(String::from_str(bt_filepath));
        args.push(String::from_str("--output-dir"));
        args.push(String::from_str(job_directory));
        args.push(String::from_str("--scale"));
        args.push(String::from_str("100"));
        args.push(String::from_str("--disable-image-render"));
        args.push(String::from_str("--backend"));
        args.push(self.job.config.backend.name());
        args.push(String::from_str("--process"));
        args.push(String::from_str("total-surfaces,longest-lines"));
        match self.job.config.cpu_kernel_threads {
            Some(n) => {
                args.push(String::from_str("--thread-count"));
                args.push(u64_to_string(n));
            },
            None => {},
        }
        let mut env: Vec<(String, String)> = Vec::new();
        env.push((String::from_str("RUST_BACKTRACE"), String::from_str("1")));
        env.push((String::from_str("RUST_LOG"), String::from_str("off,total_viewsheds=trace")));
        proof {
            assert(env@.map_values(|p: (String, String)| (p.0@, p.1@)) =~= seq![
                ("RUST_BACKTRACE"@, "1"@),
                ("RUST_LOG"@, "off,total_viewsheds=trace"@),
            ]);
            let base = seq![
                "compute"@,
                bt_filepath@,
                "--output-dir"@,
                job_directory@,
                "--scale"@,
                "100"@,
                "--disable-image-render"@,
                "--backend"@,
                spec_backend_name(self.job.config.backend),
                "--process"@,
                "total-surfaces,longest-lines"@,
            ];
            match self.job.config.cpu_kernel_threads {
                Some(n) => {
                    assert(args@.map_values(|s: String| s@) =~= base + seq![
                        "--thread-count"@,
                        spec_u64_string(n),
                    ]);
                },
                None => {
                    assert(args@.map_values(|s: String| s@) =~= base);
                },
            }
        }
        Command {
            executable: self.job.config.tvs_executable.clone(),
            args,
            env,
            current_dir: None,
        }
    }

    /// One asset-preparation command: turn a kernel output into the tile's
    /// cloud raster, with the job directory in the environment.
    pub fn prepare_for_cloud_command(&self, input: &str, job_directory: &str) -> (r: Command)
        ensures
            r.executable@ == "./ctl.sh"@,
            r.args@.map_values(|s: String| s@) == seq![
                "prepare_for_cloud"@,
                input@,
                spec_cog_filename(self.job.tile.lon@, self.job.tile.lat@),
            ],
            r.env@.map_values(|p: (String, String)| (p.0@, p.1@)) == seq![
                ("OUTPUT_DIR"@, job_directory@),
            ],
            r.current_dir is None,
    {
        let mut args: Vec<String> = Vec::new();
        args.push(String::from_str("prepare_for_cloud"));
        args.push(String::from_str(input));
        args.push(self.job.tile.cog_filename());
        let mut env: Vec<(String, String)> = Vec::new();
        env.push((String::from_str("OUTPUT_DIR"), String::from_str(job_directory)));
        proof {
            assert(args@.map_values(|s: String| s@) =~= seq![
                "prepare_for_cloud"@,
                input@,
                spec_cog_filename(self.job.tile.lon@, self.job.tile.lat@),
            ]);
            assert(env@.map_values(|p: (String, String)| (p.0@, p.1@)) =~= seq![
                ("OUTPUT_DIR"@, job_directory@),
            ]);
        }
        Command { executable: String::from_str("./ctl.sh"), args, env, current_dir: None }
    }

    /// The upload of the raw heatmap, skipped exactly on a local run.
    pub fn upload_raw_command(&self, job_directory: &str) -> (r: Option<Command>)
        ensures
            r is Some <==> self.job.config.run_id@ != "local"@,
            r matches Some(c) ==> {
                &&& c.executable@ == "./ctl.sh"@
                &&& c.args@.map_values(|s: String| s@) == seq![
                    "s3"@,
                    "put"@,
                    job_directory@ + "/tmp/plain.tif"@,
                    "s3://viewview/runs/"@ + self.job.config.run_id@ + "/raw/"@
                        + spec_cog_filename(self.job.tile.lon@, self.job.tile.lat@),
                ]
            },
    {
        if self.job.config.is_local_run() {
            return None;
        }
        let cog = self.job.tile.cog_filename();
        let mut source = String::from_str(job_directory);
        source.append("/tmp/plain.tif");
        let mut destination = String::from_str("s3://viewview/runs/");
        destination.append(self.job.config.run_id.as_str());
        destination.append("/raw/");
        destination.append(cog.as_str());
        Some(sync_file_to_s3_command(source.as_str(), destination.as_str()))
    }

    /// The upload of the longest-lines raster, skipped exactly on a local
    /// run.
    pub fn upload_longest_lines_command(&self, job_directory: &str) -> (r: Option<Command>)
        ensures
            r is Some <==> self.job.config.run_id@ != "local"@,
            r matches Some(c) ==> {
                &&& c.executable@ == "./ctl.sh"@
                &&& c.args@.map_values(|s: String| s@) == seq![
                    "s3"@,
                    "put"@,
                    job_directory@ + "/"@ + self.job.config.longest_lines_cogs@ + "/"@
                        + spec_cog_filename(self.job.tile.lon@, self.job.tile.lat@),
                    "s3://viewview/runs/"@ + self.job.config.run_id@ + "/longest_lines_cogs/"@
                        + spec_cog_filename(self.job.tile.lon@, self.job.tile.lat@),
                ]
            },
    {
        if self.job.config.is_local_run() {
            return None;
        }
        let cog = self.job.tile.cog_filename();
        let mut source = String::from_str(job_directory);
        source.append("/");
        source.append(self.job.config.longest_lines_cogs.as_str());
        source.append("/");
        source.append(cog.as_str());
        let mut destination = String::from_str("s3://viewview/runs/");
        destination.append(self.job.config.run_id.as_str());
        destination.append("/longest_lines_cogs/");
        destination.append(cog.as_str());
        Some(sync_file_to_s3_command(source.as_str(), destination.as_str()))
    }

    /// The removal of the job directory, run exactly when cleanup is enabled.
    pub fn cleanup_command(&self, job_directory: &str) -> (r: Option<Command>)
        ensures
            r is Some <==> self.job.config.enable_cleanup,
            r matches Some(c) ==> {
                &&& c.executable@ == "rm"@
                &&& c.args@.map_values(|s: String| s@) == seq!["-r"@, job_directory@]
                &&& c.env@.len() == 0
                &&& c.current_dir is None
            },
    {
        if !self.job.config.enable_cleanup {
            return None;
        }
        let mut args: Vec<String> = Vec::new();
        args.push(String::from_str("-r"));
        args.push(String::from_str(job_directory));
        proof {
            assert(args@.map_values(|s: String| s@) =~= seq!["-r"@, job_directory@]);
        }
        Some(
            Command {
                executable: String::from_str("rm"),
                args,
                env: Vec::new(),
                current_dir: None,
            },
        )
    }
}

/// The lock that serializes the compute stage on one machine.
#[derive(Debug)]
pub struct ComputeLock {
    /// How many jobs currently hold the lock.
    pub holders: u8,
}

impl ComputeLock {
    /// Well-formed: held by at most one job.
    pub open spec fn wf(&self) -> bool {
        self.holders <= 1
    }

    /// A fresh, unheld lock.
    pub fn new() -> (r: ComputeLock)
        ensures
            r.wf(),
            r.holders == 0,
    {
        ComputeLock { holders: 0 }
    }

    /// Take the lock if it is free. Succeeds exactly when nobody holds it.
    pub fn try_acquire(&mut self) -> (r: bool)
        requires
            old(self).wf(),
        ensures
            final (self).wf(),
            r <==> old(self).holders == 0,
            r ==> final (self).holders == 1,
            !r ==> *final (self) == *old(self),
    {
        if self.holders == 0 {
            self.holders = 1;
            true
        } else {
            false
        }
    }

    /// Release the lock.
    pub fn release(&mut self)
        requires
            old(self).holders == 1,
        ensures
            final (self).wf(),
            final (self).holders == 0,
    {
        self.holders = 0;
    }
}

/// Law: on one machine, the number of compute-stage invocations in flight —
/// lock holders — never exceeds one.
pub proof fn lemma_compute_serialization(gate: ComputeLock)
    requires
        gate.wf(),
    ensures
        gate.holders <= 1,
{
}

} // verus!
