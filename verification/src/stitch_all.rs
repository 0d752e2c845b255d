//! Stitching the whole catalog: one job per tile, each running the stitch
//! subcommand locally and pushing the result to the object store.

use vstd::prelude::*;
use vstd::string::StringExecFns;

use crate::command::{sync_file_to_s3_command, Command};
use crate::error::Error;
use crate::tile::{spec_canonical_filename, Tile};

verus! {

/// How many leading catalog tiles the stitcher passes over.
pub const STITCH_SKIP: u64 = 500;

/// The stitcher's configuration.
#[derive(Debug, PartialEq, Eq)]
pub struct StitchAllConfig {
    /// Path to the master tile catalog.
    pub master: String,
    /// Source directory of the raw elevation files, when set.
    pub dems: Option<String>,
    /// How many stitch jobs may run at once.
    pub num_cpus: u64,
}

impl Clone for StitchAllConfig {
    /// An exact copy of the configuration.
    fn clone(&self) -> (r: Self)
        ensures
            r == *self,
    {
        StitchAllConfig {
            master: self.master.clone(),
            dems: match &self.dems {
                Some(d) => Some(d.clone()),
                None => None,
            },
            num_cpus: self.num_cpus,
        }
    }
}

/// A worker job that stitches one tile.
#[derive(Debug, PartialEq, Eq)]
pub struct StitchJob {
    /// Config from the command line, carried with the job.
    pub config: StitchAllConfig,
    /// The tile to stitch.
    pub tile: Tile,
}

impl Clone for StitchJob {
    /// An exact copy of the job.
    fn clone(&self) -> (r: Self)
        ensures
            r == *self,
    {
        StitchJob { config: self.config.clone(), tile: self.tile.clone() }
    }
}

impl StitchJob {
    /// The local command that stitches this job's tile. Fails exactly when
    /// the job was enqueued without an elevation source directory.
    pub fn stitch_command(&self) -> (r: Result<Command, Error>)
        ensures
            r is Ok <==> self.config.dems is Some,
            r matches Ok(c) ==> {
                &&& c.executable@ == "target/debug/tasks"@
                &&& c.args@.map_values(|s: String| s@) == seq![
                    "stitch"@,
                    "--dems"@,
                    self.config.dems->0@,
                    "--centre"@,
                    self.tile.lon@ + ","@ + self.tile.lat@,
                    "--width"@,
                    self.tile.width@,
                ]
                &&& c.env@.len() == 0
                &&& c.current_dir is None
            },
            r matches Err(e) ==> e is DataFormatFailure,
    {
        let dems = match &self.config.dems {
            Some(d) => d.clone(),
            None => {
                return Err(
                    Error::DataFormatFailure(
                        String::from_str("no elevation source directory in the stitch job"),
                    ),
                );
            },
        };
        let mut centre = self.tile.lon.clone();
        centre.append(",");
        centre.append(self.tile.lat.as_str());
        let mut args: Vec<String> = Vec::new();
        args.push(String::from_str("stitch"));
        args.push(String::from_str("--dems"));
        args.push(dems);
        args.push(String::from_str("--centre"));
        args.push(centre);
        args.push(String::from_str("--width"));
        args.push(self.tile.width.clone());
        proof {
            assert(args@.map_values(|s: String| s@) =~= seq![
                "stitch"@,
                "--dems"@,
                self.config.dems->0@,
                "--centre"@,
                self.tile.lon@ + ","@ + self.tile.lat@,
                "--width"@,
                self.tile.width@,
            ]);
        }
        Ok(
            Command {
                executable: String::from_str("target/debug/tasks"),
                args,
                env: Vec::new(),
                current_dir: None,
            },
        )
    }

    /// The upload of this job's stitched tile to the object store.
    pub fn upload_command(&self) -> (r: Command)
        ensures
            r.executable@ == "./ctl.sh"@,
            r.args@.map_values(|s: String| s@) == seq![
                "s3"@,
                "put"@,
                "output/"@ + spec_canonical_filename(self.tile.lon@, self.tile.lat@),
                "s3://viewview/stitched/"@ + spec_canonical_filename(
                    self.tile.lon@,
                    self.tile.lat@,
                ),
            ],
    {
        let bt = self.tile.canonical_filename();
        let mut source = String::from_str("output/");
        source.append(bt.as_str());
        let mut destination = String::from_str("s3://viewview/stitched/");
        destination.append(bt.as_str());
        sync_file_to_s3_command(source.as_str(), destination.as_str())
    }
}

/// Pair the configuration with every catalog tile past the fixed skip, in
/// catalog order.
pub fn plan_stitch_jobs(config: &StitchAllConfig, tiles: &Vec<Tile>) -> (r: Vec<StitchJob>)
    ensures
        tiles@.len() <= 500 ==> r@.len() == 0,
        tiles@.len() > 500 ==> r@.len() == tiles@.len() - 500,
        forall|i: int|
            0 <= i < r@.len() ==> (#[trigger] r@[i]).config == *config && r@[i].tile == tiles@[
                i + 500
            ],
{
    let mut jobs: Vec<StitchJob> = Vec::new();
    if tiles.len() <= 500 {
        return jobs;
    }
    let mut i: usize = 500;
    while i < tiles.len()
        invariant
            500 <= i <= tiles@.len(),
            jobs@.len() == i - 500,
            forall|k: int|
                0 <= k < jobs@.len() ==> (#[trigger] jobs@[k]).config == *config && jobs@[k].tile
                    == tiles@[k + 500],
        decreases tiles@.len() - i,
    {
        jobs.push(StitchJob { config: config.clone(), tile: tiles[i].clone() });
        i += 1;
    }
    jobs
}

} // verus!
