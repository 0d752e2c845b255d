//! The job store, run coherence, machine bookkeeping and the boot wait.

use atlas_core::boot::{BootDecision, BootWait, MAX_BOOT_ATTEMPTS};
use atlas_core::config::{AtlasConfig, Backend, ComputeProvider};
use atlas_core::error::Error;
use atlas_core::machines::{
    doctl_create_command, find_job_id_by_ip, init_machine_command, known_hosts_remove_command,
    local_create, machine_name, remove_workdir_command, rsync_command, spin_google_cloud_command,
    ssh_probe_command, vultr_create_command, BusySet, NewMachineJob, Registry,
};
use atlas_core::run::{
    get_completed_tiles, get_current_run_config, is_decimal, parse_coord, parse_master,
    parse_master_line, plan_run,
};
use atlas_core::store::{JobStatus, JobStore};
use atlas_core::tile::Tile;
use atlas_core::tile_job::TileJob;

fn tile(lon: &str, lat: &str, width: &str) -> Tile {
    Tile { lon: lon.to_string(), lat: lat.to_string(), width: width.to_string() }
}

fn config(run_id: &str) -> AtlasConfig {
    AtlasConfig {
        run_id: run_id.to_string(),
        master: "tiles.csv".to_string(),
        centre_lon: "-1".to_string(),
        centre_lat: "54".to_string(),
        skip: None,
        amount: None,
        tvs_executable: "tvs".to_string(),
        longest_lines_cogs: "cogs".to_string(),
        provider: ComputeProvider::Local,
        backend: Backend::Vulkan,
        enable_cleanup: false,
        cpu_kernel_threads: None,
    }
}

fn tile_job(run_id: &str, lon: &str) -> TileJob {
    TileJob { config: config(run_id), tile: tile(lon, "54", "10000") }
}

#[test]
fn store_walks_a_job_through_its_lifecycle() {
    let mut store: JobStore<TileJob> = JobStore::new();
    let id = store.push(tile_job("run-A", "-1"));
    assert_eq!(id, 0);
    let claimed = store.poll().unwrap();
    assert_eq!(claimed, id);
    assert!(matches!(store.rows[0].status, JobStatus::Running));
    assert!(store.poll().is_none());
    store.complete(id, 1000).unwrap();
    assert!(matches!(store.rows[0].status, JobStatus::Done));
    assert_eq!(store.rows[0].done_at, Some(1000));
}

#[test]
fn store_failure_records_the_error() {
    let mut store: JobStore<TileJob> = JobStore::new();
    let id = store.push(tile_job("run-A", "-1"));
    store.poll().unwrap();
    store.fail(id, "ssh died".to_string()).unwrap();
    assert!(matches!(store.rows[0].status, JobStatus::Failed));
    assert_eq!(store.rows[0].last_error.as_deref(), Some("ssh died"));
    assert!(matches!(store.complete(99, 0), Err(Error::JobNotFound)));
    assert!(matches!(store.fail(99, "x".to_string()), Err(Error::JobNotFound)));
}

#[test]
fn store_redelivers_interrupted_jobs_after_recovery() {
    // A daemon killed mid-execution leaves claimed rows behind; recovery
    // returns every unfinished job to pending, so polling delivers it again.
    let mut store: JobStore<TileJob> = JobStore::new();
    let a = store.push(tile_job("run-A", "-1"));
    let b = store.push(tile_job("run-A", "-2"));
    let c = store.push(tile_job("run-A", "-3"));
    assert_eq!(store.poll(), Some(a));
    store.complete(a, 50).unwrap();
    assert_eq!(store.poll(), Some(b));
    store.recover();
    assert!(matches!(store.rows[0].status, JobStatus::Done));
    assert!(matches!(store.rows[1].status, JobStatus::Pending));
    assert!(matches!(store.rows[2].status, JobStatus::Pending));
    assert_eq!(store.poll(), Some(b));
    assert_eq!(store.poll(), Some(c));
}

#[test]
fn store_poll_claims_the_first_pending_row() {
    let mut store: JobStore<TileJob> = JobStore::new();
    let a = store.push(tile_job("run-A", "-1"));
    let b = store.push(tile_job("run-A", "-2"));
    assert_eq!(store.poll(), Some(a));
    assert_eq!(store.poll(), Some(b));
    assert_eq!(store.job_of(b).unwrap().tile.lon, "-2");
    assert!(store.job_of(77).is_none());
}

#[test]
fn current_run_follows_the_latest_completion() {
    let mut store: JobStore<TileJob> = JobStore::new();
    assert!(get_current_run_config(&store).is_none());
    let a = store.push(tile_job("run-A", "-1"));
    assert!(get_current_run_config(&store).is_none());
    let b = store.push(tile_job("run-B", "-2"));
    store.complete(a, 100).unwrap();
    store.complete(b, 200).unwrap();
    assert_eq!(get_current_run_config(&store).unwrap().run_id, "run-B");
}

#[test]
fn completed_tiles_filter_by_run() {
    let mut store: JobStore<TileJob> = JobStore::new();
    let a = store.push(tile_job("run-A", "-1"));
    let b = store.push(tile_job("run-B", "-2"));
    let _c = store.push(tile_job("run-A", "-3"));
    store.complete(a, 100).unwrap();
    store.complete(b, 200).unwrap();
    let tiles = get_completed_tiles(&store, "run-A");
    assert_eq!(tiles.len(), 1);
    assert_eq!(tiles[0].lon, "-1");
}

#[test]
fn plan_refuses_to_mix_runs_and_pushes_nothing() {
    let mut store: JobStore<TileJob> = JobStore::new();
    let a = store.push(tile_job("run-A", "-1"));
    store.complete(a, 100).unwrap();
    let tiles = vec![tile("-1", "54", "10000")];
    let r = plan_run(&store, &config("run-B"), &tiles);
    assert!(matches!(r, Err(Error::ConfigConflict)));
}

#[test]
fn plan_pairs_the_config_with_every_tile_in_order() {
    let mut store: JobStore<TileJob> = JobStore::new();
    let a = store.push(tile_job("run-A", "-1"));
    store.complete(a, 100).unwrap();
    let tiles = vec![tile("-1", "54", "10000"), tile("2", "3", "8000")];
    let jobs = plan_run(&store, &config("run-A"), &tiles).unwrap();
    assert_eq!(jobs.len(), 2);
    assert_eq!(jobs[0].tile.lon, "-1");
    assert_eq!(jobs[1].tile.lon, "2");
    assert_eq!(jobs[1].config.run_id, "run-A");
    let fresh: JobStore<TileJob> = JobStore::new();
    assert!(plan_run(&fresh, &config("run-B"), &tiles).is_ok());
}

#[test]
fn master_lines_parse_to_their_fields() {
    let t = parse_master_line("-1.0,54.0,10000").unwrap();
    assert_eq!(t.lon, "-1.0");
    assert_eq!(t.lat, "54.0");
    assert_eq!(t.width, "10000");
    assert!(matches!(parse_master_line(""), Err(Error::DataFormatFailure(_))));
    assert!(matches!(parse_master_line("1,2"), Err(Error::DataFormatFailure(_))));
    assert!(matches!(parse_master_line("a,b,c"), Err(Error::DataFormatFailure(_))));
    assert!(matches!(parse_master_line("1,2,"), Err(Error::DataFormatFailure(_))));
}

#[test]
fn master_catalog_parses_line_by_line() {
    let tiles = parse_master("-1.0,54.0,10000\n").unwrap();
    assert_eq!(tiles.len(), 1);
    assert_eq!(tiles[0].lon, "-1.0");
    let many = parse_master("1,2,3\n4.5,-6.25,7").unwrap();
    assert_eq!(many.len(), 2);
    assert_eq!(many[1].lat, "-6.25");
    assert!(parse_master("").unwrap().is_empty());
    match parse_master("1,2,3\nbroken\n4,5,6") {
        Err(Error::DataFormatFailure(m)) => assert_eq!(m, "broken"),
        other => panic!("expected a data format failure, got {other:?}"),
    }
}

#[test]
fn decimal_fields_are_recognised() {
    assert!(is_decimal("0"));
    assert!(is_decimal("-1.0"));
    assert!(is_decimal("10000"));
    assert!(is_decimal("54.125"));
    assert!(!is_decimal(""));
    assert!(!is_decimal("-"));
    assert!(!is_decimal("1."));
    assert!(!is_decimal(".5"));
    assert!(!is_decimal("1.2.3"));
    assert!(!is_decimal("1e5"));
}

#[test]
fn worker_identity_names_provider_and_address() {
    let job = NewMachineJob { ip_address: "127.0.0.1".to_string(), provider: ComputeProvider::Local };
    assert_eq!(job.tile_worker_name(), "tiler-Local-127.0.0.1");
    let job2 = NewMachineJob {
        ip_address: "10.0.0.2".to_string(),
        provider: ComputeProvider::DigitalOcean,
    };
    assert_eq!(job2.tile_worker_name(), "tiler-DigitalOcean-10.0.0.2");
}

#[test]
fn one_tile_worker_per_machine() {
    // Two identical machine jobs back to back: exactly one worker starts.
    let mut busy = BusySet::new();
    let name = "tiler-Local-127.0.0.1".to_string();
    assert!(busy.try_start(name.clone()));
    assert!(!busy.try_start(name.clone()));
    busy.finish(&name);
    assert!(busy.try_start(name));
}

#[test]
fn finishing_one_worker_keeps_the_others() {
    let mut busy = BusySet::new();
    assert!(busy.try_start("a".to_string()));
    assert!(busy.try_start("b".to_string()));
    busy.finish(&"a".to_string());
    assert!(!busy.try_start("b".to_string()));
    assert!(busy.try_start("a".to_string()));
}

#[test]
fn registry_hands_back_what_was_registered() {
    let mut registry: Registry<u32> = Registry::new();
    assert!(registry.get(&"tiler-Local-127.0.0.1".to_string()).is_none());
    registry.insert("tiler-Local-127.0.0.1".to_string(), 7);
    assert_eq!(registry.get(&"tiler-Local-127.0.0.1".to_string()), Some(&7));
    assert!(registry.get(&"tiler-Vultr-10.0.0.9".to_string()).is_none());
}

#[test]
fn job_id_resolution_picks_the_most_recent_match() {
    let mut store: JobStore<NewMachineJob> = JobStore::new();
    let _a = store.push(NewMachineJob {
        ip_address: "10.0.0.1".to_string(),
        provider: ComputeProvider::Vultr,
    });
    let b = store.push(NewMachineJob {
        ip_address: "10.0.0.2".to_string(),
        provider: ComputeProvider::Vultr,
    });
    let c = store.push(NewMachineJob {
        ip_address: "10.0.0.2".to_string(),
        provider: ComputeProvider::Vultr,
    });
    assert!(c > b);
    assert_eq!(find_job_id_by_ip(&store.rows, "10.0.0.2").unwrap(), c);
    assert!(matches!(find_job_id_by_ip(&store.rows, "10.9.9.9"), Err(Error::JobNotFound)));
}

#[test]
fn provisioning_commands_are_verbatim() {
    let d = doctl_create_command("key-1");
    assert_eq!(d.executable, "doctl");
    assert_eq!(d.args[0..3], ["compute", "droplet", "create"]);
    assert!(d.args.contains(&"key-1".to_string()));
    assert_eq!(*d.args.last().unwrap(), "--wait");
    let v = vultr_create_command("key-2");
    assert_eq!(v.executable, "vultr-cli");
    assert_eq!(v.args[0..2], ["bare-metal", "create"]);
    assert!(v.args.contains(&"key-2".to_string()));
    let g = spin_google_cloud_command("atlas-17", "key-3");
    assert_eq!(g.executable, "./ctl.sh");
    assert_eq!(g.args, vec!["spin_google_cloud", "atlas-17", "key-3"]);
    assert_eq!(machine_name(17), "atlas-17");
}

#[test]
fn boot_and_init_commands_address_the_machine() {
    let probe = ssh_probe_command("atlas", "10.0.0.5");
    assert_eq!(probe.executable, "ssh");
    assert_eq!(
        probe.args,
        vec!["-o", "StrictHostKeyChecking=accept-new", "atlas@10.0.0.5", "true"]
    );
    let clean = known_hosts_remove_command("/home/atlas/.ssh/known_hosts", "10.0.0.5");
    assert_eq!(clean.executable, "ssh-keygen");
    assert_eq!(clean.args, vec!["-f", "/home/atlas/.ssh/known_hosts", "-R", "10.0.0.5"]);
    let init = init_machine_command("root", "10.0.0.5");
    assert_eq!(init.args, vec!["cloud_init_ubuntu22", "root@10.0.0.5"]);
    let rm = remove_workdir_command();
    assert_eq!(rm.executable, "rm");
    assert_eq!(rm.args, vec!["-rf", "work"]);
    let (user, ip) = local_create();
    assert_eq!(user, "atlas_local");
    assert_eq!(ip, "127.0.0.1");
}

#[test]
fn boot_wait_succeeds_at_the_first_answering_probe() {
    let (decision, spent) = BootWait::evaluate(&vec![false, false, false, true]);
    assert_eq!(decision, BootDecision::Settle);
    assert_eq!(spent, 4);
    let (at_once, one) = BootWait::evaluate(&vec![true]);
    assert_eq!(at_once, BootDecision::Settle);
    assert_eq!(one, 1);
}

#[test]
fn boot_wait_times_out_after_sixty_failures() {
    assert_eq!(MAX_BOOT_ATTEMPTS, 60);
    let (decision, spent) = BootWait::evaluate(&vec![false; 60]);
    assert_eq!(decision, BootDecision::Timeout);
    assert_eq!(spent, 60);
    // A probe that would succeed after the bound is never made.
    let mut late = vec![false; 60];
    late.push(true);
    let (still, spent2) = BootWait::evaluate(&late);
    assert_eq!(still, BootDecision::Timeout);
    assert_eq!(spent2, 60);
}

#[test]
fn boot_wait_steps_count_attempts() {
    let mut wait = BootWait::new();
    for i in 1..60u8 {
        assert_eq!(wait.step(false), BootDecision::Retry);
        assert_eq!(wait.attempts, i);
    }
    assert_eq!(wait.step(false), BootDecision::Timeout);
    let mut quick = BootWait::new();
    assert_eq!(quick.step(true), BootDecision::Settle);
}

#[test]
fn rsync_command_targets_the_port() {
    let c = rsync_command("a/b.bt", "host:/work/b.bt", 2222);
    assert_eq!(c.executable, "rsync");
    assert_eq!(c.args, vec!["-avP", "-e", "ssh -p 2222", "a/b.bt", "host:/work/b.bt"]);
}

#[test]
fn coordinate_arguments_are_two_decimal_fields() {
    let (lon, lat) = parse_coord("-2.1,54.0").unwrap();
    assert_eq!(lon, "-2.1");
    assert_eq!(lat, "54.0");
    assert!(matches!(parse_coord("1"), Err(Error::DataFormatFailure(_))));
    assert!(matches!(parse_coord("1,2,3"), Err(Error::DataFormatFailure(_))));
    assert!(matches!(parse_coord("a,2"), Err(Error::DataFormatFailure(_))));
}
