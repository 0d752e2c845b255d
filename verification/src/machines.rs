//! Machine lifecycle bookkeeping: worker identities, the busy set that keeps
//! one tile worker per machine, the connection registry, and the provisioning
//! commands of each provider.

use vstd::prelude::*;
use vstd::string::StringExecFns;

use crate::command::Command;
use crate::config::{spec_provider_label, ComputeProvider};
use crate::error::Error;
use crate::numbers::{spec_u64_string, u64_to_string};
use crate::store::JobRow;

verus! {

/// A job to handle a new machine.
#[derive(Debug, PartialEq, Eq)]
pub struct NewMachineJob {
    /// The machine's IP address, in its textual form.
    pub ip_address: String,
    /// The provider of the machine.
    pub provider: ComputeProvider,
}

/// The canonical worker identity of a machine: `tiler-{provider}-{ip}`.
pub open spec fn spec_tile_worker_name(provider: ComputeProvider, ip: Seq<char>) -> Seq<char> {
    "tiler-"@ + spec_provider_label(provider) + "-"@ + ip
}

impl Clone for NewMachineJob {
    /// An exact copy of the job.
    fn clone(&self) -> (r: Self)
        ensures
            r == *self,
    {
        NewMachineJob { ip_address: self.ip_address.clone(), provider: self.provider }
    }
}

impl NewMachineJob {
    /// Canonical key for a tile worker, matching a worker to its machine's
    /// connection.
    pub fn tile_worker_name(&self) -> (r: String)
        ensures
            r@ == spec_tile_worker_name(self.provider, self.ip_address@),
    {
        let mut name = String::from_str("tiler-");
        let label = self.provider.label();
        name.append(label.as_str());
        name.append("-");
        name.append(self.ip_address.as_str());
        name
    }
}

/// The greatest row identifier among the rows whose machine has an IP
/// address; the row identifier grows with insertion, so this is the most
/// recent such row. Fails exactly when no row matches.
pub fn find_job_id_by_ip(rows: &Vec<JobRow<NewMachineJob>>, ip: &str) -> (r: Result<u64, Error>)
    ensures
        r is Ok <==> exists|k: int|
            0 <= k < rows@.len() && (#[trigger] rows@[k]).job.ip_address@ == ip@,
        r matches Ok(id) ==> exists|k: int|
            {
                &&& 0 <= k < rows@.len()
                &&& (#[trigger] rows@[k]).job.ip_address@ == ip@
                &&& rows@[k].id == id
                &&& forall|j: int|
                    0 <= j < rows@.len() && (#[trigger] rows@[j]).job.ip_address@ == ip@
                        ==> rows@[j].id <= id
            },
        r matches Err(e) ==> e is JobNotFound,
{
    let target = String::from_str(ip);
    let mut found = false;
    let mut best_index: usize = 0;
    let mut best_id: u64 = 0;
    let mut i: usize = 0;
    while i < rows.len()
        invariant
            target@ == ip@,
            i <= rows@.len(),
            !found ==> forall|j: int|
                0 <= j < i ==> (#[trigger] rows@[j]).job.ip_address@ != ip@,
            found ==> (best_index as int) < i,
            found ==> rows@[best_index as int].job.ip_address@ == ip@,
            found ==> rows@[best_index as int].id == best_id,
            found ==> forall|j: int|
                0 <= j < i && (#[trigger] rows@[j]).job.ip_address@ == ip@ ==> rows@[j].id
                    <= best_id,
        decreases rows@.len() - i,
    {
        if rows[i].job.ip_address.eq(&target) {
            if !found || rows[i].id > best_id {
                found = true;
                best_index = i;
                best_id = rows[i].id;
            }
        }
        i += 1;
    }
    if found {
        Ok(best_id)
    } else {
        Err(Error::JobNotFound)
    }
}

/// The set of worker identities currently hosting a running tile-worker
/// loop. Used to prevent starting more than one worker per machine.
#[derive(Debug)]
pub struct BusySet {
    /// The identities, each at most once.
    pub names: Vec<String>,
}

impl BusySet {
    /// Well-formed: no identity occurs twice.
    pub open spec fn wf(&self) -> bool {
        forall|i: int, j: int|
            0 <= i < j < self.names@.len() ==> (#[trigger] self.names@[i])@ != (
            #[trigger] self.names@[j])@
    }

    /// Whether an identity is in the set.
    pub open spec fn spec_contains(&self, name: Seq<char>) -> bool {
        exists|i: int| 0 <= i < self.names@.len() && (#[trigger] self.names@[i])@ == name
    }

    /// An empty set.
    pub fn new() -> (r: BusySet)
        ensures
            r.wf(),
            forall|n: Seq<char>| !r.spec_contains(n),
    {
        BusySet { names: Vec::new() }
    }

    /// Whether an identity is in the set.
    pub fn contains(&self, name: &String) -> (r: bool)
        ensures
            r == self.spec_contains(name@),
    {
        let mut i: usize = 0;
        while i < self.names.len()
            invariant
                i <= self.names@.len(),
                forall|j: int| 0 <= j < i ==> (#[trigger] self.names@[j])@ != name@,
            decreases self.names@.len() - i,
        {
            if self.names[i].eq(name) {
                return true;
            }
            i += 1;
        }
        false
    }

    /// Claim an identity: succeeds — and inserts — exactly when the identity
    /// was absent, so a second worker for the same machine never starts.
    pub fn try_start(&mut self, name: String) -> (r: bool)
        requires
            old(self).wf(),
        ensures
            final (self).wf(),
            r == !old(self).spec_contains(name@),
            r ==> final (self).names@ == old(self).names@.push(name),
            !r ==> *final (self) == *old(self),
            final (self).spec_contains(name@),
    {
        if self.contains(&name) {
            return false;
        }
        let ghost pre = self.names@;
        let ghost n = name;
        self.names.push(name);
        proof {
            assert(self.names@[pre.len() as int]@ == n@);
            assert forall|i: int, j: int|
                0 <= i < j < self.names@.len() implies (#[trigger] self.names@[i])@ != (
            #[trigger] self.names@[j])@ by {
                if j < pre.len() {
                    assert(pre[i]@ != pre[j]@);
                } else {
                    assert(self.names@[j] == n);
                    assert(pre[i]@ != n@);
                }
            }
        }
        true
    }

    /// Release an identity when its worker loop exits; every other identity
    /// is kept.
    pub fn finish(&mut self, name: &String)
        requires
            old(self).wf(),
        ensures
            final (self).wf(),
            !final (self).spec_contains(name@),
            forall|n: Seq<char>|
                n != name@ ==> final (self).spec_contains(n) == old(self).spec_contains(n),
    {
        let ghost pre = self.names@;
        let mut i: usize = 0;
        while i < self.names.len()
            invariant
                old(self).wf(),
                *old(self) == *self,
                pre == self.names@,
                i <= self.names@.len(),
                forall|j: int| 0 <= j < i ==> (#[trigger] self.names@[j])@ != name@,
            decreases self.names@.len() - i,
        {
            if self.names[i].eq(name) {
                self.names.remove(i);
                proof {
                    assert(self.names@ == pre.remove(i as int));
                    assert forall|j: int|
                        0 <= j < self.names@.len() implies (#[trigger] self.names@[j])@
                        != name@ by {
                        if j < i {
                            assert(self.names@[j] == pre[j]);
                        } else {
                            assert(self.names@[j] == pre[j + 1]);
                            assert(pre[j + 1]@ != pre[i as int]@);
                        }
                    }
                    assert forall|j: int, l: int|
                        0 <= j < l < self.names@.len() implies (#[trigger] self.names@[j])@ != (
                    #[trigger] self.names@[l])@ by {
                        let pj = if j < i { j } else { j + 1 };
                        let pl = if l < i { l } else { l + 1 };
                        assert(self.names@[j] == pre[pj]);
                        assert(self.names@[l] == pre[pl]);
                    }
                    assert forall|n: Seq<char>| n != name@ implies self.spec_contains(n)
                        == old(self).spec_contains(n) by {
                        if self.spec_contains(n) {
                            let j = choose|j: int|
                                0 <= j < self.names@.len() && (#[trigger] self.names@[j])@ == n;
                            let pj = if j < i { j } else { j + 1 };
                            assert(pre[pj]@ == n);
                        }
                        if old(self).spec_contains(n) {
                            let j = choose|j: int|
                                0 <= j < pre.len() && (#[trigger] pre[j])@ == n;
                            assert(j != i);
                            let nj = if j < i { j } else { j - 1 };
                            assert(self.names@[nj]@ == n);
                        }
                    }
                }
                return ;
            }
            i += 1;
        }
        proof {
            assert(!self.spec_contains(name@));
        }
    }
}

/// Law: a well-formed busy set holds each worker identity at most once, so
/// for any machine at most one tile-worker loop is registered at any time.
pub proof fn lemma_per_machine_singleton(s: BusySet, name: Seq<char>, i: int, j: int)
    requires
        s.wf(),
        0 <= i < s.names@.len(),
        0 <= j < s.names@.len(),
        s.names@[i]@ == name,
        s.names@[j]@ == name,
    ensures
        i == j,
{
}

/// The process-wide registry of machine connections, keyed by worker
/// identity. Entries are added once per machine lifetime and never removed.
#[derive(Debug)]
pub struct Registry<T> {
    /// The entries, each key at most once.
    pub entries: Vec<(String, T)>,
}

impl<T> Registry<T> {
    /// Well-formed: no key occurs twice.
    pub open spec fn wf(&self) -> bool {
        forall|i: int, j: int|
            0 <= i < j < self.entries@.len() ==> (#[trigger] self.entries@[i]).0@ != (
            #[trigger] self.entries@[j]).0@
    }

    /// Whether a key is present.
    pub open spec fn spec_contains(&self, name: Seq<char>) -> bool {
        exists|i: int| 0 <= i < self.entries@.len() && (#[trigger] self.entries@[i]).0@ == name
    }

    /// An empty registry.
    pub fn new() -> (r: Registry<T>)
        ensures
            r.wf(),
            forall|n: Seq<char>| !r.spec_contains(n),
    {
        Registry { entries: Vec::new() }
    }

    /// Borrow the connection registered under a worker identity.
    pub fn get(&self, name: &String) -> (r: Option<&T>)
        ensures
            r is Some <==> self.spec_contains(name@),
            r matches Some(v) ==> exists|i: int|
                0 <= i < self.entries@.len() && (#[trigger] self.entries@[i]).0@ == name@ && *v
                    == self.entries@[i].1,
    {
        let mut i: usize = 0;
        while i < self.entries.len()
            invariant
                i <= self.entries@.len(),
                forall|j: int| 0 <= j < i ==> (#[trigger] self.entries@[j]).0@ != name@,
            decreases self.entries@.len() - i,
        {
            if self.entries[i].0.eq(name) {
                return Some(&self.entries[i].1);
            }
            i += 1;
        }
        None
    }

    /// Register a connection under a fresh worker identity.
    pub fn insert(&mut self, name: String, value: T)
        requires
            old(self).wf(),
            !old(self).spec_contains(name@),
        ensures
            final (self).wf(),
            final (self).entries@ == old(self).entries@.push((name, value)),
            final (self).spec_contains(name@),
            forall|n: Seq<char>|
                n != name@ ==> final (self).spec_contains(n) == old(self).spec_contains(n),
    {
        let ghost pre = self.entries@;
        let ghost n = name;
        self.entries.push((name, value));
        proof {
            assert(self.entries@[pre.len() as int].0@ == n@);
            assert forall|i: int, j: int|
                0 <= i < j < self.entries@.len() implies (#[trigger] self.entries@[i]).0@ != (
            #[trigger] self.entries@[j]).0@ by {
                if j < pre.len() {
                    assert(pre[i].0@ != pre[j].0@);
                } else {
                    assert(pre[i].0@ != n@);
                }
            }
            assert forall|n2: Seq<char>| n2 != n@ implies self.spec_contains(n2) == old(
                self,
            ).spec_contains(n2) by {
                if self.spec_contains(n2) {
                    let i = choose|i: int|
                        0 <= i < self.entries@.len() && (#[trigger] self.entries@[i]).0@ == n2;
                    assert(i < pre.len());
                    assert(pre[i].0@ == n2);
                }
                if old(self).spec_contains(n2) {
                    let i = choose|i: int| 0 <= i < pre.len() && (#[trigger] pre[i]).0@ == n2;
                    assert(self.entries@[i].0@ == n2);
                }
            }
        }
    }
}

/// The provisioning command of the DigitalOcean provider, verbatim.
pub fn doctl_create_command(ssh_key_id: &str) -> (r: Command)
    ensures
        r.executable@ == "doctl"@,
        r.args@.map_values(|s: String| s@) == seq![
            "compute"@,
            "droplet"@,
            "create"@,
            "--image"@,
            "gpu-h100x1-base"@,
            "--size"@,
            "gpu-h200x1-141gb"@,
            "--region"@,
            "nyc2"@,
            "--enable-monitoring"@,
            "--tag-names"@,
            "viewview"@,
            "--ssh-keys"@,
            ssh_key_id@,
            "viewview-worker"@,
            "--format"@,
            "PublicIPv4"@,
            "--no-header"@,
            "--wait"@,
        ],
        r.env@.len() == 0,
        r.current_dir is None,
{
    let mut args: Vec<String> = Vec::new();
    args.push(String::from_str("compute"));
    args.push(String::from_str("droplet"));
    args.push(String::from_str("create"));
    args.push(String::from_str("--image"));
    args.push(String::from_str("gpu-h100x1-base"));
    args.push(String::from_str("--size"));
    args.push(String::from_str("gpu-h200x1-141gb"));
    args.push(String::from_str("--region"));
    args.push(String::from_str("nyc2"));
    args.push(String::from_str("--enable-monitoring"));
    args.push(String::from_str("--tag-names"));
    args.push(String::from_str("viewview"));
    args.push(String::from_str("--ssh-keys"));
    args.push(String::from_str(ssh_key_id));
    args.push(String::from_str("viewview-worker"));
    args.push(String::from_str("--format"));
    args.push(String::from_str("PublicIPv4"));
    args.push(String::from_str("--no-header"));
    args.push(String::from_str("--wait"));
    proof {
        assert(args@.map_values(|s: String| s@) =~= seq![
            "compute"@,
            "droplet"@,
            "create"@,
            "--image"@,
            "gpu-h100x1-base"@,
            "--size"@,
            "gpu-h200x1-141gb"@,
            "--region"@,
            "nyc2"@,
            "--enable-monitoring"@,
            "--tag-names"@,
            "viewview"@,
            "--ssh-keys"@,
            ssh_key_id@,
            "viewview-worker"@,
            "--format"@,
            "PublicIPv4"@,
            "--no-header"@,
            "--wait"@,
        ]);
    }
    Command { executable: String::from_str("doctl"), args, env: Vec::new(), current_dir: None }
}

/// The provisioning command of the Vultr provider, verbatim.
pub fn vultr_create_command(ssh_key_id: &str) -> (r: Command)
    ensures
        r.executable@ == "vultr-cli"@,
        r.args@.map_values(|s: String| s@) == seq![
            "bare-metal"@,
            "create"@,
            "--region"@,
            "atl"@,
            "--plan"@,
            "vbm-72c-480gb-gh200-gpu"@,
            "--os"@,
            "1743"@,
            "--ssh"@,
            ssh_key_id@,
            "--label"@,
            "viewview-worker"@,
            "--notify"@,
            "no"@,
        ],
        r.env@.len() == 0,
        r.current_dir is None,
{
    let mut args: Vec<String> = Vec::new();
    args.push(String::from_str("bare-metal"));
    args.push(String::from_str("create"));
    args.push(String::from_str("--region"));
    args.push(String::from_str("atl"));
    args.push(String::from_str("--plan"));
    args.push(String::from_str("vbm-72c-480gb-gh200-gpu"));
    args.push(String::from_str("--os"));
    args.push(String::from_str("1743"));
    args.push(String::from_str("--ssh"));
    args.push(String::from_str(ssh_key_id));
    args.push(String::from_str("--label"));
    args.push(String::from_str("viewview-worker"));
    args.push(String::from_str("--notify"));
    args.push(String::from_str("no"));
    proof {
        assert(args@.map_values(|s: String| s@) =~= seq![
            "bare-metal"@,
            "create"@,
            "--region"@,
            "atl"@,
            "--plan"@,
            "vbm-72c-480gb-gh200-gpu"@,
            "--os"@,
            "1743"@,
            "--ssh"@,
            ssh_key_id@,
            "--label"@,
            "viewview-worker"@,
            "--notify"@,
            "no"@,
        ]);
    }
    Command { executable: String::from_str("vultr-cli"), args, env: Vec::new(), current_dir: None }
}

/// The provisioning command of the Google Cloud provider: the project script
/// with a machine name and an SSH key.
pub fn spin_google_cloud_command(machine_name: &str, ssh_key_id: &str) -> (r: Command)
    ensures
        r.executable@ == "./ctl.sh"@,
        r.args@.map_values(|s: String| s@) == seq![
            "spin_google_cloud"@,
            machine_name@,
            ssh_key_id@,
        ],
        r.env@.len() == 0,
        r.current_dir is None,
{
    let mut args: Vec<String> = Vec::new();
    args.push(String::from_str("spin_google_cloud"));
    args.push(String::from_str(machine_name));
    args.push(String::from_str(ssh_key_id));
    proof {
        assert(args@.map_values(|s: String| s@) =~= seq![
            "spin_google_cloud"@,
            machine_name@,
            ssh_key_id@,
        ]);
    }
    Command { executable: String::from_str("./ctl.sh"), args, env: Vec::new(), current_dir: None }
}

/// The name a freshly provisioned machine receives, from the provisioning
/// timestamp.
pub fn machine_name(timestamp_ms: u64) -> (r: String)
    ensures
        r@ == "atlas-"@ + spec_u64_string(timestamp_ms),
{
    let mut name = String::from_str("atlas-");
    let ts = u64_to_string(timestamp_ms);
    name.append(ts.as_str());
    name
}

/// The trivial SSH probe used while waiting for a machine to boot.
pub fn ssh_probe_command(user: &str, ip: &str) -> (r: Command)
    ensures
        r.executable@ == "ssh"@,
        r.args@.map_values(|s: String| s@) == seq![
            "-o"@,
            "StrictHostKeyChecking=accept-new"@,
            user@ + "@"@ + ip@,
            "true"@,
        ],
        r.env@.len() == 0,
        r.current_dir is None,
{
    let mut connect = String::from_str(user);
    connect.append("@");
    connect.append(ip);
    let mut args: Vec<String> = Vec::new();
    args.push(String::from_str("-o"));
    args.push(String::from_str("StrictHostKeyChecking=accept-new"));
    args.push(connect);
    args.push(String::from_str("true"));
    proof {
        assert(args@.map_values(|s: String| s@) =~= seq![
            "-o"@,
            "StrictHostKeyChecking=accept-new"@,
            user@ + "@"@ + ip@,
            "true"@,
        ]);
    }
    Command { executable: String::from_str("ssh"), args, env: Vec::new(), current_dir: None }
}

/// The removal of a machine's stale entry from the known-hosts file; some
/// providers recycle addresses across runs and the stale key blocks
/// reconnection.
pub fn known_hosts_remove_command(known_hosts_path: &str, ip: &str) -> (r: Command)
    ensures
        r.executable@ == "ssh-keygen"@,
        r.args@.map_values(|s: String| s@) == seq!["-f"@, known_hosts_path@, "-R"@, ip@],
        r.env@.len() == 0,
        r.current_dir is None,
{
    let mut args: Vec<String> = Vec::new();
    args.push(String::from_str("-f"));
    args.push(String::from_str(known_hosts_path));
    args.push(String::from_str("-R"));
    args.push(String::from_str(ip));
    proof {
        assert(args@.map_values(|s: String| s@) =~= seq!["-f"@, known_hosts_path@, "-R"@, ip@]);
    }
    Command { executable: String::from_str("ssh-keygen"), args, env: Vec::new(), current_dir: None }
}

/// The initialization of a freshly booted machine, through the project
/// script.
pub fn init_machine_command(user: &str, ip: &str) -> (r: Command)
    ensures
        r.executable@ == "./ctl.sh"@,
        r.args@.map_values(|s: String| s@) == seq![
            "cloud_init_ubuntu22"@,
            user@ + "@"@ + ip@,
        ],
        r.env@.len() == 0,
        r.current_dir is None,
{
    let mut connect = String::from_str(user);
    connect.append("@");
    connect.append(ip);
    let mut args: Vec<String> = Vec::new();
    args.push(String::from_str("cloud_init_ubuntu22"));
    args.push(connect);
    proof {
        assert(args@.map_values(|s: String| s@) =~= seq![
            "cloud_init_ubuntu22"@,
            user@ + "@"@ + ip@,
        ]);
    }
    Command { executable: String::from_str("./ctl.sh"), args, env: Vec::new(), current_dir: None }
}

/// The removal of the prior run's working directory on a machine, before its
/// tile worker starts.
pub fn remove_workdir_command() -> (r: Command)
    ensures
        r.executable@ == "rm"@,
        r.args@.map_values(|s: String| s@) == seq!["-rf"@, "work"@],
        r.env@.len() == 0,
        r.current_dir is None,
{
    let mut args: Vec<String> = Vec::new();
    args.push(String::from_str("-rf"));
    args.push(String::from_str("work"));
    proof {
        assert(args@.map_values(|s: String| s@) =~= seq!["-rf"@, "work"@]);
    }
    Command { executable: String::from_str("rm"), args, env: Vec::new(), current_dir: None }
}

/// Copy a file between this host and a remote machine over SSH on a given
/// port, through the external transfer tool.
pub fn rsync_command(source: &str, destination: &str, port: u64) -> (r: Command)
    ensures
        r.executable@ == "rsync"@,
        r.args@.map_values(|s: String| s@) == seq![
            "-avP"@,
            "-e"@,
            "ssh -p "@ + spec_u64_string(port),
            source@,
            destination@,
        ],
        r.env@.len() == 0,
        r.current_dir is None,
{
    let mut port_arg = String::from_str("ssh -p ");
    let rendered = u64_to_string(port);
    port_arg.append(rendered.as_str());
    let mut args: Vec<String> = Vec::new();
    args.push(String::from_str("-avP"));
    args.push(String::from_str("-e"));
    args.push(port_arg);
    args.push(String::from_str(source));
    args.push(String::from_str(destination));
    proof {
        assert(args@.map_values(|s: String| s@) =~= seq![
            "-avP"@,
            "-e"@,
            "ssh -p "@ + spec_u64_string(port),
            source@,
            destination@,
        ]);
    }
    Command { executable: String::from_str("rsync"), args, env: Vec::new(), current_dir: None }
}

/// What the local provider's creation returns: this host, no network touched.
pub fn local_create() -> (r: (String, String))
    ensures
        r.0@ == "atlas_local"@,
        r.1@ == "127.0.0.1"@,
{
    (String::from_str("atlas_local"), String::from_str("127.0.0.1"))
}

} // verus!
