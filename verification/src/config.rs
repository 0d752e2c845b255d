//! Run configuration and the enumerations it carries.

use vstd::prelude::*;
use vstd::string::StringExecFns;

verus! {

/// The provider of a compute machine.
#[derive(Debug, Clone, Copy, PartialEq, Eq, Structural)]
pub enum ComputeProvider {
    /// This very host; commands run as child processes.
    Local,
    /// A DigitalOcean droplet.
    DigitalOcean,
    /// A Vultr bare-metal machine.
    Vultr,
    /// A Google Cloud VM.
    GoogleCloud,
}

/// The label of a provider, as used inside worker names.
pub open spec fn spec_provider_label(p: ComputeProvider) -> Seq<char> {
    match p {
        ComputeProvider::Local => "Local"@,
        ComputeProvider::DigitalOcean => "DigitalOcean"@,
        ComputeProvider::Vultr => "Vultr"@,
        ComputeProvider::GoogleCloud => "GoogleCloud"@,
    }
}

impl ComputeProvider {
    /// The label used inside worker names.
    pub fn label(&self) -> (r: String)
        ensures
            r@ == spec_provider_label(*self),
    {
        match self {
            ComputeProvider::Local => String::from_str("Local"),
            ComputeProvider::DigitalOcean => String::from_str("DigitalOcean"),
            ComputeProvider::Vultr => String::from_str("Vultr"),
            ComputeProvider::GoogleCloud => String::from_str("GoogleCloud"),
        }
    }
}

/// The compute backend handed to the viewshed kernel.
#[derive(Debug, Clone, Copy, PartialEq, Eq, Structural)]
pub enum Backend {
    /// GPU compute through Vulkan.
    Vulkan,
    /// Vulkan's CPU fallback.
    VulkanCPU,
    /// Plain CPU compute.
    CPU,
}

/// The name of a backend as passed on the kernel's command line.
pub open spec fn spec_backend_name(b: Backend) -> Seq<char> {
    match b {
        Backend::Vulkan => "vulkan"@,
        Backend::VulkanCPU => "vulkan-cpu"@,
        Backend::CPU => "cpu"@,
    }
}

impl Backend {
    /// The name passed on the kernel's command line.
    pub fn name(&self) -> (r: String)
        ensures
            r@ == spec_backend_name(*self),
    {
        match self {
            Backend::Vulkan => String::from_str("vulkan"),
            Backend::VulkanCPU => String::from_str("vulkan-cpu"),
            Backend::CPU => String::from_str("cpu"),
        }
    }
}

/// A run's parameters, carried with every job so jobs survive a restart.
#[derive(Debug, PartialEq, Eq)]
pub struct AtlasConfig {
    /// The run identifier; `"local"` marks a non-production run.
    pub run_id: String,
    /// Path to the master tile catalog.
    pub master: String,
    /// The decimal rendering of the seeding longitude.
    pub centre_lon: String,
    /// The decimal rendering of the seeding latitude.
    pub centre_lat: String,
    /// Optional number of leading tiles to skip.
    pub skip: Option<u64>,
    /// Optional cap on the number of tiles to enqueue.
    pub amount: Option<u64>,
    /// Path of the viewshed kernel executable.
    pub tvs_executable: String,
    /// Output directory for the per-tile longest-lines rasters.
    pub longest_lines_cogs: String,
    /// Where compute machines come from.
    pub provider: ComputeProvider,
    /// The compute backend handed to the kernel.
    pub backend: Backend,
    /// Whether a job's working directory is removed after success.
    pub enable_cleanup: bool,
    /// Optional thread cap for the CPU kernel.
    pub cpu_kernel_threads: Option<u64>,
}

impl Clone for AtlasConfig {
    /// An exact copy of the configuration.
    fn clone(&self) -> (r: Self)
        ensures
            r == *self,
    {
        AtlasConfig {
            run_id: self.run_id.clone(),
            master: self.master.clone(),
            centre_lon: self.centre_lon.clone(),
            centre_lat: self.centre_lat.clone(),
            skip: self.skip,
            amount: self.amount,
            tvs_executable: self.tvs_executable.clone(),
            longest_lines_cogs: self.longest_lines_cogs.clone(),
            provider: self.provider,
            backend: self.backend,
            enable_cleanup: self.enable_cleanup,
            cpu_kernel_threads: self.cpu_kernel_threads,
        }
    }
}

impl AtlasConfig {
    /// Whether this is a non-production run: such a run never touches object
    /// storage.
    pub fn is_local_run(&self) -> (r: bool)
        ensures
            r == (self.run_id@ == "local"@),
    {
        self.run_id.eq(&String::from_str("local"))
    }
}


/// Marker for the subcommand that reduces raw elevation tiles to their
/// per-square maxima; it takes no arguments of its own.
#[derive(Debug, Clone, Copy, PartialEq, Eq, Structural)]
pub struct MaxSubTiles;

} // verus!
