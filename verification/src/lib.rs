//! Durable job-queue orchestration engine for a planetary viewshed pipeline.
//!
//! The library holds the verified core: the bit-packed line-of-sight codec,
//! the binary overview record layout, the per-cell maximum reduction, tile
//! identity and filename canonicalization, master-catalog parsing, command
//! construction for the external tools, the logical job store, run coherence,
//! the per-machine worker bookkeeping, and the boot-wait state machine.
//! Process spawning, SSH, the database and the file system live outside it.

pub mod boot;
pub mod command;
pub mod config;
pub mod error;
pub mod grided;
pub mod index;
pub mod machines;
pub mod numbers;
pub mod overview;
pub mod packed;
pub mod run;
pub mod stitch_all;
pub mod store;
pub mod tile;
pub mod tile_job;
