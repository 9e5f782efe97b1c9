//! Inventory of reclaimable disk space, progress-reporting batch deletion and
//! best-effort memory reclamation.
//!
//! Every operation here is a pure decision over plain values: listing
//! directories, removing files, spawning maintenance commands and reading
//! memory counters are left to the caller, which feeds the results back in.

mod catalog;
mod decimal;
mod deletion;
mod inventory;
mod reclaim;
mod system;
mod walker;

pub use catalog::{catalog_view, entry_view, local_group, opt_view, roaming_group, standard_catalog, standard_catalog_spec, system_group, user_temp_group};
pub use decimal::{append_decimal, decimal, digit_char};
pub use deletion::{lemma_empty_batch, lemma_progress_trace, lemma_reclaimed_bounded, progress_trace, reclaimed_by, removed_sum, DeleteProgress, DeletionTracker, RemovalOutcome};
pub use inventory::{absorb_spec, admits, item_of, scan_locations, scan_spec, sizes_sum, ChildEntry, LocationEntry, RootListing, ScanResult, TempFile};
pub use reclaim::{action_view, count_true, freed_spec, lemma_summary_laws, maintenance_plan, message_spec, plan_spec, plan_view, summarize, tally, MaintenanceAction, MaintenancePlan, MemoryOptimizationResult, Platform};
pub use system::{contains, contains_str, folder_to_open, kill_verdict, occurs_at, or_unknown, status_label, status_label_spec, DiskInfo, SystemInfo};
pub use walker::{clamp_u64, files_sum, faithful, lemma_walk_repeatable, subdirs, walk_state, DirEntryKind, SizeWalk};
