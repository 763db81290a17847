//! Parallel search for Ethereum addresses that match a prefix and/or suffix.
//!
//! The verified core: the address predicate, the derivation of an address from
//! a secret key, the shared search state with its no-overshoot invariant, the
//! per-attempt worker decision, the search plan, and the report text.

mod cli;
mod coordinator;
mod crypto;
mod laws;
mod matching;
mod models;
mod report;
mod search;

pub use cli::{
    check_password, create_rule, generate_filename, key_pair_of, keystore_file_name,
    results_file_name, PasswordError,
};
pub use coordinator::{plan_search, resolve_worker_count, Phase, SearchPlan};
pub use crypto::{generate_private_key, private_key_to_address, public_key_to_address};
pub use laws::{lemma_checked_monotone, lemma_no_criteria_accepts_all, lemma_results_start_with_prefix};
pub use matching::{address_matches, matches_lowered};
pub use models::{Args, FoundAddress, KeyPair, KeystoreResults, PublicAddressEntry, Results};
pub use report::{format_duration, found_line, progress_line, summary_line, throughput};
pub use search::{Candidate, ConfigError, SearchState, Snapshot, WorkerStep};
