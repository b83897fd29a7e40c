//! Process-wide state of a genome-wide-association compute server: the
//! bounded cache of finished results, the queue of pending requests, the
//! reference datasets loaded at startup, and the order in which startup runs.
//!
//! Nothing here touches the outside world. Whoever embeds the library reads
//! the environment, the disk and the relational store, hands over what was
//! read, and carries out what the library asks for: above all the deletion
//! of the artifact of a result that the cache has pushed out.

pub mod config;
pub mod errors;
pub mod fit_quality;
pub mod layout;
pub mod lru;
pub mod models;
pub mod phenotype_definitions;
pub mod queue;
pub mod registry;
pub mod results_cache;
pub mod startup;
pub mod state;

pub use results_cache::ResultsCache;
pub use state::AppState;
