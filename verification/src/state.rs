//! The state of the running server, and how it is put together.

use crate::config::Settings;
use crate::errors::AppError;
use crate::fit_quality::{columns_complete, fit_quality_reference, paired_rows};
use crate::lru::MAX_CAPACITY;
use crate::models::{CohortData, Feature, PhenotypeFitQuality, WebGWASRequestId, WebGWASResult};
use crate::phenotype_definitions::KnowledgeBase;
use crate::queue::JobQueue;
use crate::registry::{all_identified, registered, CohortRegistry};
use crate::results_cache::ResultsCache;
use std::sync::Arc;
use vstd::prelude::*;

verus! {

/// All that startup has read by the time the state is put together. `Db` is
/// the pool of connections to the relational store, `S3` the object-storage
/// client and `M` a cohort's feature matrix: the state keeps the three and
/// never looks into them.
pub struct Loaded<Db, S3, M> {
    /// The server's directory on disk.
    pub root_directory: String,
    pub db: Db,
    pub s3_client: S3,
    /// Every cohort of the store with its feature matrix.
    pub cohorts: Vec<CohortData<M>>,
    /// Every feature row of the store.
    pub features: Vec<Feature>,
    /// The column `gwas_r2` of the fit-quality file, a row's value missing
    /// where the file has none.
    pub gwas_r2: Vec<Option<u32>>,
    /// The column `phenotype_r2` of the fit-quality file, likewise.
    pub phenotype_r2: Vec<Option<u32>>,
}

impl<Db, S3, M> Loaded<Db, S3, M> {
    /// Nothing is missing from what was read: every cohort has its
    /// identifier, and the fit-quality columns have a value in every row.
    pub open spec fn complete(&self) -> bool {
        &&& all_identified(self.cohorts@)
        &&& columns_complete(self.gwas_r2@, self.phenotype_r2@)
    }
}

/// The state that every request handler and the worker share. It is put
/// together once, before the first request is served.
pub struct AppState<Db, S3, M> {
    pub root_directory: String,
    pub settings: Settings,
    pub db: Db,
    pub s3_client: S3,
    pub knowledge_base: KnowledgeBase,
    pub cohort_id_to_data: CohortRegistry<M>,
    pub fit_quality_reference: Arc<Vec<PhenotypeFitQuality>>,
    pub queue: JobQueue,
    pub results: ResultsCache,
}

impl<Db, S3, M> AppState<Db, S3, M> {
    /// This is the state that startup arrives at from `settings` and
    /// `loaded`: the reference data is all there, no request is pending and
    /// no result is cached.
    pub open spec fn fresh_from(&self, settings: Settings, loaded: Loaded<Db, S3, M>) -> bool {
        &&& self.root_directory == loaded.root_directory
        &&& self.settings == settings
        &&& self.db == loaded.db
        &&& self.s3_client == loaded.s3_client
        &&& self.knowledge_base@ == loaded.features@
        &&& self.cohort_id_to_data@ == registered(loaded.cohorts@)
        &&& self.fit_quality_reference@ == paired_rows(loaded.gwas_r2@, loaded.phenotype_r2@)
        &&& self.queue@ == Seq::<WebGWASRequestId>::empty()
        &&& self.results.wf()
        &&& self.results@ == Seq::<(u128, WebGWASResult)>::empty()
        &&& self.results.spec_capacity() == settings.cache_capacity
    }

    /// Puts the state together from what startup has read, or refuses to: a
    /// cohort without identifier or a missing fit-quality value leaves no
    /// state at all. The configured capacity of the cache has to be one for
    /// which the cache's table can be laid out.
    pub fn new(settings: Settings, loaded: Loaded<Db, S3, M>) -> (built: Result<Self, AppError>)
        requires
            settings.cache_capacity <= MAX_CAPACITY,
        ensures
            match built {
                Ok(state) => loaded.complete() && state.fresh_from(settings, loaded),
                Err(e) => !loaded.complete() && e == AppError::DataIntegrityError,
            },
    {
        let cohort_id_to_data = match CohortRegistry::from_cohorts(loaded.cohorts) {
            Ok(registry) => registry,
            Err(e) => {
                return Err(e);
            },
        };
        let knowledge_base = KnowledgeBase::new(loaded.features);
        let fit_quality = match fit_quality_reference(&loaded.gwas_r2, &loaded.phenotype_r2) {
            Ok(rows) => rows,
            Err(e) => {
                return Err(e);
            },
        };
        let results = ResultsCache::new(settings.cache_capacity);
        Ok(
            AppState {
                root_directory: loaded.root_directory,
                settings,
                db: loaded.db,
                s3_client: loaded.s3_client,
                knowledge_base,
                cohort_id_to_data,
                fit_quality_reference: Arc::new(fit_quality),
                queue: JobQueue::new(),
                results,
            },
        )
    }
}

} // verus!
