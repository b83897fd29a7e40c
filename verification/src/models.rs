//! The values that the state manager keeps and hands out.

use vstd::prelude::*;

verus! {

/// The 128-bit token that ties a queued job to its eventual cached result.
#[derive(Clone, Copy, Debug, PartialEq, Eq, Hash, Structural)]
pub struct WebGWASRequestId {
    pub value: u128,
}

/// How far the work on a request has come.
#[derive(Clone, Copy, Debug, PartialEq, Eq, Structural)]
pub enum WebGWASResultStatus {
    Queued,
    Done,
    Error,
}

/// The outcome of one request. `local_result_file`, when set, is the path of
/// the artifact that was written to local disk for it.
#[derive(Clone, Debug, PartialEq, Eq)]
pub struct WebGWASResult {
    pub request_id: WebGWASRequestId,
    pub status: WebGWASResultStatus,
    pub error_msg: Option<String>,
    pub local_result_file: Option<String>,
}

/// A named population. The relational store assigns `id` when the cohort is
/// first written, so a cohort read back from the store has one.
#[derive(Clone, Debug, PartialEq, Eq)]
pub struct Cohort {
    pub id: Option<i32>,
    pub name: String,
    /// The name under which the cohort's files are kept on disk.
    pub normalized_name: String,
}

/// A cohort together with its feature matrix as loaded from local storage.
/// The state manager never looks into the matrix, so its representation `M`
/// is left to whoever loads it.
pub struct CohortData<M> {
    pub cohort: Cohort,
    pub features: M,
}

/// The descriptor of one phenotype field of a cohort.
#[derive(Clone, Debug, PartialEq, Eq)]
pub struct Feature {
    pub id: i32,
    /// The stable external name of the field.
    pub code: String,
    pub name: String,
    /// The type tag of the field, as the store spells it.
    pub node_type: String,
    pub sample_size: i32,
    pub cohort_id: i32,
}

/// One historical pair of fit qualities. Both are single-precision numbers,
/// carried here by their IEEE 754 bit patterns: the state manager stores and
/// hands them out, and computes nothing with them.
#[derive(Clone, Copy, Debug, PartialEq, Eq, Structural)]
pub struct PhenotypeFitQuality {
    pub phenotype_fit_quality: u32,
    pub gwas_fit_quality: u32,
}

} // verus!
