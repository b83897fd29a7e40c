//! The empirical reference distribution of fit qualities.

use crate::errors::AppError;
use crate::models::PhenotypeFitQuality;
use vstd::prelude::*;

verus! {

/// The two columns have one value per row, and no value is missing.
pub open spec fn columns_complete(gwas_r2: Seq<Option<u32>>, phenotype_r2: Seq<Option<u32>>) -> bool {
    &&& gwas_r2.len() == phenotype_r2.len()
    &&& forall|i: int| 0 <= i < gwas_r2.len() ==> (#[trigger] gwas_r2[i]).is_some()
    &&& forall|i: int| 0 <= i < phenotype_r2.len() ==> (#[trigger] phenotype_r2[i]).is_some()
}

/// The rows of the two columns, paired in order.
pub open spec fn paired_rows(gwas_r2: Seq<Option<u32>>, phenotype_r2: Seq<Option<u32>>) -> Seq<
    PhenotypeFitQuality,
> {
    Seq::new(
        gwas_r2.len(),
        |i: int|
            PhenotypeFitQuality {
                phenotype_fit_quality: phenotype_r2[i].unwrap(),
                gwas_fit_quality: gwas_r2[i].unwrap(),
            },
    )
}

/// Builds the reference distribution from the two decoded columns of the
/// fit-quality file, row by row. A single missing value, or columns of
/// different heights, invalidate the whole load.
pub fn fit_quality_reference(gwas_r2: &Vec<Option<u32>>, phenotype_r2: &Vec<Option<u32>>) -> (loaded:
    Result<Vec<PhenotypeFitQuality>, AppError>)
    ensures
        match loaded {
            Ok(rows) => columns_complete(gwas_r2@, phenotype_r2@) && rows@ == paired_rows(
                gwas_r2@,
                phenotype_r2@,
            ),
            Err(e) => !columns_complete(gwas_r2@, phenotype_r2@) && e
                == AppError::DataIntegrityError,
        },
{
    if gwas_r2.len() != phenotype_r2.len() {
        return Err(AppError::DataIntegrityError);
    }
    let mut rows: Vec<PhenotypeFitQuality> = Vec::new();
    let mut i: usize = 0;
    while i < gwas_r2.len()
        invariant
            gwas_r2.len() == phenotype_r2.len(),
            i <= gwas_r2.len(),
            rows.len() == i,
            forall|k: int| 0 <= k < i ==> (#[trigger] gwas_r2@[k]).is_some(),
            forall|k: int| 0 <= k < i ==> (#[trigger] phenotype_r2@[k]).is_some(),
            forall|k: int|
                0 <= k < i ==> #[trigger] rows@[k] == paired_rows(gwas_r2@, phenotype_r2@)[k],
        decreases gwas_r2.len() - i,
    {
        match (gwas_r2[i], phenotype_r2[i]) {
            (Some(g), Some(p)) => {
                rows.push(PhenotypeFitQuality { phenotype_fit_quality: p, gwas_fit_quality: g });
            },
            _ => {
                return Err(AppError::DataIntegrityError);
            },
        }
        i = i + 1;
    }
    Ok(rows)
}

} // verus!
