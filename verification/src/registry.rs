//! The registry of cohorts: each cohort's reference dataset by the cohort's
//! identifier.

use crate::errors::AppError;
use crate::models::CohortData;
use std::collections::HashMap;
use std::sync::Arc;
use vstd::prelude::*;

verus! {

/// Every cohort has an identifier.
pub open spec fn all_identified<M>(cohorts: Seq<CohortData<M>>) -> bool {
    forall|i: int| 0 <= i < cohorts.len() ==> (#[trigger] cohorts[i]).cohort.id.is_some()
}

/// The datasets by identifier, taken in order: where two cohorts carry the
/// same identifier, the later one stands.
pub open spec fn registered<M>(cohorts: Seq<CohortData<M>>) -> Map<i32, Arc<CohortData<M>>>
    decreases cohorts.len(),
{
    if cohorts.len() == 0 {
        Map::empty()
    } else {
        registered(cohorts.drop_last()).insert(
            cohorts.last().cohort.id.unwrap(),
            Arc::new(cohorts.last()),
        )
    }
}

/// No two cohorts carry the same identifier.
pub open spec fn identifiers_distinct<M>(cohorts: Seq<CohortData<M>>) -> bool {
    forall|i: int, j: int|
        #![trigger cohorts[i], cohorts[j]]
        0 <= i < j < cohorts.len() ==> cohorts[i].cohort.id != cohorts[j].cohort.id
}

/// Some cohort carries the identifier `id`.
pub open spec fn identifier_used<M>(cohorts: Seq<CohortData<M>>, id: i32) -> bool {
    exists|i: int| 0 <= i < cohorts.len() && (#[trigger] cohorts[i]).cohort.id == Some(id)
}

/// No cohort after the one at `i` carries the same identifier as it.
pub open spec fn last_of_its_identifier<M>(cohorts: Seq<CohortData<M>>, i: int) -> bool {
    forall|j: int|
        i < j < cohorts.len() ==> (#[trigger] cohorts[j]).cohort.id != cohorts[i].cohort.id
}

/// The registry built from loaded cohorts knows exactly the identifiers that
/// the cohorts carry, and keeps under each one the last cohort that carries
/// it.
pub proof fn lemma_registered_cohorts<M>(cohorts: Seq<CohortData<M>>)
    requires
        all_identified(cohorts),
    ensures
        registered(cohorts).dom().finite(),
        registered(cohorts).len() <= cohorts.len(),
        forall|id: i32|
            #[trigger] registered(cohorts).contains_key(id) <==> identifier_used(cohorts, id),
        forall|i: int|
            0 <= i < cohorts.len() && #[trigger] last_of_its_identifier(cohorts, i)
                ==> *registered(cohorts)[cohorts[i].cohort.id.unwrap()] == cohorts[i],
    decreases cohorts.len(),
{
    if cohorts.len() > 0 {
        let front = cohorts.drop_last();
        lemma_registered_cohorts(front);
        assert forall|id: i32|
            #[trigger] registered(cohorts).contains_key(id) <==> identifier_used(
                cohorts,
                id,
            ) by {
            if identifier_used(cohorts, id) {
                let i = choose|i: int|
                    0 <= i < cohorts.len() && (#[trigger] cohorts[i]).cohort.id == Some(id);
                if i < front.len() {
                    assert(front[i].cohort.id == Some(id));
                }
            }
        }
        assert forall|i: int|
            0 <= i < cohorts.len() && #[trigger] last_of_its_identifier(
                cohorts,
                i,
            ) implies *registered(cohorts)[cohorts[i].cohort.id.unwrap()] == cohorts[i] by {
            if i < front.len() {
                assert(last_of_its_identifier(front, i));
            }
        }
    }
}

/// Loading cohorts whose identifiers all differ registers every one of them:
/// the registry has as many entries as there were cohorts, each cohort is
/// found under its own identifier, and no other identifier is known.
pub proof fn lemma_distinct_cohorts_all_registered<M>(cohorts: Seq<CohortData<M>>)
    requires
        all_identified(cohorts),
        identifiers_distinct(cohorts),
    ensures
        registered(cohorts).len() == cohorts.len(),
        forall|i: int|
            0 <= i < cohorts.len() ==> {
                &&& registered(cohorts).contains_key((#[trigger] cohorts[i]).cohort.id.unwrap())
                &&& *registered(cohorts)[cohorts[i].cohort.id.unwrap()] == cohorts[i]
            },
        forall|id: i32|
            !identifier_used(cohorts, id) ==> !(#[trigger] registered(cohorts).contains_key(id)),
    decreases cohorts.len(),
{
    if cohorts.len() > 0 {
        let front = cohorts.drop_last();
        let id = cohorts.last().cohort.id.unwrap();
        lemma_distinct_cohorts_all_registered(front);
        lemma_registered_cohorts(front);
        assert forall|i: int| 0 <= i < cohorts.len() implies {
            &&& registered(cohorts).contains_key((#[trigger] cohorts[i]).cohort.id.unwrap())
            &&& *registered(cohorts)[cohorts[i].cohort.id.unwrap()] == cohorts[i]
        } by {
            if i < front.len() {
                assert(front[i] == cohorts[i]);
            }
        }
    }
}

/// Each cohort's dataset under the cohort's identifier. A dataset is shared
/// by reference count, never copied.
pub struct CohortRegistry<M> {
    cohort_id_to_data: HashMap<i32, Arc<CohortData<M>>>,
}

impl<M> View for CohortRegistry<M> {
    type V = Map<i32, Arc<CohortData<M>>>;

    closed spec fn view(&self) -> Map<i32, Arc<CohortData<M>>> {
        self.cohort_id_to_data@
    }
}

impl<M> CohortRegistry<M> {
    /// Files every loaded cohort under its identifier. A cohort without an
    /// identifier was never written to the store: the load is refused as a
    /// whole.
    pub fn from_cohorts(cohorts: Vec<CohortData<M>>) -> (built: Result<Self, AppError>)
        ensures
            match built {
                Ok(registry) => all_identified(cohorts@) && registry@ == registered(cohorts@),
                Err(e) => !all_identified(cohorts@) && e == AppError::DataIntegrityError,
            },
    {
        let mut map: HashMap<i32, Arc<CohortData<M>>> = HashMap::new();
        let ghost all = cohorts@;
        for data in it: cohorts
            invariant
                it.seq() == all,
                forall|k: int| 0 <= k < it.index() ==> (#[trigger] all[k]).cohort.id.is_some(),
                map@ == registered(all.take(it.index() as int)),
        {
            proof {
                let done = it.index() as int;
                assert(all.take(done + 1).drop_last() == all.take(done));
            }
            match data.cohort.id {
                Some(id) => {
                    map.insert(id, Arc::new(data));
                },
                None => {
                    return Err(AppError::DataIntegrityError);
                },
            }
        }
        assert(all.take(all.len() as int) == all);
        Ok(CohortRegistry { cohort_id_to_data: map })
    }

    /// The dataset of the cohort `id`, shared with the registry.
    pub fn get(&self, id: i32) -> (found: Result<Arc<CohortData<M>>, AppError>)
        ensures
            match found {
                Ok(data) => self@.contains_key(id) && data == self@[id],
                Err(e) => !self@.contains_key(id) && e == AppError::NotFound,
            },
    {
        match self.cohort_id_to_data.get(&id) {
            Some(data) => Ok(Arc::clone(data)),
            None => Err(AppError::NotFound),
        }
    }

    /// Whether a cohort is registered under `id`.
    pub fn contains(&self, id: i32) -> (held: bool)
        ensures
            held == self@.contains_key(id),
    {
        self.cohort_id_to_data.contains_key(&id)
    }

    /// The number of cohorts registered.
    pub fn len(&self) -> (n: usize)
        ensures
            n == self@.len(),
    {
        self.cohort_id_to_data.len()
    }
}

} // verus!
