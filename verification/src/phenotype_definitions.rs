//! The knowledge base: the descriptors of all phenotype fields, of all
//! cohorts, to be looked up by identifier or by code.

use crate::errors::AppError;
use crate::models::Feature;
use vstd::prelude::*;

verus! {

/// The feature at `i` has the identifier `id`, and none before it has.
pub open spec fn first_with_id(features: Seq<Feature>, i: int, id: i32) -> bool {
    &&& 0 <= i < features.len()
    &&& features[i].id == id
    &&& forall|j: int| 0 <= j < i ==> (#[trigger] features[j]).id != id
}

/// The feature at `i` has the code `code`, and none before it has.
pub open spec fn first_with_code(features: Seq<Feature>, i: int, code: Seq<char>) -> bool {
    &&& 0 <= i < features.len()
    &&& features[i].code@ == code
    &&& forall|j: int| 0 <= j < i ==> (#[trigger] features[j]).code@ != code
}

/// No feature has the identifier `id`.
pub open spec fn no_feature_with_id(features: Seq<Feature>, id: i32) -> bool {
    forall|j: int| 0 <= j < features.len() ==> (#[trigger] features[j]).id != id
}

/// No feature has the code `code`.
pub open spec fn no_feature_with_code(features: Seq<Feature>, code: Seq<char>) -> bool {
    forall|j: int| 0 <= j < features.len() ==> (#[trigger] features[j]).code@ != code
}

/// The index over the field descriptors. It is built once and only read
/// afterwards.
pub struct KnowledgeBase {
    features: Vec<Feature>,
}

impl View for KnowledgeBase {
    type V = Seq<Feature>;

    /// The descriptors in the order in which they were loaded.
    closed spec fn view(&self) -> Seq<Feature> {
        self.features@
    }
}

impl KnowledgeBase {
    /// The knowledge base over the loaded descriptors.
    pub fn new(fields: Vec<Feature>) -> (kb: Self)
        ensures
            kb@ == fields@,
    {
        KnowledgeBase { features: fields }
    }

    /// The number of descriptors.
    pub fn len(&self) -> (n: usize)
        ensures
            n == self@.len(),
    {
        self.features.len()
    }

    /// The descriptor with the identifier `id`: the first one in load order,
    /// should several carry it.
    pub fn get_by_id(&self, id: i32) -> (found: Result<&Feature, AppError>)
        ensures
            match found {
                Ok(feature) => exists|i: int|
                    first_with_id(self@, i, id) && *feature == #[trigger] self@[i],
                Err(e) => no_feature_with_id(self@, id) && e == AppError::NotFound,
            },
    {
        let mut i: usize = 0;
        while i < self.features.len()
            invariant
                i <= self.features.len(),
                forall|j: int| 0 <= j < i ==> (#[trigger] self.features@[j]).id != id,
            decreases self.features.len() - i,
        {
            if self.features[i].id == id {
                assert(first_with_id(self@, i as int, id));
                return Ok(&self.features[i]);
            }
            i = i + 1;
        }
        Err(AppError::NotFound)
    }

    /// The descriptor with the code `code`: the first one in load order,
    /// should several carry it.
    pub fn get_by_code(&self, code: &String) -> (found: Result<&Feature, AppError>)
        ensures
            match found {
                Ok(feature) => exists|i: int|
                    first_with_code(self@, i, code@) && *feature == #[trigger] self@[i],
                Err(e) => no_feature_with_code(self@, code@) && e == AppError::NotFound,
            },
    {
        let mut i: usize = 0;
        while i < self.features.len()
            invariant
                i <= self.features.len(),
                forall|j: int| 0 <= j < i ==> (#[trigger] self.features@[j]).code@ != code@,
            decreases self.features.len() - i,
        {
            if self.features[i].code == *code {
                assert(first_with_code(self@, i as int, code@));
                return Ok(&self.features[i]);
            }
            i = i + 1;
        }
        Err(AppError::NotFound)
    }
}

} // verus!
