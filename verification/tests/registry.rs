use webgwas_backend::errors::AppError;
use webgwas_backend::models::{Cohort, CohortData};
use webgwas_backend::registry::CohortRegistry;

fn cohort(id: Option<i32>, name: &str, matrix: Vec<u32>) -> CohortData<Vec<u32>> {
    CohortData {
        cohort: Cohort {
            id,
            name: name.to_string(),
            normalized_name: name.to_lowercase(),
        },
        features: matrix,
    }
}

#[test]
fn two_cohorts_give_two_entries_and_a_third_is_not_found() {
    let loaded = vec![cohort(Some(1), "All", vec![1, 2]), cohort(Some(2), "Females", vec![3])];
    let registry = CohortRegistry::from_cohorts(loaded).ok().unwrap();
    assert_eq!(registry.len(), 2);
    let first = registry.get(1).ok().unwrap();
    assert_eq!(first.cohort.name, "All");
    assert_eq!(first.features, vec![1, 2]);
    let second = registry.get(2).ok().unwrap();
    assert_eq!(second.cohort.name, "Females");
    assert_eq!(second.features, vec![3]);
    assert_eq!(registry.get(3).err(), Some(AppError::NotFound));
    assert!(registry.contains(1));
    assert!(registry.contains(2));
    assert!(!registry.contains(3));
}

#[test]
fn datasets_are_shared_not_copied() {
    let registry = CohortRegistry::from_cohorts(vec![cohort(Some(5), "All", vec![9])]).ok().unwrap();
    let one = registry.get(5).ok().unwrap();
    let other = registry.get(5).ok().unwrap();
    assert!(std::sync::Arc::ptr_eq(&one, &other));
    assert_eq!(std::sync::Arc::strong_count(&one), 3);
}

#[test]
fn no_cohorts_give_an_empty_registry() {
    let registry = CohortRegistry::<Vec<u32>>::from_cohorts(vec![]).ok().unwrap();
    assert_eq!(registry.len(), 0);
    assert_eq!(registry.get(0).err(), Some(AppError::NotFound));
}

#[test]
fn a_cohort_without_identifier_fails_the_load() {
    let loaded = vec![cohort(Some(1), "All", vec![]), cohort(None, "Draft", vec![])];
    assert_eq!(CohortRegistry::from_cohorts(loaded).err(), Some(AppError::DataIntegrityError));
}

#[test]
fn the_later_of_two_cohorts_with_one_identifier_stands() {
    let loaded = vec![
        cohort(Some(1), "Old", vec![1]),
        cohort(Some(2), "Other", vec![2]),
        cohort(Some(1), "New", vec![3]),
    ];
    let registry = CohortRegistry::from_cohorts(loaded).ok().unwrap();
    assert_eq!(registry.len(), 2);
    assert_eq!(registry.get(1).ok().unwrap().cohort.name, "New");
    assert_eq!(registry.get(2).ok().unwrap().cohort.name, "Other");
}

#[test]
fn negative_identifiers_are_identifiers() {
    let registry =
        CohortRegistry::from_cohorts(vec![cohort(Some(i32::MIN), "Edge", vec![])]).ok().unwrap();
    assert!(registry.contains(i32::MIN));
    assert!(!registry.contains(i32::MAX));
}
