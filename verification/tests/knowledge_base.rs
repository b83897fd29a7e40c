use webgwas_backend::errors::AppError;
use webgwas_backend::models::Feature;
use webgwas_backend::phenotype_definitions::KnowledgeBase;

fn feature(id: i32, code: &str, cohort_id: i32) -> Feature {
    Feature {
        id,
        code: code.to_string(),
        name: format!("field {}", code),
        node_type: "REAL".to_string(),
        sample_size: 1000 + id,
        cohort_id,
    }
}

fn knowledge_base() -> KnowledgeBase {
    KnowledgeBase::new(vec![
        feature(1, "E11", 1),
        feature(2, "I10", 1),
        feature(3, "E11", 2),
        feature(2, "J45", 2),
    ])
}

#[test]
fn lookup_by_identifier_finds_the_feature() {
    let kb = knowledge_base();
    assert_eq!(kb.len(), 4);
    assert_eq!(kb.get_by_id(1), Ok(&feature(1, "E11", 1)));
    assert_eq!(kb.get_by_id(3), Ok(&feature(3, "E11", 2)));
}

#[test]
fn lookup_by_code_finds_the_feature() {
    let kb = knowledge_base();
    assert_eq!(kb.get_by_code(&"I10".to_string()), Ok(&feature(2, "I10", 1)));
    assert_eq!(kb.get_by_code(&"J45".to_string()), Ok(&feature(2, "J45", 2)));
}

#[test]
fn the_first_of_several_matches_is_found() {
    let kb = knowledge_base();
    assert_eq!(kb.get_by_id(2), Ok(&feature(2, "I10", 1)));
    assert_eq!(kb.get_by_code(&"E11".to_string()), Ok(&feature(1, "E11", 1)));
}

#[test]
fn a_miss_is_not_found() {
    let kb = knowledge_base();
    assert_eq!(kb.get_by_id(4), Err(AppError::NotFound));
    assert_eq!(kb.get_by_code(&"e11".to_string()), Err(AppError::NotFound));
    assert_eq!(kb.get_by_code(&"".to_string()), Err(AppError::NotFound));
}

#[test]
fn an_empty_knowledge_base_finds_nothing() {
    let kb = KnowledgeBase::new(vec![]);
    assert_eq!(kb.len(), 0);
    assert_eq!(kb.get_by_id(1), Err(AppError::NotFound));
    assert_eq!(kb.get_by_code(&"E11".to_string()), Err(AppError::NotFound));
}
