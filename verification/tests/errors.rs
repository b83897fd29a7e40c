use webgwas_backend::errors::AppError;

#[test]
fn only_a_miss_is_recoverable() {
    assert!(AppError::NotFound.is_recoverable());
    assert!(!AppError::EnvironmentError.is_recoverable());
    assert!(!AppError::StorageError.is_recoverable());
    assert!(!AppError::DataIntegrityError.is_recoverable());
    assert!(!AppError::ResourceExhausted.is_recoverable());
}
