use webgwas_backend::layout::{
    join, StorageLayout, DATABASE_NAME, FIT_QUALITY_NAME, RESULTS_NAME, ROOT_NAME,
};

#[test]
fn names_are_those_of_the_file_layout() {
    assert_eq!(ROOT_NAME, "webgwas");
    assert_eq!(RESULTS_NAME, "results");
    assert_eq!(DATABASE_NAME, "webgwas.db");
    assert_eq!(FIT_QUALITY_NAME, "fit_quality.parquet");
}

#[test]
fn join_puts_one_separator_between_the_parts() {
    assert_eq!(join("/home/ada", "webgwas"), "/home/ada/webgwas");
    assert_eq!(join("/home/ada/", "webgwas"), "/home/ada/webgwas");
    assert_eq!(join("/", "webgwas"), "/webgwas");
    assert_eq!(join("", "webgwas"), "webgwas");
    assert_eq!(join("relative", "results"), "relative/results");
}

#[test]
fn join_agrees_with_the_standard_library() {
    for base in ["/home/ada", "/home/ada/", "/", "", "a/b", "/home/zoë"] {
        for name in ["webgwas", "results", "webgwas.db", "fit_quality.parquet"] {
            let expected = std::path::Path::new(base).join(name);
            assert_eq!(join(base, name), expected.to_str().unwrap());
        }
    }
}

#[test]
fn layout_under_home() {
    let layout = StorageLayout::under_home("/home/ada");
    assert_eq!(layout.root, "/home/ada/webgwas");
    assert_eq!(layout.results, "/home/ada/webgwas/results");
    assert_eq!(layout.database, "/home/ada/webgwas/webgwas.db");
    assert_eq!(layout.fit_quality, "/home/ada/webgwas/fit_quality.parquet");
}

#[test]
fn layout_under_home_with_trailing_separator() {
    let layout = StorageLayout::under_home("/root/");
    assert_eq!(layout.root, "/root/webgwas");
    assert_eq!(layout.results, "/root/webgwas/results");
}

#[test]
fn reference_files_lie_outside_the_results_directory() {
    let layout = StorageLayout::under_home("/home/ada");
    let inside = format!("{}/", layout.results);
    assert!(!layout.database.starts_with(&inside));
    assert!(!layout.fit_quality.starts_with(&inside));
    assert!(!layout.root.starts_with(&inside));
    assert!(layout.results.starts_with(&format!("{}/", layout.root)));
}
