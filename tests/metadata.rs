use test_changed::metadata::{find_crate_for_file, CrateInfo, Crates};

fn create_test_crate(name: &str, path: &str) -> CrateInfo {
    CrateInfo {
        name: name.to_string(),
        path: path.to_string(),
    }
}

#[test]
fn test_find_crate_for_file() {
    let crates = Crates(vec![
        create_test_crate("crate1", "/workspace/crate1"),
        create_test_crate("crate2", "/workspace/crate2"),
        create_test_crate("nested", "/workspace/crate2/nested"),
    ]);

    // Test exact path match
    let result1 = find_crate_for_file("/workspace/crate1", &crates);
    assert!(result1.is_some());
    assert_eq!(result1.unwrap().name, "crate1");

    // Test file in crate
    let result2 = find_crate_for_file("/workspace/crate1/src/main.rs", &crates);
    assert!(result2.is_some());
    assert_eq!(result2.unwrap().name, "crate1");

    // Test nested crate (should match the most specific path)
    let result3 = find_crate_for_file("/workspace/crate2/nested/src/lib.rs", &crates);
    assert!(result3.is_some());
    assert_eq!(result3.unwrap().name, "nested");

    // Test non-matching path
    let result4 = find_crate_for_file("/some/other/path", &crates);
    assert!(result4.is_none());
}
