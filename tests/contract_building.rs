use drink::contract_building::{get_contract_crates, FeaturedPackage, PackageInfo, ResolvedNode};

fn package(id: &str, declared: &[&str]) -> PackageInfo {
    PackageInfo {
        id: id.to_string(),
        name: id.to_string(),
        manifest_path: format!("/work/{id}/Cargo.toml"),
        declared_features: declared.iter().map(|f| f.to_string()).collect(),
    }
}

fn node(id: &str, features: &[&str]) -> ResolvedNode {
    ResolvedNode { id: id.to_string(), features: features.iter().map(|f| f.to_string()).collect() }
}

#[test]
fn root_contract_and_dependencies_are_selected() {
    let packages = vec![
        package("root", &["std", "ink-as-dependency"]),
        package("dep", &["std", "ink-as-dependency", "extra"]),
        package("lib", &["std"]),
    ];
    let nodes = vec![
        node("root", &["std"]),
        node("lib", &["std"]),
        node("dep", &["extra", "ink-as-dependency", "std"]),
    ];
    let crates = get_contract_crates(&packages, &nodes, &"root".to_string()).unwrap();
    assert_eq!(crates.root, Some(FeaturedPackage { package: 0, features_on: vec![] }));
    assert_eq!(crates.dependencies, vec![FeaturedPackage { package: 1, features_on: vec!["extra".to_string()] }]);
}

#[test]
fn plain_root_is_not_a_contract() {
    let packages = vec![package("root", &["std"]), package("dep", &["ink-as-dependency"])];
    let nodes = vec![node("dep", &["ink-as-dependency"])];
    let crates = get_contract_crates(&packages, &nodes, &"root".to_string()).unwrap();
    assert_eq!(crates.root, None);
    assert_eq!(crates.dependencies, vec![FeaturedPackage { package: 1, features_on: vec![] }]);
}

#[test]
fn unknown_package_is_reported() {
    let packages = vec![package("root", &[])];
    let nodes = vec![node("ghost", &["ink-as-dependency"])];
    assert_eq!(get_contract_crates(&packages, &nodes, &"root".to_string()), Err("ghost".to_string()));
    assert_eq!(get_contract_crates(&packages, &vec![], &"nobody".to_string()), Err("nobody".to_string()));
}
