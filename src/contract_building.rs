//! Which packages of a workspace are contracts to build, and with which features.
//!
//! A package is a contract if it declares the `ink-as-dependency` feature; a contract
//! dependency is a resolved package that has that feature enabled. Building happens
//! elsewhere: this module only selects.

use vstd::prelude::*;

verus! {

/// The feature that marks a contract package.
pub const INK_AS_DEPENDENCY_FEATURE: &'static str = "ink-as-dependency";

/// The feature every package has, which a contract build must not enable by hand.
pub const STD_FEATURE: &'static str = "std";

/// A package of the workspace's metadata.
#[derive(Clone, Debug, PartialEq, Eq)]
pub struct PackageInfo {
    pub id: String,
    pub name: String,
    pub manifest_path: String,
    /// The names of the features the package declares.
    pub declared_features: Vec<String>,
}

/// A node of the resolved dependency graph: a package and the features enabled on it.
#[derive(Clone, Debug, PartialEq, Eq)]
pub struct ResolvedNode {
    pub id: String,
    pub features: Vec<String>,
}

/// A contract package (by its position among the packages) and the features to build it
/// with.
#[derive(Clone, Debug, PartialEq, Eq)]
pub struct FeaturedPackage {
    pub package: usize,
    pub features_on: Vec<String>,
}

/// The contracts of a workspace: the root package if it is one, and the contract
/// dependencies in the order of the resolved graph.
#[derive(Clone, Debug, PartialEq, Eq)]
pub struct ContractCrates {
    pub root: Option<FeaturedPackage>,
    pub dependencies: Vec<FeaturedPackage>,
}

/// Whether `name` is among `features`.
pub open spec fn has_feature(features: Seq<String>, name: Seq<char>) -> bool {
    exists|i: int| 0 <= i < features.len() && (#[trigger] features[i])@ == name
}

/// `features` without the contract marker and without `std`, in order.
pub open spec fn kept_features(features: Seq<String>) -> Seq<Seq<char>>
    decreases features.len(),
{
    if features.len() == 0 {
        Seq::empty()
    } else {
        let rest = kept_features(features.drop_last());
        let f = features.last()@;
        if f == INK_AS_DEPENDENCY_FEATURE@ || f == STD_FEATURE@ {
            rest
        } else {
            rest.push(f)
        }
    }
}

/// The nodes that have the contract marker enabled, in order.
pub open spec fn contract_nodes(nodes: Seq<ResolvedNode>) -> Seq<ResolvedNode>
    decreases nodes.len(),
{
    if nodes.len() == 0 {
        Seq::empty()
    } else {
        let rest = contract_nodes(nodes.drop_last());
        if has_feature(nodes.last().features@, INK_AS_DEPENDENCY_FEATURE@) {
            rest.push(nodes.last())
        } else {
            rest
        }
    }
}

/// The contract nodes of a prefix of `nodes` start the contract nodes of `nodes`.
proof fn lemma_contract_nodes_prefix(nodes: Seq<ResolvedNode>, k: int)
    requires
        0 <= k <= nodes.len(),
    ensures
        contract_nodes(nodes.take(k)).len() <= contract_nodes(nodes).len(),
        forall|j: int|
            0 <= j < contract_nodes(nodes.take(k)).len() ==> #[trigger] contract_nodes(nodes.take(k))[j]
                == contract_nodes(nodes)[j],
    decreases nodes.len(),
{
    if k < nodes.len() {
        let prefix = nodes.drop_last();
        lemma_contract_nodes_prefix(prefix, k);
        assert(prefix.take(k) == nodes.take(k));
    } else {
        assert(nodes.take(k) == nodes);
    }
}

/// Whether `p` is the first package whose id is `id`.
pub open spec fn is_first_with_id(packages: Seq<PackageInfo>, p: int, id: Seq<char>) -> bool {
    &&& 0 <= p < packages.len()
    &&& packages[p].id@ == id
    &&& forall|q: int| 0 <= q < p ==> (#[trigger] packages[q]).id@ != id
}

/// Whether some package has the id `id`.
pub open spec fn is_known_package(packages: Seq<PackageInfo>, id: Seq<char>) -> bool {
    exists|p: int| 0 <= p < packages.len() && (#[trigger] packages[p]).id@ == id
}

/// Whether `name` is among `features`.
fn contains_feature(features: &Vec<String>, name: &String) -> (r: bool)
    ensures
        r == has_feature(features@, name@),
{
    let mut i: usize = 0;
    while i < features.len()
        invariant
            i <= features@.len(),
            forall|j: int| 0 <= j < i ==> (#[trigger] features@[j])@ != name@,
        decreases features@.len() - i,
    {
        if features[i] == *name {
            return true;
        }
        i += 1;
    }
    false
}

/// The position of the first package whose id is `id`.
fn find_package(packages: &Vec<PackageInfo>, id: &String) -> (r: Option<usize>)
    ensures
        match r {
            Some(p) => is_first_with_id(packages@, p as int, id@),
            None => !is_known_package(packages@, id@),
        },
{
    let mut i: usize = 0;
    while i < packages.len()
        invariant
            i <= packages@.len(),
            forall|q: int| 0 <= q < i ==> (#[trigger] packages@[q]).id@ != id@,
        decreases packages@.len() - i,
    {
        if packages[i].id == *id {
            return Some(i);
        }
        i += 1;
    }
    None
}

/// `features` without the contract marker and without `std`.
fn features_to_enable(features: &Vec<String>) -> (r: Vec<String>)
    ensures
        r@.map_values(|s: String| s@) == kept_features(features@),
{
    let marker = INK_AS_DEPENDENCY_FEATURE.to_owned();
    let std_feature = STD_FEATURE.to_owned();
    let mut kept: Vec<String> = Vec::new();
    let mut i: usize = 0;
    while i < features.len()
        invariant
            i <= features@.len(),
            marker@ == INK_AS_DEPENDENCY_FEATURE@,
            std_feature@ == STD_FEATURE@,
            kept@.map_values(|s: String| s@) == kept_features(features@.take(i as int)),
        decreases features@.len() - i,
    {
        proof {
            assert(features@.take(i + 1).drop_last() == features@.take(i as int));
        }
        if !(features[i] == marker) && !(features[i] == std_feature) {
            let f = features[i].clone();
            kept.push(f);
            proof {
                assert(kept@.map_values(|s: String| s@) =~= kept_features(features@.take(i as int)).push(
                    features@[i as int]@,
                ));
            }
        }
        i += 1;
    }
    proof {
        assert(features@.take(i as int) == features@);
    }
    kept
}

/// Selects the contracts of a workspace whose root package has the id `root`: the root
/// when it declares the contract marker (built with no extra feature), and every resolved
/// node with the marker enabled (built with its enabled features but the marker and
/// `std`). Fails with the id of a package that the metadata does not list.
pub fn get_contract_crates(
    packages: &Vec<PackageInfo>,
    nodes: &Vec<ResolvedNode>,
    root: &String,
) -> (r: Result<ContractCrates, String>)
    ensures
        match r {
            Ok(c) => {
                &&& is_known_package(packages@, root@)
                &&& forall|i: int|
                    0 <= i < contract_nodes(nodes@).len() ==> is_known_package(
                        packages@,
                        (#[trigger] contract_nodes(nodes@)[i]).id@,
                    )
                &&& c.dependencies@.len() == contract_nodes(nodes@).len()
                &&& forall|i: int|
                    0 <= i < c.dependencies@.len() ==> {
                        &&& is_first_with_id(
                            packages@,
                            (#[trigger] c.dependencies@[i]).package as int,
                            contract_nodes(nodes@)[i].id@,
                        )
                        &&& c.dependencies@[i].features_on@.map_values(|s: String| s@)
                            == kept_features(contract_nodes(nodes@)[i].features@)
                    }
                &&& match c.root {
                    Some(fp) => is_first_with_id(packages@, fp.package as int, root@)
                        && has_feature(packages@[fp.package as int].declared_features@, INK_AS_DEPENDENCY_FEATURE@)
                        && fp.features_on@.len() == 0,
                    None => forall|p: int| #[trigger] is_first_with_id(packages@, p, root@)
                        ==> !has_feature(packages@[p].declared_features@, INK_AS_DEPENDENCY_FEATURE@),
                }
            },
            Err(id) => !is_known_package(packages@, id@) && (id@ == root@ || exists|i: int|
                0 <= i < contract_nodes(nodes@).len() && (#[trigger] contract_nodes(nodes@)[i]).id@ == id@),
        },
{
    let marker = INK_AS_DEPENDENCY_FEATURE.to_owned();
    let mut dependencies: Vec<FeaturedPackage> = Vec::new();
    let mut i: usize = 0;
    while i < nodes.len()
        invariant
            i <= nodes@.len(),
            marker@ == INK_AS_DEPENDENCY_FEATURE@,
            dependencies@.len() == contract_nodes(nodes@.take(i as int)).len(),
            forall|k: int|
                0 <= k < contract_nodes(nodes@.take(i as int)).len() ==> is_known_package(
                    packages@,
                    (#[trigger] contract_nodes(nodes@.take(i as int))[k]).id@,
                ),
            forall|k: int|
                0 <= k < dependencies@.len() ==> {
                    &&& is_first_with_id(
                        packages@,
                        (#[trigger] dependencies@[k]).package as int,
                        contract_nodes(nodes@.take(i as int))[k].id@,
                    )
                    &&& dependencies@[k].features_on@.map_values(|s: String| s@)
                        == kept_features(contract_nodes(nodes@.take(i as int))[k].features@)
                },
        decreases nodes@.len() - i,
    {
        proof {
            assert(nodes@.take(i + 1).drop_last() == nodes@.take(i as int));
        }
        let node = &nodes[i];
        if contains_feature(&node.features, &marker) {
            match find_package(packages, &node.id) {
                Some(p) => {
                    let features_on = features_to_enable(&node.features);
                    dependencies.push(FeaturedPackage { package: p, features_on });
                },
                None => {
                    proof {
                        let n = contract_nodes(nodes@.take(i + 1)).len() - 1;
                        assert(contract_nodes(nodes@.take(i + 1))[n] == nodes@[i as int]);
                        lemma_contract_nodes_prefix(nodes@, i + 1);
                        assert(contract_nodes(nodes@)[n].id@ == node.id@);
                    }
                    return Err(node.id.clone());
                },
            }
        }
        i += 1;
    }
    proof {
        assert(nodes@.take(i as int) == nodes@);
    }
    let root_package = match find_package(packages, root) {
        Some(p) => p,
        None => {
            return Err(root.clone());
        },
    };
    let root_contract = if contains_feature(&packages[root_package].declared_features, &marker) {
        Some(FeaturedPackage { package: root_package, features_on: Vec::new() })
    } else {
        None
    };
    proof {
        assert forall|p: int| #[trigger] is_first_with_id(packages@, p, root@) implies p == root_package by {
            if p < root_package {
                assert(packages@[p].id@ != root@);
            } else if p > root_package {
                assert(packages@[root_package as int].id@ != root@);
            }
        }
    }
    Ok(ContractCrates { root: root_contract, dependencies })
}

} // verus!
