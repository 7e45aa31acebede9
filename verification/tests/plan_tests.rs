//! Plan building: labels, dedup queries, templated names, and the
//! per-cluster descriptor graphs.

use testsys::aws::{AwsEcsCreator, RegionImage};
use testsys::config::{GenericVariantConfig, NamedSecret};
use testsys::crd::{Crd, RepoConfig, ResourceConfig, apply_config_secrets};
use testsys::crds::{
    create_crds, create_crds_for_cluster, create_custom_crd_manifests, some_or_null, CrdInput,
    KnownTestType,
};
use testsys::error::Error;
use testsys::images::TestsysImages;
use testsys::labels::{Label, Labels};
use testsys::store::{ResourceStore, StoredResource};
use testsys::variant::Variant;

fn labels(entries: &[(&str, &str)]) -> Labels {
    Labels {
        pairs: entries
            .iter()
            .map(|(k, v)| Label { key: k.to_string(), value: v.to_string() })
            .collect(),
    }
}

fn creator() -> AwsEcsCreator {
    AwsEcsCreator {
        region: "us-west-2".to_string(),
        amis: vec![RegionImage { region: "us-west-2".to_string(), id: "ami-target".to_string() }],
        starting_image: Some("ami-start".to_string()),
    }
}

fn crd_input(store: ResourceStore, test_type: &str) -> CrdInput {
    CrdInput {
        store,
        arch: "x86_64".to_string(),
        variant: Variant::new(
            "aws-ecs-1".to_string(),
            "aws".to_string(),
            "aws-ecs".to_string(),
            None,
        ),
        config: GenericVariantConfig::default(),
        repo_config: RepoConfig { metadata_base_url: None, targets_url: None },
        starting_version: Some("v1.10.0".to_string()),
        migrate_to_version: Some("v1.11.0".to_string()),
        build_id: Some("build-7".to_string()),
        starting_image_id: None,
        test_type: test_type.to_string(),
        userdata_content: None,
        images: TestsysImages::public_images(),
    }
}

fn test_crd_of(crd: &Crd) -> &testsys::crd::TestCrd {
    match crd {
        Crd::Test(t) => t,
        Crd::Resource(_) => panic!("expected a test descriptor"),
    }
}

#[test]
fn migration_plan_has_five_chained_phases() {
    let input = crd_input(ResourceStore::empty(), "migration");
    let cluster_name = "x86-64-aws-ecs-1".to_string();
    let crds =
        create_crds_for_cluster(&creator(), &KnownTestType::Migration, &input, &cluster_name)
            .unwrap();
    // An empty store: a new cluster descriptor, a new instance descriptor,
    // then the five phases.
    assert_eq!(crds.len(), 7);
    let suffixes = ["-1-initial", "-2-migrate", "-3-migrated", "-4-migrate", "-5-final"];
    let mut names: Vec<String> = Vec::new();
    for (k, suffix) in suffixes.iter().enumerate() {
        let t = test_crd_of(&crds[2 + k]);
        assert!(t.name.ends_with(suffix), "{} should end with {}", t.name, suffix);
        // Each phase depends on the full ordered list of all prior phases.
        assert_eq!(t.depends_on, names);
        names.push(t.name.clone());
    }
}

#[test]
fn migration_plan_uses_supplied_starting_image() {
    let mut input = crd_input(ResourceStore::empty(), "migration");
    input.starting_image_id = Some("ami-override".to_string());
    let cluster_name = "one".to_string();
    let crds =
        create_crds_for_cluster(&creator(), &KnownTestType::Migration, &input, &cluster_name)
            .unwrap();
    let instance = crds
        .iter()
        .find_map(|crd| match crd {
            Crd::Resource(rc) => match &rc.config {
                ResourceConfig::Ec2(ec2) => Some(ec2),
                ResourceConfig::Cluster(_) => None,
            },
            Crd::Test(_) => None,
        })
        .unwrap();
    assert_eq!(instance.node_ami, "ami-override");
}

#[test]
fn quick_plan_ends_in_one_test_without_dependencies() {
    let input = crd_input(ResourceStore::empty(), "quick");
    let crds = create_crds(&creator(), &KnownTestType::Quick, &input).unwrap();
    assert_eq!(crds.len(), 3);
    let t = test_crd_of(&crds[2]);
    assert!(t.depends_on.is_empty());
    // The quick test runs against the cluster and instance steps.
    assert_eq!(t.resources.len(), 2);
}

#[test]
fn idempotent_rerun_reuses_existing_cluster() {
    // The store already holds a resource with this cluster's identity.
    let cluster_name = "x86-64-aws-ecs-1";
    let existing = StoredResource {
        name: "reused-cluster".to_string(),
        labels: labels(&[
            ("testsys/type", "cluster"),
            ("testsys/cluster", cluster_name),
            ("testsys/region", "us-west-2"),
        ]),
    };
    let input = crd_input(ResourceStore::new(vec![existing]), "quick");
    let crds = create_crds(&creator(), &KnownTestType::Quick, &input).unwrap();
    // No new cluster descriptor is created...
    assert!(crds.iter().all(|crd| match crd {
        Crd::Resource(rc) => !matches!(rc.config, ResourceConfig::Cluster(_)),
        Crd::Test(_) => true,
    }));
    // ...and the instance descriptor depends on the existing name.
    let instance = crds
        .iter()
        .find_map(|crd| match crd {
            Crd::Resource(rc) => Some(rc),
            Crd::Test(_) => None,
        })
        .unwrap();
    assert_eq!(instance.depends_on, vec!["reused-cluster".to_string()]);
    assert_eq!(instance.conflicts_with, Vec::<String>::new());
}

#[test]
fn missing_required_label_is_invalid_state() {
    let input = crd_input(ResourceStore::empty(), "quick");
    let ls = labels(&[("testsys/cluster", "one")]);
    let id_labels = vec!["testsys/cluster".to_string(), "testsys/region".to_string()];
    let err = input.existing_crds(&ls, &id_labels).unwrap_err();
    assert!(matches!(err, Error::InvalidState { .. }));
}

#[test]
fn existing_crds_match_on_the_projection_only() {
    let store = ResourceStore::new(vec![
        StoredResource {
            name: "match-a".to_string(),
            labels: labels(&[("testsys/cluster", "one"), ("testsys/type", "cluster"), ("extra", "x")]),
        },
        StoredResource {
            name: "other".to_string(),
            labels: labels(&[("testsys/cluster", "two"), ("testsys/type", "cluster")]),
        },
        StoredResource {
            name: "match-b".to_string(),
            labels: labels(&[("testsys/cluster", "one"), ("testsys/type", "cluster")]),
        },
    ]);
    let input = crd_input(store, "quick");
    let ls = labels(&[("testsys/cluster", "one"), ("testsys/type", "cluster"), ("unused", "u")]);
    let id_labels = vec!["testsys/cluster".to_string(), "testsys/type".to_string()];
    let names = input.existing_crds(&ls, &id_labels).unwrap();
    assert_eq!(names, vec!["match-a".to_string(), "match-b".to_string()]);
}

#[test]
fn instance_name_is_cluster_prefix_plus_random_suffix() {
    let input = crd_input(ResourceStore::empty(), "quick");
    let crds = create_crds(&creator(), &KnownTestType::Quick, &input).unwrap();
    let instance = crds
        .iter()
        .find_map(|crd| match crd {
            Crd::Resource(rc) => match &rc.config {
                ResourceConfig::Ec2(_) => Some(rc),
                ResourceConfig::Cluster(_) => None,
            },
            Crd::Test(_) => None,
        })
        .unwrap();
    let prefix = "x86-64-aws-ecs-1-instances-";
    assert!(instance.name.starts_with(prefix));
    assert_eq!(instance.name.len(), prefix.len() + 4);
    assert_eq!(instance.destruction_policy, testsys::crd::DestructionPolicy::OnTestSuccess);
}

#[test]
fn default_cluster_name_uses_kube_safe_spellings() {
    let input = crd_input(ResourceStore::empty(), "quick");
    assert_eq!(input.kube_arch(), "x86-64");
    assert_eq!(input.kube_variant(), "aws-ecs-1");
    assert_eq!(input.default_cluster_name(), "x86-64-aws-ecs-1");
    let mut dotted = crd_input(ResourceStore::empty(), "quick");
    dotted.variant = Variant::new(
        "aws-k8s-1.24".to_string(),
        "aws".to_string(),
        "aws-k8s".to_string(),
        None,
    );
    assert_eq!(dotted.kube_variant(), "aws-k8s-124");
}

#[test]
fn templated_cluster_names_are_rendered() {
    let mut input = crd_input(ResourceStore::empty(), "quick");
    input.config.cluster_names =
        vec!["{{arch}}-pool".to_string(), "{{variant}}-{{arch}}".to_string()];
    let names = input.cluster_names().unwrap();
    assert_eq!(names, vec!["x86-64-pool".to_string(), "aws-ecs-1-x86-64".to_string()]);
}

#[test]
fn empty_cluster_names_fall_back_to_default() {
    let input = crd_input(ResourceStore::empty(), "quick");
    let names = input.cluster_names().unwrap();
    assert_eq!(names, vec!["x86-64-aws-ecs-1".to_string()]);
}

#[test]
fn labels_standard_entries_and_overrides() {
    let input = crd_input(ResourceStore::empty(), "quick");
    let merged = input.labels(&labels(&[("testsys/type", "cluster"), ("testsys/arch", "arm")]));
    assert_eq!(merged.get("testsys/arch"), Some(&"arm".to_string()));
    assert_eq!(merged.get("testsys/variant"), Some(&"aws-ecs-1".to_string()));
    assert_eq!(merged.get("testsys/build-id"), Some(&"build-7".to_string()));
    assert_eq!(merged.get("testsys/test-type"), Some(&"quick".to_string()));
    assert_eq!(merged.get("testsys/type"), Some(&"cluster".to_string()));
    assert_eq!(merged.get("missing"), None);
    assert_eq!(merged.len(), 5);
}

#[test]
fn tuf_repo_config_needs_both_urls() {
    let mut input = crd_input(ResourceStore::empty(), "quick");
    assert!(input.tuf_repo_config().is_none());
    input.repo_config = RepoConfig {
        metadata_base_url: Some("https://updates.example/".to_string()),
        targets_url: Some("https://targets.example/".to_string()),
    };
    let tuf = input.tuf_repo_config().unwrap();
    assert_eq!(tuf.metadata_url, "https://updates.example/aws-ecs-1/x86_64/");
    assert_eq!(tuf.targets_url, "https://targets.example/");
}

#[test]
fn encoded_userdata_is_base64_of_contents() {
    let mut input = crd_input(ResourceStore::empty(), "quick");
    assert_eq!(input.encoded_userdata(), None);
    input.userdata_content = Some("settings".to_string());
    assert_eq!(input.encoded_userdata(), Some("c2V0dGluZ3M=".to_string()));
}

#[test]
fn rendered_cluster_name_substitutes_fields() {
    let rendered =
        testsys::render::rendered_cluster_name("{{arch}}-cluster".to_string(), "x86-64", "aws-ecs-1")
            .unwrap();
    assert_eq!(rendered, "x86-64-cluster");
}

#[test]
fn some_or_null_spells_out_absence() {
    assert_eq!(some_or_null(&Some("m5.large".to_string())), "m5.large");
    assert_eq!(some_or_null(&None), "null");
}

#[test]
fn config_fields_hold_all_template_entries() {
    let mut input = crd_input(ResourceStore::empty(), "quick");
    input.config.instance_type = Some("m5.large".to_string());
    let fields = input.config_fields("my-cluster");
    assert_eq!(fields.get("arch"), Some(&"x86_64".to_string()));
    assert_eq!(fields.get("kube-arch"), Some(&"x86-64".to_string()));
    assert_eq!(fields.get("cluster-name"), Some(&"my-cluster".to_string()));
    assert_eq!(fields.get("instance-type"), Some(&"m5.large".to_string()));
    assert_eq!(fields.get("agent-role"), Some(&"null".to_string()));
}

#[test]
fn custom_manifests_render_once_per_cluster() {
    let input = crd_input(ResourceStore::empty(), "custom");
    let manifests = create_custom_crd_manifests(
        &creator(),
        "custom",
        &input,
        "name: {{cluster-name}}\nimage: {{image-id}}\nns: {{namespace}}",
    )
    .unwrap();
    assert_eq!(manifests.len(), 1);
    assert_eq!(manifests[0], "name: x86-64-aws-ecs-1\nimage: ami-target\nns: testsys");
}

#[test]
fn strict_rendering_rejects_unknown_fields() {
    let input = crd_input(ResourceStore::empty(), "custom");
    let err = create_custom_crd_manifests(&creator(), "custom", &input, "oops: {{nonsense}}")
        .unwrap_err();
    assert!(matches!(err, Error::Render { .. }));
}

#[test]
fn config_secrets_overwrite_template_secrets() {
    let input = crd_input(ResourceStore::empty(), "quick");
    let mut crds = create_crds(&creator(), &KnownTestType::Quick, &input).unwrap();
    let secrets = vec![NamedSecret { name: "aws".to_string(), secret: "aws-creds".to_string() }];
    apply_config_secrets(&mut crds, &secrets);
    for crd in &crds {
        let got = match crd {
            Crd::Test(t) => &t.secrets,
            Crd::Resource(r) => &r.secrets,
        };
        assert_eq!(got.len(), 1);
        assert_eq!(got[0].name, "aws");
        assert_eq!(got[0].secret, "aws-creds");
    }
}

#[test]
fn existing_instances_become_conflicts_not_reuse() {
    // A resource with the instance identity already exists: the new
    // instance descriptor is still created, marked as conflicting.
    let cluster_name = "x86-64-aws-ecs-1";
    let existing = StoredResource {
        name: "old-instances".to_string(),
        labels: labels(&[
            ("testsys/type", "instances"),
            ("testsys/cluster", cluster_name),
            ("testsys/region", "us-west-2"),
        ]),
    };
    let input = crd_input(ResourceStore::new(vec![existing]), "quick");
    let crds = create_crds(&creator(), &KnownTestType::Quick, &input).unwrap();
    let instance = crds
        .iter()
        .find_map(|crd| match crd {
            Crd::Resource(rc) => match &rc.config {
                ResourceConfig::Ec2(_) => Some(rc),
                ResourceConfig::Cluster(_) => None,
            },
            Crd::Test(_) => None,
        })
        .unwrap();
    assert_eq!(instance.conflicts_with, vec!["old-instances".to_string()]);
    assert_eq!(instance.depends_on, vec![cluster_name.to_string()]);
}

#[test]
fn multi_cluster_plans_are_independent_and_ordered() {
    let mut input = crd_input(ResourceStore::empty(), "quick");
    input.config.cluster_names = vec!["pool-a".to_string(), "pool-b".to_string()];
    let crds = create_crds(&creator(), &KnownTestType::Quick, &input).unwrap();
    // Each cluster name yields a cluster, an instance and a test step.
    assert_eq!(crds.len(), 6);
    match &crds[0] {
        Crd::Resource(rc) => assert_eq!(rc.name, "pool-a"),
        Crd::Test(_) => panic!("expected the first cluster descriptor"),
    }
    match &crds[3] {
        Crd::Resource(rc) => assert_eq!(rc.name, "pool-b"),
        Crd::Test(_) => panic!("expected the second cluster descriptor"),
    }
}

#[test]
fn conformance_tests_carry_conformance_fields() {
    let mut input = crd_input(ResourceStore::empty(), "conformance");
    input.config.conformance_image = Some("conformance:v1".to_string());
    let crds = create_crds(&creator(), &KnownTestType::Conformance, &input).unwrap();
    let t = test_crd_of(crds.last().unwrap());
    assert_eq!(t.fields.get("conformance-image"), Some(&"conformance:v1".to_string()));
    assert_eq!(t.fields.get("conformance-registry"), Some(&"null".to_string()));
}

#[test]
fn migration_tests_carry_version_and_tuf_fields() {
    let mut input = crd_input(ResourceStore::empty(), "migration");
    input.repo_config = RepoConfig {
        metadata_base_url: Some("https://updates.example/".to_string()),
        targets_url: Some("https://targets.example/".to_string()),
    };
    let crds = create_crds(&creator(), &KnownTestType::Migration, &input).unwrap();
    // Phase two is the upgrade migration step.
    let upgrade = test_crd_of(&crds[3]);
    assert!(upgrade.name.ends_with("-2-migrate"));
    assert_eq!(upgrade.fields.get("migration-version"), Some(&"v1.11.0".to_string()));
    assert_eq!(
        upgrade.fields.get("tuf-metadata-url"),
        Some(&"https://updates.example/aws-ecs-1/x86_64/".to_string())
    );
    // Phase four reverts toward the starting version.
    let downgrade = test_crd_of(&crds[5]);
    assert!(downgrade.name.ends_with("-4-migrate"));
    assert_eq!(downgrade.fields.get("migration-version"), Some(&"v1.10.0".to_string()));
}
