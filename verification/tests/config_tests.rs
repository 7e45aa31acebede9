//! Resolution of the layered configuration store.

use testsys::config::{
    GenericConfig, GenericVariantConfig, NamedGenericConfig, NamedTestTypeConfig, TestConfig,
    TestTypeConfig, config_keys,
};
use testsys::images::TestsysImages;
use testsys::variant::Variant;

fn variant(full: &str, platform: &str, family: &str, flavor: Option<&str>) -> Variant {
    Variant::new(
        full.to_string(),
        platform.to_string(),
        family.to_string(),
        flavor.map(|f| f.to_string()),
    )
}

fn entry_with_instance_type(instance_type: &str) -> GenericConfig {
    let mut config = GenericVariantConfig::default();
    config.instance_type = Some(instance_type.to_string());
    GenericConfig {
        aarch64: GenericVariantConfig::default(),
        x86_64: GenericVariantConfig::default(),
        config,
        configuration: Vec::new(),
    }
}

#[test]
fn keys_have_five_fixed_positions() {
    let v = variant("aws-k8s-1.24-nvidia", "aws", "aws-k8s", Some("nvidia"));
    let keys = config_keys(&v);
    assert_eq!(
        keys,
        vec![
            "aws-k8s-1.24-nvidia".to_string(),
            "aws-k8s-nvidia".to_string(),
            "aws-k8s".to_string(),
            "aws-nvidia".to_string(),
            "aws".to_string(),
        ]
    );
}

#[test]
fn flavorless_keys_have_empty_flavor_positions() {
    let v = variant("aws-k8s-1.24", "aws", "aws-k8s", None);
    let keys = config_keys(&v);
    assert_eq!(keys.len(), 5);
    assert_eq!(keys[0], "aws-k8s-1.24");
    assert_eq!(keys[1], "");
    assert_eq!(keys[2], "aws-k8s");
    assert_eq!(keys[3], "");
    assert_eq!(keys[4], "aws");
}

#[test]
fn resolution_is_deterministic() {
    let store = TestConfig {
        test: None,
        configs: vec![
            NamedGenericConfig { name: "gamma".to_string(), entry: entry_with_instance_type("m5.large") },
            NamedGenericConfig { name: "alpha".to_string(), entry: entry_with_instance_type("c5.large") },
        ],
    };
    let v = variant("beta", "alpha", "gamma", None);
    let first = store.reduced_config(&v, "x86_64", None, "quick");
    let second = store.reduced_config(&v, "x86_64", None, "quick");
    assert_eq!(first.instance_type, second.instance_type);
    assert_eq!(first.cluster_names, second.cluster_names);
    assert_eq!(first.agent_role, second.agent_role);
}

#[test]
fn family_beats_platform() {
    // The family key is more specific than the platform key, so its value
    // wins for the same field.
    let store = TestConfig {
        test: None,
        configs: vec![
            NamedGenericConfig { name: "gamma".to_string(), entry: entry_with_instance_type("m5.large") },
            NamedGenericConfig { name: "alpha".to_string(), entry: entry_with_instance_type("c5.large") },
        ],
    };
    let v = variant("beta", "alpha", "gamma", None);
    let resolved = store.reduced_config(&v, "x86_64", None, "quick");
    assert_eq!(resolved.instance_type, Some("m5.large".to_string()));
}

#[test]
fn test_kind_override_beats_generic() {
    let mut kind_config = GenericVariantConfig::default();
    kind_config.instance_type = Some("c5.xlarge".to_string());
    let mut gamma = entry_with_instance_type("m5.large");
    gamma.configuration.push(NamedTestTypeConfig {
        name: "conformance".to_string(),
        entry: TestTypeConfig {
            aarch64: GenericVariantConfig::default(),
            x86_64: GenericVariantConfig::default(),
            config: kind_config,
        },
    });
    let store = TestConfig {
        test: None,
        configs: vec![
            NamedGenericConfig { name: "gamma".to_string(), entry: gamma },
            NamedGenericConfig { name: "alpha".to_string(), entry: entry_with_instance_type("c5.large") },
        ],
    };
    let v = variant("beta", "alpha", "gamma", None);
    let resolved = store.reduced_config(&v, "x86_64", None, "conformance");
    assert_eq!(resolved.instance_type, Some("c5.xlarge".to_string()));
    let generic = store.reduced_config(&v, "x86_64", None, "quick");
    assert_eq!(generic.instance_type, Some("m5.large".to_string()));
}

#[test]
fn starting_config_wins_over_most_specific_key() {
    let store = TestConfig {
        test: None,
        configs: vec![NamedGenericConfig {
            name: "beta".to_string(),
            entry: entry_with_instance_type("m5.large"),
        }],
    };
    let v = variant("beta", "alpha", "gamma", None);
    let mut starting = GenericVariantConfig::default();
    starting.instance_type = Some("t3.nano".to_string());
    let resolved = store.reduced_config(&v, "x86_64", Some(starting), "quick");
    assert_eq!(resolved.instance_type, Some("t3.nano".to_string()));
}

#[test]
fn no_match_resolves_to_default() {
    let store = TestConfig {
        test: None,
        configs: vec![NamedGenericConfig {
            name: "unrelated".to_string(),
            entry: entry_with_instance_type("m5.large"),
        }],
    };
    let v = variant("beta", "alpha", "gamma", None);
    let resolved = store.reduced_config(&v, "x86_64", None, "quick");
    let unset = GenericVariantConfig::default();
    assert_eq!(resolved.instance_type, unset.instance_type);
    assert_eq!(resolved.cluster_names, unset.cluster_names);
    assert!(resolved.secrets.is_empty());
    assert_eq!(resolved.agent_role, None);
    assert_eq!(resolved.conformance_image, None);
    assert_eq!(resolved.conformance_registry, None);
    assert_eq!(resolved.control_plane_endpoint, None);
    assert_eq!(resolved.userdata, None);
}

#[test]
fn arch_specific_beats_arch_agnostic() {
    let mut arch_config = GenericVariantConfig::default();
    arch_config.instance_type = Some("m6g.large".to_string());
    let mut generic = GenericVariantConfig::default();
    generic.instance_type = Some("m5.large".to_string());
    let store = TestConfig {
        test: None,
        configs: vec![NamedGenericConfig {
            name: "gamma".to_string(),
            entry: GenericConfig {
                aarch64: arch_config,
                x86_64: GenericVariantConfig::default(),
                config: generic,
                configuration: Vec::new(),
            },
        }],
    };
    let v = variant("beta", "alpha", "gamma", None);
    let resolved = store.reduced_config(&v, "aarch64", None, "quick");
    assert_eq!(resolved.instance_type, Some("m6g.large".to_string()));
    let other_arch = store.reduced_config(&v, "x86_64", None, "quick");
    assert_eq!(other_arch.instance_type, Some("m5.large".to_string()));
}

#[test]
fn images_new_builds_tagged_uris() {
    let images = TestsysImages::new("my.registry/testsys".to_string(), Some("v9".to_string()));
    assert_eq!(
        images.eks_resource_agent_image,
        Some("my.registry/testsys/eks-resource-agent:v9".to_string())
    );
    assert_eq!(
        images.migration_test_agent_image,
        Some("my.registry/testsys/migration-test-agent:v9".to_string())
    );
    assert_eq!(
        images.controller_image,
        Some("my.registry/testsys/controller:v9".to_string())
    );
    assert_eq!(images.testsys_agent_pull_secret, None);
}

#[test]
fn images_merge_prefers_first_set_value() {
    let mut first = TestsysImages::public_images();
    first.controller_image = None;
    first.testsys_agent_pull_secret = Some("secret-a".to_string());
    let mut second = TestsysImages::new("other.registry/x".to_string(), None);
    second.testsys_agent_pull_secret = Some("secret-b".to_string());
    let merged = first.merge(second);
    assert_eq!(
        merged.controller_image,
        Some("other.registry/x/controller:v0.0.4".to_string())
    );
    assert_eq!(
        merged.eks_resource_agent_image,
        Some("public.ecr.aws/bottlerocket-test-system/eks-resource-agent:v0.0.4".to_string())
    );
    assert_eq!(merged.testsys_agent_pull_secret, Some("secret-a".to_string()));
}

#[test]
fn public_images_use_public_registry() {
    let images = TestsysImages::public_images();
    assert_eq!(
        images.ec2_resource_agent_image,
        Some("public.ecr.aws/bottlerocket-test-system/ec2-resource-agent:v0.0.4".to_string())
    );
    assert_eq!(images.testsys_agent_pull_secret, None);
}

#[test]
fn public_images_set_every_agent_image() {
    let images = TestsysImages::public_images();
    let registry = "public.ecr.aws/bottlerocket-test-system";
    let expect = |name: &str| Some(format!("{registry}/{name}:v0.0.4"));
    assert_eq!(images.eks_resource_agent_image, expect("eks-resource-agent"));
    assert_eq!(images.ecs_resource_agent_image, expect("ecs-resource-agent"));
    assert_eq!(
        images.vsphere_k8s_cluster_resource_agent_image,
        expect("vsphere-k8s-cluster-resource-agent")
    );
    assert_eq!(images.ec2_resource_agent_image, expect("ec2-resource-agent"));
    assert_eq!(images.vsphere_vm_resource_agent_image, expect("vsphere-vm-resource-agent"));
    assert_eq!(images.sonobuoy_test_agent_image, expect("sonobuoy-test-agent"));
    assert_eq!(images.ecs_test_agent_image, expect("ecs-test-agent"));
    assert_eq!(images.migration_test_agent_image, expect("migration-test-agent"));
    assert_eq!(images.controller_image, expect("controller"));
    assert_eq!(images.testsys_agent_pull_secret, None);
}

#[test]
fn default_images_are_all_unset() {
    let images = TestsysImages::default();
    assert_eq!(images.eks_resource_agent_image, None);
    assert_eq!(images.sonobuoy_test_agent_image, None);
    assert_eq!(images.controller_image, None);
    assert_eq!(images.testsys_agent_pull_secret, None);
    let merged = TestsysImages::default().merge(TestsysImages::public_images());
    assert_eq!(
        merged.controller_image,
        Some("public.ecr.aws/bottlerocket-test-system/controller:v0.0.4".to_string())
    );
}
