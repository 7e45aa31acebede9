//! AWS image resolution and the descriptor shapes of the AWS/ECS platform
//! family.

use vstd::prelude::*;

use crate::config::clone_secrets;
use crate::crd::{
    field_ref, ClusterConfig, ClusterType, Crd, DestructionPolicy, Ec2Config, ResourceConfig,
    ResourceCrd, TestCrd,
};
use crate::crds::{
    b64_of, std_labels, BottlerocketInput, ClusterInput, CrdCreator, CrdInput, CreateCrdOutput,
    KnownTestType, MigrationDirection, MigrationInput, TestInput,
};
use crate::error::Error;
use crate::labels::{label_append, label_get, label_set, Label, Labels};
use crate::store::matching_names;
use crate::text::{push_char, seq_ends_with};

verus! {

/// One region → image-id entry of the static image map.
pub struct RegionImage {
    pub region: String,
    pub id: String,
}

impl DeepView for RegionImage {
    type V = (Seq<char>, Seq<char>);

    open spec fn deep_view(&self) -> (Seq<char>, Seq<char>) {
        (self.region@, self.id@)
    }
}

/// The image registered for the given region in the static image map.
/// Fails with NotFound when the map is empty and when the region has no
/// entry.
pub fn lookup_static_image(amis: &Vec<RegionImage>, region: &str) -> (r: Result<String, Error>)
    ensures
        r matches Ok(id) ==> label_get(amis.deep_view(), region@) == Some(id@),
        r matches Err(e) ==> e matches Error::NotFound { .. },
        r is Err <==> label_get(amis.deep_view(), region@) is None,
{
    let ghost entries = amis.deep_view();
    if amis.len() == 0 {
        proof {
            assert(label_get(entries, region@) is None);
        }
        return Err(Error::NotFound { what: String::from_str("The image map is empty") });
    }
    let mut i: usize = 0;
    while i < amis.len()
        invariant
            i <= amis.len(),
            entries == amis.deep_view(),
            forall|j: int| 0 <= j < i ==> entries[j].0 != region@,
        decreases amis.len() - i,
    {
        if crate::text::str_eq(amis[i].region.as_str(), region) {
            proof {
                crate::labels::lemma_label_get_at(entries, region@, i as int);
            }
            return Ok(amis[i].id.clone());
        }
        i = i + 1;
    }
    proof {
        crate::labels::lemma_label_get_none(entries, region@);
    }
    Err(
        Error::NotFound {
            what: String::from_str("Image not found for region '").concat(region).concat("'"),
        },
    )
}

/// The one image id of an image query that must match exactly one image:
/// Ambiguous for more than one match, NotFound for none, and a single match
/// carrying no id cannot be built into a descriptor.
pub fn single_image_id(images: Vec<Option<String>>) -> (r: Result<String, Error>)
    ensures
        r matches Ok(id) ==> (images@.len() == 1 && images.deep_view()[0] == Some(id@)),
        images@.len() > 1 ==> (r matches Err(e) && e matches Error::Ambiguous { .. }),
        images@.len() == 0 ==> (r matches Err(e) && e matches Error::NotFound { .. }),
        images@.len() == 1 && images@[0] is None ==> (r matches Err(e) && e matches Error::Build {
            ..
        }),
        images@.len() == 1 && images@[0] is Some ==> r is Ok,
{
    if images.len() > 1 {
        return Err(
            Error::Ambiguous {
                what: String::from_str("Unable to determine image. Multiple images were found"),
            },
        );
    }
    if images.len() == 0 {
        return Err(
            Error::NotFound {
                what: String::from_str("Unable to determine image. No images were found"),
            },
        );
    }
    match &images[0] {
        Some(id) => Ok(id.clone()),
        None => Err(Error::Build { what: String::from_str("No image id for image") }),
    }
}

/// The standard AMI name `bottlerocket-<variant>-<arch>-<version>-<commit>`.
pub fn ami_name(arch: &str, variant: &str, version: &str, commit_id: &str) -> (r: String)
    ensures
        r@ == "bottlerocket-"@ + variant@ + "-"@ + arch@ + "-"@ + version@ + "-"@ + commit_id@,
{
    String::from_str("bottlerocket-").concat(variant).concat("-").concat(arch).concat("-").concat(
        version,
    ).concat("-").concat(commit_id)
}

/// Relies on fastrand::lowercase: every result is an ASCII lowercase
/// letter; which one is drawn from the generator's state.
#[verifier::external_body]
fn random_lowercase() -> (c: char)
    ensures
        'a' <= c <= 'z',
{
    fastrand::lowercase()
}

/// A fresh four-letter lowercase suffix, used to keep names of independent
/// descriptors of the same kind from colliding.
pub fn random_suffix() -> (s: String)
    ensures
        s@.len() == 4,
{
    let mut s = String::new();
    let mut i: usize = 0;
    while i < 4
        invariant
            i <= 4,
            s@.len() == i,
        decreases 4 - i,
    {
        let c = random_lowercase();
        push_char(&mut s, c);
        i = i + 1;
    }
    s
}

/// The environment-specific identity labels of a cluster or instance step.
pub open spec fn identity_labels(
    type_value: Seq<char>,
    cluster_name: Seq<char>,
    region: Seq<char>,
) -> Seq<(Seq<char>, Seq<char>)> {
    seq![
        ("testsys/type"@, type_value),
        ("testsys/cluster"@, cluster_name),
        ("testsys/region"@, region),
    ]
}

/// The label keys that identify an equivalent existing resource.
pub open spec fn identity_keys() -> Seq<Seq<char>> {
    seq!["testsys/cluster"@, "testsys/type"@, "testsys/region"@]
}

/// The full identity labels of a step, and the names of the existing
/// resources that already carry the same identity.
fn existing_for_identity(
    crd_input: &CrdInput,
    type_value: &str,
    cluster_name: &String,
    region: &str,
) -> (r: (Labels, Vec<String>))
    ensures
        ({
            let all = label_append(
                std_labels(*crd_input),
                identity_labels(type_value@, cluster_name@, region@),
            );
            &&& r.0.deep_view() == all
            &&& r.1.deep_view() == matching_names(
                crd_input.store.deep_view(),
                crate::crds::selector_of(all, identity_keys()),
            )
        }),
{
    let mut additional_pairs: Vec<Label> = Vec::new();
    additional_pairs.push(
        Label { key: String::from_str("testsys/type"), value: type_value.to_owned() },
    );
    additional_pairs.push(
        Label { key: String::from_str("testsys/cluster"), value: cluster_name.clone() },
    );
    additional_pairs.push(
        Label { key: String::from_str("testsys/region"), value: region.to_owned() },
    );
    let additional = Labels { pairs: additional_pairs };
    proof {
        assert(additional.deep_view() =~= identity_labels(type_value@, cluster_name@, region@));
    }
    let labels = crd_input.labels(&additional);

    let mut id_labels: Vec<String> = Vec::new();
    id_labels.push(String::from_str("testsys/cluster"));
    id_labels.push(String::from_str("testsys/type"));
    id_labels.push(String::from_str("testsys/region"));
    proof {
        assert(id_labels.deep_view() =~= identity_keys());
        lemma_identity_keys_present(
            std_labels(*crd_input),
            type_value@,
            cluster_name@,
            region@,
        );
    }
    let names = match crd_input.existing_crds(&labels, &id_labels) {
        Ok(names) => names,
        Err(_) => {
            // Unreachable: every identity key was bound just above, and the
            // query only fails when one is missing.
            proof {
                assert(false);
            }
            return (labels, Vec::new());
        },
    };
    (labels, names)
}

/// Binding the three identity labels over any label set leaves each of
/// their keys present.
proof fn lemma_identity_keys_present(
    base: Seq<(Seq<char>, Seq<char>)>,
    type_value: Seq<char>,
    cluster_name: Seq<char>,
    region: Seq<char>,
)
    ensures
        ({
            let all = label_append(base, identity_labels(type_value, cluster_name, region));
            &&& label_get(all, "testsys/type"@) == Some(type_value)
            &&& label_get(all, "testsys/cluster"@) == Some(cluster_name)
            &&& label_get(all, "testsys/region"@) == Some(region)
        }),
{
    reveal_strlit("testsys/type");
    reveal_strlit("testsys/cluster");
    reveal_strlit("testsys/region");
    assert("testsys/type"@.len() != "testsys/cluster"@.len());
    assert("testsys/type"@.len() != "testsys/region"@.len());
    assert("testsys/cluster"@.len() != "testsys/region"@.len());
    let adds = identity_labels(type_value, cluster_name, region);
    let s1 = label_set(base, "testsys/type"@, type_value);
    let s2 = label_set(s1, "testsys/cluster"@, cluster_name);
    let s3 = label_set(s2, "testsys/region"@, region);
    let rest1 = seq![("testsys/cluster"@, cluster_name), ("testsys/region"@, region)];
    let rest2 = seq![("testsys/region"@, region)];
    let empty = Seq::<(Seq<char>, Seq<char>)>::empty();
    assert(adds[0] == ("testsys/type"@, type_value));
    assert(adds.drop_first() =~= rest1);
    assert(label_append(base, adds) == label_append(s1, rest1));
    assert(rest1[0] == ("testsys/cluster"@, cluster_name));
    assert(rest1.drop_first() =~= rest2);
    assert(label_append(s1, rest1) == label_append(s2, rest2));
    assert(rest2[0] == ("testsys/region"@, region));
    assert(rest2.drop_first() =~= empty);
    assert(label_append(s2, rest2) == label_append(s3, empty));
    assert(label_append(s3, empty) == s3);
    assert(label_append(base, adds) == s3);
    crate::labels::lemma_label_set_get(s2, "testsys/region"@, region, "testsys/region"@);
    crate::labels::lemma_label_set_get(s2, "testsys/region"@, region, "testsys/type"@);
    crate::labels::lemma_label_set_get(s2, "testsys/region"@, region, "testsys/cluster"@);
    crate::labels::lemma_label_set_get(s1, "testsys/cluster"@, cluster_name, "testsys/type"@);
    crate::labels::lemma_label_set_get(s1, "testsys/cluster"@, cluster_name, "testsys/cluster"@);
    crate::labels::lemma_label_set_get(base, "testsys/type"@, type_value, "testsys/type"@);
}

/// What a successfully built instance descriptor holds, given its input.
pub open spec fn ec2_resource_ok(
    i: BottlerocketInput,
    cluster_type: ClusterType,
    region: Seq<char>,
    rc: ResourceCrd,
) -> bool {
    i.cluster_crd_name matches Some(cn) && {
        let cluster_name = cn@;
        let prefix = cluster_name + "-instances-"@;
        let all_labels = label_append(
            std_labels(*i.crd_input),
            identity_labels("instances"@, cluster_name, region),
        );
        &&& rc.name@.len() == prefix.len() + 4
        &&& rc.name@.subrange(0, prefix.len() as int) == prefix
        &&& rc.labels.deep_view() == all_labels
        &&& rc.depends_on.deep_view() == seq![cluster_name]
        &&& rc.conflicts_with.deep_view() == matching_names(
            i.crd_input.store.deep_view(),
            crate::crds::selector_of(all_labels, identity_keys()),
        )
        &&& rc.agent_image.deep_view() == i.crd_input.images.ec2_resource_agent_image.deep_view()
        &&& rc.image_pull_secret.deep_view()
            == i.crd_input.images.testsys_agent_pull_secret.deep_view()
        &&& rc.secrets.deep_view() == i.crd_input.config.secrets.deep_view()
        &&& rc.destruction_policy == DestructionPolicy::OnTestSuccess
        &&& rc.config matches ResourceConfig::Ec2(ec2) && {
            &&& ec2.node_ami@ == i.image_id@
            &&& ec2.instance_count == 2
            &&& ec2.instance_types.deep_view() == match i.crd_input.config.instance_type.deep_view() {
                Some(t) => seq![t],
                None => Seq::<Seq<char>>::empty(),
            }
            &&& ec2.custom_user_data.deep_view() == match i.crd_input.userdata_content.deep_view() {
                Some(c) => Some(b64_of(c)),
                None => None::<Seq<char>>,
            }
            &&& ec2.cluster_name@ == field_ref(cluster_name, "clusterName"@)
            &&& ec2.region@ == field_ref(cluster_name, "region"@)
            &&& ec2.instance_profile_arn@ == field_ref(cluster_name, "iamInstanceProfileArn"@)
            &&& ec2.assume_role.deep_view() == i.crd_input.config.agent_role.deep_view()
            &&& ec2.cluster_type == cluster_type
            &&& ec2.subnet_ids@ == if cluster_type == ClusterType::Eks {
                field_ref(cluster_name, "privateSubnetIds"@)
            } else {
                field_ref(cluster_name, "publicSubnetIds"@)
            }
            &&& cluster_type == ClusterType::Eks ==> {
                &&& ec2.endpoint.deep_view() == Some(field_ref(cluster_name, "endpoint"@))
                &&& ec2.certificate.deep_view() == Some(field_ref(cluster_name, "certificate"@))
                &&& ec2.cluster_dns_ip.deep_view() == Some(field_ref(cluster_name, "clusterDnsIp"@))
                &&& ec2.security_groups.deep_view() == Some(
                    field_ref(cluster_name, "securityGroups"@),
                )
            }
            &&& cluster_type == ClusterType::Ecs ==> {
                &&& ec2.endpoint is None
                &&& ec2.certificate is None
                &&& ec2.cluster_dns_ip is None
                &&& ec2.security_groups is None
            }
        }
    }
}

/// Build the instance-provider descriptor that launches instances of the
/// build under test on an EKS or ECS cluster: it depends on the cluster
/// step, conflicts with every existing resource of the same identity, and
/// carries the image id, instance type, encoded userdata, secrets and
/// assumed role from the effective configuration.
pub fn ec2_crd<'a>(
    bottlerocket_input: BottlerocketInput<'a>,
    cluster_type: ClusterType,
    region: &str,
) -> (r: Result<ResourceCrd, Error>)
    requires
        bottlerocket_input.cluster_crd_name matches Some(_),
        bottlerocket_input.crd_input.images.ec2_resource_agent_image matches Some(_),
        bottlerocket_input.crd_input.userdata_supplied(),
    ensures
        r matches Ok(rc) && ec2_resource_ok(bottlerocket_input, cluster_type, region@, rc),
{
    let cluster_name: &String = match bottlerocket_input.cluster_crd_name {
        Some(name) => name,
        None => {
            // Unreachable: callers must resolve a cluster step first.
            proof {
                assert(false);
            }
            return Err(Error::Build { what: String::from_str("A cluster provider is required") });
        },
    };
    let crd_input = bottlerocket_input.crd_input;

    let (labels, conflicting_resources) = existing_for_identity(
        crd_input,
        "instances",
        cluster_name,
        region,
    );

    let instance_types: Vec<String> = match &crd_input.config.instance_type {
        Some(instance_type) => {
            let mut v: Vec<String> = Vec::new();
            v.push(instance_type.clone());
            proof {
                assert(v.deep_view() =~= seq![instance_type@]);
            }
            v
        },
        None => {
            let v: Vec<String> = Vec::new();
            proof {
                assert(v.deep_view() =~= Seq::<Seq<char>>::empty());
            }
            v
        },
    };

    let mut depends_on: Vec<String> = Vec::new();
    depends_on.push(cluster_name.clone());
    proof {
        assert(depends_on.deep_view() =~= seq![cluster_name@]);
    }

    let agent_image: String = match &crd_input.images.ec2_resource_agent_image {
        Some(image) => image.clone(),
        None => {
            // Unreachable: callers must supply the agent image.
            proof {
                assert(false);
            }
            return Err(
                Error::Build {
                    what: String::from_str("Missing default image for EC2 resource agent"),
                },
            );
        },
    };

    let suffix = random_suffix();
    let ghost prefix = cluster_name@ + "-instances-"@;
    let name = cluster_name.clone().concat("-instances-").concat(suffix.as_str());
    proof {
        assert(name@.subrange(0, prefix.len() as int) =~= prefix);
    }

    let ec2_config = Ec2Config {
        node_ami: bottlerocket_input.image_id,
        instance_count: 2,
        instance_types,
        custom_user_data: crd_input.encoded_userdata(),
        cluster_name: crate::crd::templated_field(cluster_name.as_str(), "clusterName"),
        region: crate::crd::templated_field(cluster_name.as_str(), "region"),
        instance_profile_arn: crate::crd::templated_field(
            cluster_name.as_str(),
            "iamInstanceProfileArn",
        ),
        assume_role: crate::config::clone_opt_string(&crd_input.config.agent_role),
        cluster_type,
        subnet_ids: if matches!(cluster_type, ClusterType::Eks) {
            crate::crd::templated_field(cluster_name.as_str(), "privateSubnetIds")
        } else {
            // The default VPC does not attach private subnets to an ECS
            // cluster, so public subnet ids are used instead.
            crate::crd::templated_field(cluster_name.as_str(), "publicSubnetIds")
        },
        endpoint: if matches!(cluster_type, ClusterType::Eks) {
            Some(crate::crd::templated_field(cluster_name.as_str(), "endpoint"))
        } else {
            None
        },
        certificate: if matches!(cluster_type, ClusterType::Eks) {
            Some(crate::crd::templated_field(cluster_name.as_str(), "certificate"))
        } else {
            None
        },
        cluster_dns_ip: if matches!(cluster_type, ClusterType::Eks) {
            Some(crate::crd::templated_field(cluster_name.as_str(), "clusterDnsIp"))
        } else {
            None
        },
        security_groups: if matches!(cluster_type, ClusterType::Eks) {
            Some(crate::crd::templated_field(cluster_name.as_str(), "securityGroups"))
        } else {
            None
        },
    };

    Ok(
        ResourceCrd {
            name,
            labels,
            depends_on,
            conflicts_with: conflicting_resources,
            agent_image: Some(agent_image),
            image_pull_secret: crate::config::clone_opt_string(
                &crd_input.images.testsys_agent_pull_secret,
            ),
            secrets: clone_secrets(&crd_input.config.secrets),
            destruction_policy: DestructionPolicy::OnTestSuccess,
            config: ResourceConfig::Ec2(ec2_config),
        },
    )
}


/// What the cluster step of the AWS/ECS family yields: when resources with
/// the cluster's identity already exist in the store, the first one's name
/// is reused and no new descriptor is emitted; otherwise a new cluster
/// resource descriptor named after the cluster itself.
pub open spec fn aws_cluster_output_ok(
    input: CrdInput,
    cluster_name: Seq<char>,
    region: Seq<char>,
    out: CreateCrdOutput,
) -> bool {
    let all = label_append(std_labels(input), identity_labels("cluster"@, cluster_name, region));
    let existing = matching_names(
        input.store.deep_view(),
        crate::crds::selector_of(all, identity_keys()),
    );
    &&& existing.len() > 0 ==> (out matches CreateCrdOutput::ExistingCrd(n) && n@ == existing[0])
    &&& existing.len() == 0 ==> (out matches CreateCrdOutput::NewCrd(c) && (*c matches Crd::Resource(
        rc,
    ) && {
        &&& rc.name@ == cluster_name
        &&& rc.labels.deep_view() == all
        &&& rc.depends_on.deep_view() == Seq::<Seq<char>>::empty()
        &&& rc.conflicts_with.deep_view() == Seq::<Seq<char>>::empty()
        &&& rc.secrets.deep_view() == input.config.secrets.deep_view()
        &&& rc.destruction_policy == DestructionPolicy::OnDeletion
        &&& rc.config matches ResourceConfig::Cluster(cc) && cc.cluster_name@ == cluster_name
            && cc.region@ == region
    }))
}

/// Build the cluster step for the AWS/ECS family: query the store for an
/// existing resource with this cluster's identity labels and reuse its
/// name, or emit a new cluster resource descriptor.
pub fn aws_cluster_crd(crd_input: &CrdInput, cluster_name: &String, region: &str) -> (r: Result<
    CreateCrdOutput,
    Error,
>)
    ensures
        r matches Ok(out) && aws_cluster_output_ok(*crd_input, cluster_name@, region@, out),
{
    let (labels, existing) = existing_for_identity(crd_input, "cluster", cluster_name, region);
    if existing.len() > 0 {
        proof {
            assert(existing.deep_view()[0] == existing@[0]@);
        }
        return Ok(CreateCrdOutput::ExistingCrd(existing[0].clone()));
    }
    let resource = ResourceCrd {
        name: cluster_name.clone(),
        labels,
        depends_on: Vec::new(),
        conflicts_with: Vec::new(),
        agent_image: crate::config::clone_opt_string(
            &crd_input.images.ecs_resource_agent_image,
        ),
        image_pull_secret: crate::config::clone_opt_string(
            &crd_input.images.testsys_agent_pull_secret,
        ),
        secrets: clone_secrets(&crd_input.config.secrets),
        destruction_policy: DestructionPolicy::OnDeletion,
        config: ResourceConfig::Cluster(
            ClusterConfig { cluster_name: cluster_name.clone(), region: region.to_owned() },
        ),
    };
    proof {
        assert(resource.depends_on.deep_view() =~= Seq::<Seq<char>>::empty());
        assert(resource.conflicts_with.deep_view() =~= Seq::<Seq<char>>::empty());
    }
    Ok(CreateCrdOutput::NewCrd(Box::new(Crd::Resource(resource))))
}

/// The strategy for the AWS/ECS platform family: the image under test comes
/// from a static region → image map, and instances are launched straight
/// into an ECS cluster in one region.
pub struct AwsEcsCreator {
    /// The region descriptors target.
    pub region: String,
    /// The static region → image map for the build under test.
    pub amis: Vec<RegionImage>,
    /// The image migration testing starts from, when known.
    pub starting_image: Option<String>,
}

/// The deterministic name of one test step:
/// `<cluster name or default>-<kind><suffix>`.
pub open spec fn step_name_spec(
    input: CrdInput,
    cluster: Option<Seq<char>>,
    kind: Seq<char>,
    suffix: Option<Seq<char>>,
) -> Seq<char> {
    let prefix = (match cluster {
        Some(n) => n,
        None => crate::crds::spec_default_cluster_name(input),
    }) + kind;
    match suffix {
        Some(s) => prefix + s,
        None => prefix,
    }
}

/// The resource names one test step runs against: the cluster and instance
/// steps that exist, in that order.
pub open spec fn step_resources_spec(
    cluster: Option<Seq<char>>,
    bottlerocket: Option<Seq<char>>,
) -> Seq<Seq<char>> {
    let base = match cluster {
        Some(c) => seq![c],
        None => Seq::<Seq<char>>::empty(),
    };
    match bottlerocket {
        Some(b) => base.push(b),
        None => base,
    }
}

/// The version one migration step moves to: the target version for an
/// upgrade, the starting version for a downgrade.
pub open spec fn migration_version(input: CrdInput, direction: MigrationDirection) -> Option<
    Seq<char>,
> {
    match direction {
        MigrationDirection::Upgrade => input.migrate_to_version.deep_view(),
        MigrationDirection::Downgrade => input.starting_version.deep_view(),
    }
}

/// The kind-specific agent fields of one migration step: the version for
/// its direction, and the TUF endpoints when the infrastructure document
/// configures both.
pub open spec fn migration_fields_spec(
    input: CrdInput,
    direction: MigrationDirection,
) -> Seq<(Seq<char>, Seq<char>)> {
    let base = label_set(
        Seq::empty(),
        "migration-version"@,
        crate::crds::opt_or(migration_version(input, direction), "null"@),
    );
    match (input.repo_config.metadata_base_url, input.repo_config.targets_url) {
        (Some(meta), Some(targets)) => label_set(
            label_set(
                base,
                "tuf-metadata-url"@,
                crate::crds::tuf_metadata_url(meta@, input.variant.full@, input.arch@),
            ),
            "tuf-targets-url"@,
            targets@,
        ),
        _ => base,
    }
}

/// The kind-specific agent fields of one plain test step: the conformance
/// image and registry for conformance runs, nothing otherwise.
pub open spec fn test_fields_spec(input: CrdInput, test_type: KnownTestType) -> Seq<
    (Seq<char>, Seq<char>),
> {
    match test_type {
        KnownTestType::Conformance => label_set(
            label_set(
                Seq::empty(),
                "conformance-image"@,
                crate::crds::opt_or(input.config.conformance_image.deep_view(), "null"@),
            ),
            "conformance-registry"@,
            crate::crds::opt_or(input.config.conformance_registry.deep_view(), "null"@),
        ),
        _ => Seq::empty(),
    }
}

/// The deterministic name of one test step.
fn step_name(
    crd_input: &CrdInput,
    cluster_crd_name: &Option<String>,
    kind: &str,
    suffix: &Option<&str>,
) -> (r: String)
    ensures
        r@ == step_name_spec(*crd_input, cluster_crd_name.deep_view(), kind@, suffix.deep_view()),
        suffix matches Some(s) ==> seq_ends_with(r@, s@),
{
    let prefix: String = match cluster_crd_name {
        Some(name) => name.clone(),
        None => crd_input.default_cluster_name(),
    };
    match suffix {
        Some(s) => {
            let r = prefix.concat(kind).concat(s);
            proof {
                assert(r@.subrange(r@.len() - s@.len(), r@.len() as int) =~= s@);
            }
            r
        },
        None => prefix.concat(kind),
    }
}

/// The resource names a test step runs against.
fn step_resources(cluster_crd_name: &Option<String>, bottlerocket_crd_name: &Option<String>) -> (r:
    Vec<String>)
    ensures
        r.deep_view() == step_resources_spec(
            cluster_crd_name.deep_view(),
            bottlerocket_crd_name.deep_view(),
        ),
{
    let mut resources: Vec<String> = Vec::new();
    if let Some(name) = cluster_crd_name {
        let ghost prev = resources.deep_view();
        resources.push(name.clone());
        proof {
            assert(resources.deep_view() =~= prev.push(name@));
        }
    }
    if let Some(name) = bottlerocket_crd_name {
        let ghost prev = resources.deep_view();
        resources.push(name.clone());
        proof {
            assert(resources.deep_view() =~= prev.push(name@));
        }
    }
    proof {
        assert(resources.deep_view() =~= step_resources_spec(
            cluster_crd_name.deep_view(),
            bottlerocket_crd_name.deep_view(),
        ));
    }
    resources
}

/// What the migration step of the AWS/ECS family yields: a test descriptor
/// with the step's deterministic name, the run's standard labels, the
/// cluster and instance steps as resources, the previously created tests
/// as dependencies, and the migration agent fields.
pub open spec fn aws_migration_test_ok(i: MigrationInput, t: TestCrd) -> bool {
    &&& t.name@ == step_name_spec(
        *i.crd_input,
        i.cluster_crd_name.deep_view(),
        "-migration"@,
        i.name_suffix.deep_view(),
    )
    &&& i.name_suffix matches Some(s) ==> seq_ends_with(t.name@, s@)
    &&& t.labels.deep_view() == std_labels(*i.crd_input)
    &&& t.resources.deep_view() == step_resources_spec(
        i.cluster_crd_name.deep_view(),
        i.bottlerocket_crd_name.deep_view(),
    )
    &&& t.depends_on.deep_view() == i.prev_tests.deep_view()
    &&& t.agent_image.deep_view() == i.crd_input.images.migration_test_agent_image.deep_view()
    &&& t.image_pull_secret.deep_view()
        == i.crd_input.images.testsys_agent_pull_secret.deep_view()
    &&& t.secrets.deep_view() == i.crd_input.config.secrets.deep_view()
    &&& t.fields.deep_view() == migration_fields_spec(*i.crd_input, i.migration_direction)
}

/// Build the migration step for the AWS/ECS family.
pub fn aws_migration_crd<'a>(migration_input: MigrationInput<'a>) -> (r: Result<
    CreateCrdOutput,
    Error,
>)
    ensures
        r matches Ok(out) && (out matches CreateCrdOutput::NewCrd(c) && (*c matches Crd::Test(t)
            && aws_migration_test_ok(migration_input, t))),
{
    let crd_input = migration_input.crd_input;
    let name = step_name(
        crd_input,
        migration_input.cluster_crd_name,
        "-migration",
        &migration_input.name_suffix,
    );
    let version: &Option<String> = match migration_input.migration_direction {
        MigrationDirection::Upgrade => &crd_input.migrate_to_version,
        MigrationDirection::Downgrade => &crd_input.starting_version,
    };
    let mut fields = Labels::new();
    fields.insert(String::from_str("migration-version"), crate::crds::some_or_null(version));
    if let Some(tuf_repo) = crd_input.tuf_repo_config() {
        fields.insert(String::from_str("tuf-metadata-url"), tuf_repo.metadata_url);
        fields.insert(String::from_str("tuf-targets-url"), tuf_repo.targets_url);
    }
    proof {
        assert(fields.deep_view() == migration_fields_spec(
            *migration_input.crd_input,
            migration_input.migration_direction,
        ));
    }
    let labels = crd_input.labels(&Labels::new());
    proof {
        assert(labels.deep_view() == std_labels(*crd_input));
    }
    let test = TestCrd {
        name,
        labels,
        resources: step_resources(
            migration_input.cluster_crd_name,
            migration_input.bottlerocket_crd_name,
        ),
        depends_on: migration_input.prev_tests,
        agent_image: crate::config::clone_opt_string(
            &crd_input.images.migration_test_agent_image,
        ),
        image_pull_secret: crate::config::clone_opt_string(
            &crd_input.images.testsys_agent_pull_secret,
        ),
        secrets: clone_secrets(&crd_input.config.secrets),
        fields,
    };
    Ok(CreateCrdOutput::NewCrd(Box::new(Crd::Test(test))))
}

/// What the plain test step of the AWS/ECS family yields: a test
/// descriptor with the step's deterministic name, the run's standard
/// labels, the cluster and instance steps as resources, the previously
/// created tests as dependencies, and the kind-specific agent fields.
pub open spec fn aws_test_ok(i: TestInput, t: TestCrd) -> bool {
    &&& t.name@ == step_name_spec(
        *i.crd_input,
        i.cluster_crd_name.deep_view(),
        "-test"@,
        i.name_suffix.deep_view(),
    )
    &&& i.name_suffix matches Some(s) ==> seq_ends_with(t.name@, s@)
    &&& t.labels.deep_view() == std_labels(*i.crd_input)
    &&& t.resources.deep_view() == step_resources_spec(
        i.cluster_crd_name.deep_view(),
        i.bottlerocket_crd_name.deep_view(),
    )
    &&& t.depends_on.deep_view() == i.prev_tests.deep_view()
    &&& t.agent_image.deep_view() == i.crd_input.images.ecs_test_agent_image.deep_view()
    &&& t.image_pull_secret.deep_view()
        == i.crd_input.images.testsys_agent_pull_secret.deep_view()
    &&& t.secrets.deep_view() == i.crd_input.config.secrets.deep_view()
    &&& t.fields.deep_view() == test_fields_spec(*i.crd_input, *i.test_type)
}

/// Build the plain test step for the AWS/ECS family.
pub fn aws_test_crd<'a>(test_input: TestInput<'a>) -> (r: Result<CreateCrdOutput, Error>)
    ensures
        r matches Ok(out) && (out matches CreateCrdOutput::NewCrd(c) && (*c matches Crd::Test(t)
            && aws_test_ok(test_input, t))),
{
    let crd_input = test_input.crd_input;
    let name = step_name(crd_input, test_input.cluster_crd_name, "-test", &test_input.name_suffix);
    let mut fields = Labels::new();
    if let KnownTestType::Conformance = test_input.test_type {
        fields.insert(
            String::from_str("conformance-image"),
            crate::crds::some_or_null(&crd_input.config.conformance_image),
        );
        fields.insert(
            String::from_str("conformance-registry"),
            crate::crds::some_or_null(&crd_input.config.conformance_registry),
        );
    }
    proof {
        assert(fields.deep_view() == test_fields_spec(*test_input.crd_input, *test_input.test_type));
    }
    let labels = crd_input.labels(&Labels::new());
    proof {
        assert(labels.deep_view() == std_labels(*crd_input));
    }
    let test = TestCrd {
        name,
        labels,
        resources: step_resources(test_input.cluster_crd_name, test_input.bottlerocket_crd_name),
        depends_on: test_input.prev_tests,
        agent_image: crate::config::clone_opt_string(&crd_input.images.ecs_test_agent_image),
        image_pull_secret: crate::config::clone_opt_string(
            &crd_input.images.testsys_agent_pull_secret,
        ),
        secrets: clone_secrets(&crd_input.config.secrets),
        fields,
    };
    Ok(CreateCrdOutput::NewCrd(Box::new(Crd::Test(test))))
}

impl CrdCreator for AwsEcsCreator {
    /// This family reuses the first existing resource carrying the
    /// cluster's identity labels in its region.
    open spec fn cluster_reuse(&self, crd_input: CrdInput, cluster_name: Seq<char>) -> Option<
        Seq<char>,
    > {
        let existing = matching_names(
            crd_input.store.deep_view(),
            crate::crds::selector_of(
                label_append(
                    std_labels(crd_input),
                    identity_labels("cluster"@, cluster_name, self.region@),
                ),
                identity_keys(),
            ),
        );
        if existing.len() > 0 {
            Some(existing[0])
        } else {
            None
        }
    }

    /// The image for normal testing comes from the static image map.
    fn image_id(&self, _crd_input: &CrdInput) -> Result<String, Error> {
        lookup_static_image(&self.amis, self.region.as_str())
    }

    /// The starting image for migration testing must have been supplied to
    /// this strategy; resolving it remotely is its caller's concern.
    fn starting_image_id(&self, _crd_input: &CrdInput) -> Result<String, Error> {
        match &self.starting_image {
            Some(image) => Ok(image.clone()),
            None => Err(
                Error::NotFound {
                    what: String::from_str("No starting image id was found for migration"),
                },
            ),
        }
    }

    fn cluster_crd<'a>(&self, cluster_input: ClusterInput<'a>) -> (r: Result<
        CreateCrdOutput,
        Error,
    >) {
        aws_cluster_crd(cluster_input.crd_input, cluster_input.cluster_name, self.region.as_str())
    }

    fn bottlerocket_crd<'a>(&self, bottlerocket_input: BottlerocketInput<'a>) -> (r: Result<
        CreateCrdOutput,
        Error,
    >) {
        if bottlerocket_input.cluster_crd_name.is_none() {
            return Err(Error::Build { what: String::from_str("A cluster provider is required") });
        }
        if bottlerocket_input.crd_input.images.ec2_resource_agent_image.is_none() {
            return Err(
                Error::Build {
                    what: String::from_str("Missing default image for EC2 resource agent"),
                },
            );
        }
        if bottlerocket_input.crd_input.userdata_content.is_some()
            != bottlerocket_input.crd_input.config.userdata.is_some() {
            return Err(
                Error::Build {
                    what: String::from_str(
                        "Userdata contents must be supplied exactly when configured",
                    ),
                },
            );
        }
        let ghost input = bottlerocket_input;
        let region = self.region.clone();
        match ec2_crd(bottlerocket_input, ClusterType::Ecs, region.as_str()) {
            Ok(resource) => {
                proof {
                    if input.cluster_crd_name is Some {
                        let cn = input.cluster_crd_name.unwrap();
                        assert(resource.depends_on.deep_view() == seq![cn@]);
                        assert(seq![cn@][0] == cn@);
                        assert(resource.depends_on.deep_view().contains(cn@));
                    }
                }
                Ok(CreateCrdOutput::NewCrd(Box::new(Crd::Resource(resource))))
            },
            Err(e) => Err(e),
        }
    }

    fn migration_crd<'a>(&self, migration_input: MigrationInput<'a>) -> (r: Result<
        CreateCrdOutput,
        Error,
    >) {
        aws_migration_crd(migration_input)
    }

    fn test_crd<'a>(&self, test_input: TestInput<'a>) -> (r: Result<CreateCrdOutput, Error>) {
        aws_test_crd(test_input)
    }

    /// This family contributes no extra template fields.
    fn additional_fields(&self, _test_type: &str) -> Labels {
        Labels::new()
    }
}

} // verus!
