//! The declarative descriptors (CRDs) handed to the execution controller.

use vstd::prelude::*;
use vstd::pervasive::VecAdditionalExecFns;

use crate::config::NamedSecret;
use crate::labels::Labels;

verus! {

/// The kind of cluster that instances are launched into.
#[derive(PartialEq, Eq, Structural, Clone, Copy, Debug)]
pub enum ClusterType {
    Eks,
    Ecs,
}

/// When the execution controller may tear a resource down.
#[derive(PartialEq, Eq, Structural, Clone, Copy, Debug)]
pub enum DestructionPolicy {
    OnDeletion,
    OnTestSuccess,
}

/// TUF repository endpoints handed to migration test agents.
pub struct TufRepoConfig {
    pub metadata_url: String,
    pub targets_url: String,
}

/// Repository endpoints as configured in the infrastructure document.
pub struct RepoConfig {
    pub metadata_base_url: Option<String>,
    pub targets_url: Option<String>,
}

/// The reference `${<resource>.<field>}` to a field of another resource,
/// resolved by the execution controller once that resource exists.
pub open spec fn field_ref(resource: Seq<char>, field: Seq<char>) -> Seq<char> {
    "${"@ + resource + "."@ + field + "}"@
}

/// The templated reference to a field of another resource.
pub fn templated_field(resource: &str, field: &str) -> (r: String)
    ensures
        r@ == field_ref(resource@, field@),
{
    String::from_str("${").concat(resource).concat(".").concat(field).concat("}")
}

/// The agent configuration of an instance-provider resource.
pub struct Ec2Config {
    /// The image instances are launched from.
    pub node_ami: String,
    /// How many instances to launch.
    pub instance_count: u32,
    /// The instance types to launch with, empty for the agent's default.
    pub instance_types: Vec<String>,
    /// Encoded userdata merged into the instance launch configuration.
    pub custom_user_data: Option<String>,
    /// Templated reference to the cluster's name.
    pub cluster_name: String,
    /// Templated reference to the cluster's region.
    pub region: String,
    /// Templated reference to the cluster's instance profile.
    pub instance_profile_arn: String,
    /// The role the agent assumes.
    pub assume_role: Option<String>,
    /// The kind of cluster instances join.
    pub cluster_type: ClusterType,
    /// Templated reference to the cluster's subnet ids.
    pub subnet_ids: String,
    /// Templated reference to the cluster's endpoint, for EKS.
    pub endpoint: Option<String>,
    /// Templated reference to the cluster's certificate, for EKS.
    pub certificate: Option<String>,
    /// Templated reference to the cluster's DNS ip, for EKS.
    pub cluster_dns_ip: Option<String>,
    /// Templated reference to the cluster's security groups, for EKS.
    pub security_groups: Option<String>,
}

/// The agent configuration of a cluster-provider resource.
pub struct ClusterConfig {
    /// The name of the cluster to create or reuse.
    pub cluster_name: String,
    /// The region the cluster lives in.
    pub region: String,
}

/// The environment-specific payload of a resource descriptor.
pub enum ResourceConfig {
    Ec2(Ec2Config),
    Cluster(ClusterConfig),
}

/// A resource descriptor: a cluster or instance provider to materialize.
pub struct ResourceCrd {
    /// The unique name of this resource.
    pub name: String,
    /// Identity labels.
    pub labels: Labels,
    /// Names of resources that must exist before this one.
    pub depends_on: Vec<String>,
    /// Names of resources that must not run concurrently with this one.
    pub conflicts_with: Vec<String>,
    /// The agent image that materializes the resource.
    pub agent_image: Option<String>,
    /// The pull secret for the agent image.
    pub image_pull_secret: Option<String>,
    /// The secrets handed to the agent.
    pub secrets: Vec<NamedSecret>,
    /// When the resource may be torn down.
    pub destruction_policy: DestructionPolicy,
    /// The environment-specific payload.
    pub config: ResourceConfig,
}

/// A test descriptor: one test run to schedule.
pub struct TestCrd {
    /// The unique name of this test.
    pub name: String,
    /// Identity labels.
    pub labels: Labels,
    /// Names of the resources the test needs.
    pub resources: Vec<String>,
    /// Names of the tests that must complete before this one.
    pub depends_on: Vec<String>,
    /// The agent image that runs the test.
    pub agent_image: Option<String>,
    /// The pull secret for the agent image.
    pub image_pull_secret: Option<String>,
    /// The secrets handed to the agent.
    pub secrets: Vec<NamedSecret>,
    /// The kind-specific agent fields.
    pub fields: Labels,
}

/// A descriptor ready for submission to the execution controller.
pub enum Crd {
    Test(TestCrd),
    Resource(ResourceCrd),
}

/// The name of a descriptor, at the specification level.
pub open spec fn crd_spec_name(c: Crd) -> Seq<char> {
    match c {
        Crd::Test(t) => t.name@,
        Crd::Resource(r) => r.name@,
    }
}

impl Crd {
    /// The unique name of the descriptor.
    pub fn name(&self) -> (r: &String)
        ensures
            r@ == crd_spec_name(*self),
    {
        match self {
            Crd::Test(t) => &t.name,
            Crd::Resource(r) => &r.name,
        }
    }
}

///`a` and `b` agree on every field but the secrets.
pub open spec fn same_crd_except_secrets(a: Crd, b: Crd) -> bool {
    match (a, b) {
        (Crd::Test(x), Crd::Test(y)) => {
            &&& x.name == y.name
            &&& x.labels == y.labels
            &&& x.resources == y.resources
            &&& x.depends_on == y.depends_on
            &&& x.agent_image == y.agent_image
            &&& x.image_pull_secret == y.image_pull_secret
            &&& x.fields == y.fields
        },
        (Crd::Resource(x), Crd::Resource(y)) => {
            &&& x.name == y.name
            &&& x.labels == y.labels
            &&& x.depends_on == y.depends_on
            &&& x.conflicts_with == y.conflicts_with
            &&& x.agent_image == y.agent_image
            &&& x.image_pull_secret == y.image_pull_secret
            &&& x.destruction_policy == y.destruction_policy
            &&& x.config == y.config
        },
        _ => false,
    }
}

/// The secrets attached to a descriptor, at the specification level.
pub open spec fn crd_spec_secrets(c: Crd) -> Seq<crate::config::SecretModel> {
    match c {
        Crd::Test(t) => t.secrets.deep_view(),
        Crd::Resource(r) => r.secrets.deep_view(),
    }
}

/// Overwrite the secrets of every descriptor with the configuration's
/// secrets: security-sensitive fields are never trusted from a rendered
/// template.
pub fn apply_config_secrets(crds: &mut Vec<Crd>, secrets: &Vec<NamedSecret>)
    ensures
        final(crds)@.len() == old(crds)@.len(),
        forall|i: int|
            0 <= i < old(crds)@.len() ==> same_crd_except_secrets(
                old(crds)@[i],
                #[trigger] final(crds)@[i],
            ),
        forall|i: int|
            0 <= i < old(crds)@.len() ==> crd_spec_secrets(#[trigger] final(crds)@[i])
                == secrets.deep_view(),
{
    let n = crds.len();
    let mut i: usize = 0;
    while i < n
        invariant
            n == old(crds)@.len(),
            i <= n,
            crds@.len() == n,
            forall|k: int| i <= k < n ==> crds@[k] == old(crds)@[k],
            forall|k: int|
                0 <= k < i ==> same_crd_except_secrets(old(crds)@[k], #[trigger] crds@[k]),
            forall|k: int|
                0 <= k < i ==> crd_spec_secrets(#[trigger] crds@[k]) == secrets.deep_view(),
        decreases n - i,
    {
        let fresh = crate::config::clone_secrets(secrets);
        let mut slot = Crd::Test(
            TestCrd {
                name: String::new(),
                labels: Labels::new(),
                resources: Vec::new(),
                depends_on: Vec::new(),
                agent_image: None,
                image_pull_secret: None,
                secrets: Vec::new(),
                fields: Labels::new(),
            },
        );
        crds.set_and_swap(i, &mut slot);
        let updated = match slot {
            Crd::Test(mut t) => {
                t.secrets = fresh;
                Crd::Test(t)
            },
            Crd::Resource(mut r) => {
                r.secrets = fresh;
                Crd::Resource(r)
            },
        };
        crds.set(i, updated);
        i = i + 1;
    }
}

} // verus!
