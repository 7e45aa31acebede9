//! Plan building: one ordered, dependency-linked set of descriptors per
//! cluster name, driven by a per-platform-family [`CrdCreator`].

use vstd::prelude::*;

use crate::config::{clone_strings, GenericVariantConfig};
use crate::crd::{Crd, RepoConfig, ResourceConfig, TufRepoConfig, crd_spec_name};
use crate::error::Error;
use crate::images::TestsysImages;
use crate::labels::{label_append, label_get, label_set, Label, Labels};
use crate::render::{cluster_name_fields, render_of, rendered_manifest, strict_render_of};
use crate::store::{matching_names, ResourceStore};
use crate::text::{replace_char, seq_ends_with, seq_replace, seq_strip, strip_char};
use crate::variant::Variant;

verus! {

/// The test kinds this planner understands.
#[derive(PartialEq, Eq, Structural, Clone, Copy, Debug)]
pub enum KnownTestType {
    /// A quick functional check.
    Quick,
    /// A conformance run.
    Conformance,
    /// An upgrade/downgrade migration run.
    Migration,
}

/// The direction of one migration step.
#[derive(PartialEq, Eq, Structural, Clone, Copy, Debug)]
pub enum MigrationDirection {
    Upgrade,
    Downgrade,
}

/// What base64 encoding returns for a string: a pure function of the input
/// characters.
pub uninterp spec fn b64_of(s: Seq<char>) -> Seq<char>;

/// Relies on base64::encode: standard base64 of the input bytes, which
/// depend on the input characters alone.
#[verifier::external_body]
fn base64_encode(content: &String) -> (r: String)
    ensures
        r@ == b64_of(content@),
{
    base64::encode(content.as_str())
}

/// The value of an optional string, or the fallback.
pub open spec fn opt_or(o: Option<Seq<char>>, fallback: Seq<char>) -> Seq<char> {
    match o {
        Some(s) => s,
        None => fallback,
    }
}

/// Take the value of the `Option` or `"null"` if the `Option` was `None`.
pub fn some_or_null(field: &Option<String>) -> (r: String)
    ensures
        r@ == opt_or(field.deep_view(), "null"@),
{
    match field {
        Some(v) => v.clone(),
        None => String::from_str("null"),
    }
}

/// The selector projecting `pairs` onto `keys`: one `key=value` pair per
/// key, in key order. Meaningful when every key is present.
pub open spec fn selector_of(
    pairs: Seq<(Seq<char>, Seq<char>)>,
    keys: Seq<Seq<char>>,
) -> Seq<(Seq<char>, Seq<char>)>
    decreases keys.len(),
{
    if keys.len() == 0 {
        Seq::empty()
    } else {
        seq![(keys[0], label_get(pairs, keys[0]).unwrap())] + selector_of(
            pairs,
            keys.drop_first(),
        )
    }
}

/// The selector holds exactly one pair per key, in order.
proof fn lemma_selector_elts(pairs: Seq<(Seq<char>, Seq<char>)>, keys: Seq<Seq<char>>)
    ensures
        selector_of(pairs, keys).len() == keys.len(),
        forall|j: int|
            0 <= j < keys.len() ==> selector_of(pairs, keys)[j] == (
            keys[j],
            label_get(pairs, keys[j]).unwrap(),
            ),
    decreases keys.len(),
{
    if keys.len() > 0 {
        lemma_selector_elts(pairs, keys.drop_first());
        assert forall|j: int| 0 <= j < keys.len() implies selector_of(pairs, keys)[j] == (
            keys[j],
            label_get(pairs, keys[j]).unwrap(),
        ) by {
            if j > 0 {
                assert(selector_of(pairs, keys)[j] == selector_of(pairs, keys.drop_first())[j
                    - 1]);
                assert(keys.drop_first()[j - 1] == keys[j]);
            }
        }
    }
}

/// Everything the planner needs for the creation of all descriptors of one
/// run: the variant under test, its resolved configuration, and a read-only
/// view of the resources the execution controller already knows.
pub struct CrdInput {
    /// The resources already known to the execution controller, used for
    /// idempotent reuse and conflict marking.
    pub store: ResourceStore,
    /// The architecture under test.
    pub arch: String,
    /// The variant under test.
    pub variant: Variant,
    /// The effective configuration resolved for this run.
    pub config: GenericVariantConfig,
    /// Repository endpoints from the infrastructure document.
    pub repo_config: RepoConfig,
    /// The version migration starts from, when supplied.
    pub starting_version: Option<String>,
    /// The version migration moves to, when supplied.
    pub migrate_to_version: Option<String>,
    /// The identifier of the build under test.
    pub build_id: Option<String>,
    /// An explicitly supplied starting image for migration testing;
    /// [`CrdCreator::starting_image_id`] is consulted when absent.
    pub starting_image_id: Option<String>,
    /// The display name of the requested test kind.
    pub test_type: String,
    /// The contents of the userdata file named by the configuration, read
    /// by the caller; set exactly when the configuration names one.
    pub userdata_content: Option<String>,
    /// The agent images to run with.
    pub images: TestsysImages,
}

/// The four standard identity labels of every descriptor of this run.
pub open spec fn std_labels(input: CrdInput) -> Seq<(Seq<char>, Seq<char>)> {
    seq![
        ("testsys/arch"@, input.arch@),
        ("testsys/variant"@, input.variant.full@),
        ("testsys/build-id"@, opt_or(input.build_id.deep_view(), Seq::empty())),
        ("testsys/test-type"@, input.test_type@),
    ]
}

/// The default cluster name of a run: `<k8s arch>-<k8s variant>`.
pub open spec fn spec_default_cluster_name(input: CrdInput) -> Seq<char> {
    seq_replace(input.arch@, '_', '-') + "-"@ + seq_strip(input.variant.full@, '.')
}

/// The cluster names of a run: each configured name rendered with the
/// k8s-safe architecture and variant spellings, or the single default name
/// when none is configured.
pub open spec fn spec_cluster_names(input: CrdInput) -> Seq<Seq<char>> {
    if input.config.cluster_names@.len() == 0 {
        seq![spec_default_cluster_name(input)]
    } else {
        Seq::new(
            input.config.cluster_names@.len(),
            |j: int|
                render_of(
                    input.config.cluster_names.deep_view()[j],
                    cluster_name_fields(
                        seq_replace(input.arch@, '_', '-'),
                        seq_strip(input.variant.full@, '.'),
                    ),
                ),
        )
    }
}

/// The metadata URL of the TUF repository for one variant and architecture.
pub open spec fn tuf_metadata_url(base: Seq<char>, variant: Seq<char>, arch: Seq<char>) -> Seq<
    char,
> {
    base + variant + "/"@ + arch + "/"@
}

impl CrdInput {
    /// The TUF repository endpoints for this run, when the infrastructure
    /// document configures both URLs.
    pub fn tuf_repo_config(&self) -> (r: Option<TufRepoConfig>)
        ensures
            r matches Some(t) ==> {
                &&& self.repo_config.metadata_base_url matches Some(base) && t.metadata_url@
                    == tuf_metadata_url(base@, self.variant.full@, self.arch@)
                &&& self.repo_config.targets_url matches Some(targets) && t.targets_url@
                    == targets@
            },
            r is None <==> (self.repo_config.metadata_base_url is None
                || self.repo_config.targets_url is None),
    {
        match (&self.repo_config.metadata_base_url, &self.repo_config.targets_url) {
            (Some(metadata_base_url), Some(targets_url)) => Some(
                TufRepoConfig {
                    metadata_url: metadata_base_url.clone().concat(
                        self.variant.full.as_str(),
                    ).concat("/").concat(self.arch.as_str()).concat("/"),
                    targets_url: targets_url.clone(),
                },
            ),
            _ => None,
        }
    }

    /// The identity labels of one descriptor: the standard labels of this
    /// run, with `additional_labels` bound over them in order.
    pub fn labels(&self, additional_labels: &Labels) -> (r: Labels)
        ensures
            r.deep_view() == label_append(std_labels(*self), additional_labels.deep_view()),
    {
        let mut pairs: Vec<Label> = Vec::new();
        pairs.push(Label { key: String::from_str("testsys/arch"), value: self.arch.clone() });
        pairs.push(
            Label { key: String::from_str("testsys/variant"), value: self.variant.full.clone() },
        );
        pairs.push(
            Label {
                key: String::from_str("testsys/build-id"),
                value: match &self.build_id {
                    Some(b) => b.clone(),
                    None => String::new(),
                },
            },
        );
        pairs.push(
            Label { key: String::from_str("testsys/test-type"), value: self.test_type.clone() },
        );
        let mut r = Labels { pairs };
        proof {
            assert(r.deep_view() =~= std_labels(*self));
        }
        r.extend(additional_labels);
        r
    }

    /// The names of all resources in the store whose labels agree with
    /// `labels` on every key of `id_labels`. Fails before touching the
    /// store when a required key is missing from `labels`: that is a caller
    /// defect, not a remote failure.
    pub fn existing_crds(&self, labels: &Labels, id_labels: &Vec<String>) -> (r: Result<
        Vec<String>,
        Error,
    >)
        ensures
            r matches Ok(names) ==> {
                &&& forall|j: int|
                    0 <= j < id_labels@.len() ==> label_get(
                        labels.deep_view(),
                        #[trigger] id_labels.deep_view()[j],
                    ) is Some
                &&& names.deep_view() == matching_names(
                    self.store.deep_view(),
                    selector_of(labels.deep_view(), id_labels.deep_view()),
                )
            },
            r matches Err(e) ==> {
                &&& e matches Error::InvalidState { .. }
                &&& exists|j: int|
                    0 <= j < id_labels@.len() && label_get(
                        labels.deep_view(),
                        #[trigger] id_labels.deep_view()[j],
                    ) is None
            },
    {
        let ghost keys = id_labels.deep_view();
        let mut pairs: Vec<Label> = Vec::new();
        let mut i: usize = 0;
        while i < id_labels.len()
            invariant
                i <= id_labels.len(),
                keys == id_labels.deep_view(),
                forall|j: int|
                    0 <= j < i ==> label_get(labels.deep_view(), #[trigger] keys[j]) is Some,
                pairs.deep_view().len() == i,
                forall|j: int|
                    0 <= j < i ==> #[trigger] pairs.deep_view()[j] == (
                    keys[j],
                    label_get(labels.deep_view(), keys[j]).unwrap(),
                    ),
            decreases id_labels.len() - i,
        {
            let key = &id_labels[i];
            match labels.get(key.as_str()) {
                Some(value) => {
                    let ghost prev = pairs.deep_view();
                    pairs.push(Label { key: key.clone(), value: value.clone() });
                    proof {
                        assert(pairs.deep_view() =~= prev.push((key@, value@)));
                    }
                },
                None => {
                    proof {
                        assert(keys[i as int] == key@);
                        assert(label_get(labels.deep_view(), keys[i as int]) is None);
                    }
                    return Err(
                        Error::InvalidState {
                            what: String::from_str("The label '").concat(key.as_str()).concat(
                                "' was missing",
                            ),
                        },
                    );
                },
            }
            i = i + 1;
        }
        let selector = Labels { pairs };
        proof {
            lemma_selector_elts(labels.deep_view(), keys);
            assert(selector.deep_view() =~= selector_of(labels.deep_view(), keys));
        }
        Ok(self.store.list(&selector))
    }

    /// The userdata contents were supplied exactly when the effective
    /// configuration names a userdata file: what every well-formed input
    /// upholds, and what the instance descriptor's userdata clause rests
    /// on.
    pub open spec fn userdata_supplied(&self) -> bool {
        self.userdata_content is Some <==> self.config.userdata is Some
    }

    /// The encoded userdata for instance launch, when the caller supplied
    /// userdata contents.
    pub fn encoded_userdata(&self) -> (r: Option<String>)
        ensures
            r matches Some(s) ==> (self.userdata_content matches Some(c) && s@ == b64_of(c@)),
            r is None <==> self.userdata_content is None,
    {
        match &self.userdata_content {
            Some(content) => Some(base64_encode(content)),
            None => None,
        }
    }

    /// Fill in the templated cluster name with this run's architecture and
    /// variant, in their k8s-safe spellings.
    pub fn rendered_cluster_name(&self, raw_cluster_name: String) -> (r: Result<String, Error>)
        ensures
            r matches Ok(s) ==> s@ == render_of(
                raw_cluster_name@,
                cluster_name_fields(
                    seq_replace(self.arch@, '_', '-'),
                    seq_strip(self.variant.full@, '.'),
                ),
            ),
            r matches Err(e) ==> e matches Error::Render { .. },
    {
        crate::render::rendered_cluster_name(
            raw_cluster_name,
            self.kube_arch().as_str(),
            self.kube_variant().as_str(),
        )
    }

    /// The k8s-safe architecture name: underscores become dashes.
    pub fn kube_arch(&self) -> (r: String)
        ensures
            r@ == seq_replace(self.arch@, '_', '-'),
    {
        replace_char(self.arch.as_str(), '_', '-')
    }

    /// The k8s-safe variant name: dots are dropped.
    pub fn kube_variant(&self) -> (r: String)
        ensures
            r@ == seq_strip(self.variant.full@, '.'),
    {
        strip_char(self.variant.full.as_str(), '.')
    }

    /// The default cluster name: `<k8s arch>-<k8s variant>`.
    pub fn default_cluster_name(&self) -> (r: String)
        ensures
            r@ == spec_default_cluster_name(*self),
    {
        self.kube_arch().concat("-").concat(self.kube_variant().as_str())
    }

    /// The cluster names this variant is tested over: each configured name
    /// with its template placeholders filled in, or the single default name
    /// when none is configured.
    pub fn cluster_names(&self) -> (r: Result<Vec<String>, Error>)
        ensures
            r matches Ok(names) ==> names.deep_view() == spec_cluster_names(*self),
            self.config.cluster_names@.len() == 0 ==> r is Ok,
            r matches Err(e) ==> e matches Error::Render { .. },
    {
        if self.config.cluster_names.len() == 0 {
            let mut names: Vec<String> = Vec::new();
            names.push(self.default_cluster_name());
            proof {
                assert(names.deep_view() =~= spec_cluster_names(*self));
            }
            Ok(names)
        } else {
            let mut names: Vec<String> = Vec::new();
            let mut i: usize = 0;
            while i < self.config.cluster_names.len()
                invariant
                    i <= self.config.cluster_names@.len(),
                    names@.len() == i,
                    forall|j: int|
                        0 <= j < i ==> #[trigger] names.deep_view()[j] == render_of(
                            self.config.cluster_names.deep_view()[j],
                            cluster_name_fields(
                                seq_replace(self.arch@, '_', '-'),
                                seq_strip(self.variant.full@, '.'),
                            ),
                        ),
                decreases self.config.cluster_names.len() - i,
            {
                let raw = self.config.cluster_names[i].clone();
                proof {
                    assert(raw@ == self.config.cluster_names.deep_view()[i as int]);
                }
                let rendered = self.rendered_cluster_name(raw)?;
                let ghost prev = names.deep_view();
                names.push(rendered);
                proof {
                    assert(names.deep_view() =~= prev.push(rendered@));
                }
                i = i + 1;
            }
            proof {
                assert(names.deep_view() =~= spec_cluster_names(*self));
            }
            Ok(names)
        }
    }

    /// The dictionary of all configurable fields for one cluster name.
    pub fn config_fields(&self, cluster_name: &str) -> (r: Labels)
        ensures
            r.deep_view() == config_fields_spec(*self, cluster_name@),
    {
        let mut pairs: Vec<Label> = Vec::new();
        pairs.push(Label { key: String::from_str("arch"), value: self.arch.clone() });
        pairs.push(Label { key: String::from_str("variant"), value: self.variant.full.clone() });
        pairs.push(Label { key: String::from_str("kube-arch"), value: self.kube_arch() });
        pairs.push(Label { key: String::from_str("kube-variant"), value: self.kube_variant() });
        pairs.push(Label { key: String::from_str("cluster-name"), value: cluster_name.to_owned() });
        pairs.push(
            Label {
                key: String::from_str("instance-type"),
                value: some_or_null(&self.config.instance_type),
            },
        );
        pairs.push(
            Label {
                key: String::from_str("agent-role"),
                value: some_or_null(&self.config.agent_role),
            },
        );
        pairs.push(
            Label {
                key: String::from_str("conformance-image"),
                value: some_or_null(&self.config.conformance_image),
            },
        );
        pairs.push(
            Label {
                key: String::from_str("conformance-registry"),
                value: some_or_null(&self.config.conformance_registry),
            },
        );
        let r = Labels { pairs };
        proof {
            assert(r.deep_view() =~= config_fields_spec(*self, cluster_name@));
        }
        r
    }
}

/// The dictionary of all configurable fields for one cluster name: the
/// architecture and variant in both plain and k8s-safe spellings, the
/// cluster name, and the configured instance type, role, conformance image
/// and registry, each `"null"` when unset.
pub open spec fn config_fields_spec(input: CrdInput, cluster_name: Seq<char>) -> Seq<
    (Seq<char>, Seq<char>),
> {
    seq![
        ("arch"@, input.arch@),
        ("variant"@, input.variant.full@),
        ("kube-arch"@, seq_replace(input.arch@, '_', '-')),
        ("kube-variant"@, seq_strip(input.variant.full@, '.')),
        ("cluster-name"@, cluster_name),
        ("instance-type"@, opt_or(input.config.instance_type.deep_view(), "null"@)),
        ("agent-role"@, opt_or(input.config.agent_role.deep_view(), "null"@)),
        ("conformance-image"@, opt_or(input.config.conformance_image.deep_view(), "null"@)),
        ("conformance-registry"@, opt_or(input.config.conformance_registry.deep_view(), "null"@)),
    ]
}


/// The input used for cluster descriptor creation.
pub struct ClusterInput<'a> {
    pub cluster_name: &'a String,
    pub crd_input: &'a CrdInput,
}

/// The input used for instance descriptor creation.
pub struct BottlerocketInput<'a> {
    /// The resolved name of the cluster step, when the environment has one.
    pub cluster_crd_name: &'a Option<String>,
    /// The image id that this descriptor should launch.
    pub image_id: String,
    pub test_type: &'a KnownTestType,
    pub crd_input: &'a CrdInput,
}

/// The input used for test descriptor creation.
pub struct TestInput<'a> {
    pub cluster_crd_name: &'a Option<String>,
    pub bottlerocket_crd_name: &'a Option<String>,
    pub test_type: &'a KnownTestType,
    pub crd_input: &'a CrdInput,
    /// The ordered names of the tests already created for this plan.
    pub prev_tests: Vec<String>,
    /// The suffix appended to the test name to prevent naming conflicts.
    pub name_suffix: Option<&'a str>,
}

/// The input used for migration descriptor creation.
pub struct MigrationInput<'a> {
    pub cluster_crd_name: &'a Option<String>,
    pub bottlerocket_crd_name: &'a Option<String>,
    pub crd_input: &'a CrdInput,
    /// The ordered names of the tests already created for this plan.
    pub prev_tests: Vec<String>,
    /// The suffix appended to the test name to prevent naming conflicts.
    pub name_suffix: Option<&'a str>,
    pub migration_direction: MigrationDirection,
}

/// The tri-state outcome of one descriptor-creation step.
pub enum CreateCrdOutput {
    /// A new descriptor was created and needs to be submitted.
    NewCrd(Box<Crd>),
    /// An existing descriptor already represents this step.
    ExistingCrd(String),
    /// This environment has no descriptor for this step.
    NoCrd,
}

/// The name this outcome contributes as a dependency target, if any.
pub open spec fn output_name(out: CreateCrdOutput) -> Option<Seq<char>> {
    match out {
        CreateCrdOutput::NewCrd(c) => Some(crd_spec_name(*c)),
        CreateCrdOutput::ExistingCrd(n) => Some(n@),
        CreateCrdOutput::NoCrd => None,
    }
}

impl Default for CreateCrdOutput {
    /// The outcome with nothing to create.
    fn default() -> (r: Self)
        ensures
            r matches CreateCrdOutput::NoCrd,
    {
        CreateCrdOutput::NoCrd
    }
}

impl CreateCrdOutput {
    /// The name of the descriptor that was created or already existed.
    pub fn crd_name(&self) -> (r: Option<String>)
        ensures
            r.deep_view() == output_name(*self),
    {
        match self {
            CreateCrdOutput::NewCrd(crd) => Some(crd.name().clone()),
            CreateCrdOutput::ExistingCrd(name) => Some(name.clone()),
            CreateCrdOutput::NoCrd => None,
        }
    }

    /// The descriptor, when one was created.
    pub fn crd(self) -> (r: Option<Crd>)
        ensures
            match self {
                CreateCrdOutput::NewCrd(c) => r == Some(*c),
                CreateCrdOutput::ExistingCrd(_) => r is None,
                CreateCrdOutput::NoCrd => r is None,
            },
    {
        match self {
            CreateCrdOutput::NewCrd(crd) => Some(*crd),
            CreateCrdOutput::ExistingCrd(_) => None,
            CreateCrdOutput::NoCrd => None,
        }
    }
}

/// A successful cluster step yields a resource descriptor when it yields a
/// new one at all.
pub open spec fn cluster_output_ok(out: CreateCrdOutput) -> bool {
    out matches CreateCrdOutput::NewCrd(c) ==> *c matches Crd::Resource(_)
}

/// A successful instance step yields an instance-provider resource
/// descriptor that depends on the cluster step's resolved name.
pub open spec fn bottlerocket_output_ok(i: BottlerocketInput, out: CreateCrdOutput) -> bool {
    out matches CreateCrdOutput::NewCrd(c) ==> (*c matches Crd::Resource(rc) && (
    rc.config matches ResourceConfig::Ec2(_)) && (i.cluster_crd_name matches Some(n)
        ==> rc.depends_on.deep_view().contains(n@)))
}

/// A successful test step always yields a new test descriptor whose name
/// ends with the requested suffix and whose dependencies are exactly the
/// previously created test names, in order.
pub open spec fn test_output_ok(i: TestInput, out: CreateCrdOutput) -> bool {
    out matches CreateCrdOutput::NewCrd(c) && (*c matches Crd::Test(t) && (
    i.name_suffix matches Some(s) ==> seq_ends_with(t.name@, s@))
        && t.depends_on.deep_view() == i.prev_tests.deep_view())
}

/// A successful migration step always yields a new test descriptor whose
/// name ends with the requested suffix and whose dependencies are exactly
/// the previously created test names, in order.
pub open spec fn migration_output_ok(i: MigrationInput, out: CreateCrdOutput) -> bool {
    out matches CreateCrdOutput::NewCrd(c) && (*c matches Crd::Test(t) && (
    i.name_suffix matches Some(s) ==> seq_ends_with(t.name@, s@))
        && t.depends_on.deep_view() == i.prev_tests.deep_view())
}

/// The strategy that shapes descriptors for one platform family. The
/// planner drives one implementation per run; the contracts here are what
/// every family must honour for plans to be dependency-linked correctly.
pub trait CrdCreator {
    /// The name of the existing resource this strategy reuses for the
    /// cluster step, if any: the dedup decision, stated so that plans can
    /// be shown idempotent.
    spec fn cluster_reuse(&self, crd_input: CrdInput, cluster_name: Seq<char>) -> Option<
        Seq<char>,
    >;

    /// The image id used for normal testing.
    fn image_id(&self, crd_input: &CrdInput) -> Result<String, Error>;

    /// The image id used as the starting point for migration testing.
    fn starting_image_id(&self, crd_input: &CrdInput) -> Result<String, Error>;

    /// The descriptor for the cluster needed to launch instances, an
    /// existing name when one is reused, or nothing when the environment
    /// needs no cluster object. When the strategy's dedup decision names
    /// an existing resource, that name is reused and nothing new is
    /// created.
    fn cluster_crd<'a>(&self, cluster_input: ClusterInput<'a>) -> (r: Result<
        CreateCrdOutput,
        Error,
    >)
        ensures
            r matches Ok(out) ==> cluster_output_ok(out),
            r matches Ok(out) ==> (self.cluster_reuse(
                *cluster_input.crd_input,
                cluster_input.cluster_name@,
            ) matches Some(reused) ==> (out matches CreateCrdOutput::ExistingCrd(m) && m@
                == reused)),
    ;

    /// The descriptor that launches instances of the build under test.
    fn bottlerocket_crd<'a>(&self, bottlerocket_input: BottlerocketInput<'a>) -> (r: Result<
        CreateCrdOutput,
        Error,
    >)
        ensures
            r matches Ok(out) ==> bottlerocket_output_ok(bottlerocket_input, out),
    ;

    /// The descriptor that migrates instances from one version to another.
    fn migration_crd<'a>(&self, migration_input: MigrationInput<'a>) -> (r: Result<
        CreateCrdOutput,
        Error,
    >)
        ensures
            r matches Ok(out) ==> migration_output_ok(migration_input, out),
    ;

    /// The descriptor for one test run on the launched instances.
    fn test_crd<'a>(&self, test_input: TestInput<'a>) -> (r: Result<CreateCrdOutput, Error>)
        ensures
            r matches Ok(out) ==> test_output_ok(test_input, out),
    ;

    /// Additional template fields this family contributes to custom
    /// descriptor templates.
    fn additional_fields(&self, test_type: &str) -> Labels;
}

/// The five migration phase suffixes, in causal order.
pub open spec fn migration_suffixes() -> Seq<Seq<char>> {
    seq!["-1-initial"@, "-2-migrate"@, "-3-migrated"@, "-4-migrate"@, "-5-final"@]
}

/// The names of the first `k` phase descriptors, in order.
pub open spec fn phase_names(crds: Seq<Crd>, base: int, k: int) -> Seq<Seq<char>> {
    Seq::new(k as nat, |j: int| crd_spec_name(crds[base + j]))
}

/// Phase `k` of a migration plan whose phases start at `base`: a test
/// descriptor whose name ends with the phase suffix and which depends on
/// the full ordered list of all prior phase names.
pub open spec fn phase_ok(crds: Seq<Crd>, base: int, k: int) -> bool {
    crds[base + k] matches Crd::Test(t) && seq_ends_with(t.name@, migration_suffixes()[k])
        && t.depends_on.deep_view() == phase_names(crds, base, k)
}

/// The shape of one cluster's migration plan: resource descriptors first,
/// then exactly five test-phase descriptors, causally chained through
/// their dependency lists.
pub open spec fn migration_plan_ok(crds: Seq<Crd>) -> bool {
    &&& 5 <= crds.len() <= 7
    &&& forall|k: int| 0 <= k < 5 ==> #[trigger] phase_ok(crds, crds.len() - 5, k)
    &&& forall|i: int| 0 <= i < crds.len() - 5 ==> #[trigger] crds[i] matches Crd::Resource(_)
}

/// The shape of one cluster's quick or conformance plan: resource
/// descriptors first, then exactly one test descriptor with no test
/// dependencies.
pub open spec fn simple_plan_ok(crds: Seq<Crd>) -> bool {
    &&& 1 <= crds.len() <= 3
    &&& crds[crds.len() - 1] matches Crd::Test(t) && t.depends_on.deep_view() == Seq::<
        Seq<char>,
    >::empty()
    &&& forall|i: int| 0 <= i < crds.len() - 1 ==> #[trigger] crds[i] matches Crd::Resource(_)
}

/// `crds` is the concatenation of `count` consecutive per-cluster plans,
/// each of the given kind's shape.
pub open spec fn plan_concat(test_type: KnownTestType, crds: Seq<Crd>, count: int) -> bool
    decreases count,
{
    if count <= 0 {
        crds.len() == 0 && count == 0
    } else {
        exists|k: int|
            0 < k <= crds.len() && plan_ok(test_type, #[trigger] crds.take(k)) && plan_concat(
                test_type,
                crds.skip(k),
                count - 1,
            )
    }
}

/// One more whole plan at the right end extends a plan concatenation.
proof fn lemma_plan_concat_snoc(test_type: KnownTestType, s: Seq<Crd>, t: Seq<Crd>, n: int)
    requires
        n >= 0,
        plan_concat(test_type, s, n),
        plan_ok(test_type, t),
        t.len() > 0,
    ensures
        plan_concat(test_type, s + t, n + 1),
    decreases n,
{
    if n == 0 {
        assert(s.len() == 0);
        assert(s + t =~= t);
        let k = t.len() as int;
        assert((s + t).take(k) =~= t);
        assert((s + t).skip(k) =~= Seq::<Crd>::empty());
        assert(plan_concat(test_type, (s + t).skip(k), 0));
        assert(0 < k <= (s + t).len() && plan_ok(test_type, (s + t).take(k)) && plan_concat(
            test_type,
            (s + t).skip(k),
            0,
        ));
    } else {
        let k = choose|k: int|
            0 < k <= s.len() && plan_ok(test_type, #[trigger] s.take(k)) && plan_concat(
                test_type,
                s.skip(k),
                n - 1,
            );
        lemma_plan_concat_snoc(test_type, s.skip(k), t, n - 1);
        assert((s + t).take(k) =~= s.take(k));
        assert((s + t).skip(k) =~= s.skip(k) + t);
        assert(0 < k <= (s + t).len() && plan_ok(test_type, (s + t).take(k)) && plan_concat(
            test_type,
            (s + t).skip(k),
            n,
        ));
    }
}

/// The fewest descriptors one cluster's plan can hold, by test kind.
pub open spec fn min_plan_len(test_type: KnownTestType) -> int {
    match test_type {
        KnownTestType::Migration => 5int,
        KnownTestType::Quick => 1int,
        KnownTestType::Conformance => 1int,
    }
}

/// The shape of one cluster's plan, by test kind.
pub open spec fn plan_ok(test_type: KnownTestType, crds: Seq<Crd>) -> bool {
    match test_type {
        KnownTestType::Migration => migration_plan_ok(crds),
        KnownTestType::Quick => simple_plan_ok(crds),
        KnownTestType::Conformance => simple_plan_ok(crds),
    }
}

/// An idempotent re-run's per-cluster plan: no new cluster descriptor is
/// emitted, and every resource descriptor in the plan depends on the
/// reused existing name.
pub open spec fn reused_cluster_plan(crds: Seq<Crd>, reused: Seq<char>) -> bool {
    forall|i: int|
        0 <= i < crds.len() ==> match #[trigger] crds[i] {
            Crd::Resource(rc) => !(rc.config matches ResourceConfig::Cluster(_))
                && rc.depends_on.deep_view().contains(reused),
            Crd::Test(_) => true,
        }
}

/// Build the full dependency-ordered plan for one cluster name: the cluster
/// step, the instance step carrying the image under test (or, for
/// migration, the starting image), and the test steps — one for quick and
/// conformance runs, the five-phase causal chain for migration runs.
pub fn create_crds_for_cluster<C: CrdCreator>(
    creator: &C,
    test_type: &KnownTestType,
    crd_input: &CrdInput,
    cluster_name: &String,
) -> (r: Result<Vec<Crd>, Error>)
    ensures
        r matches Ok(crds) ==> plan_ok(*test_type, crds@),
        r matches Ok(crds) ==> (creator.cluster_reuse(*crd_input, cluster_name@) matches Some(
            reused,
        ) ==> reused_cluster_plan(crds@, reused)),
{
    let mut crds: Vec<Crd> = Vec::new();
    let cluster_output = creator.cluster_crd(ClusterInput { cluster_name, crd_input })?;
    let cluster_crd_name = cluster_output.crd_name();
    if let Some(crd) = cluster_output.crd() {
        crds.push(crd);
    }
    match test_type {
        KnownTestType::Conformance | KnownTestType::Quick => {
            let image_id = creator.image_id(crd_input)?;
            let bottlerocket_output = creator.bottlerocket_crd(
                BottlerocketInput {
                    cluster_crd_name: &cluster_crd_name,
                    image_id,
                    test_type,
                    crd_input,
                },
            )?;
            let bottlerocket_crd_name = bottlerocket_output.crd_name();
            if let Some(crd) = bottlerocket_output.crd() {
                crds.push(crd);
            }
            let empty_prev: Vec<String> = Vec::new();
            proof {
                assert(empty_prev.deep_view() =~= Seq::<Seq<char>>::empty());
            }
            let test_output = creator.test_crd(
                TestInput {
                    cluster_crd_name: &cluster_crd_name,
                    bottlerocket_crd_name: &bottlerocket_crd_name,
                    test_type,
                    crd_input,
                    prev_tests: empty_prev,
                    name_suffix: None,
                },
            )?;
            if let Some(crd) = test_output.crd() {
                crds.push(crd);
            }
            proof {
                assert(simple_plan_ok(crds@));
                if creator.cluster_reuse(*crd_input, cluster_name@) is Some {
                    let reused = creator.cluster_reuse(*crd_input, cluster_name@).unwrap();
                    assert(reused_cluster_plan(crds@, reused));
                }
            }
            Ok(crds)
        },
        KnownTestType::Migration => {
            let image_id = match &crd_input.starting_image_id {
                Some(image_id) => image_id.clone(),
                None => creator.starting_image_id(crd_input)?,
            };
            let bottlerocket_output = creator.bottlerocket_crd(
                BottlerocketInput {
                    cluster_crd_name: &cluster_crd_name,
                    image_id,
                    test_type,
                    crd_input,
                },
            )?;
            let bottlerocket_crd_name = bottlerocket_output.crd_name();
            if let Some(crd) = bottlerocket_output.crd() {
                crds.push(crd);
            }
            let ghost base = crds@.len() as int;
            let mut tests: Vec<String> = Vec::new();
            proof {
                assert(tests.deep_view() =~= Seq::<Seq<char>>::empty());
            }

            let ghost deps1 = tests.deep_view();
            let test_output = creator.test_crd(
                TestInput {
                    cluster_crd_name: &cluster_crd_name,
                    bottlerocket_crd_name: &bottlerocket_crd_name,
                    test_type,
                    crd_input,
                    prev_tests: clone_strings(&tests),
                    name_suffix: Some("-1-initial"),
                },
            )?;
            if let Some(name) = test_output.crd_name() {
                tests.push(name);
            }
            if let Some(crd) = test_output.crd() {
                crds.push(crd);
            }

            let ghost deps2 = tests.deep_view();
            let migration_output = creator.migration_crd(
                MigrationInput {
                    cluster_crd_name: &cluster_crd_name,
                    bottlerocket_crd_name: &bottlerocket_crd_name,
                    crd_input,
                    prev_tests: clone_strings(&tests),
                    name_suffix: Some("-2-migrate"),
                    migration_direction: MigrationDirection::Upgrade,
                },
            )?;
            if let Some(name) = migration_output.crd_name() {
                tests.push(name);
            }
            if let Some(crd) = migration_output.crd() {
                crds.push(crd);
            }

            let ghost deps3 = tests.deep_view();
            let test_output = creator.test_crd(
                TestInput {
                    cluster_crd_name: &cluster_crd_name,
                    bottlerocket_crd_name: &bottlerocket_crd_name,
                    test_type,
                    crd_input,
                    prev_tests: clone_strings(&tests),
                    name_suffix: Some("-3-migrated"),
                },
            )?;
            if let Some(name) = test_output.crd_name() {
                tests.push(name);
            }
            if let Some(crd) = test_output.crd() {
                crds.push(crd);
            }

            let ghost deps4 = tests.deep_view();
            let migration_output = creator.migration_crd(
                MigrationInput {
                    cluster_crd_name: &cluster_crd_name,
                    bottlerocket_crd_name: &bottlerocket_crd_name,
                    crd_input,
                    prev_tests: clone_strings(&tests),
                    name_suffix: Some("-4-migrate"),
                    migration_direction: MigrationDirection::Downgrade,
                },
            )?;
            if let Some(name) = migration_output.crd_name() {
                tests.push(name);
            }
            if let Some(crd) = migration_output.crd() {
                crds.push(crd);
            }

            let ghost deps5 = tests.deep_view();
            let test_output = creator.test_crd(
                TestInput {
                    cluster_crd_name: &cluster_crd_name,
                    bottlerocket_crd_name: &bottlerocket_crd_name,
                    test_type,
                    crd_input,
                    prev_tests: clone_strings(&tests),
                    name_suffix: Some("-5-final"),
                },
            )?;
            if let Some(crd) = test_output.crd() {
                crds.push(crd);
            }

            proof {
                assert(crds@.len() == base + 5);
                assert(deps1 =~= phase_names(crds@, base, 0));
                assert(deps2 =~= phase_names(crds@, base, 1));
                assert(deps3 =~= phase_names(crds@, base, 2));
                assert(deps4 =~= phase_names(crds@, base, 3));
                assert(deps5 =~= phase_names(crds@, base, 4));
                assert(phase_ok(crds@, base, 0));
                assert(phase_ok(crds@, base, 1));
                assert(phase_ok(crds@, base, 2));
                assert(phase_ok(crds@, base, 3));
                assert(phase_ok(crds@, base, 4));
                assert(migration_plan_ok(crds@));
                if creator.cluster_reuse(*crd_input, cluster_name@) is Some {
                    let reused = creator.cluster_reuse(*crd_input, cluster_name@).unwrap();
                    assert(reused_cluster_plan(crds@, reused));
                }
            }
            Ok(crds)
        },
    }
}

/// Build the plans for every cluster name of this run, in order: the
/// result is the concatenation of one per-cluster plan per name, each with
/// its kind's shape. The per-cluster plans share no state; any failure
/// aborts the whole call with no partial result.
pub fn create_crds<C: CrdCreator>(
    creator: &C,
    test_type: &KnownTestType,
    crd_input: &CrdInput,
) -> (r: Result<Vec<Crd>, Error>)
    ensures
        r matches Ok(crds) ==> plan_concat(
            *test_type,
            crds@,
            spec_cluster_names(*crd_input).len() as int,
        ),
        r matches Ok(crds) ==> (crd_input.config.cluster_names@.len() == 0 ==> plan_ok(
            *test_type,
            crds@,
        )),
        r matches Ok(crds) ==> crds@.len() >= min_plan_len(*test_type) * spec_cluster_names(
            *crd_input,
        ).len(),
{
    let cluster_names = crd_input.cluster_names()?;
    let ghost n = cluster_names@.len() as int;
    proof {
        assert(n == spec_cluster_names(*crd_input).len());
    }
    let mut crds: Vec<Crd> = Vec::new();
    proof {
        assert(plan_concat(*test_type, crds@, 0));
    }
    let mut i: usize = 0;
    while i < cluster_names.len()
        invariant
            i <= cluster_names@.len(),
            n == cluster_names@.len(),
            n == 1 && i == 1 ==> plan_ok(*test_type, crds@),
            plan_concat(*test_type, crds@, i as int),
            crds@.len() >= min_plan_len(*test_type) * i,
        decreases cluster_names.len() - i,
    {
        let mut plan = create_crds_for_cluster(creator, test_type, crd_input, &cluster_names[i])?;
        let ghost plan_view = plan@;
        let ghost before = crds@;
        crds.append(&mut plan);
        proof {
            if i == 0 {
                assert(crds@ =~= plan_view);
            }
            assert(plan_view.len() >= min_plan_len(*test_type));
            assert(min_plan_len(*test_type) * (i + 1) == min_plan_len(*test_type) * i
                + min_plan_len(*test_type)) by (nonlinear_arith);
            assert(crds@ =~= before + plan_view);
            lemma_plan_concat_snoc(*test_type, before, plan_view, i as int);
        }
        i = i + 1;
    }
    Ok(crds)
}

/// The API version stamped on custom descriptor manifests.
pub fn api_version() -> (r: &'static str)
    ensures
        r@ == "testsys.bottlerocket.aws/v1"@,
{
    "testsys.bottlerocket.aws/v1"
}

/// The namespace custom descriptors are rendered into.
pub fn namespace() -> (r: &'static str)
    ensures
        r@ == "testsys"@,
{
    "testsys"
}

/// The field dictionary handed to a custom descriptor template: the
/// configurable fields for the cluster name, then the API version, the
/// namespace and the image id bound over them, then the family's
/// additional fields bound over those (later bindings win on a key
/// collision).
pub open spec fn custom_fields_spec(
    input: CrdInput,
    cluster_name: Seq<char>,
    image_id: Seq<char>,
    additional: Seq<(Seq<char>, Seq<char>)>,
) -> Seq<(Seq<char>, Seq<char>)> {
    label_append(
        label_set(
            label_set(
                label_set(
                    config_fields_spec(input, cluster_name),
                    "api-version"@,
                    "testsys.bottlerocket.aws/v1"@,
                ),
                "namespace"@,
                "testsys"@,
            ),
            "image-id"@,
            image_id,
        ),
        additional,
    )
}

/// One rendered manifest of the custom path: the strict render of the
/// template under the documented field dictionary for this cluster name,
/// for the image id and family fields the strategy supplied.
pub open spec fn custom_manifest_ok(
    input: CrdInput,
    template: Seq<char>,
    cluster_name: Seq<char>,
    manifest: Seq<char>,
) -> bool {
    exists|image_id: Seq<char>, additional: Seq<(Seq<char>, Seq<char>)>|
        manifest == strict_render_of(
            template,
            #[trigger] custom_fields_spec(input, cluster_name, image_id, additional),
        )
}

/// Render a custom descriptor template once per cluster name, in
/// cluster-name order, each time under that cluster's field dictionary:
/// the configurable fields plus the API version, namespace and the
/// strategy's image id and additional fields. The caller parses each
/// rendered manifest into descriptors and overwrites their secrets from
/// the effective configuration.
pub fn create_custom_crd_manifests<C: CrdCreator>(
    creator: &C,
    test_type: &str,
    crd_input: &CrdInput,
    crd_template: &str,
) -> (r: Result<Vec<String>, Error>)
    ensures
        r matches Ok(manifests) ==> {
            &&& manifests@.len() == spec_cluster_names(*crd_input).len()
            &&& forall|j: int|
                0 <= j < manifests@.len() ==> custom_manifest_ok(
                    *crd_input,
                    crd_template@,
                    spec_cluster_names(*crd_input)[j],
                    #[trigger] manifests.deep_view()[j],
                )
        },
{
    let cluster_names = crd_input.cluster_names()?;
    let ghost names_spec = spec_cluster_names(*crd_input);
    let mut manifests: Vec<String> = Vec::new();
    let mut i: usize = 0;
    while i < cluster_names.len()
        invariant
            i <= cluster_names@.len(),
            cluster_names.deep_view() == names_spec,
            names_spec == spec_cluster_names(*crd_input),
            manifests@.len() == i,
            forall|j: int|
                0 <= j < i ==> custom_manifest_ok(
                    *crd_input,
                    crd_template@,
                    names_spec[j],
                    #[trigger] manifests.deep_view()[j],
                ),
        decreases cluster_names.len() - i,
    {
        let image_id = creator.image_id(crd_input)?;
        let ghost img = image_id@;
        let additional = creator.additional_fields(test_type);
        let ghost extra = additional.deep_view();
        let cluster_name = &cluster_names[i];
        proof {
            assert(cluster_name@ == names_spec[i as int]);
        }
        let mut fields = crd_input.config_fields(cluster_name.as_str());
        fields.insert(String::from_str("api-version"), api_version().to_owned());
        fields.insert(String::from_str("namespace"), namespace().to_owned());
        fields.insert(String::from_str("image-id"), image_id);
        fields.extend(&additional);
        proof {
            assert(fields.deep_view() == custom_fields_spec(
                *crd_input,
                names_spec[i as int],
                img,
                extra,
            ));
        }
        let manifest = rendered_manifest(crd_template, &fields)?;
        let ghost prev = manifests.deep_view();
        manifests.push(manifest);
        proof {
            assert(manifests.deep_view() =~= prev.push(manifest@));
            assert(custom_manifest_ok(
                *crd_input,
                crd_template@,
                names_spec[i as int],
                manifest@,
            ));
        }
        i = i + 1;
    }
    Ok(manifests)
}

} // verus!
