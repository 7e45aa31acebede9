//! The layered configuration store and its precedence-ordered resolver.
//!
//! Configuration is stored per lookup key (five keys per variant, most
//! specific first). Resolution folds the matching entries into one effective
//! configuration where values already chosen always win over values folded
//! in later.

use vstd::prelude::*;

use crate::images::TestsysImages;
use crate::text::str_eq;
use crate::variant::{Variant, VariantModel};

verus! {

/// The specification-level value of a [`NamedSecret`].
#[verifier::ext_equal]
pub ghost struct SecretModel {
    pub name: Seq<char>,
    pub secret: Seq<char>,
}

/// One named secret reference handed to the test agents.
pub struct NamedSecret {
    pub name: String,
    pub secret: String,
}

impl DeepView for NamedSecret {
    type V = SecretModel;

    open spec fn deep_view(&self) -> SecretModel {
        SecretModel { name: self.name@, secret: self.secret@ }
    }
}

impl Clone for NamedSecret {
    fn clone(&self) -> (r: Self)
        ensures
            r.deep_view() == self.deep_view(),
    {
        NamedSecret { name: self.name.clone(), secret: self.secret.clone() }
    }
}

/// The specification-level value of a [`GenericVariantConfig`].
#[verifier::ext_equal]
pub ghost struct VariantConfigModel {
    pub cluster_names: Seq<Seq<char>>,
    pub instance_type: Option<Seq<char>>,
    pub secrets: Seq<SecretModel>,
    pub agent_role: Option<Seq<char>>,
    pub conformance_image: Option<Seq<char>>,
    pub conformance_registry: Option<Seq<char>>,
    pub control_plane_endpoint: Option<Seq<char>>,
    pub userdata: Option<Seq<char>>,
}

impl VariantConfigModel {
    /// The all-unset configuration.
    pub open spec fn unset() -> Self {
        VariantConfigModel {
            cluster_names: Seq::empty(),
            instance_type: None,
            secrets: Seq::empty(),
            agent_role: None,
            conformance_image: None,
            conformance_registry: None,
            control_plane_endpoint: None,
            userdata: None,
        }
    }

    /// Field-wise merge where `self`'s already-set values always win and
    /// `other` only fills the gaps. The list and map fields are treated
    /// atomically: a non-empty value replaces an empty one as a whole.
    pub open spec fn merge(self, other: Self) -> Self {
        VariantConfigModel {
            cluster_names: if self.cluster_names.len() == 0 {
                other.cluster_names
            } else {
                self.cluster_names
            },
            instance_type: if self.instance_type is Some {
                self.instance_type
            } else {
                other.instance_type
            },
            secrets: if self.secrets.len() == 0 {
                other.secrets
            } else {
                self.secrets
            },
            agent_role: if self.agent_role is Some {
                self.agent_role
            } else {
                other.agent_role
            },
            conformance_image: if self.conformance_image is Some {
                self.conformance_image
            } else {
                other.conformance_image
            },
            conformance_registry: if self.conformance_registry is Some {
                self.conformance_registry
            } else {
                other.conformance_registry
            },
            control_plane_endpoint: if self.control_plane_endpoint is Some {
                self.control_plane_endpoint
            } else {
                other.control_plane_endpoint
            },
            userdata: if self.userdata is Some {
                self.userdata
            } else {
                other.userdata
            },
        }
    }
}

/// Configuration for one precedence level, possibly architecture-specific.
/// All scalar fields are optional; absence is the unset value.
pub struct GenericVariantConfig {
    /// The names of all clusters the variant should be tested over.
    pub cluster_names: Vec<String>,
    /// The instance type that instances should be launched with.
    pub instance_type: Option<String>,
    /// The secrets needed by the agents.
    pub secrets: Vec<NamedSecret>,
    /// The role that should be assumed for this variant.
    pub agent_role: Option<String>,
    /// The custom image used for conformance testing.
    pub conformance_image: Option<String>,
    /// The custom registry used for conformance testing.
    pub conformance_registry: Option<String>,
    /// The endpoint to reserve for the control plane when creating a cluster.
    pub control_plane_endpoint: Option<String>,
    /// The path to userdata that should be used for instance launch.
    pub userdata: Option<String>,
}

impl DeepView for GenericVariantConfig {
    type V = VariantConfigModel;

    open spec fn deep_view(&self) -> VariantConfigModel {
        VariantConfigModel {
            cluster_names: self.cluster_names.deep_view(),
            instance_type: self.instance_type.deep_view(),
            secrets: self.secrets.deep_view(),
            agent_role: self.agent_role.deep_view(),
            conformance_image: self.conformance_image.deep_view(),
            conformance_registry: self.conformance_registry.deep_view(),
            control_plane_endpoint: self.control_plane_endpoint.deep_view(),
            userdata: self.userdata.deep_view(),
        }
    }
}

impl Default for GenericVariantConfig {
    /// The all-unset configuration.
    fn default() -> (r: Self)
        ensures
            r.deep_view() == VariantConfigModel::unset(),
    {
        let r = GenericVariantConfig {
            cluster_names: Vec::new(),
            instance_type: None,
            secrets: Vec::new(),
            agent_role: None,
            conformance_image: None,
            conformance_registry: None,
            control_plane_endpoint: None,
            userdata: None,
        };
        proof {
            assert(r.deep_view() =~= VariantConfigModel::unset());
        }
        r
    }
}

impl Clone for GenericVariantConfig {
    fn clone(&self) -> (r: Self)
        ensures
            r.deep_view() == self.deep_view(),
    {
        let r = GenericVariantConfig {
            cluster_names: clone_strings(&self.cluster_names),
            instance_type: clone_opt_string(&self.instance_type),
            secrets: clone_secrets(&self.secrets),
            agent_role: clone_opt_string(&self.agent_role),
            conformance_image: clone_opt_string(&self.conformance_image),
            conformance_registry: clone_opt_string(&self.conformance_registry),
            control_plane_endpoint: clone_opt_string(&self.control_plane_endpoint),
            userdata: clone_opt_string(&self.userdata),
        };
        proof {
            assert(r.deep_view() =~= self.deep_view());
        }
        r
    }
}

/// An element-wise copy of a string list.
pub(crate) fn clone_strings(v: &Vec<String>) -> (r: Vec<String>)
    ensures
        r.deep_view() == v.deep_view(),
{
    let mut r: Vec<String> = Vec::new();
    let mut i: usize = 0;
    while i < v.len()
        invariant
            i <= v.len(),
            r.deep_view() =~= v.deep_view().take(i as int),
        decreases v.len() - i,
    {
        let c = v[i].clone();
        let ghost prev = r.deep_view();
        r.push(c);
        proof {
            assert(r.deep_view() =~= prev.push(c.deep_view()));
            assert(r.deep_view() =~= v.deep_view().take(i + 1));
        }
        i = i + 1;
    }
    proof {
        assert(v.deep_view().take(v.len() as int) =~= v.deep_view());
        assert(r.deep_view() =~= v.deep_view());
    }
    r
}

/// A copy of an optional string.
pub(crate) fn clone_opt_string(v: &Option<String>) -> (r: Option<String>)
    ensures
        r.deep_view() == v.deep_view(),
{
    match v {
        Some(s) => Some(s.clone()),
        None => None,
    }
}

/// An element-wise copy of a secret list.
pub(crate) fn clone_secrets(v: &Vec<NamedSecret>) -> (r: Vec<NamedSecret>)
    ensures
        r.deep_view() == v.deep_view(),
{
    let mut r: Vec<NamedSecret> = Vec::new();
    let mut i: usize = 0;
    while i < v.len()
        invariant
            i <= v.len(),
            r.deep_view() =~= v.deep_view().take(i as int),
        decreases v.len() - i,
    {
        let c = v[i].clone();
        let ghost prev = r.deep_view();
        r.push(c);
        proof {
            assert(r.deep_view() =~= prev.push(c.deep_view()));
            assert(r.deep_view() =~= v.deep_view().take(i + 1));
        }
        i = i + 1;
    }
    proof {
        assert(v.deep_view().take(v.len() as int) =~= v.deep_view());
        assert(r.deep_view() =~= v.deep_view());
    }
    r
}

impl GenericVariantConfig {
    /// Overwrite the unset values of `self` with the set values of `other`.
    pub(crate) fn merge(self, other: Self) -> (r: Self)
        ensures
            r.deep_view() == self.deep_view().merge(other.deep_view()),
    {
        let self_names_empty = self.cluster_names.len() == 0;
        let self_secrets_empty = self.secrets.len() == 0;
        let r = GenericVariantConfig {
            cluster_names: if self_names_empty {
                other.cluster_names
            } else {
                self.cluster_names
            },
            instance_type: match self.instance_type {
                Some(v) => Some(v),
                None => other.instance_type,
            },
            secrets: if self_secrets_empty {
                other.secrets
            } else {
                self.secrets
            },
            agent_role: match self.agent_role {
                Some(v) => Some(v),
                None => other.agent_role,
            },
            conformance_image: match self.conformance_image {
                Some(v) => Some(v),
                None => other.conformance_image,
            },
            conformance_registry: match self.conformance_registry {
                Some(v) => Some(v),
                None => other.conformance_registry,
            },
            control_plane_endpoint: match self.control_plane_endpoint {
                Some(v) => Some(v),
                None => other.control_plane_endpoint,
            },
            userdata: match self.userdata {
                Some(v) => Some(v),
                None => other.userdata,
            },
        };
        r
    }
}

/// The architecture-specific configuration among a pair, or the unset
/// configuration for an unknown architecture name.
pub open spec fn arch_config(
    aarch64: VariantConfigModel,
    x86_64: VariantConfigModel,
    arch: Seq<char>,
) -> VariantConfigModel {
    if arch == "x86_64"@ {
        x86_64
    } else if arch == "aarch64"@ {
        aarch64
    } else {
        VariantConfigModel::unset()
    }
}

/// The specification-level value of a [`TestTypeConfig`].
#[verifier::ext_equal]
pub ghost struct TestTypeModel {
    pub aarch64: VariantConfigModel,
    pub x86_64: VariantConfigModel,
    pub config: VariantConfigModel,
}

impl TestTypeModel {
    /// The entry with everything unset.
    pub open spec fn unset() -> Self {
        TestTypeModel {
            aarch64: VariantConfigModel::unset(),
            x86_64: VariantConfigModel::unset(),
            config: VariantConfigModel::unset(),
        }
    }
}

/// The per-test-kind entry nested inside one precedence level: two
/// architecture-specific field sets and one architecture-agnostic one.
pub struct TestTypeConfig {
    pub aarch64: GenericVariantConfig,
    pub x86_64: GenericVariantConfig,
    pub config: GenericVariantConfig,
}

impl DeepView for TestTypeConfig {
    type V = TestTypeModel;

    open spec fn deep_view(&self) -> TestTypeModel {
        TestTypeModel {
            aarch64: self.aarch64.deep_view(),
            x86_64: self.x86_64.deep_view(),
            config: self.config.deep_view(),
        }
    }
}

impl Default for TestTypeConfig {
    /// The entry with everything unset.
    fn default() -> (r: Self)
        ensures
            r.deep_view() == TestTypeModel::unset(),
    {
        TestTypeConfig {
            aarch64: GenericVariantConfig::default(),
            x86_64: GenericVariantConfig::default(),
            config: GenericVariantConfig::default(),
        }
    }
}

impl Clone for TestTypeConfig {
    fn clone(&self) -> (r: Self)
        ensures
            r.deep_view() == self.deep_view(),
    {
        TestTypeConfig {
            aarch64: self.aarch64.clone(),
            x86_64: self.x86_64.clone(),
            config: self.config.clone(),
        }
    }
}

impl TestTypeConfig {
    /// The configuration for a specific architecture.
    pub fn for_arch(&self, arch: &str) -> (r: GenericVariantConfig)
        ensures
            r.deep_view() == arch_config(self.aarch64.deep_view(), self.x86_64.deep_view(), arch@),
    {
        if str_eq(arch, "x86_64") {
            self.x86_64.clone()
        } else if str_eq(arch, "aarch64") {
            self.aarch64.clone()
        } else {
            GenericVariantConfig::default()
        }
    }
}

/// One named per-test-kind entry.
pub struct NamedTestTypeConfig {
    pub name: String,
    pub entry: TestTypeConfig,
}

impl DeepView for NamedTestTypeConfig {
    type V = (Seq<char>, TestTypeModel);

    open spec fn deep_view(&self) -> (Seq<char>, TestTypeModel) {
        (self.name@, self.entry.deep_view())
    }
}

impl Clone for NamedTestTypeConfig {
    fn clone(&self) -> (r: Self)
        ensures
            r.deep_view() == self.deep_view(),
    {
        NamedTestTypeConfig { name: self.name.clone(), entry: self.entry.clone() }
    }
}

/// The specification-level value of a [`GenericConfig`].
#[verifier::ext_equal]
pub ghost struct GenericConfigModel {
    pub aarch64: VariantConfigModel,
    pub x86_64: VariantConfigModel,
    pub config: VariantConfigModel,
    pub kinds: Seq<(Seq<char>, TestTypeModel)>,
}

/// The first entry stored under `kind`, if any.
pub open spec fn kind_lookup(kinds: Seq<(Seq<char>, TestTypeModel)>, kind: Seq<char>) -> Option<
    TestTypeModel,
>
    decreases kinds.len(),
{
    if kinds.len() == 0 {
        None
    } else if kinds[0].0 == kind {
        Some(kinds[0].1)
    } else {
        kind_lookup(kinds.drop_first(), kind)
    }
}

/// All configuration stored under one precedence level: architecture
/// field sets, an architecture-agnostic field set, and nested per-test-kind
/// entries.
pub struct GenericConfig {
    pub aarch64: GenericVariantConfig,
    pub x86_64: GenericVariantConfig,
    pub config: GenericVariantConfig,
    pub configuration: Vec<NamedTestTypeConfig>,
}

impl DeepView for GenericConfig {
    type V = GenericConfigModel;

    open spec fn deep_view(&self) -> GenericConfigModel {
        GenericConfigModel {
            aarch64: self.aarch64.deep_view(),
            x86_64: self.x86_64.deep_view(),
            config: self.config.deep_view(),
            kinds: self.configuration.deep_view(),
        }
    }
}

impl GenericConfig {
    /// The configuration for a specific architecture.
    pub fn for_arch(&self, arch: &str) -> (r: GenericVariantConfig)
        ensures
            r.deep_view() == arch_config(self.aarch64.deep_view(), self.x86_64.deep_view(), arch@),
    {
        if str_eq(arch, "x86_64") {
            self.x86_64.clone()
        } else if str_eq(arch, "aarch64") {
            self.aarch64.clone()
        } else {
            GenericVariantConfig::default()
        }
    }

    /// The configuration for a specific test kind, or an all-unset entry
    /// when the kind has none.
    pub fn test(&self, test_type: &str) -> (r: TestTypeConfig)
        ensures
            r.deep_view() == match kind_lookup(self.configuration.deep_view(), test_type@) {
                Some(t) => t,
                None => TestTypeModel::unset(),
            },
    {
        let ghost kinds = self.configuration.deep_view();
        let mut i: usize = 0;
        while i < self.configuration.len()
            invariant
                i <= self.configuration.len(),
                kinds == self.configuration.deep_view(),
                forall|j: int| 0 <= j < i ==> kinds[j].0 != test_type@,
            decreases self.configuration.len() - i,
        {
            if str_eq(self.configuration[i].name.as_str(), test_type) {
                proof {
                    lemma_kind_lookup_at(kinds, test_type@, i as int);
                }
                return self.configuration[i].entry.clone();
            }
            i = i + 1;
        }
        proof {
            lemma_kind_lookup_none(kinds, test_type@);
        }
        TestTypeConfig::default()
    }
}

/// When the first `i` entries all miss and entry `i` hits, the lookup
/// returns entry `i`.
proof fn lemma_kind_lookup_at(kinds: Seq<(Seq<char>, TestTypeModel)>, kind: Seq<char>, i: int)
    requires
        0 <= i < kinds.len(),
        forall|j: int| 0 <= j < i ==> kinds[j].0 != kind,
        kinds[i].0 == kind,
    ensures
        kind_lookup(kinds, kind) == Some(kinds[i].1),
    decreases i,
{
    if i > 0 {
        lemma_kind_lookup_at(kinds.drop_first(), kind, i - 1);
    }
}

/// When every entry misses, the lookup returns nothing.
proof fn lemma_kind_lookup_none(kinds: Seq<(Seq<char>, TestTypeModel)>, kind: Seq<char>)
    requires
        forall|j: int| 0 <= j < kinds.len() ==> kinds[j].0 != kind,
    ensures
        kind_lookup(kinds, kind) is None,
    decreases kinds.len(),
{
    if kinds.len() > 0 {
        lemma_kind_lookup_none(kinds.drop_first(), kind);
    }
}

/// One named precedence-level entry of the configuration store.
pub struct NamedGenericConfig {
    pub name: String,
    pub entry: GenericConfig,
}

impl DeepView for NamedGenericConfig {
    type V = (Seq<char>, GenericConfigModel);

    open spec fn deep_view(&self) -> (Seq<char>, GenericConfigModel) {
        (self.name@, self.entry.deep_view())
    }
}

/// High level configuration for a test run.
pub struct Test {
    /// The name of the repo that should be used for testing.
    pub repo: Option<String>,
    /// The name of the vSphere data center that should be used for testing.
    pub datacenter: Option<String>,
    /// The URIs of the TestSys images.
    pub testsys_images: TestsysImages,
    /// A registry containing all TestSys images.
    pub testsys_image_registry: Option<String>,
    /// The tag that should be used for TestSys images.
    pub testsys_image_tag: Option<String>,
}

/// The whole test configuration document: high level settings plus the
/// per-key configuration store.
pub struct TestConfig {
    /// High level configuration for the test run.
    pub test: Option<Test>,
    /// The per-key configuration store.
    pub configs: Vec<NamedGenericConfig>,
}

/// The first entry stored under `key`, if any.
pub open spec fn store_lookup(
    store: Seq<(Seq<char>, GenericConfigModel)>,
    key: Seq<char>,
) -> Option<GenericConfigModel>
    decreases store.len(),
{
    if store.len() == 0 {
        None
    } else if store[0].0 == key {
        Some(store[0].1)
    } else {
        store_lookup(store.drop_first(), key)
    }
}

/// The contribution of one matched entry: the test-kind entry's
/// architecture-specific and agnostic field sets, then the entry's own, all
/// folded onto `acc` with `acc` winning.
pub open spec fn key_apply(
    acc: VariantConfigModel,
    entry: GenericConfigModel,
    arch: Seq<char>,
    kind: Seq<char>,
) -> VariantConfigModel {
    let t = match kind_lookup(entry.kinds, kind) {
        Some(t) => t,
        None => TestTypeModel::unset(),
    };
    acc.merge(arch_config(t.aarch64, t.x86_64, arch)).merge(t.config).merge(
        arch_config(entry.aarch64, entry.x86_64, arch),
    ).merge(entry.config)
}

/// Resolution of one key: empty keys and keys with no entry contribute
/// nothing.
pub open spec fn resolve_key(
    acc: VariantConfigModel,
    store: Seq<(Seq<char>, GenericConfigModel)>,
    key: Seq<char>,
    arch: Seq<char>,
    kind: Seq<char>,
) -> VariantConfigModel {
    if key.len() == 0 {
        acc
    } else {
        match store_lookup(store, key) {
            Some(e) => key_apply(acc, e, arch, kind),
            None => acc,
        }
    }
}

/// Resolution of a key list, left to right, most specific key first.
pub open spec fn resolve_keys(
    acc: VariantConfigModel,
    store: Seq<(Seq<char>, GenericConfigModel)>,
    keys: Seq<Seq<char>>,
    arch: Seq<char>,
    kind: Seq<char>,
) -> VariantConfigModel
    decreases keys.len(),
{
    if keys.len() == 0 {
        acc
    } else {
        resolve_keys(resolve_key(acc, store, keys[0], arch, kind), store, keys.drop_first(), arch, kind)
    }
}

/// Folding one more key at the right end applies it to the fold of the rest.
proof fn lemma_resolve_keys_push(
    acc: VariantConfigModel,
    store: Seq<(Seq<char>, GenericConfigModel)>,
    keys: Seq<Seq<char>>,
    key: Seq<char>,
    arch: Seq<char>,
    kind: Seq<char>,
)
    ensures
        resolve_keys(acc, store, keys.push(key), arch, kind) == resolve_key(
            resolve_keys(acc, store, keys, arch, kind),
            store,
            key,
            arch,
            kind,
        ),
    decreases keys.len(),
{
    let pushed = keys.push(key);
    assert(pushed.len() == keys.len() + 1);
    if keys.len() == 0 {
        let stepped = resolve_key(acc, store, key, arch, kind);
        assert(pushed[0] == key);
        assert(pushed.drop_first() =~= Seq::<Seq<char>>::empty());
        assert(resolve_keys(acc, store, pushed, arch, kind) == resolve_keys(
            stepped,
            store,
            pushed.drop_first(),
            arch,
            kind,
        ));
        assert(resolve_keys(stepped, store, pushed.drop_first(), arch, kind) == stepped);
        assert(resolve_keys(acc, store, keys, arch, kind) == acc);
    } else {
        let stepped = resolve_key(acc, store, keys[0], arch, kind);
        assert(pushed[0] == keys[0]);
        assert(pushed.drop_first() =~= keys.drop_first().push(key));
        assert(resolve_keys(acc, store, pushed, arch, kind) == resolve_keys(
            stepped,
            store,
            keys.drop_first().push(key),
            arch,
            kind,
        ));
        lemma_resolve_keys_push(stepped, store, keys.drop_first(), key, arch, kind);
        assert(resolve_keys(acc, store, keys, arch, kind) == resolve_keys(
            stepped,
            store,
            keys.drop_first(),
            arch,
            kind,
        ));
    }
}

/// The family-flavor key: `<family>-<flavor>`, or empty without a flavor.
pub open spec fn family_flavor_key(v: VariantModel) -> Seq<char> {
    match v.flavor {
        Some(f) => v.family + "-"@ + f,
        None => Seq::empty(),
    }
}

/// The platform-flavor key: `<platform>-<flavor>`, or empty without a
/// flavor.
pub open spec fn platform_flavor_key(v: VariantModel) -> Seq<char> {
    match v.flavor {
        Some(f) => v.platform + "-"@ + f,
        None => Seq::empty(),
    }
}

/// The five configuration keys of a variant, most specific first.
pub open spec fn spec_config_keys(v: VariantModel) -> Seq<Seq<char>> {
    seq![v.full, family_flavor_key(v), v.family, platform_flavor_key(v), v.platform]
}

/// The effective configuration resolved from `store` for a variant,
/// architecture and test kind, on top of `start`.
pub open spec fn spec_reduced_config(
    store: Seq<(Seq<char>, GenericConfigModel)>,
    v: VariantModel,
    arch: Seq<char>,
    kind: Seq<char>,
    start: VariantConfigModel,
) -> VariantConfigModel {
    resolve_keys(start, store, spec_config_keys(v), arch, kind)
}

/// The relevant configuration keys for this variant, ordered from most
/// specific to least specific. Flavor-less variants yield empty strings in
/// the two flavor-derived positions; the resolver skips those.
pub fn config_keys(variant: &Variant) -> (r: Vec<String>)
    ensures
        r.deep_view() == spec_config_keys(variant.deep_view()),
        r@.len() == 5,
{
    let (family_flavor, platform_flavor): (String, String) = match &variant.flavor {
        Some(flavor) => (
            variant.family.clone().concat("-").concat(flavor.as_str()),
            variant.platform.clone().concat("-").concat(flavor.as_str()),
        ),
        None => (String::new(), String::new()),
    };
    let mut r: Vec<String> = Vec::new();
    r.push(variant.full.clone());
    r.push(family_flavor);
    r.push(variant.family.clone());
    r.push(platform_flavor);
    r.push(variant.platform.clone());
    proof {
        assert(r.deep_view() =~= spec_config_keys(variant.deep_view()));
    }
    r
}

/// The first store entry named `key`, if any.
fn find_entry<'a>(configs: &'a Vec<NamedGenericConfig>, key: &String) -> (r: Option<
    &'a GenericConfig,
>)
    ensures
        match r {
            Some(e) => store_lookup(configs.deep_view(), key@) == Some(e.deep_view()),
            None => store_lookup(configs.deep_view(), key@) is None,
        },
{
    let ghost store = configs.deep_view();
    let mut i: usize = 0;
    while i < configs.len()
        invariant
            i <= configs.len(),
            store == configs.deep_view(),
            forall|j: int| 0 <= j < i ==> store[j].0 != key@,
        decreases configs.len() - i,
    {
        if str_eq(configs[i].name.as_str(), key.as_str()) {
            proof {
                lemma_store_lookup_at(store, key@, i as int);
            }
            return Some(&configs[i].entry);
        }
        i = i + 1;
    }
    proof {
        lemma_store_lookup_none(store, key@);
    }
    None
}

/// When the first `i` entries all miss and entry `i` hits, the lookup
/// returns entry `i`.
proof fn lemma_store_lookup_at(
    store: Seq<(Seq<char>, GenericConfigModel)>,
    key: Seq<char>,
    i: int,
)
    requires
        0 <= i < store.len(),
        forall|j: int| 0 <= j < i ==> store[j].0 != key,
        store[i].0 == key,
    ensures
        store_lookup(store, key) == Some(store[i].1),
    decreases i,
{
    if i > 0 {
        lemma_store_lookup_at(store.drop_first(), key, i - 1);
    }
}

/// When every entry misses, the lookup returns nothing.
proof fn lemma_store_lookup_none(store: Seq<(Seq<char>, GenericConfigModel)>, key: Seq<char>)
    requires
        forall|j: int| 0 <= j < store.len() ==> store[j].0 != key,
    ensures
        store_lookup(store, key) is None,
    decreases store.len(),
{
    if store.len() > 0 {
        lemma_store_lookup_none(store.drop_first(), key);
    }
}

/// The contribution of one matched entry, folded onto `acc`.
fn apply_entry(
    acc: GenericVariantConfig,
    entry: &GenericConfig,
    arch: &str,
    test_type: &str,
) -> (r: GenericVariantConfig)
    ensures
        r.deep_view() == key_apply(acc.deep_view(), entry.deep_view(), arch@, test_type@),
{
    let t = entry.test(test_type);
    let acc = acc.merge(t.for_arch(arch));
    let acc = acc.merge(t.config);
    let acc = acc.merge(entry.for_arch(arch));
    let acc = acc.merge(entry.config.clone());
    acc
}

impl TestConfig {
    /// Resolve a single effective configuration for `variant`, `arch` and
    /// `test_type` from this store, by precedence: values in
    /// `starting_config` always win; variant-exact configuration beats
    /// family beats platform; within one key, test-kind entries beat generic
    /// ones; architecture-specific field sets beat architecture-agnostic
    /// ones. Unmatched keys are skipped; the result may be entirely unset.
    pub fn reduced_config(
        &self,
        variant: &Variant,
        arch: &str,
        starting_config: Option<GenericVariantConfig>,
        test_type: &str,
    ) -> (r: GenericVariantConfig)
        ensures
            r.deep_view() == spec_reduced_config(
                self.configs.deep_view(),
                variant.deep_view(),
                arch@,
                test_type@,
                match starting_config.deep_view() {
                    Some(m) => m,
                    None => VariantConfigModel::unset(),
                },
            ),
    {
        let ghost store = self.configs.deep_view();
        let ghost all_keys = spec_config_keys(variant.deep_view());
        let ghost start = match starting_config.deep_view() {
            Some(m) => m,
            None => VariantConfigModel::unset(),
        };
        let keys = config_keys(variant);
        let mut acc = match starting_config {
            Some(c) => c,
            None => GenericVariantConfig::default(),
        };
        let mut i: usize = 0;
        while i < keys.len()
            invariant
                i <= keys.len(),
                keys.deep_view() == all_keys,
                keys@.len() == all_keys.len(),
                store == self.configs.deep_view(),
                acc.deep_view() == resolve_keys(start, store, all_keys.take(i as int), arch@, test_type@),
            decreases keys.len() - i,
        {
            let key = &keys[i];
            proof {
                assert(all_keys.take(i + 1 as int) =~= all_keys.take(i as int).push(all_keys[i as int]));
                lemma_resolve_keys_push(
                    start,
                    store,
                    all_keys.take(i as int),
                    all_keys[i as int],
                    arch@,
                    test_type@,
                );
                assert(key@ == all_keys[i as int]);
            }
            if !key.as_str().is_empty() {
                match find_entry(&self.configs, key) {
                    Some(entry) => {
                        acc = apply_entry(acc, entry, arch, test_type);
                    },
                    None => {},
                }
            }
            i = i + 1;
        }
        proof {
            assert(all_keys.take(keys@.len() as int) =~= all_keys);
        }
        acc
    }
}


/// Every field that is set in `a` keeps exactly its value in `b`.
pub open spec fn set_fields_kept(a: VariantConfigModel, b: VariantConfigModel) -> bool {
    &&& a.cluster_names.len() > 0 ==> b.cluster_names == a.cluster_names
    &&& a.instance_type is Some ==> b.instance_type == a.instance_type
    &&& a.secrets.len() > 0 ==> b.secrets == a.secrets
    &&& a.agent_role is Some ==> b.agent_role == a.agent_role
    &&& a.conformance_image is Some ==> b.conformance_image == a.conformance_image
    &&& a.conformance_registry is Some ==> b.conformance_registry == a.conformance_registry
    &&& a.control_plane_endpoint is Some ==> b.control_plane_endpoint == a.control_plane_endpoint
    &&& a.userdata is Some ==> b.userdata == a.userdata
}

/// Keeping set fields is transitive.
proof fn lemma_kept_trans(a: VariantConfigModel, b: VariantConfigModel, c: VariantConfigModel)
    requires
        set_fields_kept(a, b),
        set_fields_kept(b, c),
    ensures
        set_fields_kept(a, c),
{
}

/// A merge never overwrites a set field of its accumulator.
proof fn lemma_merge_keeps(a: VariantConfigModel, b: VariantConfigModel)
    ensures
        set_fields_kept(a, a.merge(b)),
{
}

/// One key contribution never overwrites a set field of its accumulator.
proof fn lemma_key_apply_keeps(
    acc: VariantConfigModel,
    entry: GenericConfigModel,
    arch: Seq<char>,
    kind: Seq<char>,
)
    ensures
        set_fields_kept(acc, key_apply(acc, entry, arch, kind)),
{
    let t = match kind_lookup(entry.kinds, kind) {
        Some(t) => t,
        None => TestTypeModel::unset(),
    };
    let m1 = acc.merge(arch_config(t.aarch64, t.x86_64, arch));
    let m2 = m1.merge(t.config);
    let m3 = m2.merge(arch_config(entry.aarch64, entry.x86_64, arch));
    let m4 = m3.merge(entry.config);
    lemma_merge_keeps(acc, arch_config(t.aarch64, t.x86_64, arch));
    lemma_merge_keeps(m1, t.config);
    lemma_merge_keeps(m2, arch_config(entry.aarch64, entry.x86_64, arch));
    lemma_merge_keeps(m3, entry.config);
    lemma_kept_trans(acc, m1, m2);
    lemma_kept_trans(acc, m2, m3);
    lemma_kept_trans(acc, m3, m4);
}

/// Resolving one key never overwrites a set field of its accumulator.
proof fn lemma_resolve_key_keeps(
    acc: VariantConfigModel,
    store: Seq<(Seq<char>, GenericConfigModel)>,
    key: Seq<char>,
    arch: Seq<char>,
    kind: Seq<char>,
)
    ensures
        set_fields_kept(acc, resolve_key(acc, store, key, arch, kind)),
{
    if key.len() != 0 {
        match store_lookup(store, key) {
            Some(e) => lemma_key_apply_keeps(acc, e, arch, kind),
            None => {},
        }
    }
}

/// Resolving any key list never overwrites a set field of its accumulator.
proof fn lemma_resolve_keys_keeps(
    acc: VariantConfigModel,
    store: Seq<(Seq<char>, GenericConfigModel)>,
    keys: Seq<Seq<char>>,
    arch: Seq<char>,
    kind: Seq<char>,
)
    ensures
        set_fields_kept(acc, resolve_keys(acc, store, keys, arch, kind)),
    decreases keys.len(),
{
    if keys.len() > 0 {
        let stepped = resolve_key(acc, store, keys[0], arch, kind);
        lemma_resolve_key_keeps(acc, store, keys[0], arch, kind);
        lemma_resolve_keys_keeps(stepped, store, keys.drop_first(), arch, kind);
        lemma_kept_trans(acc, stepped, resolve_keys(stepped, store, keys.drop_first(), arch, kind));
    }
}

/// Resolution is deterministic: it is a function of the store, the variant,
/// the architecture, the test kind and the starting configuration alone, so
/// two resolutions over equal inputs yield equal results.
pub proof fn lemma_resolution_deterministic(
    store1: Seq<(Seq<char>, GenericConfigModel)>,
    store2: Seq<(Seq<char>, GenericConfigModel)>,
    v1: VariantModel,
    v2: VariantModel,
    arch1: Seq<char>,
    arch2: Seq<char>,
    kind1: Seq<char>,
    kind2: Seq<char>,
    start1: VariantConfigModel,
    start2: VariantConfigModel,
)
    requires
        store1 == store2,
        v1 == v2,
        arch1 == arch2,
        kind1 == kind2,
        start1 == start2,
    ensures
        spec_reduced_config(store1, v1, arch1, kind1, start1) == spec_reduced_config(
            store2,
            v2,
            arch2,
            kind2,
            start2,
        ),
{
}

/// A caller-supplied starting configuration always wins: every field it
/// sets keeps exactly that value through resolution, whatever the store
/// holds at any key.
pub proof fn lemma_starting_config_wins(
    store: Seq<(Seq<char>, GenericConfigModel)>,
    v: VariantModel,
    arch: Seq<char>,
    kind: Seq<char>,
    start: VariantConfigModel,
)
    ensures
        set_fields_kept(start, spec_reduced_config(store, v, arch, kind, start)),
{
    lemma_resolve_keys_keeps(start, store, spec_config_keys(v), arch, kind);
}

/// When no key of the variant has an entry in the store, resolution returns
/// the starting configuration unchanged; in particular, with no starting
/// configuration it returns the all-unset default.
pub proof fn lemma_unmatched_store_resolves_to_start(
    store: Seq<(Seq<char>, GenericConfigModel)>,
    v: VariantModel,
    arch: Seq<char>,
    kind: Seq<char>,
    start: VariantConfigModel,
)
    requires
        forall|i: int|
            0 <= i < spec_config_keys(v).len() ==> (spec_config_keys(v)[i].len() == 0
                || store_lookup(store, spec_config_keys(v)[i]) is None),
    ensures
        spec_reduced_config(store, v, arch, kind, start) == start,
{
    lemma_resolve_keys_skips_unmatched(start, store, spec_config_keys(v), arch, kind);
}

/// Resolving a key list in which every key is empty or unmatched leaves the
/// accumulator unchanged.
proof fn lemma_resolve_keys_skips_unmatched(
    acc: VariantConfigModel,
    store: Seq<(Seq<char>, GenericConfigModel)>,
    keys: Seq<Seq<char>>,
    arch: Seq<char>,
    kind: Seq<char>,
)
    requires
        forall|i: int|
            0 <= i < keys.len() ==> (keys[i].len() == 0 || store_lookup(store, keys[i]) is None),
    ensures
        resolve_keys(acc, store, keys, arch, kind) == acc,
    decreases keys.len(),
{
    if keys.len() > 0 {
        assert(resolve_key(acc, store, keys[0], arch, kind) == acc);
        assert(forall|i: int|
            0 <= i < keys.drop_first().len() ==> (keys.drop_first()[i].len() == 0 || store_lookup(
                store,
                keys.drop_first()[i],
            ) is None));
        lemma_resolve_keys_skips_unmatched(acc, store, keys.drop_first(), arch, kind);
    }
}

/// A more specific key beats a less specific one: for a flavor-less variant
/// whose full identifier has no entry, every field that the family key's
/// contribution sets keeps exactly that value through the rest of
/// resolution, whatever the platform key's entry would set it to.
pub proof fn lemma_family_key_beats_platform_key(
    store: Seq<(Seq<char>, GenericConfigModel)>,
    v: VariantModel,
    arch: Seq<char>,
    kind: Seq<char>,
    start: VariantConfigModel,
)
    requires
        v.flavor is None,
        v.full.len() == 0 || store_lookup(store, v.full) is None,
        v.family.len() > 0,
        store_lookup(store, v.family) is Some,
    ensures
        set_fields_kept(
            key_apply(start, store_lookup(store, v.family).unwrap(), arch, kind),
            spec_reduced_config(store, v, arch, kind, start),
        ),
{
    let keys = spec_config_keys(v);
    let fe = store_lookup(store, v.family).unwrap();
    let mid = key_apply(start, fe, arch, kind);
    assert(keys[0] == v.full);
    assert(keys[1].len() == 0);
    assert(keys[2] == v.family);
    assert(keys[3].len() == 0);
    assert(keys[4] == v.platform);
    assert(resolve_key(start, store, keys[0], arch, kind) == start);
    assert(resolve_key(start, store, keys[1], arch, kind) == start);
    assert(resolve_key(start, store, keys[2], arch, kind) == mid);
    let tail2 = keys.drop_first().drop_first();
    let tail3 = tail2.drop_first();
    let tail4 = tail3.drop_first();
    let tail5 = tail4.drop_first();
    assert(resolve_keys(start, store, keys, arch, kind) == resolve_keys(
        start,
        store,
        keys.drop_first(),
        arch,
        kind,
    ));
    assert(resolve_keys(start, store, keys.drop_first(), arch, kind) == resolve_keys(
        start,
        store,
        tail2,
        arch,
        kind,
    ));
    assert(tail2[0] == v.family);
    assert(resolve_keys(start, store, tail2, arch, kind) == resolve_keys(
        mid,
        store,
        tail3,
        arch,
        kind,
    ));
    assert(tail3[0].len() == 0);
    assert(resolve_keys(mid, store, tail3, arch, kind) == resolve_keys(
        mid,
        store,
        tail4,
        arch,
        kind,
    ));
    lemma_resolve_key_keeps(mid, store, tail4[0], arch, kind);
    let last = resolve_key(mid, store, tail4[0], arch, kind);
    assert(resolve_keys(mid, store, tail4, arch, kind) == resolve_keys(
        last,
        store,
        tail5,
        arch,
        kind,
    ));
    assert(tail5.len() == 0);
    assert(resolve_keys(last, store, tail5, arch, kind) == last);
}


/// A variant always yields exactly five keys, most specific first: the
/// full identifier, the family-flavor key, the family, the
/// platform-flavor key, and the platform. Flavor-less variants yield empty
/// strings in the two flavor-derived positions.
pub proof fn lemma_config_keys_shape(v: VariantModel)
    ensures
        spec_config_keys(v).len() == 5,
        spec_config_keys(v)[0] == v.full,
        spec_config_keys(v)[2] == v.family,
        spec_config_keys(v)[4] == v.platform,
        v.flavor is None ==> spec_config_keys(v)[1].len() == 0 && spec_config_keys(v)[3].len()
            == 0,
        v.flavor matches Some(f) ==> spec_config_keys(v)[1] == v.family + "-"@ + f
            && spec_config_keys(v)[3] == v.platform + "-"@ + f,
{
}


/// Keys are pairwise distinct, as loading a key-value document yields.
pub open spec fn distinct_keys<T>(entries: Seq<(Seq<char>, T)>) -> bool {
    forall|i: int, j: int| 0 <= i < j < entries.len() ==> entries[i].0 != entries[j].0
}

impl TestConfig {
    /// The store invariant a loaded configuration document upholds: one
    /// entry per key, and one nested entry per test kind inside each.
    pub open spec fn wf(&self) -> bool {
        &&& distinct_keys(self.configs.deep_view())
        &&& forall|i: int|
            0 <= i < self.configs.deep_view().len() ==> distinct_keys(
                #[trigger] self.configs.deep_view()[i].1.kinds,
            )
    }
}

/// Under distinct keys, the first-match lookup is the only match: which
/// entry resolution reads does not depend on entry order.
pub proof fn lemma_store_lookup_unique(
    store: Seq<(Seq<char>, GenericConfigModel)>,
    key: Seq<char>,
    i: int,
)
    requires
        distinct_keys(store),
        0 <= i < store.len(),
        store[i].0 == key,
    ensures
        store_lookup(store, key) == Some(store[i].1),
{
    assert(forall|j: int| 0 <= j < i ==> store[j].0 != key);
    lemma_store_lookup_at(store, key, i);
}


/// The instance type one entry contributes on its own: the first set value
/// along its test-kind and architecture precedence chain.
pub open spec fn key_instance_type(
    entry: GenericConfigModel,
    arch: Seq<char>,
    kind: Seq<char>,
) -> Option<Seq<char>> {
    key_apply(VariantConfigModel::unset(), entry, arch, kind).instance_type
}

/// One key application either keeps an already-set instance type or takes
/// the entry's own contribution.
proof fn lemma_key_apply_instance_type(
    acc: VariantConfigModel,
    entry: GenericConfigModel,
    arch: Seq<char>,
    kind: Seq<char>,
)
    ensures
        key_apply(acc, entry, arch, kind).instance_type == if acc.instance_type is Some {
            acc.instance_type
        } else {
            key_instance_type(entry, arch, kind)
        },
{
}

/// The key contributes no instance type: it is empty, unmatched, or its
/// entry leaves the field unset.
pub open spec fn key_skips_instance_type(
    store: Seq<(Seq<char>, GenericConfigModel)>,
    key: Seq<char>,
    arch: Seq<char>,
    kind: Seq<char>,
) -> bool {
    ||| key.len() == 0
    ||| store_lookup(store, key) is None
    ||| key_instance_type(store_lookup(store, key).unwrap(), arch, kind) is None
}

/// Resolving a key that contributes no instance type leaves an unset
/// instance type unset.
proof fn lemma_resolve_key_skips_instance_type(
    acc: VariantConfigModel,
    store: Seq<(Seq<char>, GenericConfigModel)>,
    key: Seq<char>,
    arch: Seq<char>,
    kind: Seq<char>,
)
    requires
        acc.instance_type is None,
        key_skips_instance_type(store, key, arch, kind),
    ensures
        resolve_key(acc, store, key, arch, kind).instance_type is None,
{
    if key.len() != 0 {
        match store_lookup(store, key) {
            Some(e) => lemma_key_apply_instance_type(acc, e, arch, kind),
            None => {},
        }
    }
}

/// The more specific family key beats the platform key for the instance
/// type: when neither the full identifier nor the family-flavor key
/// contributes one and the starting configuration leaves it unset, the
/// resolved instance type is exactly the family entry's contribution,
/// whatever the platform-flavor or platform entries would set it to.
pub proof fn lemma_family_instance_type_beats_platform(
    store: Seq<(Seq<char>, GenericConfigModel)>,
    v: VariantModel,
    arch: Seq<char>,
    kind: Seq<char>,
    start: VariantConfigModel,
)
    requires
        start.instance_type is None,
        key_skips_instance_type(store, v.full, arch, kind),
        key_skips_instance_type(store, family_flavor_key(v), arch, kind),
        v.family.len() > 0,
        store_lookup(store, v.family) is Some,
        key_instance_type(store_lookup(store, v.family).unwrap(), arch, kind) is Some,
    ensures
        spec_reduced_config(store, v, arch, kind, start).instance_type == key_instance_type(
            store_lookup(store, v.family).unwrap(),
            arch,
            kind,
        ),
{
    let keys = spec_config_keys(v);
    let fe = store_lookup(store, v.family).unwrap();
    assert(keys[0] == v.full);
    assert(keys[1] == family_flavor_key(v));
    assert(keys[2] == v.family);
    assert(keys[3] == platform_flavor_key(v));
    assert(keys[4] == v.platform);
    let a0 = resolve_key(start, store, keys[0], arch, kind);
    lemma_resolve_key_skips_instance_type(start, store, keys[0], arch, kind);
    let a1 = resolve_key(a0, store, keys[1], arch, kind);
    lemma_resolve_key_skips_instance_type(a0, store, keys[1], arch, kind);
    let a2 = resolve_key(a1, store, keys[2], arch, kind);
    lemma_key_apply_instance_type(a1, fe, arch, kind);
    assert(a2.instance_type == key_instance_type(fe, arch, kind));
    let a3 = resolve_key(a2, store, keys[3], arch, kind);
    lemma_resolve_key_keeps(a2, store, keys[3], arch, kind);
    let a4 = resolve_key(a3, store, keys[4], arch, kind);
    lemma_resolve_key_keeps(a3, store, keys[4], arch, kind);

    let t1 = keys.drop_first();
    let t2 = t1.drop_first();
    let t3 = t2.drop_first();
    let t4 = t3.drop_first();
    let t5 = t4.drop_first();
    assert(t1[0] == keys[1]);
    assert(t2[0] == keys[2]);
    assert(t3[0] == keys[3]);
    assert(t4[0] == keys[4]);
    assert(t5.len() == 0);
    assert(resolve_keys(start, store, keys, arch, kind) == resolve_keys(a0, store, t1, arch, kind));
    assert(resolve_keys(a0, store, t1, arch, kind) == resolve_keys(a1, store, t2, arch, kind));
    assert(resolve_keys(a1, store, t2, arch, kind) == resolve_keys(a2, store, t3, arch, kind));
    assert(resolve_keys(a2, store, t3, arch, kind) == resolve_keys(a3, store, t4, arch, kind));
    assert(resolve_keys(a3, store, t4, arch, kind) == resolve_keys(a4, store, t5, arch, kind));
    assert(resolve_keys(a4, store, t5, arch, kind) == a4);
}

} // verus!
