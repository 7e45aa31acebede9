//! URIs of the agent and controller container images used by a test run.

use vstd::prelude::*;

verus! {

/// The specification-level value of a [`TestsysImages`].
pub ghost struct ImagesModel {
    pub eks_resource_agent_image: Option<Seq<char>>,
    pub ecs_resource_agent_image: Option<Seq<char>>,
    pub vsphere_k8s_cluster_resource_agent_image: Option<Seq<char>>,
    pub ec2_resource_agent_image: Option<Seq<char>>,
    pub vsphere_vm_resource_agent_image: Option<Seq<char>>,
    pub sonobuoy_test_agent_image: Option<Seq<char>>,
    pub ecs_test_agent_image: Option<Seq<char>>,
    pub migration_test_agent_image: Option<Seq<char>>,
    pub controller_image: Option<Seq<char>>,
    pub testsys_agent_pull_secret: Option<Seq<char>>,
}

/// Where the two image configurations disagree, the first one's set values
/// win; unset fields fall back to the second one's values.
pub open spec fn images_merge(first: ImagesModel, second: ImagesModel) -> ImagesModel {
    ImagesModel {
        eks_resource_agent_image: if first.eks_resource_agent_image is Some {
            first.eks_resource_agent_image
        } else {
            second.eks_resource_agent_image
        },
        ecs_resource_agent_image: if first.ecs_resource_agent_image is Some {
            first.ecs_resource_agent_image
        } else {
            second.ecs_resource_agent_image
        },
        vsphere_k8s_cluster_resource_agent_image: if first.vsphere_k8s_cluster_resource_agent_image
            is Some {
            first.vsphere_k8s_cluster_resource_agent_image
        } else {
            second.vsphere_k8s_cluster_resource_agent_image
        },
        ec2_resource_agent_image: if first.ec2_resource_agent_image is Some {
            first.ec2_resource_agent_image
        } else {
            second.ec2_resource_agent_image
        },
        vsphere_vm_resource_agent_image: if first.vsphere_vm_resource_agent_image is Some {
            first.vsphere_vm_resource_agent_image
        } else {
            second.vsphere_vm_resource_agent_image
        },
        sonobuoy_test_agent_image: if first.sonobuoy_test_agent_image is Some {
            first.sonobuoy_test_agent_image
        } else {
            second.sonobuoy_test_agent_image
        },
        ecs_test_agent_image: if first.ecs_test_agent_image is Some {
            first.ecs_test_agent_image
        } else {
            second.ecs_test_agent_image
        },
        migration_test_agent_image: if first.migration_test_agent_image is Some {
            first.migration_test_agent_image
        } else {
            second.migration_test_agent_image
        },
        controller_image: if first.controller_image is Some {
            first.controller_image
        } else {
            second.controller_image
        },
        testsys_agent_pull_secret: if first.testsys_agent_pull_secret is Some {
            first.testsys_agent_pull_secret
        } else {
            second.testsys_agent_pull_secret
        },
    }
}

/// The tag used when none is configured: a `v` prefix on the controller
/// version this crate plans for.
pub open spec fn default_tag() -> Seq<char> {
    "v"@ + testsys_version_spec()
}

/// The controller version, at the specification level.
pub open spec fn testsys_version_spec() -> Seq<char> {
    "0.0.4"@
}

/// The version of the test-system controller that agent images are tagged
/// with by default.
pub fn testsys_version() -> (r: &'static str)
    ensures
        r@ == testsys_version_spec(),
{
    "0.0.4"
}

/// The URI `<registry>/<name>:<tag>`.
pub open spec fn image_uri(registry: Seq<char>, name: Seq<char>, tag: Seq<char>) -> Seq<char> {
    registry + "/"@ + name + ":"@ + tag
}

/// The URIs of the TestSys agent and controller images.
pub struct TestsysImages {
    pub eks_resource_agent_image: Option<String>,
    pub ecs_resource_agent_image: Option<String>,
    pub vsphere_k8s_cluster_resource_agent_image: Option<String>,
    pub ec2_resource_agent_image: Option<String>,
    pub vsphere_vm_resource_agent_image: Option<String>,
    pub sonobuoy_test_agent_image: Option<String>,
    pub ecs_test_agent_image: Option<String>,
    pub migration_test_agent_image: Option<String>,
    pub controller_image: Option<String>,
    pub testsys_agent_pull_secret: Option<String>,
}

impl DeepView for TestsysImages {
    type V = ImagesModel;

    open spec fn deep_view(&self) -> ImagesModel {
        ImagesModel {
            eks_resource_agent_image: self.eks_resource_agent_image.deep_view(),
            ecs_resource_agent_image: self.ecs_resource_agent_image.deep_view(),
            vsphere_k8s_cluster_resource_agent_image:
                self.vsphere_k8s_cluster_resource_agent_image.deep_view(),
            ec2_resource_agent_image: self.ec2_resource_agent_image.deep_view(),
            vsphere_vm_resource_agent_image: self.vsphere_vm_resource_agent_image.deep_view(),
            sonobuoy_test_agent_image: self.sonobuoy_test_agent_image.deep_view(),
            ecs_test_agent_image: self.ecs_test_agent_image.deep_view(),
            migration_test_agent_image: self.migration_test_agent_image.deep_view(),
            controller_image: self.controller_image.deep_view(),
            testsys_agent_pull_secret: self.testsys_agent_pull_secret.deep_view(),
        }
    }
}

impl TestsysImages {
    /// An images configuration for one registry: every agent image is set to
    /// `<registry>/<agent name>:<tag>`, with the tag defaulting to the
    /// controller version; no pull secret is set.
    pub fn new(registry: String, tag: Option<String>) -> (r: Self)
        ensures
            ({
                let t = match tag.deep_view() {
                    Some(t) => t,
                    None => default_tag(),
                };
                r.deep_view() == (ImagesModel {
                    eks_resource_agent_image: Some(
                        image_uri(registry@, "eks-resource-agent"@, t),
                    ),
                    ecs_resource_agent_image: Some(
                        image_uri(registry@, "ecs-resource-agent"@, t),
                    ),
                    vsphere_k8s_cluster_resource_agent_image: Some(
                        image_uri(registry@, "vsphere-k8s-cluster-resource-agent"@, t),
                    ),
                    ec2_resource_agent_image: Some(
                        image_uri(registry@, "ec2-resource-agent"@, t),
                    ),
                    vsphere_vm_resource_agent_image: Some(
                        image_uri(registry@, "vsphere-vm-resource-agent"@, t),
                    ),
                    sonobuoy_test_agent_image: Some(
                        image_uri(registry@, "sonobuoy-test-agent"@, t),
                    ),
                    ecs_test_agent_image: Some(image_uri(registry@, "ecs-test-agent"@, t)),
                    migration_test_agent_image: Some(
                        image_uri(registry@, "migration-test-agent"@, t),
                    ),
                    controller_image: Some(image_uri(registry@, "controller"@, t)),
                    testsys_agent_pull_secret: None,
                })
            }),
    {
        let tag: String = match tag {
            Some(t) => t,
            None => String::from_str("v").concat(testsys_version()),
        };
        TestsysImages {
            eks_resource_agent_image: Some(Self::uri(&registry, "eks-resource-agent", &tag)),
            ecs_resource_agent_image: Some(Self::uri(&registry, "ecs-resource-agent", &tag)),
            vsphere_k8s_cluster_resource_agent_image: Some(
                Self::uri(&registry, "vsphere-k8s-cluster-resource-agent", &tag),
            ),
            ec2_resource_agent_image: Some(Self::uri(&registry, "ec2-resource-agent", &tag)),
            vsphere_vm_resource_agent_image: Some(
                Self::uri(&registry, "vsphere-vm-resource-agent", &tag),
            ),
            sonobuoy_test_agent_image: Some(Self::uri(&registry, "sonobuoy-test-agent", &tag)),
            ecs_test_agent_image: Some(Self::uri(&registry, "ecs-test-agent", &tag)),
            migration_test_agent_image: Some(Self::uri(&registry, "migration-test-agent", &tag)),
            controller_image: Some(Self::uri(&registry, "controller", &tag)),
            testsys_agent_pull_secret: None,
        }
    }

    /// The URI `<registry>/<name>:<tag>`.
    fn uri(registry: &String, name: &str, tag: &String) -> (r: String)
        ensures
            r@ == image_uri(registry@, name@, tag@),
    {
        registry.clone().concat("/").concat(name).concat(":").concat(tag.as_str())
    }

    /// Field-wise merge: this configuration's set values win, the other's
    /// fill the gaps.
    pub fn merge(self, other: Self) -> (r: Self)
        ensures
            r.deep_view() == images_merge(self.deep_view(), other.deep_view()),
    {
        TestsysImages {
            eks_resource_agent_image: match self.eks_resource_agent_image {
                Some(v) => Some(v),
                None => other.eks_resource_agent_image,
            },
            ecs_resource_agent_image: match self.ecs_resource_agent_image {
                Some(v) => Some(v),
                None => other.ecs_resource_agent_image,
            },
            vsphere_k8s_cluster_resource_agent_image: match self
                .vsphere_k8s_cluster_resource_agent_image {
                Some(v) => Some(v),
                None => other.vsphere_k8s_cluster_resource_agent_image,
            },
            ec2_resource_agent_image: match self.ec2_resource_agent_image {
                Some(v) => Some(v),
                None => other.ec2_resource_agent_image,
            },
            vsphere_vm_resource_agent_image: match self.vsphere_vm_resource_agent_image {
                Some(v) => Some(v),
                None => other.vsphere_vm_resource_agent_image,
            },
            sonobuoy_test_agent_image: match self.sonobuoy_test_agent_image {
                Some(v) => Some(v),
                None => other.sonobuoy_test_agent_image,
            },
            ecs_test_agent_image: match self.ecs_test_agent_image {
                Some(v) => Some(v),
                None => other.ecs_test_agent_image,
            },
            migration_test_agent_image: match self.migration_test_agent_image {
                Some(v) => Some(v),
                None => other.migration_test_agent_image,
            },
            controller_image: match self.controller_image {
                Some(v) => Some(v),
                None => other.controller_image,
            },
            testsys_agent_pull_secret: match self.testsys_agent_pull_secret {
                Some(v) => Some(v),
                None => other.testsys_agent_pull_secret,
            },
        }
    }

    /// The images configuration for the public registry: every agent and
    /// controller image set to its default-tagged public URI, and no pull
    /// secret.
    pub fn public_images() -> (r: Self)
        ensures
            r.deep_view() == public_images_model(),
    {
        Self::new(String::from_str("public.ecr.aws/bottlerocket-test-system"), None)
    }
}

/// The full model of the public images configuration: exactly what
/// [`TestsysImages::new`] yields for the public registry with no tag.
pub open spec fn public_images_model() -> ImagesModel {
    ImagesModel {
        eks_resource_agent_image: Some(
            image_uri(public_registry(), "eks-resource-agent"@, default_tag()),
        ),
        ecs_resource_agent_image: Some(
            image_uri(public_registry(), "ecs-resource-agent"@, default_tag()),
        ),
        vsphere_k8s_cluster_resource_agent_image: Some(
            image_uri(public_registry(), "vsphere-k8s-cluster-resource-agent"@, default_tag()),
        ),
        ec2_resource_agent_image: Some(
            image_uri(public_registry(), "ec2-resource-agent"@, default_tag()),
        ),
        vsphere_vm_resource_agent_image: Some(
            image_uri(public_registry(), "vsphere-vm-resource-agent"@, default_tag()),
        ),
        sonobuoy_test_agent_image: Some(
            image_uri(public_registry(), "sonobuoy-test-agent"@, default_tag()),
        ),
        ecs_test_agent_image: Some(image_uri(public_registry(), "ecs-test-agent"@, default_tag())),
        migration_test_agent_image: Some(
            image_uri(public_registry(), "migration-test-agent"@, default_tag()),
        ),
        controller_image: Some(image_uri(public_registry(), "controller"@, default_tag())),
        testsys_agent_pull_secret: None,
    }
}

/// The registry that holds the publicly published agent images.
pub open spec fn public_registry() -> Seq<char> {
    "public.ecr.aws/bottlerocket-test-system"@
}


/// The images configuration with nothing set.
pub open spec fn unset_images_model() -> ImagesModel {
    ImagesModel {
        eks_resource_agent_image: None,
        ecs_resource_agent_image: None,
        vsphere_k8s_cluster_resource_agent_image: None,
        ec2_resource_agent_image: None,
        vsphere_vm_resource_agent_image: None,
        sonobuoy_test_agent_image: None,
        ecs_test_agent_image: None,
        migration_test_agent_image: None,
        controller_image: None,
        testsys_agent_pull_secret: None,
    }
}

impl Default for TestsysImages {
    /// The configuration with every image unset.
    fn default() -> (r: Self)
        ensures
            r.deep_view() == unset_images_model(),
    {
        TestsysImages {
            eks_resource_agent_image: None,
            ecs_resource_agent_image: None,
            vsphere_k8s_cluster_resource_agent_image: None,
            ec2_resource_agent_image: None,
            vsphere_vm_resource_agent_image: None,
            sonobuoy_test_agent_image: None,
            ecs_test_agent_image: None,
            migration_test_agent_image: None,
            controller_image: None,
            testsys_agent_pull_secret: None,
        }
    }
}

impl Clone for TestsysImages {
    fn clone(&self) -> (r: Self)
        ensures
            r.deep_view() == self.deep_view(),
    {
        TestsysImages {
            eks_resource_agent_image: crate::config::clone_opt_string(
                &self.eks_resource_agent_image,
            ),
            ecs_resource_agent_image: crate::config::clone_opt_string(
                &self.ecs_resource_agent_image,
            ),
            vsphere_k8s_cluster_resource_agent_image: crate::config::clone_opt_string(
                &self.vsphere_k8s_cluster_resource_agent_image,
            ),
            ec2_resource_agent_image: crate::config::clone_opt_string(
                &self.ec2_resource_agent_image,
            ),
            vsphere_vm_resource_agent_image: crate::config::clone_opt_string(
                &self.vsphere_vm_resource_agent_image,
            ),
            sonobuoy_test_agent_image: crate::config::clone_opt_string(
                &self.sonobuoy_test_agent_image,
            ),
            ecs_test_agent_image: crate::config::clone_opt_string(&self.ecs_test_agent_image),
            migration_test_agent_image: crate::config::clone_opt_string(
                &self.migration_test_agent_image,
            ),
            controller_image: crate::config::clone_opt_string(&self.controller_image),
            testsys_agent_pull_secret: crate::config::clone_opt_string(
                &self.testsys_agent_pull_secret,
            ),
        }
    }
}

} // verus!
