//! A read-only view of the external resource store, queried to make
//! descriptor creation idempotent.

use vstd::prelude::*;

use crate::labels::{label_get, Labels};

verus! {

/// The specification-level value of a [`StoredResource`].
#[verifier::ext_equal]
pub ghost struct ResourceModel {
    pub name: Seq<char>,
    pub labels: Seq<(Seq<char>, Seq<char>)>,
}

/// One resource already known to the execution controller: its name and its
/// identity labels.
pub struct StoredResource {
    pub name: String,
    pub labels: Labels,
}

impl DeepView for StoredResource {
    type V = ResourceModel;

    open spec fn deep_view(&self) -> ResourceModel {
        ResourceModel { name: self.name@, labels: self.labels.deep_view() }
    }
}

/// The resources visible in the external store at planning time.
pub struct ResourceStore {
    pub resources: Vec<StoredResource>,
}

impl DeepView for ResourceStore {
    type V = Seq<ResourceModel>;

    open spec fn deep_view(&self) -> Seq<ResourceModel> {
        self.resources.deep_view()
    }
}

/// A resource matches a selector when its labels hold every selector pair.
pub open spec fn resource_matches(r: ResourceModel, sel: Seq<(Seq<char>, Seq<char>)>) -> bool {
    forall|j: int| 0 <= j < sel.len() ==> label_get(r.labels, sel[j].0) == Some(sel[j].1)
}

/// The names of all resources matching the selector, in store order.
pub open spec fn matching_names(
    resources: Seq<ResourceModel>,
    sel: Seq<(Seq<char>, Seq<char>)>,
) -> Seq<Seq<char>>
    decreases resources.len(),
{
    if resources.len() == 0 {
        Seq::empty()
    } else {
        let rest = matching_names(resources.drop_first(), sel);
        if resource_matches(resources[0], sel) {
            seq![resources[0].name] + rest
        } else {
            rest
        }
    }
}

/// One more resource at the right end contributes its name at the right end.
proof fn lemma_matching_names_push(
    resources: Seq<ResourceModel>,
    r: ResourceModel,
    sel: Seq<(Seq<char>, Seq<char>)>,
)
    ensures
        matching_names(resources.push(r), sel) == matching_names(resources, sel) + (
        if resource_matches(r, sel) {
            seq![r.name]
        } else {
            Seq::<Seq<char>>::empty()
        }),
    decreases resources.len(),
{
    let pushed = resources.push(r);
    let tail = if resource_matches(r, sel) {
        seq![r.name]
    } else {
        Seq::<Seq<char>>::empty()
    };
    if resources.len() == 0 {
        assert(pushed[0] == r);
        assert(pushed.drop_first() =~= Seq::<ResourceModel>::empty());
        assert(matching_names(pushed.drop_first(), sel) == Seq::<Seq<char>>::empty());
        assert(matching_names(pushed, sel) =~= tail);
        assert(matching_names(resources, sel) + tail =~= tail);
    } else {
        assert(pushed[0] == resources[0]);
        assert(pushed.drop_first() =~= resources.drop_first().push(r));
        lemma_matching_names_push(resources.drop_first(), r, sel);
        if resource_matches(resources[0], sel) {
            assert(matching_names(pushed, sel) == seq![resources[0].name] + matching_names(
                resources.drop_first().push(r),
                sel,
            ));
            assert(seq![resources[0].name] + (matching_names(resources.drop_first(), sel) + tail)
                =~= (seq![resources[0].name] + matching_names(resources.drop_first(), sel)) + tail);
        } else {
            assert(matching_names(pushed, sel) == matching_names(
                resources.drop_first().push(r),
                sel,
            ));
        }
    }
}

/// Whether the resource's labels hold every selector pair.
fn matches_selector(resource: &StoredResource, selector: &Labels) -> (r: bool)
    ensures
        r == resource_matches(resource.deep_view(), selector.deep_view()),
{
    let ghost sel = selector.deep_view();
    let mut j: usize = 0;
    while j < selector.pairs.len()
        invariant
            j <= selector.pairs.len(),
            sel == selector.deep_view(),
            forall|k: int|
                0 <= k < j ==> label_get(resource.deep_view().labels, sel[k].0) == Some(sel[k].1),
        decreases selector.pairs.len() - j,
    {
        let wanted = &selector.pairs[j];
        proof {
            assert(sel[j as int] == (wanted.key@, wanted.value@));
        }
        match resource.labels.get(wanted.key.as_str()) {
            Some(v) => {
                if !crate::text::str_eq(v.as_str(), wanted.value.as_str()) {
                    proof {
                        assert(label_get(resource.deep_view().labels, sel[j as int].0) == Some(
                            v@,
                        ));
                        assert(!resource_matches(resource.deep_view(), sel));
                    }
                    return false;
                }
            },
            None => {
                proof {
                    assert(label_get(resource.deep_view().labels, sel[j as int].0) is None);
                    assert(!resource_matches(resource.deep_view(), sel));
                }
                return false;
            },
        }
        j = j + 1;
    }
    true
}

impl ResourceStore {
    /// A store over the given resources.
    pub fn new(resources: Vec<StoredResource>) -> (r: Self)
        ensures
            r.deep_view() == resources.deep_view(),
    {
        ResourceStore { resources }
    }

    /// An empty store.
    pub fn empty() -> (r: Self)
        ensures
            r.deep_view() == Seq::<ResourceModel>::empty(),
    {
        let r = ResourceStore { resources: Vec::new() };
        proof {
            assert(r.deep_view() =~= Seq::<ResourceModel>::empty());
        }
        r
    }

    /// The names of all resources whose labels hold every selector pair, in
    /// store order.
    pub fn list(&self, selector: &Labels) -> (r: Vec<String>)
        ensures
            r.deep_view() == matching_names(self.deep_view(), selector.deep_view()),
    {
        let ghost resources = self.deep_view();
        let ghost sel = selector.deep_view();
        let mut out: Vec<String> = Vec::new();
        let mut i: usize = 0;
        while i < self.resources.len()
            invariant
                i <= self.resources.len(),
                resources == self.deep_view(),
                sel == selector.deep_view(),
                out.deep_view() == matching_names(resources.take(i as int), sel),
            decreases self.resources.len() - i,
        {
            proof {
                assert(resources.take(i + 1) =~= resources.take(i as int).push(resources[i as int]));
                lemma_matching_names_push(resources.take(i as int), resources[i as int], sel);
            }
            if matches_selector(&self.resources[i], selector) {
                let ghost prev = out.deep_view();
                out.push(self.resources[i].name.clone());
                proof {
                    assert(out.deep_view() =~= prev.push(resources[i as int].name));
                    assert(prev.push(resources[i as int].name) =~= prev + seq![
                        resources[i as int].name,
                    ]);
                }
            } else {
                proof {
                    assert(out.deep_view() + Seq::<Seq<char>>::empty() =~= out.deep_view());
                }
            }
            i = i + 1;
        }
        proof {
            assert(resources.take(self.resources.len() as int) =~= resources);
        }
        out
    }
}

} // verus!
