//! Variant identity: the build target a test run is planned for.

use vstd::prelude::*;

verus! {

/// The specification-level value of a [`Variant`].
pub ghost struct VariantModel {
    /// The canonical full identifier.
    pub full: Seq<char>,
    /// The platform facet.
    pub platform: Seq<char>,
    /// The family facet.
    pub family: Seq<char>,
    /// The optional flavor facet.
    pub flavor: Option<Seq<char>>,
}

/// Identifies an OS build target by platform, family and optional flavor,
/// together with its canonical full identifier string.
pub struct Variant {
    /// The canonical full identifier string.
    pub full: String,
    /// The platform facet.
    pub platform: String,
    /// The family facet.
    pub family: String,
    /// The optional flavor facet.
    pub flavor: Option<String>,
}

impl DeepView for Variant {
    type V = VariantModel;

    open spec fn deep_view(&self) -> VariantModel {
        VariantModel {
            full: self.full@,
            platform: self.platform@,
            family: self.family@,
            flavor: match self.flavor {
                Some(f) => Some(f@),
                None => None,
            },
        }
    }
}

impl Variant {
    /// Assemble a variant from its facets and canonical identifier.
    pub fn new(full: String, platform: String, family: String, flavor: Option<String>) -> (r:
        Variant)
        ensures
            r.deep_view() == (VariantModel {
                full: full@,
                platform: platform@,
                family: family@,
                flavor: flavor.deep_view(),
            }),
    {
        Variant { full, platform, family, flavor }
    }

    /// The canonical full identifier, e.g. the exact string the variant was
    /// declared under.
    pub fn full_id(&self) -> (r: &String)
        ensures
            r@ == self.deep_view().full,
    {
        &self.full
    }

    /// The platform facet.
    pub fn platform(&self) -> (r: &String)
        ensures
            r@ == self.deep_view().platform,
    {
        &self.platform
    }

    /// The family facet.
    pub fn family(&self) -> (r: &String)
        ensures
            r@ == self.deep_view().family,
    {
        &self.family
    }

    /// The flavor facet, when the variant has one.
    pub fn variant_flavor(&self) -> (r: &Option<String>)
        ensures
            r.deep_view() == self.deep_view().flavor,
    {
        &self.flavor
    }
}

} // verus!
