//! Template rendering for cluster names and custom descriptor manifests.

use vstd::prelude::*;

use crate::error::Error;
use crate::labels::Labels;

verus! {

/// What handlebars rendering returns for a template and a field dictionary,
/// when it succeeds. Rendering is a pure function of the template text and
/// the field pairs, so the result only gets a name here.
pub uninterp spec fn render_of(template: Seq<char>, fields: Seq<(Seq<char>, Seq<char>)>) -> Seq<
    char,
>;

/// What strict-mode handlebars rendering returns for a template and a field
/// dictionary, when it succeeds. Strict mode rejects templates that name
/// missing fields, so its successful results get a name of their own.
pub uninterp spec fn strict_render_of(
    template: Seq<char>,
    fields: Seq<(Seq<char>, Seq<char>)>,
) -> Seq<char>;

/// Relies on handlebars::Handlebars::render_template: rendering is
/// deterministic in the template text and the field values, and any
/// template or render failure is reported as an error.
#[verifier::external_body]
fn hbs_render(template: &str, fields: &Labels) -> (r: Result<String, String>)
    ensures
        r matches Ok(s) ==> s@ == render_of(template@, fields.deep_view()),
{
    let data: std::collections::BTreeMap<String, String> = fields.pairs.iter().map(
        |p| (p.key.clone(), p.value.clone()),
    ).collect();
    handlebars::Handlebars::new().render_template(template, &data).map_err(
        |e| format!("{}", e),
    )
}

/// Relies on handlebars::Handlebars::render_template with strict mode
/// enabled: rendering is deterministic in the template text and the field
/// values, and a template naming a missing field is an error.
#[verifier::external_body]
fn hbs_render_strict(template: &str, fields: &Labels) -> (r: Result<String, String>)
    ensures
        r matches Ok(s) ==> s@ == strict_render_of(template@, fields.deep_view()),
{
    let data: std::collections::BTreeMap<String, String> = fields.pairs.iter().map(
        |p| (p.key.clone(), p.value.clone()),
    ).collect();
    let mut handlebars = handlebars::Handlebars::new();
    handlebars.set_strict_mode(true);
    handlebars.render_template(template, &data).map_err(|e| format!("{}", e))
}

/// The field dictionary a cluster-name template is rendered with.
pub open spec fn cluster_name_fields(arch: Seq<char>, variant: Seq<char>) -> Seq<
    (Seq<char>, Seq<char>),
> {
    seq![("arch"@, arch), ("variant"@, variant)]
}

/// Fill in the templated cluster name with `arch` and `variant`.
pub fn rendered_cluster_name(cluster_name: String, arch: &str, variant: &str) -> (r: Result<
    String,
    Error,
>)
    ensures
        r matches Ok(s) ==> s@ == render_of(cluster_name@, cluster_name_fields(arch@, variant@)),
        r matches Err(e) ==> e matches Error::Render { .. },
{
    let mut fields = Labels::new();
    fields.insert(String::from_str("arch"), arch.to_owned());
    fields.insert(String::from_str("variant"), variant.to_owned());
    proof {
        reveal_strlit("arch");
        reveal_strlit("variant");
        assert("arch"@.len() != "variant"@.len());
        let e = Seq::<(Seq<char>, Seq<char>)>::empty();
        let s1 = crate::labels::label_set(e, "arch"@, arch@);
        assert(s1 =~= seq![("arch"@, arch@)]);
        assert(s1[0].0 != "variant"@);
        assert(s1.drop_first() =~= e);
        assert(s1.drop_first() == e);
        assert(crate::labels::label_set(e, "variant"@, variant@) =~= seq![("variant"@, variant@)]);
        assert(crate::labels::label_set(s1, "variant"@, variant@) =~= seq![s1[0]] + seq![
            ("variant"@, variant@),
        ]);
        assert(fields.deep_view() =~= cluster_name_fields(arch@, variant@));
    }
    match hbs_render(cluster_name.as_str(), &fields) {
        Ok(s) => Ok(s),
        Err(what) => Err(Error::Render { what }),
    }
}

/// Render a custom descriptor template under strict mode with the supplied
/// field dictionary.
pub fn rendered_manifest(template: &str, fields: &Labels) -> (r: Result<String, Error>)
    ensures
        r matches Ok(s) ==> s@ == strict_render_of(template@, fields.deep_view()),
        r matches Err(e) ==> e matches Error::Render { .. },
{
    match hbs_render_strict(template, fields) {
        Ok(s) => Ok(s),
        Err(what) => Err(Error::Render { what }),
    }
}

} // verus!
